use vstd::prelude::*;

use crate::command::{CommandView, Error};
use crate::decode::{
    decode, ends_with_newline, first_space, is_first_space, lemma_first_space_unique, no_newline,
    publish_verb,
};
use crate::text::trim;

verus! {

/// `PUBLISH`, a space, then `tail`.
pub open spec fn publish_line(tail: Seq<char>) -> Seq<char> {
    publish_verb() + seq![' '] + tail
}

/// A line that starts with `PUBLISH ` splits after the verb, and the verb
/// survives trimming.
proof fn lemma_publish_prefix(tail: Seq<char>)
    ensures
        first_space(publish_line(tail)) == 7,
        publish_line(tail).take(7) == publish_verb(),
        publish_line(tail).skip(8) == tail,
        trim(publish_verb()) == publish_verb(),
{
    let s = publish_line(tail);
    assert(is_first_space(s, 7));
    lemma_first_space_unique(s, 7);
    assert(s.take(7) =~= publish_verb());
    assert(s.skip(8) =~= tail);
}

/// Round trip: a message without newlines, written as `PUBLISH <message>\n`,
/// decodes to that very message.
pub proof fn lemma_round_trip(message: Seq<char>)
    requires
        no_newline(message),
    ensures
        decode(publish_line(message + seq!['\n'])) == Ok::<CommandView, Error>(
            CommandView::Publish(message),
        ),
{
    let rest = message + seq!['\n'];
    let s = publish_line(rest);
    lemma_publish_prefix(rest);
    assert(rest.drop_last() =~= message);
    assert(s.drop_last() =~= publish_verb() + seq![' '] + message);
    assert(no_newline(s.drop_last()));
}

/// A `PUBLISH ` line whose tail does not end in a newline is rejected with
/// `UnexpectedPayload`, whatever the tail holds.
pub proof fn lemma_missing_terminator(tail: Seq<char>)
    requires
        !ends_with_newline(tail),
    ensures
        decode(publish_line(tail)) == Err::<CommandView, Error>(Error::UnexpectedPayload),
{
    lemma_publish_prefix(tail);
}

} // verus!
