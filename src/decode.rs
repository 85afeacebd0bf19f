use vstd::prelude::*;

use crate::command::{result_view, Command, CommandView, Error};
use crate::text::{trim, trimmed_bounds};

verus! {

/// The verb that stores a message.
pub open spec fn publish_verb() -> Seq<char> {
    seq!['P', 'U', 'B', 'L', 'I', 'S', 'H']
}

/// The verb that fetches a message.
pub open spec fn retrieve_verb() -> Seq<char> {
    seq!['R', 'E', 'T', 'R', 'I', 'E', 'V', 'E']
}

/// Whether `s` ends in a newline.
pub open spec fn ends_with_newline(s: Seq<char>) -> bool {
    s.len() > 0 && s.last() == '\n'
}

/// Whether `s` holds no newline.
pub open spec fn no_newline(s: Seq<char>) -> bool {
    forall|i: int| 0 <= i < s.len() ==> s[i] != '\n'
}

/// Whether `s` is one complete line: a final newline and no other.
pub open spec fn is_one_line(s: Seq<char>) -> bool {
    ends_with_newline(s) && no_newline(s.drop_last())
}

/// Whether `k` is the position of the first space in `s`.
pub open spec fn is_first_space(s: Seq<char>, k: int) -> bool {
    0 <= k < s.len() && s[k] == ' ' && forall|j: int| 0 <= j < k ==> s[j] != ' '
}

/// The position of the first space in `s`, or its length where it has none.
pub open spec fn first_space(s: Seq<char>) -> int {
    if exists|k: int| is_first_space(s, k) {
        choose|k: int| is_first_space(s, k)
    } else {
        s.len() as int
    }
}

/// The verb token: everything before the first space.
pub open spec fn verb_token(s: Seq<char>) -> Seq<char> {
    s.take(first_space(s))
}

/// What follows the first space, if there is one.
pub open spec fn remainder(s: Seq<char>) -> Option<Seq<char>> {
    if first_space(s) < s.len() {
        Some(s.skip(first_space(s) + 1))
    } else {
        None
    }
}

/// The meaning of a line.
///
/// The line splits at its first space into a verb token and a remainder.
/// The verb is the token without surrounding white space; none at all gives
/// `EmptyMessage`. `PUBLISH` needs a remainder (else `MissingPayload`); the
/// remainder without its final newline is the message, and the line must be
/// one complete line (else `UnexpectedPayload`). `RETRIEVE` takes no
/// remainder (else `UnexpectedPayload`) and must end in a newline (else
/// `IncompleteMessage`) that is its only one (else `UnexpectedPayload`).
/// Any other verb gives `UnknownVerb`.
pub open spec fn decode(s: Seq<char>) -> Result<CommandView, Error> {
    let verb = trim(verb_token(s));
    if verb.len() == 0 {
        Err(Error::EmptyMessage)
    } else if verb == publish_verb() {
        match remainder(s) {
            None => Err(Error::MissingPayload),
            Some(rest) => if ends_with_newline(rest) && is_one_line(s) {
                Ok(CommandView::Publish(rest.drop_last()))
            } else {
                Err(Error::UnexpectedPayload)
            },
        }
    } else if verb == retrieve_verb() {
        if remainder(s) is Some {
            Err(Error::UnexpectedPayload)
        } else if !ends_with_newline(s) {
            Err(Error::IncompleteMessage)
        } else if is_one_line(s) {
            Ok(CommandView::Retrieve)
        } else {
            Err(Error::UnexpectedPayload)
        }
    } else {
        Err(Error::UnknownVerb)
    }
}

/// Whether `message` ends in a newline; false for an empty message.
pub fn check_for_newline(message: &str) -> (r: bool)
    ensures
        r == ends_with_newline(message@),
{
    let n = message.unicode_len();
    n > 0 && message.get_char(n - 1) == '\n'
}

/// There is at most one first space.
pub proof fn lemma_first_space_unique(s: Seq<char>, k: int)
    requires
        is_first_space(s, k),
    ensures
        first_space(s) == k,
{
    let c = choose|c: int| is_first_space(s, c);
    assert(is_first_space(s, c));
    if c < k {
        assert(s[c] != ' ');
    } else if k < c {
        assert(s[k] != ' ');
    }
}

/// The characters of `input`, in order.
fn chars_of(input: &str) -> (r: Vec<char>)
    ensures
        r@ == input@,
{
    let mut out: Vec<char> = Vec::new();
    for c in it: input.chars()
        invariant
            out@ == it.seq().take(it.index() as int),
    {
        out.push(c);
    }
    out
}

/// Whether `w` is exactly `chars[lo..hi]`.
fn span_is(chars: &Vec<char>, lo: usize, hi: usize, w: &str) -> (r: bool)
    requires
        lo <= hi <= chars@.len(),
    ensures
        r == (chars@.subrange(lo as int, hi as int) == w@),
{
    let n = w.unicode_len();
    if hi - lo != n {
        return false;
    }
    let mut i: usize = 0;
    while i < n
        invariant
            0 <= i <= n,
            hi - lo == n == w@.len(),
            lo <= hi <= chars@.len(),
            forall|j: int| 0 <= j < i ==> chars@[lo + j] == w@[j],
        decreases n - i,
    {
        if chars[lo + i] != w.get_char(i) {
            assert(chars@.subrange(lo as int, hi as int)[i as int] != w@[i as int]);
            return false;
        }
        i = i + 1;
    }
    assert(chars@.subrange(lo as int, hi as int) =~= w@);
    true
}

/// The position of the first space in `chars`, or its length where it has none.
fn find_space(chars: &Vec<char>) -> (r: usize)
    ensures
        r == first_space(chars@),
{
    let mut i: usize = 0;
    while i < chars.len()
        invariant
            0 <= i <= chars@.len(),
            forall|j: int| 0 <= j < i ==> chars@[j] != ' ',
        decreases chars@.len() - i,
    {
        if chars[i] == ' ' {
            proof {
                lemma_first_space_unique(chars@, i as int);
            }
            return i;
        }
        i = i + 1;
    }
    assert(!exists|k: int| is_first_space(chars@, k));
    i
}

/// Whether `chars` is one complete line: a final newline and no other.
fn one_line(chars: &Vec<char>) -> (r: bool)
    ensures
        r == is_one_line(chars@),
{
    let n = chars.len();
    if n == 0 || chars[n - 1] != '\n' {
        return false;
    }
    let mut i: usize = 0;
    while i < n - 1
        invariant
            0 <= i <= n - 1,
            n == chars@.len(),
            forall|j: int| 0 <= j < i ==> chars@[j] != '\n',
        decreases n - 1 - i,
    {
        if chars[i] == '\n' {
            assert(chars@.drop_last()[i as int] == '\n');
            return false;
        }
        i = i + 1;
    }
    true
}

/// Decodes one line of the protocol into a command, or the reason it is
/// rejected. Total: every line gets exactly one of the two.
pub fn parse(input: &str) -> (r: Result<Command, Error>)
    ensures
        result_view(r) == decode(input@),
{
    let chars = chars_of(input);
    let n = chars.len();
    let k = find_space(&chars);
    let (a, b) = trimmed_bounds(&chars, 0, k);
    proof {
        assert(chars@.subrange(0, k as int) =~= verb_token(input@));
        reveal_strlit("PUBLISH");
        reveal_strlit("RETRIEVE");
        assert("PUBLISH"@ =~= publish_verb());
        assert("RETRIEVE"@ =~= retrieve_verb());
    }
    if a == b {
        Err(Error::EmptyMessage)
    } else if span_is(&chars, a, b, "PUBLISH") {
        if k == n {
            return Err(Error::MissingPayload);
        }
        let rest = input.substring_char(k + 1, n);
        proof {
            assert(rest@ =~= remainder(input@)->0);
        }
        if check_for_newline(rest) && one_line(&chars) {
            let message = rest.substring_char(0, n - k - 2);
            proof {
                assert(message@ =~= rest@.drop_last());
            }
            Ok(Command::Publish(String::from_str(message)))
        } else {
            Err(Error::UnexpectedPayload)
        }
    } else if span_is(&chars, a, b, "RETRIEVE") {
        if k < n {
            Err(Error::UnexpectedPayload)
        } else if n == 0 || chars[n - 1] != '\n' {
            Err(Error::IncompleteMessage)
        } else if one_line(&chars) {
            Ok(Command::Retrieve)
        } else {
            Err(Error::UnexpectedPayload)
        }
    } else {
        Err(Error::UnknownVerb)
    }
}

} // verus!
