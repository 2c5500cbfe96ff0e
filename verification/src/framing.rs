//! Framing of the JSON messages that clients send: the first complete JSON
//! object is cut out of the bytes received so far.
use vstd::prelude::*;
use vstd::std_specs::iter::IteratorSpec;

verus! {

/// The number of `{` minus the number of `}` in `s`.
pub open spec fn brace_depth(s: Seq<char>) -> int
    decreases s.len(),
{
    if s.len() == 0 {
        0
    } else {
        brace_depth(s.drop_last()) + if s.last() == '{' {
            1int
        } else if s.last() == '}' {
            -1int
        } else {
            0int
        }
    }
}

/// `n` is the length of the message that `s` starts with: the shortest
/// non-empty prefix of `s` whose braces balance, or all of `s` if no
/// non-empty prefix balances.
pub open spec fn is_message_len(s: Seq<char>, n: int) -> bool {
    &&& 0 <= n <= s.len()
    &&& s.len() > 0 ==> n >= 1
    &&& forall|m: int| 1 <= m < n ==> brace_depth(#[trigger] s.take(m)) != 0
    &&& n == s.len() || brace_depth(s.take(n)) == 0
}

/// Cuts the message that `data` starts with: characters are taken up to and
/// including the first one after which the braces taken so far balance. A
/// character other than `{` at the start is therefore a message of its own.
pub fn trim_json_message(data: &str) -> (trimmed: Vec<char>)
    ensures
        trimmed@ == data@.take(trimmed@.len() as int),
        is_message_len(data@, trimmed@.len() as int),
{
    broadcast use vstd::string::axiom_spec_iter, vstd::string::next_postcondition;

    // the depth is `opens - closes`; counting both keeps the counts within
    // the number of characters taken
    let mut opens: usize = 0;
    let mut closes: usize = 0;
    let mut trimmed: Vec<char> = Vec::new();
    let mut it = data.chars();
    loop
        invariant_except_break
            forall|m: int| 1 <= m <= trimmed@.len() ==> brace_depth(#[trigger] data@.take(m)) != 0,
        invariant
            trimmed@.len() <= data@.len(),
            trimmed@ == data@.take(trimmed@.len() as int),
            it.remaining() == data@.skip(trimmed@.len() as int),
            it.obeys_prophetic_iter_laws(),
            opens - closes == brace_depth(trimmed@),
            opens + closes <= trimmed@.len(),
        ensures
            trimmed@ == data@.take(trimmed@.len() as int),
            is_message_len(data@, trimmed@.len() as int),
        decreases data@.len() - trimmed@.len(),
    {
        let ghost before = trimmed@;
        match it.next() {
            Some(c) => {
                assert(data@.skip(before.len() as int)[0] == c);
                trimmed.push(c);
                let taken = trimmed.len();
                assert(opens + closes < taken);
                if c == '{' {
                    opens = opens + 1;
                } else if c == '}' {
                    closes = closes + 1;
                }
                assert(trimmed@.drop_last() == before);
                assert(trimmed@ =~= data@.take(trimmed@.len() as int));
                assert(it.remaining() =~= data@.skip(trimmed@.len() as int));
                if opens == closes {
                    break;
                }
            },
            None => {
                assert(data@.skip(before.len() as int).len() == 0);
                assert(data@.take(data@.len() as int) =~= data@);
                break;
            },
        }
    }
    trimmed
}

/// The length of the message that a text starts with is determined by the
/// text: the contract of `trim_json_message` leaves it no choice.
pub proof fn lemma_message_len_unique(s: Seq<char>, n1: int, n2: int)
    requires
        is_message_len(s, n1),
        is_message_len(s, n2),
    ensures
        n1 == n2,
{
    if n1 < n2 {
        assert(brace_depth(s.take(n1)) != 0);
    } else if n2 < n1 {
        assert(brace_depth(s.take(n2)) != 0);
    }
}

/// A text that starts with a complete object, `{` up to its matching `}`,
/// is trimmed to that object, whatever follows it.
pub proof fn lemma_complete_object_is_kept(m: Seq<char>, rest: Seq<char>)
    requires
        m.len() >= 1,
        brace_depth(m) == 0,
        forall|k: int| 1 <= k < m.len() ==> brace_depth(#[trigger] m.take(k)) != 0,
    ensures
        is_message_len(m + rest, m.len() as int),
{
    let s = m + rest;
    assert(s.take(m.len() as int) =~= m);
    assert forall|k: int| 1 <= k < m.len() implies brace_depth(#[trigger] s.take(k)) != 0 by {
        assert(s.take(k) =~= m.take(k));
    }
}

} // verus!
