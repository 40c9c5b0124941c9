//! Reading the user's reply to the yes/no question.
//!
//! A reply is trimmed of surrounding white space and read without regard to
//! case. Nothing, or `y`, accepts; `n` declines; anything else is invalid.

use vstd::prelude::*;

verus! {

/// What a reply amounts to.
#[derive(Clone, Copy, Debug, PartialEq, Eq, Structural)]
pub enum Answer {
    Accept,
    Decline,
    Invalid,
}

/// The characters that Unicode gives the property White_Space.
pub open spec fn is_space(c: char) -> bool {
    let n = c as u32;
    ||| 0x09 <= n <= 0x0D
    ||| n == 0x20
    ||| n == 0x85
    ||| n == 0xA0
    ||| n == 0x1680
    ||| 0x2000 <= n <= 0x200A
    ||| n == 0x2028
    ||| n == 0x2029
    ||| n == 0x202F
    ||| n == 0x205F
    ||| n == 0x3000
}

/// `s` without its leading white space.
pub open spec fn trim_front(s: Seq<char>) -> Seq<char>
    decreases s.len(),
{
    if s.len() > 0 && is_space(s[0]) {
        trim_front(s.subrange(1, s.len() as int))
    } else {
        s
    }
}

/// `s` without its trailing white space.
pub open spec fn trim_back(s: Seq<char>) -> Seq<char>
    decreases s.len(),
{
    if s.len() > 0 && is_space(s[s.len() - 1]) {
        trim_back(s.subrange(0, s.len() - 1))
    } else {
        s
    }
}

/// `s` without the white space around it.
pub open spec fn trimmed(s: Seq<char>) -> Seq<char> {
    trim_back(trim_front(s))
}

/// `t` is the single letter `lower`, in either case. These are the only
/// strings whose lower-case form is that letter alone.
pub open spec fn is_letter(t: Seq<char>, lower: char, upper: char) -> bool {
    t.len() == 1 && (t[0] == lower || t[0] == upper)
}

/// The decision table for a reply.
pub open spec fn answer_of(reply: Seq<char>) -> Answer {
    let t = trimmed(reply);
    if t.len() == 0 || is_letter(t, 'y', 'Y') {
        Answer::Accept
    } else if is_letter(t, 'n', 'N') {
        Answer::Decline
    } else {
        Answer::Invalid
    }
}

/// Whether `c` is white space.
pub fn whitespace(c: char) -> (b: bool)
    ensures
        b == is_space(c),
{
    let n: u32 = c as u32;
    (0x09 <= n && n <= 0x0D) || n == 0x20 || n == 0x85 || n == 0xA0 || n == 0x1680 || (0x2000 <= n
        && n <= 0x200A) || n == 0x2028 || n == 0x2029 || n == 0x202F || n == 0x205F || n == 0x3000
}

/// Where everything before `lo` is white space and `lo` is the end or no
/// white space, trimming the front leaves what starts at `lo`.
proof fn lemma_trim_front(s: Seq<char>, lo: int)
    requires
        0 <= lo <= s.len(),
        forall|i: int| 0 <= i < lo ==> is_space(#[trigger] s[i]),
        lo < s.len() ==> !is_space(s[lo]),
    ensures
        trim_front(s) == s.subrange(lo, s.len() as int),
    decreases lo,
{
    if lo == 0 {
        assert(s.subrange(0, s.len() as int) =~= s);
    } else {
        let rest = s.subrange(1, s.len() as int);
        assert forall|i: int| 0 <= i < lo - 1 implies is_space(#[trigger] rest[i]) by {
            assert(rest[i] == s[i + 1]);
        }
        lemma_trim_front(rest, lo - 1);
        assert(rest.subrange(lo - 1, rest.len() as int) =~= s.subrange(lo, s.len() as int));
    }
}

/// Where everything from `hi` on is white space and what stands before `hi`
/// is none, trimming the back leaves what ends at `hi`.
proof fn lemma_trim_back(s: Seq<char>, hi: int)
    requires
        0 <= hi <= s.len(),
        forall|i: int| hi <= i < s.len() ==> is_space(#[trigger] s[i]),
        0 < hi ==> !is_space(s[hi - 1]),
    ensures
        trim_back(s) == s.subrange(0, hi),
    decreases s.len() - hi,
{
    if hi == s.len() {
        assert(s.subrange(0, hi) =~= s);
    } else {
        let rest = s.subrange(0, s.len() - 1);
        lemma_trim_back(rest, hi);
        assert(rest.subrange(0, hi) =~= s.subrange(0, hi));
    }
}

/// Reads a reply, which may still carry its line ending.
pub fn classify(reply: &str) -> (answer: Answer)
    ensures
        answer == answer_of(reply@),
{
    let mut found = false;
    let mut single = false;
    let mut first: char = ' ';
    let ghost mut lo: int = 0;
    let ghost mut hi: int = 0;
    for c in iter: reply.chars()
        invariant
            iter.seq() == reply@,
            !found ==> forall|i: int| 0 <= i < iter.index() ==> is_space(#[trigger] reply@[i]),
            found ==> {
                &&& 0 <= lo < hi <= iter.index()
                &&& forall|i: int| 0 <= i < lo ==> is_space(#[trigger] reply@[i])
                &&& forall|i: int| hi <= i < iter.index() ==> is_space(#[trigger] reply@[i])
                &&& !is_space(reply@[lo])
                &&& !is_space(reply@[hi - 1])
                &&& first == reply@[lo]
                &&& single == (hi == lo + 1)
            },
    {
        if !whitespace(c) {
            proof {
                if !found {
                    lo = iter.index() as int;
                }
                hi = iter.index() + 1;
            }
            single = !found;
            if !found {
                first = c;
            }
            found = true;
        }
    }
    proof {
        let s = reply@;
        if found {
            lemma_trim_front(s, lo);
            let front = s.subrange(lo, s.len() as int);
            assert forall|i: int| hi - lo <= i < front.len() implies is_space(
                #[trigger] front[i],
            ) by {
                assert(front[i] == s[i + lo]);
            }
            lemma_trim_back(front, hi - lo);
            assert(front.subrange(0, hi - lo) =~= s.subrange(lo, hi));
        } else {
            lemma_trim_front(s, s.len() as int);
            assert(s.subrange(s.len() as int, s.len() as int).len() == 0);
        }
    }
    if !found {
        Answer::Accept
    } else if single {
        if first == 'y' || first == 'Y' {
            Answer::Accept
        } else if first == 'n' || first == 'N' {
            Answer::Decline
        } else {
            Answer::Invalid
        }
    } else {
        Answer::Invalid
    }
}

} // verus!
