//! Verified text transformations.
//!
//! Each operation produces a fresh string value, so that a snapshot
//! taken before and after it yields an interesting comparison; every
//! result is returned together with an elapsed-time measurement.

use std::borrow::Cow;
use vstd::prelude::*;
use vstd::string::{StrSliceExecFns, StringExecFns};

use crate::clock::{clock_now, elapsed_nanos};
use crate::encoding::byte_len;

verus! {

/// The result of a timed text operation: the produced value, the
/// elapsed wall-clock time and the name of the operation.
pub struct TimedResult<T> {
    /// The value the operation produced.
    pub value: T,
    /// How long the operation took, in nanoseconds.
    pub duration_nanos: u128,
    /// The name of the operation, for display.
    pub operation: String,
}

/// The interleaving of two character sequences: characters are taken
/// pairwise from the front of both sequences until one runs out, and
/// the remainder of the longer sequence follows unchanged.
pub open spec fn interleave_chars(a: Seq<char>, b: Seq<char>) -> Seq<char>
    decreases a.len() + b.len(),
{
    if a.len() == 0 {
        b
    } else if b.len() == 0 {
        a
    } else {
        seq![a[0], b[0]] + interleave_chars(a.drop_first(), b.drop_first())
    }
}

/// The given character sequence repeated `n` times.
pub open spec fn repeat_chars(s: Seq<char>, n: nat) -> Seq<char>
    decreases n,
{
    if n == 0 {
        Seq::empty()
    } else {
        repeat_chars(s, (n - 1) as nat) + s
    }
}

/// The Unicode uppercase mapping of a character sequence, named as
/// the result of `str::to_uppercase` (see `fold_uppercase`).
pub uninterp spec fn upper_chars(s: Seq<char>) -> Seq<char>;

/// Relies on `str::to_uppercase`: the uppercase equivalent of the
/// text under the full Unicode case mapping.  The result depends on
/// the characters alone, and an empty input stays empty.
#[verifier::external_body]
fn fold_uppercase(s: &str) -> (r: String)
    ensures
        r@ == upper_chars(s@),
        s@.len() == 0 ==> r@.len() == 0,
{
    s.to_uppercase()
}

/// Relies on `String::with_capacity`: a new empty string with at
/// least the requested number of bytes reserved in advance.
pub assume_specification[ String::with_capacity ](capacity: usize) -> (s: String)
    ensures
        s@ == Seq::<char>::empty(),
;

/// Relies on `String::push`: appends one character at the end of the
/// string.
pub assume_specification[ String::push ](s: &mut String, ch: char)
    ensures
        final(s)@ == old(s)@.push(ch),
;

/// Builds the ownership story: a literal is copied into an owned,
/// heap-backed string, and that string is cloned into a second,
/// independent one.  Both are returned and hold the same characters.
pub fn demonstrate_ownership() -> (r: Vec<String>)
    ensures
        r@.len() == 2,
        r@[0]@ == "Hello"@,
        r@[1]@ == "Hello"@,
{
    let literal: &'static str = "Hello";
    let owned: String = literal.to_owned();
    let cloned: String = owned.clone();
    let mut r: Vec<String> = Vec::new();
    r.push(owned);
    r.push(cloned);
    r
}

/// Builds the capacity story: a string created with five reserved
/// bytes is filled exactly to them and then pushed past them, which
/// forces the backing buffer to grow.
pub fn demonstrate_capacity() -> (r: String)
    ensures
        r@ == "Hello World"@,
{
    let mut s = String::with_capacity(5);
    s.append("Hello");
    s.append(" World");
    proof {
        reveal_strlit("Hello");
        reveal_strlit(" World");
        reveal_strlit("Hello World");
        assert(s@ =~= "Hello World"@);
    }
    s
}

/// Builds the copy-on-write story: the input is wrapped without
/// allocation, and only a requested modification converts the
/// wrapper to an owned buffer carrying the marked text.
pub fn demonstrate_cow<'a>(input: &'a str, should_modify: bool) -> (r: Cow<'a, str>)
    ensures
        !should_modify ==> (r matches Cow::Borrowed(_)) && r@ == input@,
        should_modify ==> (r matches Cow::Owned(_)) && r@ == input@ + " [modified]"@,
{
    if should_modify {
        let mut owned: String = input.to_owned();
        owned.append(" [modified]");
        Cow::Owned(owned)
    } else {
        Cow::Borrowed(input)
    }
}

/// The computational core of the simulated asynchronous task: wraps
/// the input in square brackets.  The surrounding task plumbing
/// (spawning, sleeping, logging) is presentation-layer work and
/// lives outside the library.
pub fn bracket_wrap(input: &str) -> (r: String)
    ensures
        r@ == "["@ + input@ + "]"@,
{
    let mut out: String = "[".to_owned();
    out.append(input);
    out.append("]");
    out
}

/// Performs text transformations, counting how many operations have
/// run.
pub struct StringManipulator {
    /// How many transformations this value has performed.
    pub operations_count: usize,
}

impl StringManipulator {
    /// A fresh manipulator that has performed no operations yet.
    pub fn new() -> (r: Self)
        ensures
            r.operations_count == 0,
    {
        Self { operations_count: 0 }
    }

    /// Reverses the text character by character — not byte by byte,
    /// so multi-byte characters survive intact.
    pub fn reverse(&mut self, s: &str) -> (r: TimedResult<String>)
        requires
            old(self).operations_count < usize::MAX,
        ensures
            final(self).operations_count == old(self).operations_count + 1,
            r.value@ == s@.reverse(),
            r.operation@ == "reverse"@,
    {
        self.operations_count = self.operations_count + 1;
        let start = clock_now();
        let n = s.unicode_len();
        let mut out = String::new();
        let mut i: usize = 0;
        while i < n
            invariant
                n == s@.len(),
                0 <= i <= n,
                out@.len() == i,
                forall|k: int| 0 <= k < i ==> out@[k] == s@[n - 1 - k],
            decreases n - i,
        {
            let c = s.get_char(n - 1 - i);
            out.push(c);
            i = i + 1;
        }
        proof {
            assert(out@ =~= s@.reverse());
        }
        let duration = elapsed_nanos(&start);
        TimedResult { value: out, duration_nanos: duration, operation: "reverse".to_owned() }
    }

    /// Uppercases the text with the full Unicode case mapping, which
    /// may change the byte length.
    pub fn to_upper(&mut self, s: &str) -> (r: TimedResult<String>)
        requires
            old(self).operations_count < usize::MAX,
        ensures
            final(self).operations_count == old(self).operations_count + 1,
            r.value@ == upper_chars(s@),
            r.operation@ == "to_uppercase"@,
    {
        self.operations_count = self.operations_count + 1;
        let start = clock_now();
        let out = fold_uppercase(s);
        let duration = elapsed_nanos(&start);
        TimedResult { value: out, duration_nanos: duration, operation: "to_uppercase".to_owned() }
    }

    /// Repeats the text the given number of times, reserving the
    /// exact final capacity in advance so that no reallocation
    /// happens while building.
    pub fn repeat(&mut self, s: &str, count: usize) -> (r: TimedResult<String>)
        requires
            old(self).operations_count < usize::MAX,
            byte_len(s@) * count <= usize::MAX,
        ensures
            final(self).operations_count == old(self).operations_count + 1,
            r.value@ == repeat_chars(s@, count as nat),
            r.operation@ == "repeat"@,
    {
        self.operations_count = self.operations_count + 1;
        let start = clock_now();
        let mut out = String::with_capacity(s.len() * count);
        let mut k: usize = 0;
        while k < count
            invariant
                0 <= k <= count,
                out@ == repeat_chars(s@, k as nat),
            decreases count - k,
        {
            out.append(s);
            k = k + 1;
        }
        let duration = elapsed_nanos(&start);
        TimedResult { value: out, duration_nanos: duration, operation: "repeat".to_owned() }
    }

    /// Interleaves two texts character by character; once the shorter
    /// one runs out, the rest of the longer one follows unchanged.
    pub fn interleave(&mut self, s1: &str, s2: &str) -> (r: TimedResult<String>)
        requires
            old(self).operations_count < usize::MAX,
        ensures
            final(self).operations_count == old(self).operations_count + 1,
            r.value@ == interleave_chars(s1@, s2@),
            r.operation@ == "interleave"@,
    {
        self.operations_count = self.operations_count + 1;
        let start = clock_now();
        let n1 = s1.unicode_len();
        let n2 = s2.unicode_len();
        let m = if n1 < n2 {
            n1
        } else {
            n2
        };
        let mut out = String::new();
        let mut i: usize = 0;
        proof {
            assert(s1@.skip(0) =~= s1@);
            assert(s2@.skip(0) =~= s2@);
            assert(out@ + interleave_chars(s1@, s2@) =~= interleave_chars(s1@, s2@));
        }
        while i < m
            invariant
                n1 == s1@.len(),
                n2 == s2@.len(),
                m <= n1,
                m <= n2,
                0 <= i <= m,
                interleave_chars(s1@, s2@) == out@ + interleave_chars(
                    s1@.skip(i as int),
                    s2@.skip(i as int),
                ),
            decreases m - i,
        {
            let ghost a = s1@.skip(i as int);
            let ghost b = s2@.skip(i as int);
            let c1 = s1.get_char(i);
            let c2 = s2.get_char(i);
            proof {
                assert(a.len() > 0 && b.len() > 0);
                assert(a[0] == s1@[i as int] && b[0] == s2@[i as int]);
                assert(a.drop_first() =~= s1@.skip(i + 1));
                assert(b.drop_first() =~= s2@.skip(i + 1));
                assert(interleave_chars(a, b) == seq![c1, c2] + interleave_chars(
                    s1@.skip(i + 1),
                    s2@.skip(i + 1),
                ));
            }
            let ghost before = out@;
            out.push(c1);
            out.push(c2);
            proof {
                assert(out@ =~= before + seq![c1, c2]);
                assert(before + seq![c1, c2] + interleave_chars(s1@.skip(i + 1), s2@.skip(i + 1))
                    =~= before + interleave_chars(a, b));
            }
            i = i + 1;
        }
        if m < n1 {
            let tail = s1.substring_char(m, n1);
            proof {
                assert(s2@.skip(m as int).len() == 0);
                assert(interleave_chars(s1@.skip(m as int), s2@.skip(m as int)) == s1@.skip(
                    m as int,
                ));
                assert(tail@ =~= s1@.skip(m as int));
            }
            out.append(tail);
        } else if m < n2 {
            let tail = s2.substring_char(m, n2);
            proof {
                assert(s1@.skip(m as int).len() == 0);
                assert(interleave_chars(s1@.skip(m as int), s2@.skip(m as int)) == s2@.skip(
                    m as int,
                ));
                assert(tail@ =~= s2@.skip(m as int));
            }
            out.append(tail);
        } else {
            proof {
                assert(s1@.skip(m as int).len() == 0);
                assert(interleave_chars(s1@.skip(m as int), s2@.skip(m as int)) =~= Seq::<
                    char,
                >::empty());
                assert(out@ + Seq::<char>::empty() =~= out@);
            }
        }
        let duration = elapsed_nanos(&start);
        TimedResult { value: out, duration_nanos: duration, operation: "interleave".to_owned() }
    }
}

impl Default for StringManipulator {
    /// Same as `StringManipulator::new`.
    fn default() -> (r: Self)
        ensures
            r.operations_count == 0,
    {
        Self::new()
    }
}

} // verus!
