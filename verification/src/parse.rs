//! Parsing a line of text as the player's numeric answer: ASCII
//! whitespace is trimmed, an optional leading plus sign is accepted, and
//! the remaining decimal digits must denote a value that fits in `u32`.

use vstd::prelude::*;

verus! {

/// An ASCII decimal digit.
pub open spec fn is_ascii_digit(b: u8) -> bool {
    48 <= b <= 57
}

/// ASCII whitespace: space, tab, line feed, vertical tab, form feed,
/// carriage return.
pub open spec fn is_ascii_space(b: u8) -> bool {
    b == 32 || b == 9 || b == 10 || b == 11 || b == 12 || b == 13
}

/// The value denoted by a sequence of decimal digits, most significant
/// first.
pub open spec fn digits_value(s: Seq<u8>) -> int
    decreases s.len(),
{
    if s.len() == 0 {
        0
    } else {
        digits_value(s.drop_last()) * 10 + (s.last() - 48)
    }
}

/// Every byte is a decimal digit.
pub open spec fn all_digits(s: Seq<u8>) -> bool {
    forall|i: int| 0 <= i < s.len() ==> is_ascii_digit(#[trigger] s[i])
}

/// Drop one leading plus sign, if present.
pub open spec fn strip_sign(s: Seq<u8>) -> Seq<u8> {
    if s.len() > 0 && s[0] == 43 {
        s.drop_first()
    } else {
        s
    }
}

/// Drop leading ASCII whitespace.
pub open spec fn trim_front(s: Seq<u8>) -> Seq<u8>
    decreases s.len(),
{
    if s.len() > 0 && is_ascii_space(s[0]) {
        trim_front(s.drop_first())
    } else {
        s
    }
}

/// Drop trailing ASCII whitespace.
pub open spec fn trim_back(s: Seq<u8>) -> Seq<u8>
    decreases s.len(),
{
    if s.len() > 0 && is_ascii_space(s.last()) {
        trim_back(s.drop_last())
    } else {
        s
    }
}

/// The line with surrounding ASCII whitespace removed.
pub open spec fn trimmed(s: Seq<u8>) -> Seq<u8> {
    trim_back(trim_front(s))
}

/// The line denotes a `u32`: after trimming and an optional plus sign, a
/// non-empty run of digits whose value fits.
pub open spec fn parses_to_u32(s: Seq<u8>) -> bool {
    let d = strip_sign(trimmed(s));
    d.len() > 0 && all_digits(d) && digits_value(d) <= u32::MAX
}

/// The value the line denotes.
pub open spec fn parsed_u32(s: Seq<u8>) -> int {
    digits_value(strip_sign(trimmed(s)))
}

/// Trimming the front skips exactly the leading run of whitespace.
proof fn lemma_trim_front_skip(s: Seq<u8>, j: int)
    requires
        0 <= j <= s.len(),
        forall|i: int| 0 <= i < j ==> is_ascii_space(#[trigger] s[i]),
        j == s.len() || !is_ascii_space(s[j]),
    ensures
        trim_front(s) == s.skip(j),
    decreases j,
{
    if j == 0 {
        assert(s.skip(0) =~= s);
    } else {
        assert(s.drop_first() =~= s.skip(1));
        lemma_trim_front_skip(s.skip(1), j - 1);
        assert(s.skip(1).skip(j - 1) =~= s.skip(j));
    }
}

/// Trimming the back keeps exactly the prefix before the trailing run of
/// whitespace.
proof fn lemma_trim_back_take(s: Seq<u8>, j: int)
    requires
        0 <= j <= s.len(),
        forall|i: int| j <= i < s.len() ==> is_ascii_space(#[trigger] s[i]),
        j == 0 || !is_ascii_space(s[j - 1]),
    ensures
        trim_back(s) == s.take(j),
    decreases s.len(),
{
    if s.len() == j {
        assert(s.take(j) =~= s);
    } else {
        assert(s.drop_last() =~= s.take(s.len() - 1));
        lemma_trim_back_take(s.take(s.len() - 1), j);
        assert(s.take(s.len() - 1).take(j) =~= s.take(j));
    }
}

/// A digit string's value is not negative.
proof fn lemma_digits_nonneg(s: Seq<u8>)
    requires
        all_digits(s),
    ensures
        digits_value(s) >= 0,
    decreases s.len(),
{
    if s.len() > 0 {
        assert(all_digits(s.drop_last()));
        lemma_digits_nonneg(s.drop_last());
        assert(digits_value(s.drop_last()) * 10 >= 0) by (nonlinear_arith)
            requires
                digits_value(s.drop_last()) >= 0,
        ;
    }
}

/// Appending digits can only grow the value.
proof fn lemma_digits_prefix_le(s: Seq<u8>, j: int)
    requires
        all_digits(s),
        0 <= j <= s.len(),
    ensures
        digits_value(s.take(j)) <= digits_value(s),
    decreases s.len(),
{
    if j == s.len() {
        assert(s.take(j) =~= s);
    } else {
        let shorter = s.drop_last();
        assert(shorter =~= s.take(s.len() - 1));
        assert(all_digits(shorter));
        lemma_digits_prefix_le(shorter, j);
        assert(shorter.take(j) =~= s.take(j));
        lemma_digits_nonneg(shorter);
        assert(digits_value(shorter) * 10 >= digits_value(shorter)) by (nonlinear_arith)
            requires
                digits_value(shorter) >= 0,
        ;
    }
}

/// Whether a byte is ASCII whitespace.
fn is_space_byte(b: u8) -> (r: bool)
    ensures
        r == is_ascii_space(b),
{
    b == 32 || b == 9 || b == 10 || b == 11 || b == 12 || b == 13
}

/// Parse the player's line as a `u32` answer, as `parses_to_u32`
/// describes: `None` exactly when the trimmed line is not a fitting run
/// of digits after an optional plus sign.
#[verifier::loop_isolation(false)]
pub fn parse_answer(input: &Vec<u8>) -> (r: Option<u32>)
    ensures
        match r {
            Some(v) => parses_to_u32(input@) && v as int == parsed_u32(input@),
            None => !parses_to_u32(input@),
        },
{
    let n: usize = input.len();
    let mut lo: usize = 0;
    while lo < n && is_space_byte(input[lo])
        invariant
            lo <= n,
            forall|i: int| 0 <= i < lo ==> is_ascii_space(#[trigger] input@[i]),
        decreases n - lo,
    {
        lo += 1;
    }
    let mut hi: usize = n;
    while hi > lo && is_space_byte(input[hi - 1])
        invariant
            lo <= hi <= n,
            forall|i: int| hi <= i < n ==> is_ascii_space(#[trigger] input@[i]),
        decreases hi,
    {
        hi -= 1;
    }
    let ghost t = input@.subrange(lo as int, hi as int);
    proof {
        lemma_trim_front_skip(input@, lo as int);
        lemma_trim_back_take(input@.skip(lo as int), hi as int - lo as int);
        assert(input@.skip(lo as int).take(hi as int - lo as int) =~= t);
        assert(trimmed(input@) == t);
    }
    let start: usize = if hi > lo && input[lo] == 43 {
        lo + 1
    } else {
        lo
    };
    let ghost d = input@.subrange(start as int, hi as int);
    proof {
        if t.len() > 0 && t[0] == 43 {
            assert(t.drop_first() =~= d);
        } else {
            assert(t =~= d);
        }
        assert(strip_sign(t) == d);
    }
    if start == hi {
        return None;
    }
    let mut v: u32 = 0;
    let mut i: usize = start;
    while i < hi
        invariant
            start <= i <= hi,
            all_digits(d.take(i - start)),
            v as int == digits_value(d.take(i - start)),
        decreases hi - i,
    {
        let b: u8 = input[i];
        proof {
            assert(d[i - start] == b);
        }
        if b < 48 || b > 57 {
            return None;
        }
        let w: u64 = (v as u64) * 10 + ((b - 48) as u64);
        proof {
            let k = i - start;
            assert(d.take(k + 1).drop_last() =~= d.take(k as int));
            assert(d.take(k + 1).last() == b);
        }
        if w > 0xFFFF_FFFF {
            proof {
                if all_digits(d) {
                    lemma_digits_prefix_le(d, i - start + 1);
                }
            }
            return None;
        }
        v = w as u32;
        i += 1;
    }
    proof {
        assert(d.take(hi - start) =~= d);
    }
    Some(v)
}

} // verus!
