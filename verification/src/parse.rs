//! Verified text utilities: string equality over character views and
//! radix-based unsigned parsing, as used by breakpoint-specification
//! resolution (`*<hex>` addresses and decimal line numbers).

use vstd::prelude::*;

verus! {

/// Compares two strings character by character.
pub fn str_eq(a: &str, b: &str) -> (r: bool)
    ensures
        r == (a@ == b@),
{
    let la = a.unicode_len();
    let lb = b.unicode_len();
    if la != lb {
        return false;
    }
    let mut i: usize = 0;
    while i < la
        invariant
            i <= la,
            forall|j: int| 0 <= j < i ==> a@[j] == b@[j],
        decreases la - i,
    {
        if a.get_char(i) != b.get_char(i) {
            return false;
        }
        i = i + 1;
    }
    proof {
        assert(a@ =~= b@);
    }
    true
}

/// The numeric value of `c` as a digit in base `radix`, if it is one.
/// Digits are `0-9`, `a-z` and `A-Z`, with value below the radix.
pub open spec fn spec_digit_val(c: char, radix: u32) -> Option<u32> {
    let v: int = if '0' <= c && c <= '9' {
        c as u32 - '0' as u32
    } else if 'a' <= c && c <= 'z' {
        c as u32 - 'a' as u32 + 10
    } else if 'A' <= c && c <= 'Z' {
        c as u32 - 'A' as u32 + 10
    } else {
        36
    };
    if v < radix {
        Some(v as u32)
    } else {
        None
    }
}

/// Whether every character of `s` is a digit in base `radix`.
pub open spec fn spec_all_digits(s: Seq<char>, radix: u32) -> bool {
    forall|i: int| 0 <= i < s.len() ==> spec_digit_val(s[i], radix) is Some
}

/// The value of a string of digits in base `radix`, most significant first.
pub open spec fn spec_digits_val(s: Seq<char>, radix: u32) -> nat
    decreases s.len(),
{
    if s.len() == 0 {
        0
    } else {
        (spec_digits_val(s.drop_last(), radix) * radix + spec_digit_val(s.last(), radix)->Some_0) as nat
    }
}

/// What parsing `s` as an unsigned number in base `radix` yields: an optional
/// leading `+`, then one or more digits, rejected when the value does not fit
/// in `usize` — the behaviour of `usize::from_str_radix`.
pub open spec fn spec_parse_usize(s: Seq<char>, radix: u32) -> Option<usize> {
    let body = if s.len() > 0 && s[0] == '+' {
        s.drop_first()
    } else {
        s
    };
    if body.len() == 0 || !spec_all_digits(body, radix) {
        None
    } else if spec_digits_val(body, radix) > usize::MAX {
        None
    } else {
        Some(spec_digits_val(body, radix) as usize)
    }
}

/// A digit string's value only grows as more digits are appended.
proof fn lemma_digits_val_take_le(s: Seq<char>, radix: u32, i: int)
    requires
        radix >= 2,
        0 <= i <= s.len(),
    ensures
        spec_digits_val(s.take(i), radix) <= spec_digits_val(s, radix),
    decreases s.len() - i,
{
    if i == s.len() {
        assert(s.take(i) =~= s);
    } else {
        lemma_digits_val_take_le(s, radix, i + 1);
        let t = s.take(i + 1);
        assert(t.drop_last() =~= s.take(i));
        let prev = spec_digits_val(s.take(i), radix);
        let d = spec_digit_val(t.last(), radix)->Some_0;
        assert(prev * radix >= prev) by (nonlinear_arith)
            requires
                radix >= 2,
                prev >= 0,
        ;
        assert(spec_digits_val(s.take(i), radix) <= spec_digits_val(s.take(i + 1), radix));
    }
}

/// The executable digit test matching `spec_digit_val`.
fn digit_val(c: char, radix: u32) -> (r: Option<u32>)
    ensures
        r == spec_digit_val(c, radix),
{
    let code = c as u32;
    let v: u32 = if c >= '0' && c <= '9' {
        code - '0' as u32
    } else if c >= 'a' && c <= 'z' {
        code - 'a' as u32 + 10
    } else if c >= 'A' && c <= 'Z' {
        code - 'A' as u32 + 10
    } else {
        36
    };
    if v < radix {
        Some(v)
    } else {
        None
    }
}

/// Parses `s` as an unsigned number in base `radix`, exactly as
/// `usize::from_str_radix` accepts it: an optional leading `+` followed by at
/// least one digit, `None` on any other character or on overflow.
pub fn parse_usize_in_radix(s: &str, radix: u32) -> (r: Option<usize>)
    requires
        2 <= radix <= 36,
    ensures
        r == spec_parse_usize(s@, radix),
{
    let len = s.unicode_len();
    let start: usize = if len > 0 && s.get_char(0) == '+' {
        1
    } else {
        0
    };
    let ghost body = if s@.len() > 0 && s@[0] == '+' {
        s@.drop_first()
    } else {
        s@
    };
    proof {
        assert(body =~= s@.subrange(start as int, len as int));
    }
    if start >= len {
        return None;
    }
    let mut acc: usize = 0;
    let mut i: usize = start;
    while i < len
        invariant
            start <= i <= len,
            start < len,
            radix <= 36,
            2 <= radix,
            len == s@.len(),
            body == s@.subrange(start as int, len as int),
            spec_all_digits(s@.subrange(start as int, i as int), radix),
            acc == spec_digits_val(s@.subrange(start as int, i as int), radix),
        decreases len - i,
    {
        let c = s.get_char(i);
        match digit_val(c, radix) {
            None => {
                assert(spec_digit_val(body[i - start], radix) is None);
                return None;
            },
            Some(d) => {
                let ghost prefix = s@.subrange(start as int, i as int);
                let ghost next_prefix = s@.subrange(start as int, i as int + 1);
                proof {
                    assert(next_prefix.drop_last() =~= prefix);
                    assert(next_prefix.last() == s@[i as int]);
                }
                let wide = match acc.checked_mul(radix as usize) {
                    Some(w) => w.checked_add(d as usize),
                    None => None,
                };
                match wide {
                    None => {
                        proof {
                            assert(spec_digits_val(next_prefix, radix) > usize::MAX);
                            assert(next_prefix =~= body.take(i - start + 1));
                            lemma_digits_val_take_le(body, radix, i - start + 1);
                        }
                        return None;
                    },
                    Some(w) => {
                        acc = w;
                        i = i + 1;
                    },
                }
            },
        }
    }
    proof {
        assert(s@.subrange(start as int, len as int) =~= body);
    }
    Some(acc)
}

} // verus!
