//! Small verified text helpers shared by the status parser, the command
//! builders and the argument serializer.

use vstd::prelude::*;

verus! {

/// Relies on std's `String::push`: appends exactly one character.
pub assume_specification[ String::push ](s: &mut String, c: char)
    ensures
        final(s)@ == old(s)@.push(c),
;

/// ASCII upper-casing of one character; anything outside `a..=z` is kept.
pub open spec fn upper_char(c: char) -> char {
    if 'a' <= c && c <= 'z' {
        (((c as u32) - 32) as u8) as char
    } else {
        c
    }
}

/// ASCII upper-casing of a character sequence.
pub open spec fn upper_chars(s: Seq<char>) -> Seq<char> {
    s.map_values(|c: char| upper_char(c))
}

/// Upper-cases the ASCII letters of `s`, leaving every other character alone.
pub fn ascii_upper(s: &str) -> (r: String)
    ensures
        r@ == upper_chars(s@),
{
    let n = s.unicode_len();
    let mut r = String::new();
    let mut i: usize = 0;
    while i < n
        invariant
            n == s@.len(),
            i <= n,
            r@ == upper_chars(s@.subrange(0, i as int)),
        decreases n - i,
    {
        let c = s.get_char(i);
        let u = if 'a' <= c && c <= 'z' {
            (((c as u32) - 32) as u8) as char
        } else {
            c
        };
        r.push(u);
        proof {
            assert(s@.subrange(0, (i + 1) as int) =~= s@.subrange(0, i as int).push(s@[i as int]));
            assert(upper_chars(s@.subrange(0, (i + 1) as int)) =~= upper_chars(
                s@.subrange(0, i as int),
            ).push(upper_char(s@[i as int])));
        }
        i = i + 1;
    }
    proof {
        assert(s@.subrange(0, n as int) =~= s@);
    }
    r
}

/// The decimal digit character for `d` (which must be below ten).
pub open spec fn digit_char(d: nat) -> char {
    ((48 + d) as u8) as char
}

/// The decimal rendering of a natural number, most significant digit first.
pub open spec fn spec_u64_string(n: nat) -> Seq<char>
    decreases n,
{
    if n < 10 {
        seq![digit_char(n)]
    } else {
        spec_u64_string(n / 10).push(digit_char(n % 10))
    }
}

/// Renders `n` in decimal.
pub fn u64_to_string(n: u64) -> (r: String)
    ensures
        r@ == spec_u64_string(n as nat),
{
    let mut digits: Vec<char> = Vec::new();
    let mut m: u64 = n;
    if m == 0 {
        let mut r = String::new();
        r.push('0');
        proof {
            assert(r@ =~= spec_u64_string(0));
        }
        return r;
    }
    while m > 0
        invariant
            m > 0 ==> spec_u64_string(n as nat) =~= spec_u64_string(m as nat) + digits@.reverse(),
            m == 0 ==> digits@.len() > 0 && spec_u64_string(n as nat) =~= digits@.reverse(),
        decreases m,
    {
        let d = m % 10;
        let c = ((48 + d) as u8) as char;
        let ghost old_digits = digits@;
        let ghost old_m = m as nat;
        digits.push(c);
        m = m / 10;
        proof {
            assert(digits@.reverse() =~= seq![c] + old_digits.reverse());
            if old_m >= 10 {
                assert(spec_u64_string(old_m) == spec_u64_string(old_m / 10).push(
                    digit_char(old_m % 10),
                ));
                assert(spec_u64_string(old_m / 10).push(c) + old_digits.reverse()
                    =~= spec_u64_string(old_m / 10) + (seq![c] + old_digits.reverse()));
            } else {
                assert(spec_u64_string(old_m) =~= seq![c]);
                assert(seq![c] + old_digits.reverse() =~= digits@.reverse());
            }
        }
    }
    let mut r = String::new();
    let mut i: usize = digits.len();
    while i > 0
        invariant
            i <= digits@.len(),
            r@ =~= digits@.subrange(i as int, digits@.len() as int).reverse(),
        decreases i,
    {
        i = i - 1;
        r.push(digits[i]);
        proof {
            assert(r@ =~= digits@.subrange(i as int, digits@.len() as int).reverse());
        }
    }
    proof {
        assert(digits@.subrange(0, digits@.len() as int) =~= digits@);
    }
    r
}

/// The text of a query file with every line break replaced by a space.
pub open spec fn spec_flatten_newlines(s: Seq<char>) -> Seq<char> {
    s.map_values(|c: char| if c == '\n' { ' ' } else { c })
}

/// Replaces each newline of `s` with a single space, keeping everything else.
pub fn flatten_newlines(s: &str) -> (r: String)
    ensures
        r@ == spec_flatten_newlines(s@),
{
    let n = s.unicode_len();
    let mut r = String::new();
    let mut i: usize = 0;
    while i < n
        invariant
            n == s@.len(),
            i <= n,
            r@ == spec_flatten_newlines(s@.subrange(0, i as int)),
        decreases n - i,
    {
        let c = s.get_char(i);
        let u = if c == '\n' {
            ' '
        } else {
            c
        };
        r.push(u);
        proof {
            assert(s@.subrange(0, (i + 1) as int) =~= s@.subrange(0, i as int).push(s@[i as int]));
            assert(spec_flatten_newlines(s@.subrange(0, (i + 1) as int)) =~= spec_flatten_newlines(
                s@.subrange(0, i as int),
            ).push(if s@[i as int] == '\n' { ' ' } else { s@[i as int] }));
        }
        i = i + 1;
    }
    proof {
        assert(s@.subrange(0, n as int) =~= s@);
    }
    r
}

/// Character-wise equality of a `String` against a `&str`.
pub fn string_eq_str(a: &String, b: &str) -> (r: bool)
    ensures
        r == (a@ == b@),
{
    let bs = String::from_str(b);
    a.eq(&bs)
}

} // verus!
