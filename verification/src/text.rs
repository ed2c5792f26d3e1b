//! Strings as sequences of characters, and numbers as strings of digits.

use vstd::prelude::*;

verus! {

/// `String::push` appends one character to the end of the string. This is
/// taken from its documentation, and not proved.
pub assume_specification[ String::push ](s: &mut String, ch: char)
    ensures
        final(s)@ == old(s)@.push(ch),
;

/// Whether two string slices hold the same characters.
pub fn same_text(a: &str, b: &str) -> (r: bool)
    ensures
        r == (a@ == b@),
{
    a.to_owned() == b.to_owned()
}

/// Whether a text is not empty and its last character is an ASCII character.
pub open spec fn ends_in_ascii(text: Seq<char>) -> bool {
    text.len() > 0 && (text.last() as u32) < 128
}

/// Whether `s` is not empty and its last character is an ASCII character.
pub fn last_is_ascii(s: &str) -> (r: bool)
    ensures
        r == ends_in_ascii(s@),
{
    let chars = chars_of(s);
    let n = chars.len();
    n > 0 && (chars[n - 1] as u32) < 128
}

/// The characters of `s`, in order.
pub fn chars_of(s: &str) -> (out: Vec<char>)
    ensures
        out@ == s@,
{
    let mut out: Vec<char> = Vec::new();
    let chars = s.chars();
    proof {
        vstd::string::axiom_spec_iter(s);
    }
    for c in it: chars
        invariant
            it.seq() == s@,
            out@ == s@.take(it.index()),
    {
        out.push(c);
    }
    out
}

/// The character of one digit: `0` to `9`, then `a` to `f`.
pub open spec fn digit_char(d: nat) -> char {
    if d < 10 {
        (48 + d) as char
    } else {
        (87 + d) as char
    }
}

/// The digits of `n` in the given radix, the most significant first.
pub open spec fn numeral(n: nat, radix: nat) -> Seq<char>
    decreases n,
{
    if n < radix || radix < 2 {
        seq![digit_char(n)]
    } else {
        proof {
            assert(n / radix < n) by (nonlinear_arith)
                requires
                    n >= radix >= 2,
            ;
        }
        numeral(n / radix, radix).push(digit_char(n % radix))
    }
}

/// Writes `n` in the given radix.
fn write_numeral(n: u64, radix: u64) -> (r: String)
    requires
        2 <= radix <= 16,
    ensures
        r@ == numeral(n as nat, radix as nat),
    decreases n,
{
    let mut out = if n < radix {
        String::new()
    } else {
        assert(n / radix < n) by (nonlinear_arith)
            requires
                n >= radix >= 2,
        ;
        write_numeral(n / radix, radix)
    };
    let d = n % radix;
    assert(d < radix && (n < radix ==> d == n)) by (nonlinear_arith)
        requires
            d == n % radix,
            radix >= 2,
    ;
    let c = if d < 10 {
        (48 + d as u8) as char
    } else {
        (87 + d as u8) as char
    };
    out.push(c);
    out
}

/// Writes `n` in decimal digits.
pub fn decimal(n: u64) -> (r: String)
    ensures
        r@ == numeral(n as nat, 10),
{
    write_numeral(n, 10)
}

/// Writes `n` in hexadecimal digits, the letters in lower case.
pub fn hexadecimal(n: u32) -> (r: String)
    ensures
        r@ == numeral(n as nat, 16),
{
    write_numeral(n as u64, 16)
}

/// A number has at least one digit, and more than one from the radix on.
pub proof fn lemma_numeral_len(n: nat, radix: nat)
    requires
        2 <= radix,
    ensures
        numeral(n, radix).len() >= 1,
        n >= radix ==> numeral(n, radix).len() >= 2,
        numeral(n, radix).last() == digit_char(n % radix),
    decreases n,
{
    if n >= radix {
        assert(n / radix < n) by (nonlinear_arith)
            requires
                n >= radix >= 2,
        ;
        lemma_numeral_len(n / radix, radix);
    } else {
        assert(n % radix == n) by (nonlinear_arith)
            requires
                n < radix,
        ;
    }
}

/// Two numbers with the same digits are the same number.
pub proof fn lemma_numeral_injective(a: nat, b: nat, radix: nat)
    requires
        2 <= radix <= 16,
        numeral(a, radix) == numeral(b, radix),
    ensures
        a == b,
    decreases a,
{
    lemma_numeral_len(a, radix);
    lemma_numeral_len(b, radix);
    assert(a % radix < radix && b % radix < radix && a == radix * (a / radix) + a % radix && b
        == radix * (b / radix) + b % radix) by (nonlinear_arith)
        requires
            radix >= 2,
    ;
    assert(digit_char(a % radix) == digit_char(b % radix));
    assert(a % radix == b % radix);
    if a >= radix && b >= radix {
        let high_a = numeral(a / radix, radix);
        let high_b = numeral(b / radix, radix);
        assert(high_a.push(digit_char(a % radix)).drop_last() =~= high_a);
        assert(high_b.push(digit_char(b % radix)).drop_last() =~= high_b);
        assert(a / radix < a) by (nonlinear_arith)
            requires
                a >= radix >= 2,
        ;
        lemma_numeral_injective(a / radix, b / radix, radix);
    } else if a >= radix || b >= radix {
        assert(numeral(a, radix).len() != numeral(b, radix).len());
    } else {
        assert(a % radix == a && b % radix == b) by (nonlinear_arith)
            requires
                a < radix,
                b < radix,
        ;
    }
}

} // verus!
