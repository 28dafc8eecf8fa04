use vstd::prelude::*;
use unicode_segmentation::UnicodeSegmentation;

verus! {

/// Number of extended grapheme clusters in a string.
pub uninterp spec fn grapheme_count(s: Seq<char>) -> nat;

/// Lower-case form of a string, by Unicode case mapping.
pub uninterp spec fn lower_of(s: Seq<char>) -> Seq<char>;

/// A string without its leading and trailing white space.
pub uninterp spec fn trim_of(s: Seq<char>) -> Seq<char>;

/// Relies on `UnicodeSegmentation::graphemes(true).count()`: the number of
/// extended grapheme clusters; each cluster holds at least one character.
#[verifier::external_body]
fn grapheme_len(value: &str) -> (r: usize)
    ensures
        r as nat == grapheme_count(value@),
        r <= value@.len(),
        value@.len() == 0 <==> r == 0,
{
    value.graphemes(true).count()
}

/// Length of a string in user-perceived characters (extended grapheme clusters).
pub fn str_len(value: &str) -> (r: usize)
    ensures
        r as nat == grapheme_count(value@),
        r <= value@.len(),
        value@.len() == 0 <==> r == 0,
{
    grapheme_len(value)
}

/// Relies on `str::to_lowercase`.
#[verifier::external_body]
fn lowercase(s: &str) -> (r: String)
    ensures
        r@ == lower_of(s@),
{
    s.to_lowercase()
}

/// Relies on `str::trim`.
#[verifier::external_body]
fn trimmed(s: &str) -> (r: &str)
    ensures
        r@ == trim_of(s@),
{
    s.trim()
}

/// Relies on `String::push`: appends one character.
#[verifier::external_body]
pub(crate) fn push_char(s: &mut String, c: char)
    ensures
        final(s)@ == old(s)@.push(c),
{
    s.push(c)
}

/// Two strings are equal once lower-cased and trimmed.
pub fn eq_str(a: &str, b: &str) -> (r: bool)
    ensures
        r == (trim_of(lower_of(a@)) == trim_of(lower_of(b@))),
{
    let la = lowercase(a);
    let lb = lowercase(b);
    let ta = String::from_str(trimmed(la.as_str()));
    let tb = String::from_str(trimmed(lb.as_str()));
    ta == tb
}

/// The character of a decimal digit.
pub open spec fn digit_char(d: nat) -> char {
    if d == 0 { '0' }
    else if d == 1 { '1' }
    else if d == 2 { '2' }
    else if d == 3 { '3' }
    else if d == 4 { '4' }
    else if d == 5 { '5' }
    else if d == 6 { '6' }
    else if d == 7 { '7' }
    else if d == 8 { '8' }
    else { '9' }
}

/// Decimal notation of `n`, without leading zeros.
pub open spec fn decimal(n: nat) -> Seq<char>
    decreases n,
{
    if n < 10 {
        seq![digit_char(n)]
    } else {
        decimal(n / 10).push(digit_char(n % 10))
    }
}

/// Three digits of `m` (below one thousand), zero-padded.
pub open spec fn three_digits(m: nat) -> Seq<char> {
    seq![digit_char(m / 100), digit_char((m / 10) % 10), digit_char(m % 10)]
}

/// Decimal notation of `n` with `_` between groups of three digits.
pub open spec fn grouped(n: nat) -> Seq<char>
    decreases n,
{
    if n < 1000 {
        decimal(n)
    } else {
        grouped(n / 1000) + seq!['_'] + three_digits(n % 1000)
    }
}

fn digit(d: u64) -> (c: char)
    requires
        d < 10,
    ensures
        c == digit_char(d as nat),
{
    if d == 0 { '0' }
    else if d == 1 { '1' }
    else if d == 2 { '2' }
    else if d == 3 { '3' }
    else if d == 4 { '4' }
    else if d == 5 { '5' }
    else if d == 6 { '6' }
    else if d == 7 { '7' }
    else if d == 8 { '8' }
    else { '9' }
}

/// Appends the decimal notation of `n`.
pub fn push_decimal(s: &mut String, n: u64)
    ensures
        final(s)@ == old(s)@ + decimal(n as nat),
    decreases n,
{
    if n >= 10 {
        push_decimal(s, n / 10);
    }
    push_char(s, digit(n % 10));
    proof {
        if n < 10 {
            assert(n % 10 == n);
        }
        assert(final(s)@ =~= old(s)@ + decimal(n as nat));
    }
}

/// Decimal notation of `n`.
pub fn decimal_string(n: u64) -> (r: String)
    ensures
        r@ == decimal(n as nat),
{
    let mut s = String::new();
    push_decimal(&mut s, n);
    proof {
        assert(s@ =~= decimal(n as nat));
    }
    s
}

fn push_grouped(s: &mut String, n: u64)
    ensures
        final(s)@ == old(s)@ + grouped(n as nat),
    decreases n,
{
    if n < 1000 {
        push_decimal(s, n);
    } else {
        push_grouped(s, n / 1000);
        let m = n % 1000;
        push_char(s, '_');
        push_char(s, digit(m / 100));
        push_char(s, digit((m / 10) % 10));
        push_char(s, digit(m % 10));
        proof {
            assert(final(s)@ =~= old(s)@ + grouped(n as nat));
        }
    }
}

/// Decimal notation of `value` with `_` between groups of three digits,
/// counted from the right (`1_234_567`).
pub fn format_with_underscores(value: u64) -> (r: String)
    ensures
        r@ == grouped(value as nat),
{
    let mut s = String::new();
    push_grouped(&mut s, value);
    proof {
        assert(s@ =~= grouped(value as nat));
    }
    s
}

} // verus!
