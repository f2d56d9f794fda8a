//! Rendering of integers and digests as text, and the leading-zero test
//! that decides whether a digest meets a difficulty.
use vstd::prelude::*;
use vstd::string::*;

verus! {

/// The sixteen lowercase hexadecimal digits, in order of value.
pub open spec fn hex_digits() -> Seq<char> {
    seq!['0', '1', '2', '3', '4', '5', '6', '7', '8', '9', 'a', 'b', 'c', 'd', 'e', 'f']
}

/// The digit that stands for `v` (below 16).
pub open spec fn digit_char(v: nat) -> char {
    hex_digits()[v as int]
}

/// `n` written in base ten, most significant digit first, with no leading zeros.
pub open spec fn decimal(n: nat) -> Seq<char>
    decreases n,
{
    if n < 10 {
        seq![digit_char(n)]
    } else {
        decimal(n / 10).push(digit_char(n % 10))
    }
}

/// Each byte as two lowercase hexadecimal digits, high nibble first.
pub open spec fn hex_lower(bytes: Seq<u8>) -> Seq<char> {
    Seq::new(
        2 * bytes.len(),
        |i: int|
            if i % 2 == 0 {
                digit_char((bytes[i / 2] / 16) as nat)
            } else {
                digit_char((bytes[i / 2] % 16) as nat)
            },
    )
}

/// `s` begins with `d` characters `'0'`.
pub open spec fn zero_prefix(s: Seq<char>, d: nat) -> bool {
    d <= s.len() && forall|i: int| 0 <= i < d ==> s[i] == '0'
}

/// The one-character string holding the digit of value `v`.
fn digit_str(v: usize) -> (r: &'static str)
    requires
        v < 16,
    ensures
        r@ == seq![digit_char(v as nat)],
{
    let digits = "0123456789abcdef";
    proof {
        reveal_strlit("0123456789abcdef");
        assert(digits@ =~= hex_digits());
        assert(digits.is_ascii());
    }
    let r = digits.substring_ascii(v, v + 1);
    assert(r@ =~= seq![digit_char(v as nat)]);
    r
}

/// Appends `n` in base ten to `s`.
pub fn append_decimal(s: &mut String, n: u128)
    ensures
        final(s)@ == old(s)@ + decimal(n as nat),
    decreases n,
{
    if n >= 10 {
        append_decimal(s, n / 10);
    }
    let d = (n % 10) as usize;
    s.append(digit_str(d));
    assert(final(s)@ =~= old(s)@ + decimal(n as nat));
}

/// Renders `bytes` as lowercase hexadecimal, two digits per byte.
pub fn lower_hex(bytes: &Vec<u8>) -> (r: String)
    requires
        bytes@.len() <= usize::MAX / 2,
    ensures
        r@ == hex_lower(bytes@),
{
    let mut r = String::new();
    let mut i: usize = 0;
    while i < bytes.len()
        invariant
            i <= bytes@.len() <= usize::MAX / 2,
            r@ =~= hex_lower(bytes@.subrange(0, i as int)),
        decreases bytes@.len() - i,
    {
        let b = bytes[i];
        r.append(digit_str((b / 16) as usize));
        r.append(digit_str((b % 16) as usize));
        i = i + 1;
        assert(r@ =~= hex_lower(bytes@.subrange(0, i as int)));
    }
    assert(bytes@.subrange(0, i as int) =~= bytes@);
    r
}

/// Whether `s` begins with `difficulty` characters `'0'`.
pub fn has_zero_prefix(s: &str, difficulty: u32) -> (r: bool)
    ensures
        r == zero_prefix(s@, difficulty as nat),
{
    let n = s.unicode_len();
    let d = difficulty as usize;
    if d > n {
        return false;
    }
    let mut i: usize = 0;
    while i < d
        invariant
            d == difficulty as nat,
            d <= n == s@.len(),
            i <= d,
            forall|j: int| 0 <= j < i ==> s@[j] == '0',
        decreases d - i,
    {
        if s.get_char(i) != '0' {
            return false;
        }
        i = i + 1;
    }
    true
}

} // verus!
