use vstd::prelude::*;

verus! {

/// `n` copies of the character `c`.
pub open spec fn repeat_char(c: char, n: nat) -> Seq<char> {
    Seq::new(n, |i: int| c)
}

/// The decimal digit character of `d` (for `d < 10`).
pub open spec fn digit_char(d: nat) -> char {
    (('0' as u32) + d) as char
}

/// The lower-case hexadecimal digit character of `d` (for `d < 16`).
pub open spec fn hex_char(d: nat) -> char {
    if d < 10 { (('0' as u32) + d) as char } else { (('a' as u32) + (d - 10)) as char }
}

/// Decimal representation of `n`, without leading zeros ("0" for zero).
pub open spec fn decimal(n: nat) -> Seq<char>
    decreases n,
{
    if n < 10 {
        seq![digit_char(n)]
    } else {
        decimal(n / 10).push(digit_char(n % 10))
    }
}

/// Lower-case hexadecimal representation of `n`, without leading zeros.
pub open spec fn lower_hex(n: nat) -> Seq<char>
    decreases n,
{
    if n < 16 {
        seq![hex_char(n)]
    } else {
        lower_hex(n / 16).push(hex_char(n % 16))
    }
}

/// `s` preceded by `fill` characters up to `width` characters (as `{:>width$}` with a fill).
pub open spec fn pad_left(s: Seq<char>, fill: char, width: nat) -> Seq<char> {
    if s.len() >= width { s } else { repeat_char(fill, (width - s.len()) as nat) + s }
}

/// `s` followed by spaces up to `width` characters (as `{:<width$}`).
pub open spec fn pad_right(s: Seq<char>, width: nat) -> Seq<char> {
    if s.len() >= width { s } else { s + repeat_char(' ', (width - s.len()) as nat) }
}

/// Appends a character to a string.
/// Calls `String::push`, which appends the character at the end: the
/// contract states exactly that.
#[verifier::external_body]
pub(crate) fn push_char(s: &mut String, c: char)
    ensures
        final(s)@ == old(s)@.push(c),
{
    s.push(c);
}

/// Appends a string slice.
pub fn push_str(s: &mut String, t: &str)
    ensures
        final(s)@ == old(s)@ + t@,
{
    s.append(t);
}

/// Appends `n` copies of `c`.
pub fn push_repeat(s: &mut String, c: char, n: usize)
    ensures
        final(s)@ == old(s)@ + repeat_char(c, n as nat),
{
    let ghost s0 = s@;
    let mut i: usize = 0;
    while i < n
        invariant
            i <= n,
            s@ == s0 + repeat_char(c, i as nat),
        decreases n - i,
    {
        push_char(s, c);
        i = i + 1;
        assert(s@ =~= s0 + repeat_char(c, i as nat));
    }
}

/// A string of `n` copies of `c` (as `c.to_string().repeat(n)`).
pub fn repeat_string(c: char, n: usize) -> (r: String)
    ensures
        r@ == repeat_char(c, n as nat),
{
    let mut s = String::new();
    push_repeat(&mut s, c, n);
    assert(s@ =~= repeat_char(c, n as nat));
    s
}

/// Appends all characters of `v`.
pub fn push_chars(s: &mut String, v: &Vec<char>)
    ensures
        final(s)@ == old(s)@ + v@,
{
    let ghost s0 = s@;
    let mut i: usize = 0;
    while i < v.len()
        invariant
            i <= v.len(),
            s@ == s0 + v@.take(i as int),
        decreases v.len() - i,
    {
        push_char(s, v[i]);
        i = i + 1;
        assert(s@ =~= s0 + v@.take(i as int));
    }
    assert(v@.take(v.len() as int) =~= v@);
}

/// The digits of `n` in `base`, most significant first, as the spec functions give them.
fn digits_of(n: u64, base: u64) -> (r: Vec<char>)
    requires
        base == 10 || base == 16,
    ensures
        base == 10 ==> r@ == decimal(n as nat),
        base == 16 ==> r@ == lower_hex(n as nat),
    decreases n,
{
    if n < base {
        let c = if n < 10 { (('0' as u8) + (n as u8)) as char } else { (('a' as u8) + ((n - 10) as u8)) as char };
        let mut v: Vec<char> = Vec::new();
        v.push(c);
        proof {
            reveal_with_fuel(decimal, 1);
            reveal_with_fuel(lower_hex, 1);
            assert(v@ =~= seq![c]);
        }
        v
    } else {
        let mut v = digits_of(n / base, base);
        let d = n % base;
        let c = if d < 10 { (('0' as u8) + (d as u8)) as char } else { (('a' as u8) + ((d - 10) as u8)) as char };
        v.push(c);
        v
    }
}

/// Decimal representation of `n` (as `n.to_string()`).
pub fn u64_to_decimal(n: u64) -> (r: String)
    ensures
        r@ == decimal(n as nat),
{
    let v = digits_of(n, 10);
    let mut s = String::new();
    push_chars(&mut s, &v);
    assert(s@ =~= decimal(n as nat));
    s
}

/// Lower-case hexadecimal representation of `n` zero-padded to `width`
/// digits (as `format!("{:0width$x}", n)`).
pub fn u64_to_hex_padded(n: u64, width: usize) -> (r: String)
    ensures
        r@ == pad_left(lower_hex(n as nat), '0', width as nat),
{
    let v = digits_of(n, 16);
    let mut s = String::new();
    if v.len() < width {
        push_repeat(&mut s, '0', width - v.len());
    }
    push_chars(&mut s, &v);
    assert(s@ =~= pad_left(lower_hex(n as nat), '0', width as nat));
    s
}

/// Decimal representation of `n`, zero-padded to `width` digits (as `format!("{:0width$}", n)`).
pub fn u64_to_decimal_padded(n: u64, width: usize) -> (r: String)
    ensures
        r@ == pad_left(decimal(n as nat), '0', width as nat),
{
    let v = digits_of(n, 10);
    let mut s = String::new();
    if v.len() < width {
        push_repeat(&mut s, '0', width - v.len());
    }
    push_chars(&mut s, &v);
    assert(s@ =~= pad_left(decimal(n as nat), '0', width as nat));
    s
}

/// Number of characters of `s`.
pub fn char_count(s: &str) -> (r: usize)
    ensures
        r == s@.len(),
{
    s.unicode_len()
}

/// `s` padded with spaces on the right up to `width` characters.
pub fn push_padded(out: &mut String, s: &str, width: usize)
    ensures
        final(out)@ == old(out)@ + pad_right(s@, width as nat),
{
    let n = char_count(s);
    push_str(out, s);
    if n < width {
        push_repeat(out, ' ', width - n);
    }
    assert(final(out)@ =~= old(out)@ + pad_right(s@, width as nat)) by {
        if n < width {
            assert(out@ =~= old(out)@ + s@ + repeat_char(' ', (width - n) as nat));
        }
    }
}

} // verus!
