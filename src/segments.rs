//! Decimal text for path components, and joining components onto a path.
use vstd::prelude::*;

verus! {

/// The character for the decimal digit `d`.
pub open spec fn digit_char(d: nat) -> char {
    if d == 0 { '0' }
    else if d == 1 { '1' }
    else if d == 2 { '2' }
    else if d == 3 { '3' }
    else if d == 4 { '4' }
    else if d == 5 { '5' }
    else if d == 6 { '6' }
    else if d == 7 { '7' }
    else if d == 8 { '8' }
    else { '9' }
}

/// Decimal text of `n`, without leading zeros (`0` is written `"0"`).
pub open spec fn dec(n: nat) -> Seq<char>
    decreases n,
{
    if n < 10 {
        seq![digit_char(n)]
    } else {
        dec(n / 10).push(digit_char(n % 10))
    }
}

/// Decimal text of `n`, left-padded with zeros to at least three characters.
pub open spec fn pad3(n: nat) -> Seq<char> {
    if n < 10 {
        seq!['0', '0'] + dec(n)
    } else if n < 100 {
        seq!['0'] + dec(n)
    } else {
        dec(n)
    }
}

/// `base` with the component `c` pushed onto it: a separator is put between
/// them unless `base` is empty or already ends with one.
pub open spec fn join(base: Seq<char>, c: Seq<char>) -> Seq<char> {
    if base.len() == 0 || base.last() == '/' {
        base + c
    } else {
        base + seq!['/'] + c
    }
}

/// `stem` followed by a dot and `ext`.
pub open spec fn with_ext(stem: Seq<char>, ext: Seq<char>) -> Seq<char> {
    stem + seq!['.'] + ext
}

fn digit_str(d: u32) -> (r: &'static str)
    requires
        d < 10,
    ensures
        r@ == seq![digit_char(d as nat)],
{
    let digits = "0123456789";
    proof {
        reveal_strlit("0123456789");
    }
    let r = digits.substring_ascii(d as usize, d as usize + 1);
    assert(r@ =~= seq![digit_char(d as nat)]);
    r
}

/// Appends the decimal text of `n` to `s`.
pub fn push_dec(s: &mut String, n: u32)
    ensures
        final(s)@ == old(s)@ + dec(n as nat),
    decreases n,
{
    if n >= 10 {
        push_dec(s, n / 10);
    }
    s.append(digit_str(n % 10));
    assert(s@ =~= old(s)@ + dec(n as nat));
}

/// Decimal text of `n`.
pub fn dec_string(n: u32) -> (r: String)
    ensures
        r@ == dec(n as nat),
{
    let mut s = String::new();
    push_dec(&mut s, n);
    assert(s@ =~= dec(n as nat));
    s
}

/// Decimal text of `n`, zero-padded to at least three characters.
pub fn pad3_string(n: u32) -> (r: String)
    ensures
        r@ == pad3(n as nat),
{
    let mut s = String::new();
    if n < 10 {
        s.append("00");
        proof {
            reveal_strlit("00");
        }
    } else if n < 100 {
        s.append("0");
        proof {
            reveal_strlit("0");
        }
    }
    push_dec(&mut s, n);
    assert(s@ =~= pad3(n as nat));
    s
}

/// Pushes the component `c` onto the path `base`.
pub fn push_component(base: &mut String, c: &str)
    ensures
        final(base)@ == join(old(base)@, c@),
{
    let n = base.as_str().unicode_len();
    if n != 0 {
        let last = base.as_str().get_char(n - 1);
        if last != '/' {
            base.append("/");
            proof {
                reveal_strlit("/");
            }
        }
    }
    base.append(c);
    assert(base@ =~= join(old(base)@, c@));
}

/// `stem.ext`, as a new string.
pub fn stem_with_ext(stem: &str, ext: &str) -> (r: String)
    ensures
        r@ == with_ext(stem@, ext@),
{
    let mut s = String::from_str(stem);
    s.append(".");
    proof {
        reveal_strlit(".");
    }
    s.append(ext);
    assert(s@ =~= with_ext(stem@, ext@));
    s
}

} // verus!
