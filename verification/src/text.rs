//! Verified text building blocks: decimal rendering and parsing of
//! identifiers, zero-padded date fields, and `application/x-www-form-urlencoded`
//! encoding of request bodies.

use vstd::prelude::*;
use vstd::string::StringExecFns;
use vstd::string::StrSliceExecFns;
use vstd::utf8::encode_utf8;

verus! {

// ---------- decimal rendering ----------

/// The character for one decimal digit.
pub open spec fn dec_digit(d: nat) -> char {
    if d == 0 { '0' }
    else if d == 1 { '1' }
    else if d == 2 { '2' }
    else if d == 3 { '3' }
    else if d == 4 { '4' }
    else if d == 5 { '5' }
    else if d == 6 { '6' }
    else if d == 7 { '7' }
    else if d == 8 { '8' }
    else { '9' }
}

/// The decimal rendering of `n`, most significant digit first, no sign,
/// no leading zeros (a single `'0'` for zero).
pub open spec fn dec_of(n: nat) -> Seq<char>
    decreases n,
{
    if n < 10 {
        seq![dec_digit(n)]
    } else {
        dec_of(n / 10).push(dec_digit(n % 10))
    }
}

fn digit_str(d: u32) -> (r: &'static str)
    requires
        d < 10,
    ensures
        r@ == seq![dec_digit(d as nat)],
{
    proof {
        reveal_strlit("0");
        reveal_strlit("1");
        reveal_strlit("2");
        reveal_strlit("3");
        reveal_strlit("4");
        reveal_strlit("5");
        reveal_strlit("6");
        reveal_strlit("7");
        reveal_strlit("8");
        reveal_strlit("9");
    }
    let r: &'static str = match d {
        0 => "0",
        1 => "1",
        2 => "2",
        3 => "3",
        4 => "4",
        5 => "5",
        6 => "6",
        7 => "7",
        8 => "8",
        _ => "9",
    };
    proof {
        assert(r@ =~= seq![dec_digit(d as nat)]);
    }
    r
}

/// Renders `n` in decimal.
pub fn u32_to_string(n: u32) -> (s: String)
    ensures
        s@ == dec_of(n as nat),
    decreases n,
{
    if n < 10 {
        let mut s = String::new();
        s.append(digit_str(n));
        proof {
            assert(s@ =~= dec_of(n as nat));
        }
        s
    } else {
        let mut s = u32_to_string(n / 10);
        s.append(digit_str(n % 10));
        proof {
            assert(s@ =~= dec_of(n as nat));
        }
        s
    }
}

// ---------- decimal parsing ----------

/// Whether `c` is an ASCII decimal digit.
pub open spec fn is_dec_digit_char(c: char) -> bool {
    48 <= c as int <= 57
}

/// The numeric value of one digit character.
pub open spec fn digit_val(c: char) -> nat {
    (c as int - 48) as nat
}

/// The numeric value of a digit string, most significant digit first.
pub open spec fn dec_val(s: Seq<char>) -> nat
    decreases s.len(),
{
    if s.len() == 0 {
        0
    } else {
        dec_val(s.drop_last()) * 10 + digit_val(s.last())
    }
}

/// What parsing a decimal identifier returns: the value, when the string is
/// non-empty, all digits, and the value fits in a `u32`; nothing otherwise.
pub open spec fn parse_u32_spec(s: Seq<char>) -> Option<u32> {
    if s.len() > 0 && (forall|i: int| 0 <= i < s.len() ==> is_dec_digit_char(s[i])) && dec_val(s)
        <= u32::MAX {
        Some(dec_val(s) as u32)
    } else {
        None
    }
}

proof fn lemma_dec_val_prefix_mono(s: Seq<char>, i: int, j: int)
    requires
        0 <= i <= j <= s.len(),
    ensures
        dec_val(s.subrange(0, i)) <= dec_val(s.subrange(0, j)),
    decreases j - i,
{
    if i < j {
        lemma_dec_val_prefix_mono(s, i, j - 1);
        let p = s.subrange(0, j);
        assert(p.drop_last() =~= s.subrange(0, j - 1));
        assert(dec_val(s.subrange(0, j - 1)) <= dec_val(p));
    }
}

/// Parses a decimal `u32`: digits only, no sign, overflow rejected.
pub fn parse_u32(s: &str) -> (r: Option<u32>)
    ensures
        r == parse_u32_spec(s@),
{
    let n: usize = s.unicode_len();
    if n == 0 {
        return None;
    }
    let mut acc: u64 = 0;
    let mut i: usize = 0;
    while i < n
        invariant
            0 < n == s@.len(),
            0 <= i <= n,
            forall|k: int| 0 <= k < i ==> is_dec_digit_char(s@[k]),
            acc == dec_val(s@.subrange(0, i as int)),
            acc <= u32::MAX,
        decreases n - i,
    {
        let c = s.get_char(i);
        let u: u32 = c as u32;
        if u < 48 || u > 57 {
            return None;
        }
        let d: u64 = (u - 48) as u64;
        acc = acc * 10 + d;
        proof {
            let p = s@.subrange(0, i + 1 as int);
            assert(p.drop_last() =~= s@.subrange(0, i as int));
            assert(p.last() == s@[i as int]);
        }
        i = i + 1;
        if acc > 0xFFFF_FFFF {
            proof {
                lemma_dec_val_prefix_mono(s@, i as int, s@.len() as int);
                assert(s@.subrange(0, s@.len() as int) =~= s@);
            }
            return None;
        }
    }
    proof {
        assert(s@.subrange(0, n as int) =~= s@);
    }
    Some(acc as u32)
}

/// An identifier survives the trip into a URL and back: parsing the decimal
/// rendering of `n` yields `n` again.
pub proof fn lemma_dec_round_trip(n: u32)
    ensures
        parse_u32_spec(dec_of(n as nat)) == Some(n),
{
    lemma_dec_of_digits(n as nat);
    lemma_dec_val_of_dec_of(n as nat);
}

proof fn lemma_dec_of_digits(n: nat)
    ensures
        dec_of(n).len() >= 1,
        forall|i: int| 0 <= i < dec_of(n).len() ==> is_dec_digit_char(dec_of(n)[i]),
    decreases n,
{
    if n >= 10 {
        lemma_dec_of_digits(n / 10);
        assert(dec_of(n) =~= dec_of(n / 10).push(dec_digit(n % 10)));
    }
}

proof fn lemma_digit_val(d: nat)
    requires
        d < 10,
    ensures
        digit_val(dec_digit(d)) == d,
{
    if d == 0 {
        assert(digit_val('0') == 0);
    } else if d == 1 {
        assert(digit_val('1') == 1);
    } else if d == 2 {
        assert(digit_val('2') == 2);
    } else if d == 3 {
        assert(digit_val('3') == 3);
    } else if d == 4 {
        assert(digit_val('4') == 4);
    } else if d == 5 {
        assert(digit_val('5') == 5);
    } else if d == 6 {
        assert(digit_val('6') == 6);
    } else if d == 7 {
        assert(digit_val('7') == 7);
    } else if d == 8 {
        assert(digit_val('8') == 8);
    } else {
        assert(digit_val('9') == 9);
    }
}

proof fn lemma_dec_val_of_dec_of(n: nat)
    ensures
        dec_val(dec_of(n)) == n,
    decreases n,
{
    if n < 10 {
        lemma_digit_val(n);
        let s = dec_of(n);
        assert(s.last() == dec_digit(n));
        assert(s.drop_last() =~= Seq::<char>::empty());
        assert(dec_val(s) == dec_val(s.drop_last()) * 10 + digit_val(s.last()));
    } else {
        lemma_dec_val_of_dec_of(n / 10);
        lemma_digit_val(n % 10);
        let s = dec_of(n);
        assert(s.last() == dec_digit(n % 10));
        assert(s.drop_last() =~= dec_of(n / 10));
        assert(dec_val(s) == dec_val(s.drop_last()) * 10 + digit_val(s.last()));
        assert((n / 10) * 10 + (n % 10) == n) by (nonlinear_arith);
    }
}

// ---------- zero padding and dates ----------

/// `k` copies of `'0'`.
pub open spec fn zeros(k: nat) -> Seq<char> {
    Seq::new(k, |i: int| '0')
}

/// `s` left-padded with zeros to at least `w` characters.
pub open spec fn zero_pad(s: Seq<char>, w: nat) -> Seq<char> {
    if s.len() >= w {
        s
    } else {
        zeros((w - s.len()) as nat) + s
    }
}

proof fn lemma_dec_of_len(n: nat)
    ensures
        n < 10 ==> dec_of(n).len() == 1,
        10 <= n < 100 ==> dec_of(n).len() == 2,
        100 <= n < 1000 ==> dec_of(n).len() == 3,
        1000 <= n < 10000 ==> dec_of(n).len() == 4,
        n >= 10000 ==> dec_of(n).len() >= 5,
    decreases n,
{
    if n >= 10 {
        lemma_dec_of_len(n / 10);
    }
}

/// Renders `n` in decimal, zero-padded to at least four digits.
pub fn padded4(n: u32) -> (s: String)
    ensures
        s@ == zero_pad(dec_of(n as nat), 4),
{
    proof {
        lemma_dec_of_len(n as nat);
        reveal_strlit("000");
        reveal_strlit("00");
        reveal_strlit("0");
    }
    let mut s = String::new();
    if n < 10 {
        s.append("000");
        proof {
            assert(s@ =~= zeros(3));
        }
    } else if n < 100 {
        s.append("00");
        proof {
            assert(s@ =~= zeros(2));
        }
    } else if n < 1000 {
        s.append("0");
        proof {
            assert(s@ =~= zeros(1));
        }
    }
    let d = u32_to_string(n);
    s.append(d.as_str());
    proof {
        assert(s@ =~= zero_pad(dec_of(n as nat), 4));
    }
    s
}

/// Renders `n` in decimal, zero-padded to at least two digits.
pub fn padded2(n: u32) -> (s: String)
    ensures
        s@ == zero_pad(dec_of(n as nat), 2),
{
    proof {
        lemma_dec_of_len(n as nat);
        reveal_strlit("0");
    }
    let mut s = String::new();
    if n < 10 {
        s.append("0");
        proof {
            assert(s@ =~= zeros(1));
        }
    }
    let d = u32_to_string(n);
    s.append(d.as_str());
    proof {
        assert(s@ =~= zero_pad(dec_of(n as nat), 2));
    }
    s
}

/// The wire form of a date: `YYYY-MM-DD`, fields zero-padded.
pub open spec fn date_of(y: nat, m: nat, d: nat) -> Seq<char> {
    zero_pad(dec_of(y), 4) + seq!['-'] + zero_pad(dec_of(m), 2) + seq!['-'] + zero_pad(
        dec_of(d),
        2,
    )
}

/// Renders a date as `YYYY-MM-DD`.
pub fn date_string(y: u32, m: u32, d: u32) -> (s: String)
    ensures
        s@ == date_of(y as nat, m as nat, d as nat),
{
    proof {
        reveal_strlit("-");
    }
    let mut s = padded4(y);
    s.append("-");
    let ms = padded2(m);
    s.append(ms.as_str());
    s.append("-");
    let ds = padded2(d);
    s.append(ds.as_str());
    proof {
        assert(s@ =~= date_of(y as nat, m as nat, d as nat));
    }
    s
}

/// The wire form of a boolean.
pub open spec fn bool_of(b: bool) -> Seq<char> {
    if b {
        "true"@
    } else {
        "false"@
    }
}

/// Renders a boolean as `true` or `false`.
pub fn bool_to_string(b: bool) -> (s: String)
    ensures
        s@ == bool_of(b),
{
    if b {
        String::from_str("true")
    } else {
        String::from_str("false")
    }
}

// ---------- application/x-www-form-urlencoded ----------

/// Whether a byte passes through form-urlencoding unchanged: ASCII letters,
/// digits, and `*`, `-`, `.`, `_`.
pub open spec fn is_form_unreserved(b: u8) -> bool {
    (65 <= b <= 90) || (97 <= b <= 122) || (48 <= b <= 57) || b == 42 || b == 45 || b == 46 || b
        == 95
}

/// The upper-case hexadecimal digit for a value below sixteen.
pub open spec fn hex_upper(d: u8) -> u8 {
    if d < 10 {
        (48 + d) as u8
    } else {
        (55 + d) as u8
    }
}

/// One byte, form-urlencoded: unreserved bytes pass through, a space becomes
/// `+`, everything else becomes a percent escape.
pub open spec fn encode_byte(b: u8) -> Seq<u8> {
    if is_form_unreserved(b) {
        seq![b]
    } else if b == 32 {
        seq![43u8]
    } else {
        seq![37u8, hex_upper(b / 16), hex_upper(b % 16)]
    }
}

/// A byte string, form-urlencoded byte by byte.
pub open spec fn encode_bytes(s: Seq<u8>) -> Seq<u8>
    decreases s.len(),
{
    if s.len() == 0 {
        Seq::empty()
    } else {
        encode_bytes(s.drop_last()) + encode_byte(s.last())
    }
}

fn hex_char(d: u8) -> (r: u8)
    requires
        d < 16,
    ensures
        r == hex_upper(d),
{
    if d < 10 {
        48 + d
    } else {
        55 + d
    }
}

/// Appends the form-urlencoding of the UTF-8 bytes of `s` to `out`.
pub fn encode_str_into(out: &mut Vec<u8>, s: &str)
    ensures
        final(out)@ == old(out)@ + encode_bytes(encode_utf8(s@)),
{
    let bytes: &[u8] = s.as_bytes();
    let n: usize = bytes.len();
    let mut i: usize = 0;
    while i < n
        invariant
            n == bytes@.len(),
            bytes@ == encode_utf8(s@),
            0 <= i <= n,
            out@ == old(out)@ + encode_bytes(bytes@.subrange(0, i as int)),
        decreases n - i,
    {
        let b: u8 = bytes[i];
        if (65 <= b && b <= 90) || (97 <= b && b <= 122) || (48 <= b && b <= 57) || b == 42 || b
            == 45 || b == 46 || b == 95 {
            out.push(b);
        } else if b == 32 {
            out.push(43);
        } else {
            out.push(37);
            out.push(hex_char(b / 16));
            out.push(hex_char(b % 16));
        }
        proof {
            let p = bytes@.subrange(0, i + 1 as int);
            assert(p.drop_last() =~= bytes@.subrange(0, i as int));
            assert(p.last() == bytes@[i as int]);
            assert(out@ =~= old(out)@ + encode_bytes(p));
        }
        i = i + 1;
    }
    proof {
        assert(bytes@.subrange(0, n as int) =~= bytes@);
    }
}

/// One `key=value` pair of a form body, both sides form-urlencoded.
pub open spec fn form_pair_of(k: Seq<char>, v: Seq<char>) -> Seq<u8> {
    encode_bytes(encode_utf8(k)) + seq![61u8] + encode_bytes(encode_utf8(v))
}

/// A whole form body: the pairs in order, joined by `&`.
pub open spec fn form_encoded_of(pairs: Seq<(Seq<char>, Seq<char>)>) -> Seq<u8>
    decreases pairs.len(),
{
    if pairs.len() == 0 {
        Seq::empty()
    } else if pairs.len() == 1 {
        form_pair_of(pairs[0].0, pairs[0].1)
    } else {
        form_encoded_of(pairs.drop_last()) + seq![38u8] + form_pair_of(
            pairs.last().0,
            pairs.last().1,
        )
    }
}

/// The views of a list of owned string pairs.
pub open spec fn pairs_view(ps: Seq<(String, String)>) -> Seq<(Seq<char>, Seq<char>)> {
    ps.map_values(|p: (String, String)| (p.0@, p.1@))
}

/// Form-urlencodes a list of key/value pairs into one request body.
pub fn form_encode_pairs(pairs: &Vec<(String, String)>) -> (out: Vec<u8>)
    ensures
        out@ == form_encoded_of(pairs_view(pairs@)),
{
    let mut out: Vec<u8> = Vec::new();
    let n: usize = pairs.len();
    let mut i: usize = 0;
    while i < n
        invariant
            n == pairs@.len(),
            0 <= i <= n,
            out@ == form_encoded_of(pairs_view(pairs@).subrange(0, i as int)),
        decreases n - i,
    {
        if i > 0 {
            out.push(38);
        }
        encode_str_into(&mut out, pairs[i].0.as_str());
        out.push(61);
        encode_str_into(&mut out, pairs[i].1.as_str());
        proof {
            let pv = pairs_view(pairs@);
            let p = pv.subrange(0, i + 1 as int);
            assert(p.drop_last() =~= pv.subrange(0, i as int));
            assert(p.last() == pv[i as int]);
            assert(out@ =~= form_encoded_of(p));
        }
        i = i + 1;
    }
    proof {
        assert(pairs_view(pairs@).subrange(0, n as int) =~= pairs_view(pairs@));
    }
    out
}

} // verus!
