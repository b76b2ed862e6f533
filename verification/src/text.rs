//! Verified text helpers: decimal and hexadecimal rendering and string
//! comparison, used by the formatting and resolution layers.

use crate::scid::all_dec_digits;
use crate::scid::dec_val;
use crate::scid::digit_val;
use crate::scid::is_dec_digit;
use vstd::prelude::*;

verus! {

/// The decimal digit character for `d` in `0..10`.
pub open spec fn digit_char(d: nat) -> char {
    if d == 0 {
        '0'
    } else if d == 1 {
        '1'
    } else if d == 2 {
        '2'
    } else if d == 3 {
        '3'
    } else if d == 4 {
        '4'
    } else if d == 5 {
        '5'
    } else if d == 6 {
        '6'
    } else if d == 7 {
        '7'
    } else if d == 8 {
        '8'
    } else {
        '9'
    }
}

/// The canonical decimal rendering of `n`: no sign, no leading zero
/// except for `n == 0` itself.
pub open spec fn dec_chars(n: nat) -> Seq<char>
    decreases n,
{
    if n < 10 {
        seq![digit_char(n)]
    } else {
        dec_chars(n / 10) + seq![digit_char(n % 10)]
    }
}

/// The decimal rendering is faithful: it is all digits and reads back as
/// the number it renders.
pub proof fn lemma_dec_chars_value(n: nat)
    ensures
        all_dec_digits(dec_chars(n)),
        dec_val(dec_chars(n)) == n,
    decreases n,
{
    if n < 10 {
        let s = dec_chars(n);
        assert(s =~= seq![digit_char(n)]);
        assert(s.drop_last() =~= Seq::<char>::empty());
        assert(s.last() == digit_char(n));
        assert(dec_val(s.drop_last()) == 0);
        assert(digit_val(digit_char(n)) == n);
        assert(dec_val(s) == dec_val(s.drop_last()) * 10 + digit_val(s.last()));
        assert(is_dec_digit(digit_char(n)));
    } else {
        lemma_dec_chars_value(n / 10);
        let pre = dec_chars(n / 10);
        let s = dec_chars(n);
        assert(s.drop_last() =~= pre);
        assert(s.last() == digit_char(n % 10));
        assert(digit_val(digit_char(n % 10)) == n % 10);
        assert(is_dec_digit(digit_char(n % 10)));
        assert(dec_val(s) == dec_val(pre) * 10 + digit_val(s.last()));
        assert(n / 10 * 10 + n % 10 == n);
        assert forall|k: int| 0 <= k < s.len() implies is_dec_digit(s[k]) by {
            if k < pre.len() {
                assert(s[k] == pre[k]);
            }
        }
    }
}

/// The lowercase hexadecimal digit character for `d` in `0..16`.
pub open spec fn hex_digit_char(d: nat) -> char {
    if d < 10 {
        digit_char(d)
    } else if d == 10 {
        'a'
    } else if d == 11 {
        'b'
    } else if d == 12 {
        'c'
    } else if d == 13 {
        'd'
    } else if d == 14 {
        'e'
    } else {
        'f'
    }
}

/// The lowercase hexadecimal rendering of a byte string, two digits per
/// byte, most significant nibble first.
pub open spec fn hex_chars(bytes: Seq<u8>) -> Seq<char>
    decreases bytes.len(),
{
    if bytes.len() == 0 {
        Seq::<char>::empty()
    } else {
        hex_chars(bytes.drop_last()) + seq![
            hex_digit_char((bytes.last() / 16) as nat),
            hex_digit_char((bytes.last() % 16) as nat),
        ]
    }
}

/// The one-character string for a decimal digit.
fn digit_str(d: u64) -> (s: &'static str)
    requires
        d < 10,
    ensures
        s@ =~= seq![digit_char(d as nat)],
{
    proof {
        reveal_strlit("0");
        reveal_strlit("1");
        reveal_strlit("2");
        reveal_strlit("3");
        reveal_strlit("4");
        reveal_strlit("5");
        reveal_strlit("6");
        reveal_strlit("7");
        reveal_strlit("8");
        reveal_strlit("9");
    }
    match d {
        0 => "0",
        1 => "1",
        2 => "2",
        3 => "3",
        4 => "4",
        5 => "5",
        6 => "6",
        7 => "7",
        8 => "8",
        _ => "9",
    }
}

/// The one-character string for a hexadecimal digit.
fn hex_digit_str(d: u64) -> (s: &'static str)
    requires
        d < 16,
    ensures
        s@ =~= seq![hex_digit_char(d as nat)],
{
    proof {
        reveal_strlit("a");
        reveal_strlit("b");
        reveal_strlit("c");
        reveal_strlit("d");
        reveal_strlit("e");
        reveal_strlit("f");
    }
    if d < 10 {
        digit_str(d)
    } else {
        match d {
            10 => "a",
            11 => "b",
            12 => "c",
            13 => "d",
            14 => "e",
            _ => "f",
        }
    }
}

/// Renders `n` in decimal.
pub fn u64_to_dec(n: u64) -> (s: String)
    ensures
        s@ == dec_chars(n as nat),
        all_dec_digits(s@),
        dec_val(s@) == n,
{
    proof {
        lemma_dec_chars_value(n as nat);
    }
    let mut s = String::new();
    let mut m: u64 = n;
    loop
        invariant
            m <= n,
            (m == n && s@ =~= Seq::<char>::empty()) || (m > 0 && dec_chars(n as nat) == dec_chars(
                m as nat,
            ) + s@) || (m == 0 && dec_chars(n as nat) == s@),
        ensures
            dec_chars(n as nat) == s@,
        decreases 2 * m + (if s@.len() == 0 { 1nat } else { 0nat }),
    {
        if m == 0 && s.as_str().unicode_len() > 0 {
            break ;
        }
        let ghost m_pre = m as nat;
        let ghost s_pre = s@;
        let d: u64 = m % 10;
        let mut t = digit_str(d).to_owned();
        t.append(s.as_str());
        s = t;
        m = m / 10;
        proof {
            if m_pre < 10 {
                assert(dec_chars(m_pre) =~= seq![digit_char(m_pre % 10)]);
            }
            assert(dec_chars(n as nat) == (if m > 0 {
                dec_chars(m as nat) + s@
            } else {
                s@
            }));
        }
        if m == 0 {
            break ;
        }
    }
    s
}

/// Renders a byte string in lowercase hexadecimal.
pub fn bytes_to_hex(bytes: &Vec<u8>) -> (s: String)
    ensures
        s@ == hex_chars(bytes@),
{
    let mut s = String::new();
    let mut i: usize = 0;
    while i < bytes.len()
        invariant
            i <= bytes.len(),
            s@ == hex_chars(bytes@.subrange(0, i as int)),
        decreases bytes.len() - i,
    {
        let b = bytes[i];
        s.append(hex_digit_str((b / 16) as u64));
        s.append(hex_digit_str((b % 16) as u64));
        i = i + 1;
        proof {
            let pre = bytes@.subrange(0, i - 1);
            let cur = bytes@.subrange(0, i as int);
            assert(cur.drop_last() =~= pre);
            assert(cur.last() == bytes@[i - 1]);
        }
    }
    proof {
        assert(bytes@.subrange(0, bytes@.len() as int) =~= bytes@);
    }
    s
}

/// Character-wise string equality.
pub fn str_eq(a: &str, b: &str) -> (r: bool)
    ensures
        r == (a@ == b@),
{
    let alen = a.unicode_len();
    let blen = b.unicode_len();
    if alen != blen {
        return false;
    }
    let mut i: usize = 0;
    while i < alen
        invariant
            alen == a@.len(),
            blen == b@.len(),
            alen == blen,
            i <= alen,
            forall|k: int| 0 <= k < i ==> a@[k] == b@[k],
        decreases alen - i,
    {
        if a.get_char(i) != b.get_char(i) {
            return false;
        }
        i = i + 1;
    }
    proof {
        assert(a@ =~= b@);
    }
    true
}

} // verus!
