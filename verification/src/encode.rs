//! Text encodings of bytes and numbers: lowercase hexadecimal and decimal.

use vstd::prelude::*;

verus! {

/// `String::push` appends one character to the text and changes nothing else.
pub assume_specification[ String::push ](s: &mut String, c: char)
    ensures
        final(s)@ == old(s)@.push(c),
;

/// The lowercase hexadecimal digit for a value below sixteen.
pub open spec fn hex_digit(n: int) -> char {
    if n == 0 {
        '0'
    } else if n == 1 {
        '1'
    } else if n == 2 {
        '2'
    } else if n == 3 {
        '3'
    } else if n == 4 {
        '4'
    } else if n == 5 {
        '5'
    } else if n == 6 {
        '6'
    } else if n == 7 {
        '7'
    } else if n == 8 {
        '8'
    } else if n == 9 {
        '9'
    } else if n == 10 {
        'a'
    } else if n == 11 {
        'b'
    } else if n == 12 {
        'c'
    } else if n == 13 {
        'd'
    } else if n == 14 {
        'e'
    } else {
        'f'
    }
}

/// Whether a character is one of `0`..`9`, `a`..`f`.
pub open spec fn is_lower_hex_char(c: char) -> bool {
    exists|n: int| 0 <= n < 16 && c == #[trigger] hex_digit(n)
}

/// The character at position `k` of the hexadecimal text of `bytes`: the high
/// half of a byte stands before its low half.
pub open spec fn hex_char_at(bytes: Seq<u8>, k: int) -> char {
    if k % 2 == 0 {
        hex_digit(bytes[k / 2] as int / 16)
    } else {
        hex_digit(bytes[k / 2] as int % 16)
    }
}

/// The lowercase hexadecimal text of a byte string, two characters per byte.
pub open spec fn hex_text(bytes: Seq<u8>) -> Seq<char> {
    Seq::new(2 * bytes.len(), |k: int| hex_char_at(bytes, k))
}

/// The decimal text of a natural number, without leading zeros.
pub open spec fn decimal_text(n: nat) -> Seq<char>
    decreases n,
{
    if n < 10 {
        seq![hex_digit(n as int)]
    } else {
        decimal_text(n / 10).push(hex_digit((n % 10) as int))
    }
}

/// Every character of a hexadecimal text is a lowercase hexadecimal digit,
/// and the text is twice as long as the bytes.
pub proof fn lemma_hex_text_shape(bytes: Seq<u8>)
    ensures
        hex_text(bytes).len() == 2 * bytes.len(),
        forall|k: int| 0 <= k < 2 * bytes.len() ==> is_lower_hex_char(#[trigger] hex_text(bytes)[k]),
{
    assert forall|k: int| 0 <= k < 2 * bytes.len() implies is_lower_hex_char(
        #[trigger] hex_text(bytes)[k],
    ) by {
        let b = bytes[k / 2] as int;
        if k % 2 == 0 {
            assert(hex_text(bytes)[k] == hex_digit(b / 16));
        } else {
            assert(hex_text(bytes)[k] == hex_digit(b % 16));
        }
    }
}

/// Whether a character is one of `0`..`9`.
pub open spec fn is_decimal_char(c: char) -> bool {
    exists|n: int| 0 <= n < 10 && c == #[trigger] hex_digit(n)
}

/// A decimal text is not empty, holds decimal digits only, and begins with
/// `0` only where the number is zero.
pub proof fn lemma_decimal_text_shape(n: nat)
    ensures
        decimal_text(n).len() >= 1,
        forall|k: int| 0 <= k < decimal_text(n).len() ==> is_decimal_char(#[trigger] decimal_text(n)[k]),
        decimal_text(n)[0] == '0' <==> n == 0,
    decreases n,
{
    if n < 10 {
        assert(decimal_text(n)[0] == hex_digit(n as int));
    } else {
        lemma_decimal_text_shape(n / 10);
        let head = decimal_text(n / 10);
        let d = (n % 10) as int;
        assert(decimal_text(n) == head.push(hex_digit(d)));
        assert forall|k: int| 0 <= k < decimal_text(n).len() implies is_decimal_char(
            #[trigger] decimal_text(n)[k],
        ) by {
            if k < head.len() {
                assert(decimal_text(n)[k] == head[k]);
            } else {
                assert(decimal_text(n)[k] == hex_digit(d));
            }
        }
        assert(decimal_text(n)[0] == head[0]);
    }
}

/// The decimal text determines the number.
pub proof fn lemma_decimal_text_injective(m: nat, n: nat)
    requires
        decimal_text(m) == decimal_text(n),
    ensures
        m == n,
    decreases m,
{
    lemma_decimal_text_shape(m);
    lemma_decimal_text_shape(n);
    if m < 10 && n < 10 {
        assert(decimal_text(m)[0] == hex_digit(m as int));
        assert(decimal_text(n)[0] == hex_digit(n as int));
        lemma_hex_digit_injective(m as int, n as int);
    } else if m >= 10 && n >= 10 {
        let a = decimal_text(m / 10);
        let b = decimal_text(n / 10);
        assert(decimal_text(m) == a.push(hex_digit((m % 10) as int)));
        assert(decimal_text(n) == b.push(hex_digit((n % 10) as int)));
        assert(a =~= decimal_text(m).drop_last());
        assert(b =~= decimal_text(n).drop_last());
        assert(decimal_text(m).last() == hex_digit((m % 10) as int));
        assert(decimal_text(n).last() == hex_digit((n % 10) as int));
        lemma_hex_digit_injective((m % 10) as int, (n % 10) as int);
        lemma_decimal_text_injective(m / 10, n / 10);
    } else if m < 10 {
        lemma_decimal_text_shape(n / 10);
        assert(decimal_text(n).len() == decimal_text(n / 10).len() + 1);
        assert(decimal_text(m).len() == 1);
    } else {
        lemma_decimal_text_shape(m / 10);
        assert(decimal_text(m).len() == decimal_text(m / 10).len() + 1);
        assert(decimal_text(n).len() == 1);
    }
}

/// Different values below sixteen have different digits.
pub proof fn lemma_hex_digit_injective(m: int, n: int)
    requires
        0 <= m < 16,
        0 <= n < 16,
        hex_digit(m) == hex_digit(n),
    ensures
        m == n,
{
}

/// The hexadecimal text determines the bytes: two byte strings with the same
/// text are the same.
pub proof fn lemma_hex_text_injective(a: Seq<u8>, b: Seq<u8>)
    requires
        hex_text(a) == hex_text(b),
    ensures
        a == b,
{
    assert(hex_text(a).len() == 2 * a.len());
    assert(hex_text(b).len() == 2 * b.len());
    assert forall|i: int| 0 <= i < a.len() implies a[i] == b[i] by {
        let x = a[i] as int;
        let y = b[i] as int;
        assert(hex_text(a)[2 * i] == hex_char_at(a, 2 * i));
        assert(hex_text(b)[2 * i] == hex_char_at(b, 2 * i));
        assert(hex_text(a)[2 * i + 1] == hex_char_at(a, 2 * i + 1));
        assert(hex_text(b)[2 * i + 1] == hex_char_at(b, 2 * i + 1));
        assert((2 * i) / 2 == i && (2 * i) % 2 == 0);
        assert((2 * i + 1) / 2 == i && (2 * i + 1) % 2 == 1);
        lemma_hex_digit_injective(x / 16, y / 16);
        lemma_hex_digit_injective(x % 16, y % 16);
    }
    assert(a =~= b);
}

/// The hexadecimal digit of a value below sixteen.
pub fn hex_digit_char(n: u8) -> (c: char)
    requires
        n < 16,
    ensures
        c == hex_digit(n as int),
{
    if n == 0 {
        '0'
    } else if n == 1 {
        '1'
    } else if n == 2 {
        '2'
    } else if n == 3 {
        '3'
    } else if n == 4 {
        '4'
    } else if n == 5 {
        '5'
    } else if n == 6 {
        '6'
    } else if n == 7 {
        '7'
    } else if n == 8 {
        '8'
    } else if n == 9 {
        '9'
    } else if n == 10 {
        'a'
    } else if n == 11 {
        'b'
    } else if n == 12 {
        'c'
    } else if n == 13 {
        'd'
    } else if n == 14 {
        'e'
    } else {
        'f'
    }
}

/// Appends the hexadecimal text of `bytes` to `out`.
pub fn push_hex(out: &mut String, bytes: &Vec<u8>)
    ensures
        final(out)@ == old(out)@ + hex_text(bytes@),
{
    let ghost before = out@;
    let mut i: usize = 0;
    while i < bytes.len()
        invariant
            i <= bytes.len(),
            out@.len() == before.len() + 2 * i,
            out@.subrange(0, before.len() as int) == before,
            forall|k: int| 0 <= k < 2 * i ==> out@[before.len() + k] == hex_char_at(bytes@, k),
        decreases bytes.len() - i,
    {
        let b: u8 = bytes[i];
        let ghost prev = out@;
        out.push(hex_digit_char(b / 16));
        out.push(hex_digit_char(b % 16));
        proof {
            assert(out@ == prev.push(hex_digit(b as int / 16)).push(hex_digit(b as int % 16)));
            assert(out@.subrange(0, before.len() as int) =~= prev.subrange(
                0,
                before.len() as int,
            ));
            assert forall|k: int| 0 <= k < 2 * (i + 1) implies out@[before.len() + k]
                == hex_char_at(bytes@, k) by {
                if k < 2 * i {
                    assert(out@[before.len() + k] == prev[before.len() + k]);
                }
            }
        }
        i += 1;
    }
    proof {
        assert(out@ =~= before + hex_text(bytes@));
    }
}

/// The lowercase hexadecimal text of `bytes`.
pub fn hex_encode(bytes: &Vec<u8>) -> (out: String)
    ensures
        out@ == hex_text(bytes@),
{
    let mut out = String::new();
    push_hex(&mut out, bytes);
    proof {
        assert(Seq::<char>::empty() + hex_text(bytes@) =~= hex_text(bytes@));
    }
    out
}

/// Appends the decimal text of `n` to `out`.
pub fn push_decimal(out: &mut String, n: usize)
    ensures
        final(out)@ == old(out)@ + decimal_text(n as nat),
    decreases n,
{
    let ghost before = out@;
    if n >= 10 {
        push_decimal(out, n / 10);
    }
    let d: u8 = (n % 10) as u8;
    out.push(hex_digit_char(d));
    proof {
        if n >= 10 {
            assert(out@ =~= before + decimal_text((n / 10) as nat).push(hex_digit((n % 10) as int)));
        } else {
            assert(out@ =~= before + seq![hex_digit(n as int)]);
        }
    }
}

/// The decimal text of `n`.
pub fn decimal(n: usize) -> (out: String)
    ensures
        out@ == decimal_text(n as nat),
{
    let mut out = String::new();
    push_decimal(&mut out, n);
    proof {
        assert(Seq::<char>::empty() + decimal_text(n as nat) =~= decimal_text(n as nat));
    }
    out
}

} // verus!
