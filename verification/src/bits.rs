use crate::text::joined;
use vstd::prelude::*;

verus! {

/// The byte of `value` at position `k`, position 0 being the least significant.
pub open spec fn byte_of(value: u128, k: nat) -> u8 {
    ((value >> ((8 * k) as u128)) & 0xff) as u8
}

/// The binary digit of `byte` at position `i`, position 0 being the least significant.
pub open spec fn bit_char(byte: u8, i: nat) -> char {
    if (byte >> (i as u8)) & 1 == 1 {
        '1'
    } else {
        '0'
    }
}

/// The eight binary digits of `byte`, most significant first.
pub open spec fn byte_digits(byte: u8) -> Seq<char> {
    Seq::new(8, |j: int| bit_char(byte, (7 - j) as nat))
}

/// The `count` most significant bytes of `value`, most significant first.
pub open spec fn leading_bytes(value: u128, count: nat) -> Seq<u8> {
    Seq::new(count, |j: int| byte_of(value, (15 - j) as nat))
}

/// The digit groups of those among the `count` most significant bytes of
/// `value` that are not zero, in their order.
pub open spec fn shown_groups(value: u128, count: nat) -> Seq<Seq<char>> {
    leading_bytes(value, count).filter(|b: u8| b != 0).map_values(|b: u8| byte_digits(b))
}

/// What `tobin` writes for `value`: of its sixteen bytes, most significant
/// first, each that is not zero as eight binary digits, separated by spaces.
pub open spec fn tobin_spec(value: u128) -> Seq<char> {
    joined(shown_groups(value, 16), seq![' '])
}

/// A digit of a byte is `1` exactly where the bit of the value is set:
/// digit `i` of byte `k` stands for bit `8 * k + i`.
pub proof fn law_digit_is_bit(value: u128, k: nat, i: nat)
    requires
        k < 16,
        i < 8,
    ensures
        bit_char(byte_of(value, k), i) == '1' <==> value & (1u128 << ((8 * k + i) as u128)) != 0,
{
    let byte_index = k as u128;
    let bit_index = i as u8;
    assert(((((value >> (8 * byte_index)) & 0xff) as u8) >> bit_index) & 1 == 1 <==> value & (1u128
        << (8 * byte_index + bit_index as u128)) != 0) by (bit_vector)
        requires
            byte_index < 16,
            bit_index < 8,
    ;
    assert((8 * k) as u128 == 8 * byte_index);
    assert((8 * k + i) as u128 == 8 * byte_index + bit_index as u128);
}

/// One more byte is shown exactly when it is not zero.
proof fn lemma_shown_groups_step(value: u128, count: nat)
    requires
        count < 16,
    ensures
        shown_groups(value, count + 1) == if byte_of(value, (15 - count) as nat) == 0 {
            shown_groups(value, count)
        } else {
            shown_groups(value, count).push(byte_digits(byte_of(value, (15 - count) as nat)))
        },
{
    let b = byte_of(value, (15 - count) as nat);
    let shorter = leading_bytes(value, count);
    let longer = leading_bytes(value, count + 1);
    let keep = |b: u8| b != 0;
    let show = |b: u8| byte_digits(b);
    assert(longer.drop_last() =~= shorter);
    assert(longer.last() == b);
    reveal(Seq::filter);
    assert(longer.filter(keep) == if b != 0 {
        shorter.filter(keep).push(b)
    } else {
        shorter.filter(keep)
    });
    if b != 0 {
        assert(shorter.filter(keep).push(b).map_values(show) =~= shorter.filter(keep).map_values(
            show,
        ).push(byte_digits(b)));
    }
}

/// Appends the eight binary digits of `byte` to `text`.
fn push_byte_digits(text: &mut String, byte: u8)
    ensures
        final(text)@ == old(text)@ + byte_digits(byte),
{
    let mut i: u8 = 8;
    while i > 0
        invariant
            i <= 8,
            text@ == old(text)@ + byte_digits(byte).take(8 - i),
        decreases i,
    {
        i = i - 1;
        proof {
            reveal_strlit("1");
            reveal_strlit("0");
        }
        let ghost before = text@;
        if (byte >> i) & 1 == 1 {
            text.append("1");
        } else {
            text.append("0");
        }
        assert(text@ =~= before.push(bit_char(byte, i as nat)));
        assert(byte_digits(byte).take(8 - i) =~= byte_digits(byte).take(7 - i).push(
            bit_char(byte, i as nat),
        ));
    }
    assert(byte_digits(byte).take(8) =~= byte_digits(byte));
}

/// Writes `value` in binary, byte by byte from the most significant: each
/// byte that is not zero as eight digits, the bytes separated by single
/// spaces. Zero bytes are left out wherever they stand, so zero gives the
/// empty string.
pub fn tobin(value: u128) -> (text: String)
    ensures
        text@ == tobin_spec(value),
{
    let mut text = String::new();
    let mut any = false;
    let mut k: u32 = 16;
    assert(shown_groups(value, 0) =~= Seq::<Seq<char>>::empty()) by {
        reveal(Seq::filter);
    }
    while k > 0
        invariant
            k <= 16,
            text@ == joined(shown_groups(value, (16 - k) as nat), seq![' ']),
            any == (shown_groups(value, (16 - k) as nat).len() > 0),
        decreases k,
    {
        proof {
            lemma_shown_groups_step(value, (16 - k) as nat);
        }
        k = k - 1;
        let byte: u8 = ((value >> ((8 * k) as u128)) & 0xff) as u8;
        assert(byte == byte_of(value, k as nat));
        if byte != 0 {
            let ghost shown = shown_groups(value, (15 - k) as nat);
            if any {
                proof {
                    reveal_strlit(" ");
                }
                text.append(" ");
                assert(text@ =~= joined(shown, seq![' ']) + seq![' ']);
            }
            push_byte_digits(&mut text, byte);
            any = true;
            assert(shown.push(byte_digits(byte)).drop_last() =~= shown);
            assert(text@ =~= joined(shown.push(byte_digits(byte)), seq![' ']));
        }
    }
    text
}

} // verus!
