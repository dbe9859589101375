//! The lines that go out before the image: a status line, the content type,
//! and the length of what follows, in decimal.

use vstd::prelude::*;
use crate::envelope::FILE_BYTES;

verus! {

/// The port on which requests are taken.
pub const LISTEN_PORT: u16 = 80;

/// The decimal digits of a number as ASCII bytes, without leading zeros.
pub open spec fn decimal(value: nat) -> Seq<u8>
    decreases value,
{
    if value < 10 {
        seq![(48 + value) as u8]
    } else {
        decimal(value / 10).push((48 + value % 10) as u8)
    }
}

/// `HTTP/1.1 200` and a line feed.
pub open spec fn status_line() -> Seq<u8> {
    seq![
        0x48u8, 0x54u8, 0x54u8, 0x50u8, 0x2Fu8, 0x31u8, 0x2Eu8, 0x31u8, 0x20u8, 0x32u8, 0x30u8,
        0x30u8, 0x0Au8,
    ]
}

/// `Content-Type: image/bmp` and a line feed.
pub open spec fn content_type_line() -> Seq<u8> {
    seq![
        0x43u8, 0x6Fu8, 0x6Eu8, 0x74u8, 0x65u8, 0x6Eu8, 0x74u8, 0x2Du8, 0x54u8, 0x79u8, 0x70u8,
        0x65u8, 0x3Au8, 0x20u8, 0x69u8, 0x6Du8, 0x61u8, 0x67u8, 0x65u8, 0x2Fu8, 0x62u8, 0x6Du8,
        0x70u8, 0x0Au8,
    ]
}

/// `Content-Length: ` without the number.
pub open spec fn content_length_label() -> Seq<u8> {
    seq![
        0x43u8, 0x6Fu8, 0x6Eu8, 0x74u8, 0x65u8, 0x6Eu8, 0x74u8, 0x2Du8, 0x4Cu8, 0x65u8, 0x6Eu8,
        0x67u8, 0x74u8, 0x68u8, 0x3Au8, 0x20u8,
    ]
}

/// The whole preamble: the three lines, the last of them declaring the
/// length of the file that follows, and an empty line.
pub open spec fn preamble() -> Seq<u8> {
    status_line() + content_type_line() + content_length_label() + decimal(FILE_BYTES as nat)
        + seq![0x0Au8, 0x0Au8]
}

/// The declared length reads `77878`, and the preamble is 60 bytes long.
pub proof fn preamble_text()
    ensures
        decimal(FILE_BYTES as nat) == seq![0x37u8, 0x37u8, 0x38u8, 0x37u8, 0x38u8],
        preamble().len() == 60,
        preamble().subrange(0, 13) == status_line(),
{
    reveal_with_fuel(decimal, 6);
    assert(decimal(7) =~= seq![0x37u8]);
    assert(decimal(77) =~= seq![0x37u8, 0x37u8]);
    assert(decimal(778) =~= seq![0x37u8, 0x37u8, 0x38u8]);
    assert(decimal(7787) =~= seq![0x37u8, 0x37u8, 0x38u8, 0x37u8]);
    assert(decimal(77878) =~= seq![0x37u8, 0x37u8, 0x38u8, 0x37u8, 0x38u8]);
    assert(preamble().subrange(0, 13) =~= status_line());
}

/// Appends the decimal digits of `value`.
pub fn push_decimal(out: &mut Vec<u8>, value: u32)
    ensures
        final(out)@ == old(out)@ + decimal(value as nat),
{
    let mut digits: Vec<u8> = Vec::new();
    let mut rest: u32 = value;
    while rest >= 10
        invariant
            forall|head: Seq<u8>|
                head + decimal(value as nat) == #[trigger] (head + decimal(rest as nat))
                    + digits@.reverse(),
        decreases rest,
    {
        let digit: u8 = 48 + (rest % 10) as u8;
        proof {
            let next = (rest / 10) as nat;
            assert forall|head: Seq<u8>|
                head + decimal(value as nat) == #[trigger] (head + decimal(next))
                    + digits@.push(digit).reverse() by {
                assert(digits@.push(digit).reverse() =~= seq![digit] + digits@.reverse());
                assert(head + decimal(rest as nat) =~= (head + decimal(next)) + seq![digit]);
                assert((head + decimal(next)) + (seq![digit] + digits@.reverse()) =~= ((head
                    + decimal(next)) + seq![digit]) + digits@.reverse());
            }
        }
        digits.push(digit);
        rest = rest / 10;
    }
    out.push(48 + rest as u8);
    let ghost front = out@;
    assert(front =~= old(out)@ + decimal(rest as nat));
    let mut left: usize = digits.len();
    while left > 0
        invariant
            left <= digits@.len(),
            out@ == front + digits@.reverse().subrange(0, digits@.len() - left),
        decreases left,
    {
        left -= 1;
        let ghost before = out@;
        out.push(digits[left]);
        proof {
            let turned = digits@.reverse();
            assert(turned[digits@.len() - 1 - left] == digits@[left as int]);
            assert(out@ =~= front + turned.subrange(0, digits@.len() - left));
        }
    }
    proof {
        assert(digits@.reverse().subrange(0, digits@.len() as int) =~= digits@.reverse());
    }
}

/// Appends the bytes of `part`.
fn push_all(out: &mut Vec<u8>, part: &[u8])
    ensures
        final(out)@ == old(out)@ + part@,
{
    let mut at: usize = 0;
    while at < part.len()
        invariant
            at <= part@.len(),
            out@ == old(out)@ + part@.subrange(0, at as int),
        decreases part@.len() - at,
    {
        out.push(part[at]);
        at += 1;
        proof {
            assert(out@ =~= old(out)@ + part@.subrange(0, at as int));
        }
    }
    proof {
        assert(part@.subrange(0, at as int) =~= part@);
    }
}

/// Builds the preamble.
pub fn response_preamble() -> (bytes: Vec<u8>)
    ensures
        bytes@ == preamble(),
{
    let status: [u8; 13] = [
        0x48, 0x54, 0x54, 0x50, 0x2F, 0x31, 0x2E, 0x31, 0x20, 0x32, 0x30, 0x30, 0x0A,
    ];
    let content_type: [u8; 24] = [
        0x43, 0x6F, 0x6E, 0x74, 0x65, 0x6E, 0x74, 0x2D, 0x54, 0x79, 0x70, 0x65, 0x3A, 0x20, 0x69,
        0x6D, 0x61, 0x67, 0x65, 0x2F, 0x62, 0x6D, 0x70, 0x0A,
    ];
    let label: [u8; 16] = [
        0x43, 0x6F, 0x6E, 0x74, 0x65, 0x6E, 0x74, 0x2D, 0x4C, 0x65, 0x6E, 0x67, 0x74, 0x68, 0x3A,
        0x20,
    ];
    let mut bytes: Vec<u8> = Vec::new();
    push_all(&mut bytes, status.as_slice());
    assert(bytes@ =~= status_line());
    push_all(&mut bytes, content_type.as_slice());
    assert(bytes@ =~= status_line() + content_type_line());
    push_all(&mut bytes, label.as_slice());
    assert(bytes@ =~= status_line() + content_type_line() + content_length_label());
    push_decimal(&mut bytes, FILE_BYTES);
    bytes.push(0x0A);
    bytes.push(0x0A);
    proof {
        assert(bytes@ =~= preamble());
    }
    bytes
}

} // verus!
