//! The protocol framer: wraps one encoded image into a self-delimited
//! multipart part — boundary line, `Content-Length` and `Content-Type`
//! headers, a blank line, then the raw encoded bytes.
//!
//! Framing is deterministic and byte-exact; the declared length always
//! equals the exact byte count of the payload.

use crate::source::all_digits;
use crate::source::digits_value;
use vstd::prelude::*;

verus! {

/// The fixed boundary token, as it appears inside the content type:
/// `boundarydonotcross`, constant for the process lifetime.
pub open spec fn boundary_token() -> Seq<u8> {
    seq![98u8, 111u8, 117u8, 110u8, 100u8, 97u8, 114u8, 121u8, 100u8, 111u8, 110u8, 111u8, 116u8, 99u8, 114u8, 111u8, 115u8, 115u8]
}

/// The part up to and including `Content-Length:`, in ASCII:
/// `--boundarydonotcross\r\nContent-Length:`.
pub open spec fn header_prefix() -> Seq<u8> {
    seq![45u8, 45u8] + boundary_token() + seq![13u8, 10u8, 67u8, 111u8, 110u8, 116u8, 101u8, 110u8, 116u8, 45u8, 76u8, 101u8, 110u8, 103u8, 116u8, 104u8, 58u8]
}

/// The part between the length digits and the payload, in ASCII:
/// `\r\nContent-Type:image/jpeg\r\n\r\n`.
pub open spec fn header_middle() -> Seq<u8> {
    seq![13u8, 10u8, 67u8, 111u8, 110u8, 116u8, 101u8, 110u8, 116u8, 45u8, 84u8, 121u8, 112u8, 101u8, 58u8, 105u8, 109u8, 97u8, 103u8, 101u8, 47u8, 106u8, 112u8, 101u8, 103u8, 13u8, 10u8, 13u8, 10u8]
}

/// The ASCII decimal digits of `n`, most significant first, no sign and
/// no leading zero (`0` alone for zero).
pub open spec fn decimal_bytes(n: nat) -> Seq<u8>
    decreases n,
{
    if n < 10 {
        seq![(48 + n) as u8]
    } else {
        decimal_bytes(n / 10) + seq![(48 + n % 10) as u8]
    }
}

/// One whole protocol part for an encoded image: boundary line, exact
/// `Content-Length`, `Content-Type`, blank line, payload.
pub open spec fn framed_bytes(img: Seq<u8>) -> Seq<u8> {
    header_prefix() + decimal_bytes(img.len()) + header_middle() + img
}

/// The decimal text of `n` is all digits and denotes exactly `n`: the
/// declared length of a framed part is the exact byte count it frames.
pub proof fn lemma_decimal_bytes_value(n: nat)
    ensures
        all_digits(decimal_bytes(n)),
        digits_value(decimal_bytes(n)) == n,
    decreases n,
{
    if n < 10 {
        let s = decimal_bytes(n);
        assert(digits_value(Seq::<u8>::empty()) == 0);
        assert(s.drop_last() =~= Seq::<u8>::empty());
        assert(digits_value(s) == s.last() - 48);
    } else {
        lemma_decimal_bytes_value(n / 10);
        let rec = decimal_bytes(n / 10);
        let s = decimal_bytes(n);
        assert(s.drop_last() =~= rec);
        assert(s.last() == (48 + n % 10) as u8);
        assert(digits_value(s) == digits_value(rec) * 10 + n % 10);
        assert(forall|i: int| 0 <= i < rec.len() ==> s[i] == rec[i]);
    }
}

/// A framed part is self-delimited: the headers are followed by exactly
/// the payload's bytes and nothing else, so a consumer that cuts the
/// declared number of bytes after the blank line reads the payload
/// whole, with no trailing garbage.
pub proof fn lemma_framed_part_self_delimited(img: Seq<u8>)
    ensures
        framed_bytes(img).len() == header_prefix().len() + decimal_bytes(img.len()).len()
            + header_middle().len() + img.len(),
        framed_bytes(img).skip(
            framed_bytes(img).len() - img.len(),
        ) == img,
{
    let head = header_prefix() + decimal_bytes(img.len()) + header_middle();
    assert(framed_bytes(img) =~= head + img);
    assert((head + img).skip(head.len() as int) =~= img);
}

/// The ASCII decimal digits of `n`, as executable bytes.
pub fn decimal_digits(n: usize) -> (r: Vec<u8>)
    ensures
        r@ == decimal_bytes(n as nat),
    decreases n,
{
    if n < 10 {
        let mut v: Vec<u8> = Vec::new();
        v.push(48 + (n as u8));
        proof {
            assert(v@ =~= decimal_bytes(n as nat));
        }
        v
    } else {
        let mut v = decimal_digits(n / 10);
        v.push(48 + ((n % 10) as u8));
        proof {
            assert(v@ =~= decimal_bytes(n as nat));
        }
        v
    }
}

/// The header bytes up to and including `Content-Length:`.
fn header_prefix_bytes() -> (r: Vec<u8>)
    ensures
        r@ == header_prefix(),
{
    let mut v: Vec<u8> = Vec::new();
    v.push(45);
    v.push(45);
    v.push(98);
    v.push(111);
    v.push(117);
    v.push(110);
    v.push(100);
    v.push(97);
    v.push(114);
    v.push(121);
    v.push(100);
    v.push(111);
    v.push(110);
    v.push(111);
    v.push(116);
    v.push(99);
    v.push(114);
    v.push(111);
    v.push(115);
    v.push(115);
    v.push(13);
    v.push(10);
    v.push(67);
    v.push(111);
    v.push(110);
    v.push(116);
    v.push(101);
    v.push(110);
    v.push(116);
    v.push(45);
    v.push(76);
    v.push(101);
    v.push(110);
    v.push(103);
    v.push(116);
    v.push(104);
    v.push(58);
    proof {
        assert(v@ =~= header_prefix());
    }
    v
}

/// The header bytes between the length digits and the payload.
fn header_middle_bytes() -> (r: Vec<u8>)
    ensures
        r@ == header_middle(),
{
    let mut v: Vec<u8> = Vec::new();
    v.push(13);
    v.push(10);
    v.push(67);
    v.push(111);
    v.push(110);
    v.push(116);
    v.push(101);
    v.push(110);
    v.push(116);
    v.push(45);
    v.push(84);
    v.push(121);
    v.push(112);
    v.push(101);
    v.push(58);
    v.push(105);
    v.push(109);
    v.push(97);
    v.push(103);
    v.push(101);
    v.push(47);
    v.push(106);
    v.push(112);
    v.push(101);
    v.push(103);
    v.push(13);
    v.push(10);
    v.push(13);
    v.push(10);
    proof {
        assert(v@ =~= header_middle());
    }
    v
}

/// Frame one encoded image as a complete, byte-exact protocol part.
/// The payload is copied in whole; nothing follows it.
pub fn frame_payload(img: &Vec<u8>) -> (r: Vec<u8>)
    ensures
        r@ == framed_bytes(img@),
{
    let mut out = header_prefix_bytes();
    let mut digits = decimal_digits(img.len());
    out.append(&mut digits);
    let mut middle = header_middle_bytes();
    out.append(&mut middle);
    let ghost head = header_prefix() + decimal_bytes(img@.len()) + header_middle();
    proof {
        assert(out@ =~= head);
    }
    let mut i: usize = 0;
    while i < img.len()
        invariant
            i <= img@.len(),
            out@ == head + img@.take(i as int),
        decreases img.len() - i,
    {
        out.push(img[i]);
        proof {
            assert(head + img@.take(i as int) + seq![img@[i as int]] =~= head + img@.take(
                i as int + 1,
            ));
        }
        i = i + 1;
    }
    proof {
        assert(head + img@.take(img@.len() as int) =~= framed_bytes(img@));
    }
    out
}

} // verus!
