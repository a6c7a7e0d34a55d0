//! The line codec: renders a protocol frame into its canonical ASCII line.
//!
//! The line grammar is one marker letter (`t`/`r` for a standard-identifier
//! data/remote frame, `T`/`R` for an extended-identifier one), the identifier
//! in uppercase hexadecimal zero-padded to 3 digits (standard) or 8 digits
//! (extended), one hexadecimal digit for the data-length code, for data
//! frames `2 × length` hexadecimal payload digits with the most significant
//! nibble of each byte first, and a single carriage-return terminator.
//!
//! The output buffer is bounded: the longest legal line is the one of an
//! extended-identifier data frame with 8 payload bytes.

use vstd::prelude::*;

use crate::driver::DriverFrame;
use crate::protocol::ProtocolFrame;
use crate::protocol::ProtocolFrameView;
use crate::protocol::ProtocolId;
use crate::translate::bxcan_to_canserial;
use crate::translate::spec_to_protocol;

verus! {

/// The carriage-return byte that terminates every encoded line.
pub const CR: u8 = 13;

/// The ASCII byte of one hexadecimal digit, uppercase.
pub open spec fn spec_hex_digit(n: u8) -> u8 {
    if n < 10 {
        (48 + n) as u8
    } else {
        (55 + n) as u8
    }
}

/// The value `v` in uppercase hexadecimal, zero-padded to `width` digits,
/// most significant digit first.
pub open spec fn spec_hex_u32(v: u32, width: nat) -> Seq<u8> {
    Seq::new(width, |i: int| spec_hex_digit(((v >> ((4 * (width - 1 - i)) as u32)) & 0xF) as u8))
}

/// The payload bytes in hexadecimal: two digits per byte, most significant
/// nibble first.
pub open spec fn spec_payload_hex(s: Seq<u8>) -> Seq<u8> {
    Seq::new(
        2 * s.len(),
        |i: int|
            if i % 2 == 0 {
                spec_hex_digit(s[i / 2] >> 4)
            } else {
                spec_hex_digit(s[i / 2] & 0x0F)
            },
    )
}

/// The marker letter of a frame: lowercase for a standard identifier,
/// uppercase for an extended one; `t`/`T` for data, `r`/`R` for remote.
pub open spec fn spec_marker(f: ProtocolFrameView) -> u8 {
    match f.id {
        ProtocolId::Standard(_) => if f.remote {
            114u8
        } else {
            116u8
        },
        ProtocolId::Extended(_) => if f.remote {
            82u8
        } else {
            84u8
        },
    }
}

/// The identifier rendered in hexadecimal: 3 digits for a standard
/// identifier, 8 for an extended one.
pub open spec fn spec_id_hex(id: ProtocolId) -> Seq<u8> {
    match id {
        ProtocolId::Standard(v) => spec_hex_u32(v as u32, 3),
        ProtocolId::Extended(v) => spec_hex_u32(v, 8),
    }
}

/// The complete ASCII line of a protocol frame, terminator included.
pub open spec fn spec_encode(f: ProtocolFrameView) -> Seq<u8> {
    seq![spec_marker(f)] + spec_id_hex(f.id) + seq![spec_hex_digit(f.dlc)] + (if f.remote {
        Seq::<u8>::empty()
    } else {
        spec_payload_hex(f.data)
    }) + seq![CR]
}

/// One hexadecimal digit, uppercase.
fn hex_digit(n: u8) -> (r: u8)
    requires
        n < 16,
    ensures
        r == spec_hex_digit(n),
{
    if n < 10 {
        48 + n
    } else {
        55 + n
    }
}

/// Appends `v` in uppercase hexadecimal, zero-padded to `width` digits.
fn push_hex(out: &mut Vec<u8>, v: u32, width: usize)
    requires
        width <= 8,
    ensures
        final(out)@ == old(out)@ + spec_hex_u32(v, width as nat),
{
    let ghost init: Seq<u8> = out@;
    let ghost digits: Seq<u8> = spec_hex_u32(v, width as nat);
    for i in 0..width
        invariant
            width <= 8,
            digits == spec_hex_u32(v, width as nat),
            digits.len() == width,
            out@ == init + digits.take(i as int),
    {
        let sh: u32 = (4 * (width - 1 - i)) as u32;
        let nib: u8 = ((v >> sh) & 0xF) as u8;
        proof {
            assert((v >> sh) & 0xF < 16) by (bit_vector);
            assert(sh == (4 * (width as nat - 1 - i)) as u32);
            assert(digits[i as int] == spec_hex_digit(nib));
        }
        let d = hex_digit(nib);
        out.push(d);
        proof {
            assert(out@ =~= init + digits.take(i + 1));
        }
    }
    proof {
        assert(digits.take(width as int) =~= digits);
    }
}

/// Appends the payload bytes as hexadecimal digit pairs.
fn push_payload_hex(out: &mut Vec<u8>, data: &Vec<u8>)
    ensures
        final(out)@ == old(out)@ + spec_payload_hex(data@),
{
    let ghost init: Seq<u8> = out@;
    let ghost digits: Seq<u8> = spec_payload_hex(data@);
    let n = data.len();
    for i in 0..n
        invariant
            n == data@.len(),
            digits == spec_payload_hex(data@),
            digits.len() == 2 * n,
            out@ == init + digits.take(2 * i as int),
    {
        let b = data[i];
        let hi = b >> 4;
        let lo = b & 0x0F;
        proof {
            assert(b >> 4 < 16 && b & 0x0F < 16) by (bit_vector);
            assert(digits[2 * i as int] == spec_hex_digit(hi));
            assert(digits[2 * i as int + 1] == spec_hex_digit(lo));
        }
        let dh = hex_digit(hi);
        let dl = hex_digit(lo);
        out.push(dh);
        out.push(dl);
        proof {
            assert(out@ =~= init + digits.take(2 * (i + 1)));
        }
    }
    proof {
        assert(digits.take(2 * n as int) =~= digits);
    }
}

/// Renders a well-formed protocol frame into its ASCII line, terminator
/// included.  The result is exactly the line grammar of [`spec_encode`]; it
/// never exceeds 27 bytes and always ends with the carriage-return byte.
pub fn encode_frame(frame: &ProtocolFrame) -> (r: Vec<u8>)
    requires
        frame@.wf(),
    ensures
        r@ == spec_encode(frame@),
        r@.len() <= 27,
        r@.len() >= 1 && r@.last() == CR,
{
    let mut out: Vec<u8> = Vec::new();
    let extended = match frame.id {
        ProtocolId::Extended(_) => true,
        ProtocolId::Standard(_) => false,
    };
    let marker: u8 = if frame.remote {
        if extended {
            82
        } else {
            114
        }
    } else {
        if extended {
            84
        } else {
            116
        }
    };
    out.push(marker);
    match frame.id {
        ProtocolId::Standard(v) => push_hex(&mut out, v as u32, 3),
        ProtocolId::Extended(v) => push_hex(&mut out, v, 8),
    }
    let d = hex_digit(frame.dlc);
    out.push(d);
    if !frame.remote {
        push_payload_hex(&mut out, &frame.data);
    }
    out.push(CR);
    proof {
        assert(out@ =~= spec_encode(frame@));
    }
    out
}

/// Converts a driver frame to the protocol representation and renders it as
/// an ASCII line.  Fails exactly when the frame conversion itself fails;
/// rendering never fails for a structurally valid protocol frame.
pub fn bxcan_to_vec(bxcan_frame: &DriverFrame) -> (r: Option<Vec<u8>>)
    ensures
        r is Some <==> spec_to_protocol(bxcan_frame@) is Some,
        r matches Some(v) ==> spec_to_protocol(bxcan_frame@) matches Some(p) && v@ == spec_encode(p)
            && v@.len() <= 27 && v@.last() == CR,
{
    let frame = match bxcan_to_canserial(bxcan_frame) {
        Some(f) => f,
        None => {
            return None;
        },
    };
    Some(encode_frame(&frame))
}

/// Law: for every well-formed protocol frame, the rendered ASCII line ends
/// with the carriage-return byte and never exceeds 27 bytes; for every frame
/// but an extended-identifier data frame carrying the full 8-byte payload it
/// fits in 26 bytes, terminator included.
pub proof fn lemma_encoding_length_bound(f: ProtocolFrameView)
    requires
        f.wf(),
    ensures
        spec_encode(f).len() <= 27,
        spec_encode(f).last() == CR,
        !(f.id is Extended && !f.remote && f.dlc == 8) ==> spec_encode(f).len() <= 26,
{
}

/// Every digit of a zero-padded hexadecimal rendering is an ASCII digit or an
/// uppercase letter `A`–`F`.
proof fn lemma_hex_u32_printable(v: u32, width: nat)
    ensures
        forall|i: int| 0 <= i < width ==> 48 <= #[trigger] spec_hex_u32(v, width)[i] <= 70,
{
    assert forall|i: int| 0 <= i < width implies 48 <= #[trigger] spec_hex_u32(v, width)[i]
        <= 70 by {
        let sh = (4 * (width - 1 - i)) as u32;
        let x = v >> sh;
        assert(x & 0xF < 16) by (bit_vector);
    }
}

/// Every digit of a payload rendering is an ASCII digit or an uppercase
/// letter `A`–`F`.
proof fn lemma_payload_hex_printable(s: Seq<u8>)
    ensures
        forall|i: int|
            0 <= i < spec_payload_hex(s).len() ==> 48 <= #[trigger] spec_payload_hex(s)[i] <= 70,
{
    assert forall|i: int| 0 <= i < spec_payload_hex(s).len() implies 48
        <= #[trigger] spec_payload_hex(s)[i] <= 70 by {
        let b = s[i / 2];
        assert(b >> 4 < 16) by (bit_vector);
        assert(b & 0x0F < 16) by (bit_vector);
    }
}

/// Law: the rendered line is printable ASCII throughout — every byte before
/// the terminator lies in the printable range — and only the final byte is
/// the carriage-return control character.
pub proof fn lemma_encoding_printable(f: ProtocolFrameView)
    requires
        f.wf(),
    ensures
        forall|i: int|
            0 <= i < spec_encode(f).len() - 1 ==> 32 <= #[trigger] spec_encode(f)[i] <= 126,
        spec_encode(f).last() == CR,
{
    let idh = spec_id_hex(f.id);
    let pl = if f.remote {
        Seq::<u8>::empty()
    } else {
        spec_payload_hex(f.data)
    };
    match f.id {
        ProtocolId::Standard(v) => lemma_hex_u32_printable(v as u32, 3),
        ProtocolId::Extended(v) => lemma_hex_u32_printable(v, 8),
    }
    lemma_payload_hex_printable(f.data);
    let e = spec_encode(f);
    assert forall|i: int| 0 <= i < e.len() - 1 implies 32 <= #[trigger] e[i] <= 126 by {
        if i == 0 {
            assert(e[i] == spec_marker(f));
        } else if i <= idh.len() {
            assert(e[i] == idh[i - 1]);
        } else if i == idh.len() + 1 {
            assert(e[i] == spec_hex_digit(f.dlc));
        } else {
            assert(e[i] == pl[i - (idh.len() + 2)]);
        }
    }
}

} // verus!
