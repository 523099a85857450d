use vstd::prelude::*;

use crate::err::ModbusError;
use crate::wire;

verus! {

/// A length that fits a 16-bit field, or 0 where it does not.
pub fn conv_u16(len: usize) -> (r: u16)
    ensures
        len <= 65535 ==> r == len,
        len > 65535 ==> r == 0,
{
    if len <= 65535 {
        len as u16
    } else {
        0
    }
}

/// The 7-byte MBAP envelope around a PDU: transaction id, protocol id,
/// declared length (one more than the PDU's byte length) and unit id.
#[derive(Clone, Copy, Debug, PartialEq, Eq, Structural)]
pub struct ModbusTCPHeader {
    pub trans_id: u16,
    pub proto_id: u16,
    pub length: u16,
    pub unit_id: u8,
}

/// A full frame: header fields followed by the PDU bytes (function code
/// first). The declared length counts the unit id and the PDU.
pub open spec fn spec_encode_frame(trans_id: u16, proto_id: u16, unit_id: u8, pdu: Seq<u8>) -> Seq<u8>
    recommends
        pdu.len() <= 65534,
{
    wire::be16(trans_id) + wire::be16(proto_id) + wire::be16((pdu.len() + 1) as u16) + seq![unit_id]
        + pdu
}

/// What decoding a buffer as one frame yields: the header, the function code
/// and the payload that follows it, cut to the declared length.
pub open spec fn spec_decode_frame(b: Seq<u8>) -> Result<(ModbusTCPHeader, u8, Seq<u8>), ModbusError> {
    if b.len() < 7 {
        Err(ModbusError::TruncatedFrame)
    } else {
        let header = ModbusTCPHeader {
            trans_id: wire::u16_of(b[0], b[1]),
            proto_id: wire::u16_of(b[2], b[3]),
            length: wire::u16_of(b[4], b[5]),
            unit_id: b[6],
        };
        if header.length < 2 || b.len() < 6 + header.length {
            Err(ModbusError::TruncatedFrame)
        } else if header.proto_id != 0 {
            Err(ModbusError::UnexpectedProtocolId)
        } else {
            Ok((header, b[7], b.subrange(8, 6 + header.length)))
        }
    }
}

impl ModbusTCPHeader {
    /// Appends one frame around `inner_buf` (the PDU: function code first) to
    /// `write_buf`, computing the declared length; refuses a PDU whose length
    /// would not fit the 16-bit field.
    pub fn encode(&self, write_buf: &mut Vec<u8>, inner_buf: &[u8]) -> (r: Result<(), ModbusError>)
        ensures
            inner_buf@.len() <= 65534 ==> r is Ok && final(write_buf)@ == old(write_buf)@
                + spec_encode_frame(self.trans_id, self.proto_id, self.unit_id, inner_buf@),
            inner_buf@.len() > 65534 ==> r == Err::<(), ModbusError>(ModbusError::EncodingOverflow)
                && final(write_buf)@ == old(write_buf)@,
    {
        if inner_buf.len() > 65534 {
            return Err(ModbusError::EncodingOverflow);
        }
        wire::put_u16(write_buf, self.trans_id);
        wire::put_u16(write_buf, self.proto_id);
        wire::put_u16(write_buf, conv_u16(inner_buf.len() + 1));
        wire::put_u8(write_buf, self.unit_id);
        wire::put_slice(write_buf, inner_buf);
        assert(final(write_buf)@ == old(write_buf)@ + spec_encode_frame(
            self.trans_id,
            self.proto_id,
            self.unit_id,
            inner_buf@,
        ));
        Ok(())
    }

    /// Reads the fixed header, the function code and the payload the declared
    /// length covers. Fails with `TruncatedFrame` where fewer bytes are
    /// available than the header or its declared length asks for, and with
    /// `UnexpectedProtocolId` where the protocol id of a whole frame is not 0.
    pub fn decode(p: &[u8]) -> (r: Result<(ModbusTCPHeader, u8, Vec<u8>), ModbusError>)
        ensures
            match spec_decode_frame(p@) {
                Ok((header, function_code, payload)) => r matches Ok(t) && t.0 == header && t.1
                    == function_code && t.2@ == payload,
                Err(e) => r == Err::<(ModbusTCPHeader, u8, Vec<u8>), ModbusError>(e),
            },
    {
        if p.len() < 7 {
            return Err(ModbusError::TruncatedFrame);
        }
        let header = ModbusTCPHeader {
            trans_id: wire::get_u16_at(p, 0),
            proto_id: wire::get_u16_at(p, 2),
            length: wire::get_u16_at(p, 4),
            unit_id: wire::get_u8_at(p, 6),
        };
        if header.length < 2 || p.len() < 6 + header.length as usize {
            return Err(ModbusError::TruncatedFrame);
        }
        if header.proto_id != 0 {
            return Err(ModbusError::UnexpectedProtocolId);
        }
        let function_code = wire::get_u8_at(p, 7);
        let end: usize = 6 + header.length as usize;
        let mut payload: Vec<u8> = Vec::new();
        let mut i: usize = 8;
        while i < end
            invariant
                8 <= i <= end,
                end == 6 + header.length,
                end <= p@.len(),
                payload@ == p@.subrange(8, i as int),
            decreases end - i,
        {
            payload.push(wire::get_u8_at(p, i));
            i = i + 1;
            assert(payload@ == p@.subrange(8, i as int));
        }
        Ok((header, function_code, payload))
    }
}

/// Every encoded frame declares a length of exactly one more than the byte
/// length of its PDU.
pub proof fn lemma_frame_header_length(trans_id: u16, proto_id: u16, unit_id: u8, pdu: Seq<u8>)
    requires
        pdu.len() <= 65534,
    ensures
        spec_encode_frame(trans_id, proto_id, unit_id, pdu).len() == 7 + pdu.len(),
        wire::u16_of(
            spec_encode_frame(trans_id, proto_id, unit_id, pdu)[4],
            spec_encode_frame(trans_id, proto_id, unit_id, pdu)[5],
        ) == 1 + pdu.len(),
{
    wire::lemma_be16_roundtrip((pdu.len() + 1) as u16);
}

/// Decoding an encoded frame gives back its header fields, its function code
/// and its payload, whenever the protocol id is 0 and the PDU carries at
/// least its function code byte.
pub proof fn lemma_frame_round_trip(trans_id: u16, unit_id: u8, pdu: Seq<u8>)
    requires
        1 <= pdu.len() <= 65534,
    ensures
        spec_decode_frame(spec_encode_frame(trans_id, 0, unit_id, pdu)) == Ok::<
            (ModbusTCPHeader, u8, Seq<u8>),
            ModbusError,
        >(
            (
                ModbusTCPHeader {
                    trans_id,
                    proto_id: 0,
                    length: (pdu.len() + 1) as u16,
                    unit_id,
                },
                pdu[0],
                pdu.skip(1),
            ),
        ),
{
    let f = spec_encode_frame(trans_id, 0, unit_id, pdu);
    wire::lemma_be16_roundtrip(trans_id);
    wire::lemma_be16_roundtrip(0);
    wire::lemma_be16_roundtrip((pdu.len() + 1) as u16);
    assert(f.subrange(8, 6 + (pdu.len() + 1) as int) =~= pdu.skip(1));
}

} // verus!
