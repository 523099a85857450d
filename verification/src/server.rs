use vstd::prelude::*;

use crate::err::ModbusError;
use crate::frame::ModbusTCPHeader;
use crate::frame::spec_decode_frame;
use crate::frame::spec_encode_frame;
use crate::pdu;
use crate::pdu::ErrorResponse;
use crate::pdu::ModbusRequest;
use crate::pdu::ModbusResponse;
use crate::pdu::ReadHoldingRegisterResponse;
use crate::store::RegisterStore;

verus! {

/// The response PDU a server owes for one decoded function code and payload,
/// given the register contents: the registers read, or an exception whose
/// function code carries the high bit and whose code says why — unsupported
/// function, unreadable payload, or a range outside the extent.
pub open spec fn spec_server_pdu(function_code: u8, payload: Seq<u8>, regs: Seq<u16>) -> Seq<u8> {
    if function_code != pdu::READ_HOLDING_REGISTERS {
        seq![function_code | 0x80, pdu::ILLEGAL_FUNCTION]
    } else {
        match pdu::spec_decode_request_payload(payload) {
            Err(_) => seq![0x83u8, pdu::ILLEGAL_DATA_VALUE],
            Ok(ModbusRequest::ReadHoldingRegistersRequest(inner)) => {
                if inner.address + inner.quantity > regs.len() {
                    seq![0x83u8, pdu::ILLEGAL_DATA_ADDRESS]
                } else {
                    pdu::spec_encode_response_pdu(
                        regs.subrange(inner.address as int, inner.address + inner.quantity),
                    )
                }
            },
        }
    }
}

/// The whole of one server step: a frame the codec refuses is the
/// connection's error; any other frame is answered with a response frame that
/// echoes the request's transaction id and unit id.
pub open spec fn spec_server_response(rx: Seq<u8>, regs: Seq<u16>) -> Result<Seq<u8>, ModbusError> {
    match spec_decode_frame(rx) {
        Err(e) => Err(e),
        Ok((header, function_code, payload)) => Ok(
            spec_encode_frame(
                header.trans_id,
                0,
                header.unit_id,
                spec_server_pdu(function_code, payload, regs),
            ),
        ),
    }
}

/// One server step over one inbound frame: decode, execute against the
/// store, and frame the response under the request's transaction id. An
/// `Err` is a header-level framing failure, on which the caller closes the
/// connection; every PDU-level failure is answered in-band as an exception
/// response.
pub fn handle_frame(rx: &[u8], store: &RegisterStore) -> (r: Result<Vec<u8>, ModbusError>)
    ensures
        match spec_server_response(rx@, store.regs()) {
            Ok(resp) => r matches Ok(v) && v@ == resp,
            Err(e) => r == Err::<Vec<u8>, ModbusError>(e),
        },
{
    let (header, function_code, payload) = match ModbusTCPHeader::decode(rx) {
        Ok(t) => t,
        Err(e) => {
            return Err(e);
        },
    };
    let pdu_bytes: Vec<u8>;
    if function_code != pdu::READ_HOLDING_REGISTERS {
        pdu_bytes = ErrorResponse::new(function_code | 0x80, pdu::ILLEGAL_FUNCTION).encode();
    } else {
        match ModbusRequest::new_read_holding_register_request(payload.as_slice()) {
            Err(_) => {
                pdu_bytes = ErrorResponse::new(0x83, pdu::ILLEGAL_DATA_VALUE).encode();
            },
            Ok(ModbusRequest::ReadHoldingRegistersRequest(inner)) => {
                match store.read(inner.address, inner.quantity) {
                    Err(_) => {
                        pdu_bytes = ErrorResponse::new(0x83, pdu::ILLEGAL_DATA_ADDRESS).encode();
                    },
                    Ok(values) => {
                        let resp = ReadHoldingRegisterResponse::new(values);
                        pdu_bytes = resp.encode();
                        proof {
                            crate::wire::lemma_be16_flat_len(resp.values@);
                        }
                    },
                }
            },
        }
    }
    assert(pdu_bytes@ == spec_server_pdu(function_code, payload@, store.regs()));
    let out_header = ModbusTCPHeader {
        trans_id: header.trans_id,
        proto_id: 0,
        length: 0,
        unit_id: header.unit_id,
    };
    let mut out: Vec<u8> = Vec::new();
    match out_header.encode(&mut out, pdu_bytes.as_slice()) {
        Ok(()) => Ok(out),
        Err(e) => Err(e),
    }
}

/// Frames one response under the transaction id and unit id of the request
/// it answers: the MBAP envelope with protocol id 0 around the response's
/// PDU.
pub fn gen_write_buf(trans_id: u16, unit_id: u8, resp: &ModbusResponse) -> (r: Vec<u8>)
    requires
        resp matches ModbusResponse::ReadHoldingRegisterResponse(inner) ==> inner.values@.len()
            <= pdu::MAX_QUANTITY,
    ensures
        r@ == spec_encode_frame(trans_id, 0, unit_id, pdu::spec_response_pdu(resp.model())),
{
    let pdu_bytes: Vec<u8> = match resp {
        ModbusResponse::ReadHoldingRegisterResponse(inner) => {
            proof {
                crate::wire::lemma_be16_flat_len(inner.values@);
            }
            inner.encode()
        },
        ModbusResponse::Exception(e) => e.encode(),
    };
    let header = ModbusTCPHeader { trans_id, proto_id: 0, length: 0, unit_id };
    let mut out: Vec<u8> = Vec::new();
    match header.encode(&mut out, pdu_bytes.as_slice()) {
        Ok(()) => (),
        Err(_) => (),
    }
    out
}

} // verus!
