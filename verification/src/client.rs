use vstd::prelude::*;

use crate::err::ModbusError;
use crate::frame::ModbusTCPHeader;
use crate::frame::spec_decode_frame;
use crate::frame::spec_encode_frame;
use crate::pdu;
use crate::pdu::ModbusRequest;
use crate::pdu::ModbusResponse;
use crate::pdu::ReadHoldingRegistersRequest;
use crate::transaction::TransactionManager;
use crate::transaction::TransactionRecord;

verus! {

/// Appends one request frame to `tx_buf`: the MBAP envelope with the given
/// transaction id and unit id, protocol id 0, around the request's PDU.
pub fn encode_req(tx_buf: &mut Vec<u8>, trans_id: u16, unit_id: u8, req: &ModbusRequest)
    ensures
        final(tx_buf)@ == old(tx_buf)@ + spec_encode_frame(
            trans_id,
            0,
            unit_id,
            pdu::spec_request_pdu(*req),
        ),
{
    let pdu_bytes = pdu::encode_request(req);
    let header = ModbusTCPHeader { trans_id, proto_id: 0, length: 0, unit_id };
    match header.encode(tx_buf, pdu_bytes.as_slice()) {
        Ok(()) => (),
        Err(_) => (),
    }
}

/// The client half of one logical connection: frames requests, hands the
/// bytes to the caller to write, and decodes and correlates what the caller
/// read, one transaction in flight at a time.
#[derive(Debug)]
pub struct ModbusClient {
    pub unit_id: u8,
    pub tm: TransactionManager,
}

impl ModbusClient {
    pub fn new(unit_id: u8, timeout_ms: u64) -> (r: Self)
        ensures
            r.unit_id == unit_id,
            r.tm.next_id == 0,
            r.tm.timeout_ms == timeout_ms,
            r.tm.outstanding is None,
    {
        ModbusClient { unit_id, tm: TransactionManager::new(timeout_ms) }
    }

    /// Frames one Read Holding Registers request and opens its transaction,
    /// returning the bytes for the caller to write. A quantity outside
    /// `1..=125` is refused with `InvalidQuantity` and a still-outstanding
    /// transaction with `SessionBusy`, both leaving the session untouched.
    pub fn read_holding_register(&mut self, address: u16, quantity: u16, now_ms: u64) -> (r: Result<
        Vec<u8>,
        ModbusError,
    >)
        ensures
            (quantity < 1 || quantity > pdu::MAX_QUANTITY) ==> r == Err::<Vec<u8>, ModbusError>(
                ModbusError::InvalidQuantity,
            ) && *final(self) == *old(self),
            1 <= quantity <= pdu::MAX_QUANTITY && old(self).tm.outstanding is Some ==> r == Err::<
                Vec<u8>,
                ModbusError,
            >(ModbusError::SessionBusy) && *final(self) == *old(self),
            1 <= quantity <= pdu::MAX_QUANTITY && old(self).tm.outstanding is None ==> {
                &&& r matches Ok(buf) && buf@ == spec_encode_frame(
                    old(self).tm.next_id,
                    0,
                    old(self).unit_id,
                    pdu::spec_encode_request_pdu(ReadHoldingRegistersRequest { address, quantity }),
                )
                &&& final(self).unit_id == old(self).unit_id
                &&& final(self).tm.outstanding == Some(
                    TransactionRecord {
                        id: old(self).tm.next_id,
                        sent_at: now_ms,
                        expected_function_code: pdu::READ_HOLDING_REGISTERS,
                    },
                )
                &&& final(self).tm.timeout_ms == old(self).tm.timeout_ms
                &&& final(self).tm.next_id == (if old(self).tm.next_id == 0xFFFF {
                    0u16
                } else {
                    (old(self).tm.next_id + 1) as u16
                })
            },
    {
        if quantity < 1 || quantity > pdu::MAX_QUANTITY {
            return Err(ModbusError::InvalidQuantity);
        }
        let id = match self.tm.send(pdu::READ_HOLDING_REGISTERS, now_ms) {
            Ok(id) => id,
            Err(e) => {
                return Err(e);
            },
        };
        let request = ReadHoldingRegistersRequest::new(address, quantity);
        let mut buf: Vec<u8> = Vec::new();
        encode_req(
            &mut buf,
            id,
            self.unit_id,
            &ModbusRequest::ReadHoldingRegistersRequest(request),
        );
        Ok(buf)
    }

    /// Decodes one inbound frame and correlates it with the outstanding
    /// transaction. A framing error, or a transaction id that does not match
    /// (`UnsolicitedResponse`), leaves the session untouched so the caller
    /// keeps waiting. A matching id closes the transaction — the session is
    /// idle again whatever the PDU held — and the response PDU is decoded.
    pub fn on_response(&mut self, rx: &[u8]) -> (r: Result<ModbusResponse, ModbusError>)
        ensures
            spec_decode_frame(rx@) matches Err(e) ==> r == Err::<ModbusResponse, ModbusError>(e)
                && *final(self) == *old(self),
            spec_decode_frame(rx@) matches Ok(t) ==> {
                let (header, function_code, payload) = t;
                match old(self).tm.outstanding {
                    None => r == Err::<ModbusResponse, ModbusError>(ModbusError::UnsolicitedResponse)
                        && *final(self) == *old(self),
                    Some(rec) => {
                        &&& header.trans_id != rec.id ==> r == Err::<ModbusResponse, ModbusError>(
                            ModbusError::UnsolicitedResponse,
                        ) && *final(self) == *old(self)
                        &&& header.trans_id == rec.id ==> {
                            &&& final(self).unit_id == old(self).unit_id
                            &&& final(self).tm.outstanding is None
                            &&& final(self).tm.next_id == old(self).tm.next_id
                            &&& final(self).tm.timeout_ms == old(self).tm.timeout_ms
                            &&& match pdu::spec_decode_response(function_code, payload) {
                                Ok(m) => r matches Ok(resp) && resp.model() == m,
                                Err(e) => r == Err::<ModbusResponse, ModbusError>(e),
                            }
                        }
                    },
                }
            },
    {
        let (header, function_code, payload) = match ModbusTCPHeader::decode(rx) {
            Ok(t) => t,
            Err(e) => {
                return Err(e);
            },
        };
        match self.tm.on_response(header.trans_id) {
            Ok(_) => (),
            Err(e) => {
                return Err(e);
            },
        }
        pdu::decode_response(function_code, payload.as_slice())
    }

    /// Fails the pending request with `RequestTimedOut` once more than the
    /// session's timeout has elapsed since it was sent, leaving the session
    /// idle and able to issue a fresh request; otherwise nothing changes.
    pub fn check_timeout(&mut self, now_ms: u64) -> (r: Result<(), ModbusError>)
        ensures
            final(self).unit_id == old(self).unit_id,
            match old(self).tm.outstanding {
                Some(rec) => {
                    &&& now_ms - rec.sent_at > old(self).tm.timeout_ms ==> r == Err::<
                        (),
                        ModbusError,
                    >(ModbusError::RequestTimedOut) && final(self).tm.outstanding is None
                        && final(self).tm.next_id == old(self).tm.next_id
                        && final(self).tm.timeout_ms == old(self).tm.timeout_ms
                    &&& now_ms - rec.sent_at <= old(self).tm.timeout_ms ==> r == Ok::<
                        (),
                        ModbusError,
                    >(()) && *final(self) == *old(self)
                },
                None => r == Ok::<(), ModbusError>(()) && *final(self) == *old(self),
            },
    {
        self.tm.check_timeout(now_ms)
    }
}

} // verus!
