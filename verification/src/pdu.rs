use vstd::prelude::*;

use crate::err::ModbusError;
use crate::wire;

verus! {

/// The function code of Read Holding Registers.
pub const READ_HOLDING_REGISTERS: u8 = 0x03;

/// The largest register count one Read Holding Registers exchange may carry.
pub const MAX_QUANTITY: u16 = 125;

/// The exception code for a function code the server does not support.
pub const ILLEGAL_FUNCTION: u8 = 0x01;

/// The exception code for a register range outside the store's extent.
pub const ILLEGAL_DATA_ADDRESS: u8 = 0x02;

/// The exception code for a request payload the server cannot accept.
pub const ILLEGAL_DATA_VALUE: u8 = 0x03;

/// A Read Holding Registers request: a starting register address and how many
/// consecutive registers to read. A quantity outside `1..=125` is never
/// accepted by a decoder.
#[derive(Clone, Copy, Debug, PartialEq, Eq, Structural)]
pub struct ReadHoldingRegistersRequest {
    pub address: u16,
    pub quantity: u16,
}

/// A decoded request PDU, one variant per supported function code.
#[derive(Clone, Copy, Debug, PartialEq, Eq, Structural)]
pub enum ModbusRequest {
    ReadHoldingRegistersRequest(ReadHoldingRegistersRequest),
}

/// A Read Holding Registers response: the register values, in address order.
#[derive(Debug, PartialEq, Eq)]
pub struct ReadHoldingRegisterResponse {
    pub values: Vec<u16>,
}

/// An exception response. `function_code` already carries the high bit that
/// marks the PDU as an exception; `exception_code` says why.
#[derive(Clone, Copy, Debug, PartialEq, Eq, Structural)]
pub struct ErrorResponse {
    pub function_code: u8,
    pub exception_code: u8,
}

/// A decoded response PDU: register values or an exception.
#[derive(Debug, PartialEq, Eq)]
pub enum ModbusResponse {
    ReadHoldingRegisterResponse(ReadHoldingRegisterResponse),
    Exception(ErrorResponse),
}

/// The mathematical content of a response, free of the executable containers.
pub enum ModbusResponseModel {
    Values(Seq<u16>),
    Exception(u8, u8),
}

impl ModbusResponse {
    pub open spec fn model(&self) -> ModbusResponseModel {
        match self {
            ModbusResponse::ReadHoldingRegisterResponse(resp) => ModbusResponseModel::Values(
                resp.values@,
            ),
            ModbusResponse::Exception(e) => ModbusResponseModel::Exception(
                e.function_code,
                e.exception_code,
            ),
        }
    }
}

/// The bytes of a Read Holding Registers request PDU: the function code, then
/// address and quantity big-endian.
pub open spec fn spec_encode_request_pdu(req: ReadHoldingRegistersRequest) -> Seq<u8> {
    seq![READ_HOLDING_REGISTERS] + wire::be16(req.address) + wire::be16(req.quantity)
}

/// The PDU bytes of any request variant.
pub open spec fn spec_request_pdu(req: ModbusRequest) -> Seq<u8> {
    match req {
        ModbusRequest::ReadHoldingRegistersRequest(inner) => spec_encode_request_pdu(inner),
    }
}

/// The PDU bytes of any response, by its mathematical content.
pub open spec fn spec_response_pdu(m: ModbusResponseModel) -> Seq<u8> {
    match m {
        ModbusResponseModel::Values(values) => spec_encode_response_pdu(values),
        ModbusResponseModel::Exception(function_code, exception_code) => seq![
            function_code,
            exception_code,
        ],
    }
}

/// What decoding a request payload (the bytes after the function code) as
/// Read Holding Registers yields.
pub open spec fn spec_decode_request_payload(p: Seq<u8>) -> Result<ModbusRequest, ModbusError> {
    if p.len() != 4 {
        Err(ModbusError::TruncatedFrame)
    } else {
        let quantity = wire::u16_of(p[2], p[3]);
        if quantity < 1 || quantity > MAX_QUANTITY {
            Err(ModbusError::InvalidQuantity)
        } else {
            Ok(
                ModbusRequest::ReadHoldingRegistersRequest(
                    ReadHoldingRegistersRequest { address: wire::u16_of(p[0], p[1]), quantity },
                ),
            )
        }
    }
}

/// What the request side of the registry yields for a function code and the
/// payload that followed it.
pub open spec fn spec_decode_request(function_code: u8, p: Seq<u8>) -> Result<
    ModbusRequest,
    ModbusError,
> {
    if function_code == READ_HOLDING_REGISTERS {
        spec_decode_request_payload(p)
    } else {
        Err(ModbusError::UnsupportedFunctionCode)
    }
}

/// The bytes of a Read Holding Registers response PDU: the function code, a
/// byte count of twice the value count, then the values big-endian.
pub open spec fn spec_encode_response_pdu(values: Seq<u16>) -> Seq<u8>
    recommends
        values.len() <= MAX_QUANTITY,
{
    seq![READ_HOLDING_REGISTERS, (2 * values.len()) as u8] + wire::be16_flat(values)
}

/// The bytes of an exception response PDU.
pub open spec fn spec_encode_exception_pdu(e: ErrorResponse) -> Seq<u8> {
    seq![e.function_code, e.exception_code]
}

/// The values read from consecutive big-endian byte pairs.
pub open spec fn spec_parse_values(p: Seq<u8>) -> Seq<u16>
    decreases p.len(),
{
    if p.len() < 2 {
        Seq::<u16>::empty()
    } else {
        seq![wire::u16_of(p[0], p[1])] + spec_parse_values(p.skip(2))
    }
}

/// What decoding a response payload (the bytes after the function code) as
/// Read Holding Registers yields: the byte count must be even, at most 250,
/// and cover exactly the bytes that follow it.
pub open spec fn spec_decode_response_payload(p: Seq<u8>) -> Result<Seq<u16>, ModbusError> {
    if p.len() < 1 {
        Err(ModbusError::TruncatedFrame)
    } else if p[0] % 2 != 0 || p[0] > 250 {
        Err(ModbusError::InvalidQuantity)
    } else if p.len() != 1 + p[0] {
        Err(ModbusError::TruncatedFrame)
    } else {
        Ok(spec_parse_values(p.skip(1)))
    }
}

/// What the response side of the registry yields for a function code and the
/// payload that followed it. A function code with the high bit set is an
/// exception response and carries exactly one exception code byte.
pub open spec fn spec_decode_response(function_code: u8, p: Seq<u8>) -> Result<
    ModbusResponseModel,
    ModbusError,
> {
    if function_code == READ_HOLDING_REGISTERS {
        match spec_decode_response_payload(p) {
            Ok(values) => Ok(ModbusResponseModel::Values(values)),
            Err(e) => Err(e),
        }
    } else if function_code >= 0x80 {
        if p.len() == 1 {
            Ok(ModbusResponseModel::Exception(function_code, p[0]))
        } else {
            Err(ModbusError::TruncatedFrame)
        }
    } else {
        Err(ModbusError::UnsupportedFunctionCode)
    }
}

impl ReadHoldingRegistersRequest {
    pub fn new(address: u16, quantity: u16) -> (r: Self)
        ensures
            r == (ReadHoldingRegistersRequest { address, quantity }),
    {
        ReadHoldingRegistersRequest { address, quantity }
    }

    /// The request PDU's bytes, function code first.
    pub fn encode(&self) -> (r: Vec<u8>)
        ensures
            r@ == spec_encode_request_pdu(*self),
    {
        let mut buf: Vec<u8> = Vec::new();
        wire::put_u8(&mut buf, READ_HOLDING_REGISTERS);
        wire::put_u16(&mut buf, self.address);
        wire::put_u16(&mut buf, self.quantity);
        assert(buf@ =~= spec_encode_request_pdu(*self));
        buf
    }
}

impl ModbusRequest {
    /// Decodes a Read Holding Registers request payload (the bytes after the
    /// function code), rejecting a quantity outside `1..=125`.
    pub fn new_read_holding_register_request(p: &[u8]) -> (r: Result<ModbusRequest, ModbusError>)
        ensures
            r == spec_decode_request_payload(p@),
    {
        if p.len() != 4 {
            return Err(ModbusError::TruncatedFrame);
        }
        let quantity = wire::get_u16_at(p, 2);
        if quantity < 1 || quantity > MAX_QUANTITY {
            return Err(ModbusError::InvalidQuantity);
        }
        let address = wire::get_u16_at(p, 0);
        Ok(ModbusRequest::ReadHoldingRegistersRequest(ReadHoldingRegistersRequest { address, quantity }))
    }
}

/// The request side of the registry: dispatches a function code to its
/// request decoder.
pub fn decode_request(function_code: u8, p: &[u8]) -> (r: Result<ModbusRequest, ModbusError>)
    ensures
        r == spec_decode_request(function_code, p@),
{
    if function_code == READ_HOLDING_REGISTERS {
        ModbusRequest::new_read_holding_register_request(p)
    } else {
        Err(ModbusError::UnsupportedFunctionCode)
    }
}

/// The request side of the registry: the PDU bytes of any request variant.
pub fn encode_request(req: &ModbusRequest) -> (r: Vec<u8>)
    ensures
        r@ == spec_request_pdu(*req),
{
    match req {
        ModbusRequest::ReadHoldingRegistersRequest(inner) => inner.encode(),
    }
}

impl ReadHoldingRegisterResponse {
    pub fn new(values: Vec<u16>) -> (r: Self)
        ensures
            r.values == values,
    {
        ReadHoldingRegisterResponse { values }
    }

    /// Twice the value count: what the byte-count field of the PDU carries.
    fn byte_len(&self) -> (r: u8)
        requires
            self.values@.len() <= MAX_QUANTITY,
        ensures
            r == 2 * self.values@.len(),
    {
        (self.values.len() * 2) as u8
    }

    /// The response PDU's bytes: function code, byte count, values.
    pub fn encode(&self) -> (r: Vec<u8>)
        requires
            self.values@.len() <= MAX_QUANTITY,
        ensures
            r@ == spec_encode_response_pdu(self.values@),
    {
        let mut buf: Vec<u8> = Vec::new();
        wire::put_u8(&mut buf, READ_HOLDING_REGISTERS);
        wire::put_u8(&mut buf, self.byte_len());
        let mut i: usize = 0;
        while i < self.values.len()
            invariant
                i <= self.values@.len(),
                self.values@.len() <= MAX_QUANTITY,
                buf@ == seq![READ_HOLDING_REGISTERS, (2 * self.values@.len()) as u8]
                    + wire::be16_flat(self.values@.take(i as int)),
            decreases self.values@.len() - i,
        {
            proof {
                wire::lemma_be16_flat_snoc(self.values@.take(i as int), self.values@[i as int]);
                assert(self.values@.take(i as int).push(self.values@[i as int]) =~= self.values@.take(
                    i as int + 1,
                ));
            }
            wire::put_u16(&mut buf, self.values[i]);
            i = i + 1;
        }
        proof {
            assert(self.values@.take(self.values@.len() as int) =~= self.values@);
        }
        assert(buf@ =~= spec_encode_response_pdu(self.values@));
        buf
    }

    /// Decodes a Read Holding Registers response payload (the bytes after the
    /// function code): the byte count, then that many value bytes, rejecting
    /// an odd or oversized byte count and a count that does not match the
    /// bytes present.
    pub fn decode2(p: &[u8]) -> (r: Result<ReadHoldingRegisterResponse, ModbusError>)
        ensures
            match spec_decode_response_payload(p@) {
                Ok(values) => r matches Ok(resp) && resp.values@ == values,
                Err(e) => r == Err::<ReadHoldingRegisterResponse, ModbusError>(e),
            },
    {
        if p.len() < 1 {
            return Err(ModbusError::TruncatedFrame);
        }
        let byte_count = wire::get_u8_at(p, 0);
        if byte_count % 2 != 0 || byte_count > 250 {
            return Err(ModbusError::InvalidQuantity);
        }
        if p.len() != 1 + byte_count as usize {
            return Err(ModbusError::TruncatedFrame);
        }
        let n: usize = byte_count as usize / 2;
        let mut values: Vec<u16> = Vec::new();
        let mut i: usize = 0;
        while i < n
            invariant
                i <= n,
                2 * n == byte_count,
                p@.len() == 1 + byte_count,
                values@.len() == i,
                forall|j: int|
                    0 <= j < i ==> values@[j] == wire::u16_of(p@[1 + 2 * j], p@[2 + 2 * j]),
            decreases n - i,
        {
            values.push(wire::get_u16_at(p, 1 + 2 * i));
            i = i + 1;
        }
        proof {
            lemma_parse_values_pointwise(p@.skip(1));
            assert(values@ =~= spec_parse_values(p@.skip(1)));
        }
        Ok(ReadHoldingRegisterResponse { values })
    }
}

impl ErrorResponse {
    pub fn new(function_code: u8, exception_code: u8) -> (r: Self)
        ensures
            r == (ErrorResponse { function_code, exception_code }),
    {
        ErrorResponse { function_code, exception_code }
    }

    /// The exception PDU's bytes: the flagged function code, then the
    /// exception code.
    pub fn encode(&self) -> (r: Vec<u8>)
        ensures
            r@ == spec_encode_exception_pdu(*self),
    {
        let mut buf: Vec<u8> = Vec::new();
        wire::put_u8(&mut buf, self.function_code);
        wire::put_u8(&mut buf, self.exception_code);
        assert(buf@ =~= spec_encode_exception_pdu(*self));
        buf
    }
}

/// The response side of the registry: dispatches a function code to its
/// response decoder; a code with the high bit set decodes as an exception.
pub fn decode_response(function_code: u8, p: &[u8]) -> (r: Result<ModbusResponse, ModbusError>)
    ensures
        match spec_decode_response(function_code, p@) {
            Ok(m) => r matches Ok(resp) && resp.model() == m,
            Err(e) => r == Err::<ModbusResponse, ModbusError>(e),
        },
{
    if function_code == READ_HOLDING_REGISTERS {
        match ReadHoldingRegisterResponse::decode2(p) {
            Ok(resp) => Ok(ModbusResponse::ReadHoldingRegisterResponse(resp)),
            Err(e) => Err(e),
        }
    } else if function_code >= 0x80 {
        if p.len() == 1 {
            Ok(
                ModbusResponse::Exception(
                    ErrorResponse { function_code, exception_code: wire::get_u8_at(p, 0) },
                ),
            )
        } else {
            Err(ModbusError::TruncatedFrame)
        }
    } else {
        Err(ModbusError::UnsupportedFunctionCode)
    }
}

/// Each value of a big-endian pair sequence sits at its own byte pair.
proof fn lemma_parse_values_pointwise(q: Seq<u8>)
    requires
        q.len() % 2 == 0,
    ensures
        spec_parse_values(q).len() == q.len() / 2,
        forall|j: int|
            0 <= j < q.len() / 2 ==> spec_parse_values(q)[j] == wire::u16_of(q[2 * j], q[2 * j + 1]),
    decreases q.len(),
{
    if q.len() >= 2 {
        lemma_parse_values_pointwise(q.skip(2));
        assert forall|j: int| 0 <= j < q.len() / 2 implies spec_parse_values(q)[j] == wire::u16_of(
            q[2 * j],
            q[2 * j + 1],
        ) by {
            if j > 0 {
                assert(spec_parse_values(q)[j] == spec_parse_values(q.skip(2))[j - 1]);
                assert(q.skip(2)[2 * (j - 1)] == q[2 * j]);
                assert(q.skip(2)[2 * (j - 1) + 1] == q[2 * j + 1]);
            }
        }
    }
}

/// Parsing the big-endian layout of a value sequence gives the sequence back.
proof fn lemma_parse_be16_flat(values: Seq<u16>)
    ensures
        spec_parse_values(wire::be16_flat(values)) == values,
    decreases values.len(),
{
    wire::lemma_be16_flat_len(values);
    if values.len() == 0 {
        assert(spec_parse_values(wire::be16_flat(values)) =~= values);
    } else {
        lemma_parse_be16_flat(values.skip(1));
        wire::lemma_be16_roundtrip(values[0]);
        let f = wire::be16_flat(values);
        assert(f.skip(2) =~= wire::be16_flat(values.skip(1)));
        assert(spec_parse_values(f) =~= values);
    }
}

/// Round trip: any valid Read Holding Registers request decodes, from its own
/// encoding's function code and payload, back to itself.
pub proof fn lemma_request_round_trip(req: ReadHoldingRegistersRequest)
    requires
        1 <= req.quantity <= MAX_QUANTITY,
    ensures
        spec_encode_request_pdu(req)[0] == READ_HOLDING_REGISTERS,
        spec_decode_request(spec_encode_request_pdu(req)[0], spec_encode_request_pdu(req).skip(1))
            == Ok::<ModbusRequest, ModbusError>(ModbusRequest::ReadHoldingRegistersRequest(req)),
{
    let pdu = spec_encode_request_pdu(req);
    let payload = pdu.skip(1);
    wire::lemma_be16_roundtrip(req.address);
    wire::lemma_be16_roundtrip(req.quantity);
    assert(payload =~= wire::be16(req.address) + wire::be16(req.quantity));
    assert(payload[0] == wire::be16(req.address)[0]);
    assert(payload[1] == wire::be16(req.address)[1]);
    assert(payload[2] == wire::be16(req.quantity)[0]);
    assert(payload[3] == wire::be16(req.quantity)[1]);
}

/// Round trip: any value sequence of at most 125 registers decodes, from its
/// own encoding's function code and payload, back to itself.
pub proof fn lemma_response_round_trip(values: Seq<u16>)
    requires
        values.len() <= MAX_QUANTITY,
    ensures
        spec_encode_response_pdu(values)[0] == READ_HOLDING_REGISTERS,
        spec_decode_response(
            spec_encode_response_pdu(values)[0],
            spec_encode_response_pdu(values).skip(1),
        ) == Ok::<ModbusResponseModel, ModbusError>(ModbusResponseModel::Values(values)),
{
    let pdu = spec_encode_response_pdu(values);
    let payload = pdu.skip(1);
    wire::lemma_be16_flat_len(values);
    assert(payload[0] == (2 * values.len()) as u8);
    assert(payload.len() == 1 + 2 * values.len());
    assert(payload.skip(1) =~= wire::be16_flat(values));
    lemma_parse_be16_flat(values);
}

/// An odd byte count is a decode failure, never a silently dropped byte.
pub proof fn lemma_odd_byte_count_rejected(p: Seq<u8>)
    requires
        p.len() >= 1,
        p[0] % 2 == 1,
    ensures
        spec_decode_response_payload(p) == Err::<Seq<u16>, ModbusError>(
            ModbusError::InvalidQuantity,
        ),
{
}

} // verus!
