use vstd::prelude::*;

verus! {

/// Everything that can go wrong while framing, encoding, decoding or
/// correlating Modbus exchanges.
///
/// Framing-level errors (`TruncatedFrame`, `UnexpectedProtocolId`) are
/// unrecoverable for the connection that produced them; PDU-level errors
/// (`InvalidQuantity`, `IllegalDataAddress`, `UnsupportedFunctionCode`) are
/// recovered into an exception response by the server; the rest are
/// client-local outcomes that leave the connection usable.
#[derive(Clone, Copy, Debug, PartialEq, Eq, Structural)]
pub enum ModbusError {
    TruncatedFrame,
    UnexpectedProtocolId,
    EncodingOverflow,
    InvalidQuantity,
    IllegalDataAddress,
    UnsolicitedResponse,
    RequestTimedOut,
    SessionBusy,
    UnsupportedFunctionCode,
}

} // verus!
