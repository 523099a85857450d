use vstd::prelude::*;

use crate::err::ModbusError;

verus! {

/// The record of the single in-flight request of one logical connection:
/// its transaction id, when it was sent, and the function code its response
/// is expected to answer.
#[derive(Clone, Copy, Debug, PartialEq, Eq, Structural)]
pub struct TransactionRecord {
    pub id: u16,
    pub sent_at: u64,
    pub expected_function_code: u8,
}

/// Allocates transaction identifiers, tracks at most one outstanding request,
/// matches an inbound response to it by transaction id, and times it out.
/// Idle means no record is outstanding.
#[derive(Clone, Copy, Debug)]
pub struct TransactionManager {
    pub next_id: u16,
    pub timeout_ms: u64,
    pub outstanding: Option<TransactionRecord>,
}

impl TransactionManager {
    pub fn new(timeout_ms: u64) -> (r: Self)
        ensures
            r.next_id == 0,
            r.timeout_ms == timeout_ms,
            r.outstanding is None,
    {
        TransactionManager { next_id: 0, timeout_ms, outstanding: None }
    }

    /// Legal only from idle: allocates the next transaction id (wrapping from
    /// `u16::MAX` back to 0), records when the request left and what function
    /// code its response must answer, and moves to awaiting a response. From
    /// any other state the caller is turned away with `SessionBusy` and
    /// nothing changes.
    pub fn send(&mut self, expected_function_code: u8, now_ms: u64) -> (r: Result<u16, ModbusError>)
        ensures
            old(self).outstanding is Some ==> r == Err::<u16, ModbusError>(ModbusError::SessionBusy)
                && *final(self) == *old(self),
            old(self).outstanding is None ==> {
                &&& r == Ok::<u16, ModbusError>(old(self).next_id)
                &&& final(self).outstanding == Some(
                    TransactionRecord {
                        id: old(self).next_id,
                        sent_at: now_ms,
                        expected_function_code,
                    },
                )
                &&& final(self).next_id == (if old(self).next_id == 0xFFFF {
                    0u16
                } else {
                    (old(self).next_id + 1) as u16
                })
                &&& final(self).timeout_ms == old(self).timeout_ms
            },
    {
        if self.outstanding.is_some() {
            return Err(ModbusError::SessionBusy);
        }
        let id = self.next_id;
        self.next_id = if self.next_id == 0xFFFF {
            0
        } else {
            self.next_id + 1
        };
        self.outstanding = Some(
            TransactionRecord { id, sent_at: now_ms, expected_function_code },
        );
        Ok(id)
    }

    /// Offers an inbound frame's transaction id. One that does not match the
    /// single outstanding record — or arrives with none outstanding — is
    /// discarded as `UnsolicitedResponse` with nothing changed, so the caller
    /// keeps waiting. A matching id clears the record, returns the expected
    /// function code and moves back to idle.
    pub fn on_response(&mut self, trans_id: u16) -> (r: Result<u8, ModbusError>)
        ensures
            match old(self).outstanding {
                Some(rec) => {
                    &&& trans_id == rec.id ==> r == Ok::<u8, ModbusError>(
                        rec.expected_function_code,
                    ) && final(self).outstanding is None && final(self).next_id == old(self).next_id && final(self).timeout_ms == old(self).timeout_ms
                    &&& trans_id != rec.id ==> r == Err::<u8, ModbusError>(
                        ModbusError::UnsolicitedResponse,
                    ) && *final(self) == *old(self)
                },
                None => r == Err::<u8, ModbusError>(ModbusError::UnsolicitedResponse) && *final(self) == *old(self),
            },
    {
        match self.outstanding {
            Some(rec) => {
                if trans_id == rec.id {
                    self.outstanding = None;
                    Ok(rec.expected_function_code)
                } else {
                    Err(ModbusError::UnsolicitedResponse)
                }
            },
            None => Err(ModbusError::UnsolicitedResponse),
        }
    }

    /// Fails the pending request with `RequestTimedOut` once more than the
    /// configured timeout has elapsed since it was sent, moving back to idle
    /// so a fresh request (with a fresh id) may follow; otherwise nothing
    /// changes.
    pub fn check_timeout(&mut self, now_ms: u64) -> (r: Result<(), ModbusError>)
        ensures
            match old(self).outstanding {
                Some(rec) => {
                    &&& now_ms - rec.sent_at > old(self).timeout_ms ==> r == Err::<(), ModbusError>(
                        ModbusError::RequestTimedOut,
                    ) && final(self).outstanding is None && final(self).next_id == old(self).next_id && final(self).timeout_ms == old(self).timeout_ms
                    &&& now_ms - rec.sent_at <= old(self).timeout_ms ==> r == Ok::<(), ModbusError>(
                        (),
                    ) && *final(self) == *old(self)
                },
                None => r == Ok::<(), ModbusError>(()) && *final(self) == *old(self),
            },
    {
        match self.outstanding {
            Some(rec) => {
                if now_ms > rec.sent_at && now_ms - rec.sent_at > self.timeout_ms {
                    self.outstanding = None;
                    Err(ModbusError::RequestTimedOut)
                } else {
                    Ok(())
                }
            },
            None => Ok(()),
        }
    }
}

} // verus!
