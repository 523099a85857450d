use vstd::prelude::*;

use crate::err::ModbusError;
use crate::pdu::ModbusResponse;
use crate::pdu::ReadHoldingRegisterResponse;

verus! {

/// A mutation of the register store, one variant per write-capable operation
/// a function code may ask for.
#[derive(Clone, Copy, Debug, PartialEq, Eq, Structural)]
pub enum RegisterOperation {
    WriteSingle { address: u16, value: u16 },
}

/// The server-side addressable memory: one 16-bit value per address, from 0
/// up to the configured extent.
#[derive(Debug)]
pub struct RegisterStore {
    registers: Vec<u16>,
}

impl RegisterStore {
    /// The store's contents by address.
    pub closed spec fn regs(&self) -> Seq<u16> {
        self.registers@
    }

    pub fn new(values: Vec<u16>) -> (r: Self)
        ensures
            r.regs() == values@,
    {
        RegisterStore { registers: values }
    }

    /// How many registers the store holds.
    pub fn extent(&self) -> (r: usize)
        ensures
            r == self.regs().len(),
    {
        self.registers.len()
    }

    /// The `quantity` registers from `address` on, in address order; fails
    /// with `IllegalDataAddress` where the range leaves the store's extent.
    pub fn read(&self, address: u16, quantity: u16) -> (r: Result<Vec<u16>, ModbusError>)
        ensures
            address + quantity <= self.regs().len() ==> (r matches Ok(v) && v@ == self.regs()
                .subrange(address as int, address + quantity)),
            address + quantity > self.regs().len() ==> r == Err::<Vec<u16>, ModbusError>(
                ModbusError::IllegalDataAddress,
            ),
    {
        let end: usize = address as usize + quantity as usize;
        if end > self.registers.len() {
            return Err(ModbusError::IllegalDataAddress);
        }
        let mut out: Vec<u16> = Vec::new();
        let mut i: usize = address as usize;
        while i < end
            invariant
                address <= i <= end,
                end == address + quantity,
                end <= self.regs().len(),
                out@ == self.regs().subrange(address as int, i as int),
            decreases end - i,
        {
            out.push(self.registers[i]);
            i = i + 1;
            assert(out@ =~= self.regs().subrange(address as int, i as int));
        }
        Ok(out)
    }

    /// Applies one write operation; fails with `IllegalDataAddress` where the
    /// written address leaves the store's extent, leaving the store as it
    /// was.
    pub fn apply(&mut self, op: RegisterOperation) -> (r: Result<(), ModbusError>)
        ensures
            match op {
                RegisterOperation::WriteSingle { address, value } => {
                    &&& address < old(self).regs().len() ==> r is Ok && final(self).regs() == old(self).regs().update(address as int, value)
                    &&& address >= old(self).regs().len() ==> r == Err::<(), ModbusError>(
                        ModbusError::IllegalDataAddress,
                    ) && final(self).regs() == old(self).regs()
                },
            },
    {
        match op {
            RegisterOperation::WriteSingle { address, value } => {
                if (address as usize) < self.registers.len() {
                    self.registers[address as usize] = value;
                    Ok(())
                } else {
                    Err(ModbusError::IllegalDataAddress)
                }
            },
        }
    }
}

/// The demonstration operate hook: steps every register up by one and answers
/// with the stepped values. It is an example of business semantics behind the
/// protocol core, not a protocol behaviour.
pub fn operate(values: &mut Vec<u16>) -> (r: ModbusResponse)
    requires
        forall|i: int| 0 <= i < old(values)@.len() ==> old(values)@[i] < 0xFFFF,
    ensures
        final(values)@.len() == old(values)@.len(),
        forall|i: int| 0 <= i < old(values)@.len() ==> final(values)@[i] == old(values)@[i] + 1,
        r matches ModbusResponse::ReadHoldingRegisterResponse(resp) && resp.values@
            == final(values)@,
{
    let n: usize = values.len();
    let mut new_values: Vec<u16> = Vec::new();
    let mut i: usize = 0;
    while i < n
        invariant
            i <= n,
            n == values@.len(),
            old(values)@.len() == n,
            forall|j: int| 0 <= j < n ==> old(values)@[j] < 0xFFFF,
            forall|j: int| i <= j < n ==> values@[j] == old(values)@[j],
            forall|j: int| 0 <= j < i ==> values@[j] == old(values)@[j] + 1,
            new_values@.len() == i,
            forall|j: int| 0 <= j < i ==> new_values@[j] == values@[j],
        decreases n - i,
    {
        let stepped: u16 = values[i] + 1;
        values[i] = stepped;
        new_values.push(stepped);
        i = i + 1;
    }
    assert(new_values@ =~= values@);
    ModbusResponse::ReadHoldingRegisterResponse(ReadHoldingRegisterResponse::new(new_values))
}

} // verus!
