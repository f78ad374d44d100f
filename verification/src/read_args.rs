//! Arguments of the read operations.

use vstd::prelude::*;

use crate::device_id::DeviceIdentificationCode;

verus! {

/// Read status information from the remote bus.
#[derive(Clone, Debug)]
pub struct ReadArgs {
    pub function: ReadFuncs,
}

/// Which read operation to issue.
#[derive(Clone, Debug)]
pub enum ReadFuncs {
    /// Coil value(s).
    Coils(AddrQuantity),
    /// Input value(s).
    DiscreteInputs(AddrQuantity),
    /// Input register value(s).
    InputRegisters(AddrQuantity),
    /// Holding register value(s).
    HoldingRegisters(AddrQuantity),
    /// File record(s).
    FileRecords(FileReference),
    /// FIFO queue.
    FIFOQueue(QueueAddress),
    /// Device identification.
    DeviceIdentification(DeviceIdentification),
}

/// A starting address and how many entries to read.
#[derive(Clone, Copy, Debug, PartialEq, Eq, Structural)]
pub struct AddrQuantity {
    pub address: u16,
    pub quantity: u16,
}

/// Which record of which file to read, and how many words of it.
#[derive(Clone, Copy, Debug, PartialEq, Eq, Structural)]
pub struct FileReference {
    pub file_number: u16,
    pub starting_record: u16,
    pub record_length: u16,
}

/// Where the FIFO queue's pointer register lives.
#[derive(Clone, Copy, Debug, PartialEq, Eq, Structural)]
pub struct QueueAddress {
    pub pointer_address: u16,
}

/// Which identification tier and object to ask for.
#[derive(Clone, Copy, Debug, PartialEq, Eq, Structural)]
pub struct DeviceIdentification {
    pub device_id_code: DeviceIdentificationCode,
    pub object_id: u8,
}

} // verus!
