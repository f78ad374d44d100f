//! Arguments of the write operations.

use vstd::prelude::*;

verus! {

/// Write values to the remote bus.
#[derive(Clone, Debug)]
pub struct WriteArgs {
    pub function: WriteFuncs,
}

/// Which write operation to issue.
#[derive(Clone, Debug)]
pub enum WriteFuncs {
    /// Single coil.
    Coil(SingleCoil),
    /// Multiple coils.
    Coils(MultiCoil),
    /// Single register.
    Register(SingleRegister),
    /// Multiple registers.
    Registers(MultiRegister),
    /// File record(s).
    FileRecord(FileRecord),
}

/// One coil and the status to set it to.
#[derive(Clone, Copy, Debug, PartialEq, Eq, Structural)]
pub struct SingleCoil {
    pub address: u16,
    pub status: bool,
}

/// A run of coils and the statuses to set them to.
#[derive(Clone, Debug)]
pub struct MultiCoil {
    pub starting_address: u16,
    pub status: Vec<bool>,
}

/// One register and the value to write.
#[derive(Clone, Copy, Debug, PartialEq, Eq, Structural)]
pub struct SingleRegister {
    pub address: u16,
    pub value: u16,
}

/// A run of registers and the values to write.
#[derive(Clone, Debug)]
pub struct MultiRegister {
    pub starting_address: u16,
    pub value: Vec<u16>,
}

/// Which record of which file to write, and the words to put there.
#[derive(Clone, Debug)]
pub struct FileRecord {
    pub file_number: u16,
    pub record_number: u16,
    pub record_data: Vec<u16>,
}

} // verus!
