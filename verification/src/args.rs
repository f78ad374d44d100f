//! Top-level invocation arguments and the custom-request input.

use vstd::prelude::*;

use crate::read_args::ReadArgs;
use crate::uri::ModbusUri;
use crate::write_args::WriteArgs;

verus! {

/// One invocation: where to connect, how to address the terminal, where the
/// results go, and which action to run.
#[derive(Clone, Debug)]
pub struct Args {
    /// Connection target. For RTU the port carries the bitrate.
    pub uri: ModbusUri,
    /// Local terminal id for RTU communication.
    pub terminal_id: u8,
    /// Where the results are written; `stdout` selects the console.
    pub output_file: String,
    /// The action to run.
    pub action: Action,
}

/// The action one invocation performs.
#[derive(Clone, Debug)]
pub enum Action {
    Read(ReadArgs),
    Custom(CustomArgs),
    Write(WriteArgs),
}

/// Send a custom bytestring to the remote terminal, read from a file or from
/// the standard input (`-` or the empty name).
#[derive(Clone, Debug)]
pub struct CustomArgs {
    pub input_file: String,
}

/// Which renderer formats the result table.
#[derive(Clone, Copy, Debug, PartialEq, Eq, Structural)]
pub enum OutputPlugin {
    Csv,
    Tsv,
    Json,
}

} // verus!
