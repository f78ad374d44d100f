//! Codec layer for three ancillary Modbus operations — Read File Record
//! (function 0x14), Read FIFO Queue (0x18) and Read Device Identification
//! (0x2B / MEI 0x0E) — together with the request/argument data model and the
//! projection of decoded structures into tabular command results.

pub mod args;
pub mod device_id;
pub mod errors;
pub mod fifo;
pub mod file_record;
pub mod projection;
pub mod read_args;
pub mod text;
pub mod uri;
pub mod words;
pub mod write_args;
