//! Common types for the boundary between a Neotron BIOS and the operating
//! system it starts.
//!
//! Every value that crosses the boundary has a fixed shape: closed sets are
//! carried as single bytes, a version as one packed word, a video mode as one
//! packed byte. Each module states, as contracts on its functions, how those
//! packed forms relate to the values they stand for.

pub mod audio;
pub mod block_dev;
pub mod buffer;
pub mod bus;
pub mod ffi;
pub mod hid;
pub mod i2c;
pub mod serial;
pub mod text;
pub mod types;
pub mod version;
pub mod video;

pub use neotron_ffi::{FfiBuffer, FfiByteSlice, FfiOption, FfiResult, FfiString};
pub use types::{
    EnumConversionFail, Error, FfiMemoryKind, FfiPowerMode, MemoryKind, MemoryRegion, PowerMode,
    Ticks, Time, Timeout,
};
pub use version::Version;
