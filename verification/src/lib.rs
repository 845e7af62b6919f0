//! Driver core for the CCS811 digital gas sensor.
//!
//! The chip is reached over a two-wire serial bus and, optionally, through a
//! hardware wake line that must be asserted before any bus traffic and
//! released afterwards.  This crate verifies the protocol logic of the
//! driver: the register codec, the boot/application mode machine, the
//! wake-line bracketing of every bus exchange, and the non-blocking poll
//! convention used for firmware verification, firmware erase and
//! measurement readout.
//!
//! The physical transport (bus writes and reads, the wake output and the
//! post-wake delay) is modelled by [`port::Port`]: a value that scripts the
//! replies the hardware would give and records, in order, every action the
//! driver issues.  Every contract in the crate states exactly which actions
//! a call appends to that record and what it returns for every possible
//! scripted reply, so the ordering guarantees of the protocol are proved,
//! not assumed.

pub mod app;
pub mod boot;
pub mod codec;
pub mod port;
pub mod protocol;
pub mod registers;
pub mod types;

pub use app::Ccs811App;
pub use app::Ccs811AwakeApp;
pub use boot::Ccs811AwakeBoot;
pub use boot::Ccs811Boot;
pub use types::AlgorithmResult;
pub use types::DeviceErrors;
pub use types::Error;
pub use types::ErrorAwake;
pub use types::MeasurementMode;
pub use types::ModeChangeError;
pub use types::NbError;
