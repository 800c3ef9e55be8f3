//! Driver logic for a thermal camera module: the control-channel command
//! protocol, the status taxonomy, and the packet framing and validation of
//! the video stream.

pub mod cci;
pub mod command;
pub mod lepton;
pub mod packet;
pub mod status;

pub use cci::{BusAction, BusEvent, CciError, CciSession, Step, LEPTONCCI};
pub use command::{Direction, LepCommand, Parameter, Register};
pub use lepton::{FrameOutcome, Lepton};
pub use packet::{DiscardReason, PacketVerdict};
pub use status::LepStatus;
