//! Protocol engine for the Crazyradio USB dongle.
//!
//! The crate holds the rules of the dongle's wire protocol and keeps them apart
//! from the USB transport: an operation says which transfer has to be made, and
//! takes what the transfer brought back. Whoever owns the USB handle makes the
//! transfers.
//!
//! * [`Crazyradio`] is the session with one dongle: the settings the dongle is
//!   believed to have, the configuration requests that change them, and the
//!   framing of packets and replies.
//! * [`Scan`] sweeps a range of channels for peers that answer.
//! * [`RadioCommand`] is what a radio shared by several users is asked to do.
//! * [`CaptureSlot`] holds an observer that is shown every packet.

pub mod ack;
pub mod capture;
pub mod channel;
pub mod device;
pub mod error;
pub mod inline;
pub mod radio;
pub mod request;
pub mod scan;
pub mod settings;
pub mod shared_radio;

pub use ack::Ack;
pub use capture::{capture_packet, clear_callback, set_callback, CaptureSlot};
pub use channel::Channel;
pub use device::{FirmwareVersion, Selector};
pub use error::{Error, UsbError};
pub use inline::InlineHeader;
pub use radio::Crazyradio;
pub use request::{ControlRequest, UsbCommand};
pub use scan::{Probe, Scan};
pub use settings::{Datarate, Power, RadioSettings};
pub use shared_radio::{RadioCommand, ScanResult, SendPacketResult};
