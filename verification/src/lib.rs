//! A single CAN bus frame: its identifier, its arbitration priority and its
//! payload.
//!
//! The crate is a pure value layer. [`Id`] is the logical identifier,
//! [`IdReg`] packs it with the frame format and frame type into one
//! register whose unsigned value is the bus priority, [`Data`] is the
//! bounded payload, and [`Frame`] ties an identifier to a payload or to an
//! advertised length. [`FramePriority`] is the sort key of a frame.

pub mod data;
pub mod frame;
pub mod id;
pub mod id_reg;

pub use data::Data;
pub use frame::{Frame, FramePriority, FrameView};
pub use id::{ExtendedId, Id, StandardId};
pub use id_reg::IdReg;
