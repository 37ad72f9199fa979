//! Selects a synthesizer patch from a tab-separated catalog and applies it
//! across the channels of an MPE zone: parsing the catalog into validated
//! records, building the exact MIDI byte sequences a receiver expects, and
//! fixing the order in which those buffers must be sent.

pub mod catalog;
pub mod messages;
pub mod patch;
pub mod select;
pub mod zone;
