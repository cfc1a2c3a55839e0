//! Control logic for BLE toy-robot cubes: the binary command and notification
//! codec, the button-click classifier, the connection-acquisition decisions,
//! and the multi-cube choreography sequencer. The BLE transport itself is an
//! external collaborator; this crate works on plain values (bytes, timestamps
//! in milliseconds) that the transport binding hands in and takes out.

pub mod buffers;
pub mod clicks;
pub mod codec;
pub mod connect;
pub mod gesture;
pub mod group;
pub mod keymap;
pub mod sequencer;
pub mod uuid;
