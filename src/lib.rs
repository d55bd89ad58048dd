//! Framing for the fixed-header command protocol of a serial fingerprint
//! sensor module: checksums, outbound command frames and inbound packets.
pub mod buffer;
pub mod checksum;
pub mod decode;
pub mod encode;
pub mod frame;
pub mod led;
pub mod proofs;

pub use checksum::compute_checksum;
pub use decode::{decode, Packet};
pub use encode::encode;
pub use frame::{CodecError, Identifier, Instruction, ADDRESS, HEADER, MAX_FRAME, MAX_PAYLOAD};
pub use led::{aura_led_command, touch_color, Color, LightPattern};
