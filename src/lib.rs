//! A codec for a compact motion-tracker wire protocol: typed device and
//! server packets, framed in a big-endian envelope, with a little-endian
//! configuration block whose calibration arrays travel in reverse order;
//! and the player lights that show a controller's battery level.

pub mod array_order;
pub mod bytes;
pub mod codec;
pub mod laws;
pub mod lights;
pub mod packet;
pub mod wire;
