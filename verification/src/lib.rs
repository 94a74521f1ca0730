pub mod buf;
pub mod error;
pub mod net;
pub mod sample;
pub mod tnmt;
