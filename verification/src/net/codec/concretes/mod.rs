pub mod hexdump;

pub use hexdump::HexDump;
