pub mod base;
pub mod buffered_stream;
pub mod constant;
pub mod laws;
pub mod memory_stream;

pub use base::{BufferedStreamBase, BufferedStreamReader, BufferedStreamWriter};
pub use buffered_stream::BufferedStream;
pub use memory_stream::MemoryStream;
