pub mod mapped_io;
pub mod memory_wrapper;
