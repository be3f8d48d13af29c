pub mod cpu;
pub mod cpu_state;
pub mod function_table;
pub mod registers;
pub mod step;
