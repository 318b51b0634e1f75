pub mod runtime_data_area;
pub mod bytecode_reader;
pub mod instructions;
pub mod arith;
pub mod decode;
pub mod interpreter;
pub mod attribute;
pub mod classfile;
pub mod loader;
pub mod classpath;
