use vstd::prelude::*;

verus! {

/// One handler of a method's exception table.
#[derive(Clone, Copy, PartialEq, Eq, Structural, Debug)]
pub struct ExceptionTable {
    pub start_pc: u16,
    pub end_pc: u16,
    pub handler_pc: u16,
    pub catch_type: u16,
}

impl ExceptionTable {
    pub fn new(start_pc: u16, end_pc: u16, handler_pc: u16, catch_type: u16) -> (r: Self)
        ensures
            r == (ExceptionTable { start_pc, end_pc, handler_pc, catch_type }),
    {
        ExceptionTable { start_pc, end_pc, handler_pc, catch_type }
    }
}

/// Maps the code from `start_pc` on to a line of the source file.
#[derive(Clone, Copy, PartialEq, Eq, Structural, Debug)]
pub struct LineNumberTableEntry {
    pub start_pc: u16,
    pub line_number: u16,
}

impl LineNumberTableEntry {
    pub fn new(start_pc: u16, line_number: u16) -> (r: Self)
        ensures
            r == (LineNumberTableEntry { start_pc, line_number }),
    {
        LineNumberTableEntry { start_pc, line_number }
    }
}

/// Names local variable `index` over the code from `start_pc` for `length` bytes.
#[derive(Clone, Copy, PartialEq, Eq, Structural, Debug)]
pub struct LocalVariableTableEntry {
    pub start_pc: u16,
    pub length: u16,
    pub name_index: u16,
    pub descriptor_index: u16,
    pub index: u16,
}

impl LocalVariableTableEntry {
    pub fn new(start_pc: u16, length: u16, name_index: u16, descriptor_index: u16, index: u16) -> (r:
        Self)
        ensures
            r == (LocalVariableTableEntry { start_pc, length, name_index, descriptor_index, index }),
    {
        LocalVariableTableEntry { start_pc, length, name_index, descriptor_index, index }
    }
}

/// An attribute of a class, field, method or code, by its standard name.
#[derive(Debug)]
pub enum Attribute {
    ConstantValue(u16),
    Code {
        max_stack: u16,
        max_locals: u16,
        code: Vec<u8>,
        exception_table: Vec<ExceptionTable>,
        attributes: Vec<Attribute>,
    },
    Exceptions { exception_index_table: Vec<u16> },
    SourceFile { index: u16 },
    LineNumberTable { line_number_table: Vec<LineNumberTableEntry> },
    LocalVariableTable { local_variable_table: Vec<LocalVariableTableEntry> },
    Synthetic,
    Deprecated,
    /// Any other attribute, kept as its name and its bytes.
    Other { name: String, info: Vec<u8> },
}

} // verus!
