//! The attributes of a debug entry as plain values, and the rules by which
//! the four attributes of a function become the fields of its record.

use vstd::prelude::*;
use crate::path::joined;
use crate::record::{FunctionRecord, RecordView};

verus! {

/// The tag of an entry that defines a function.
pub const TAG_SUBPROGRAM: u16 = 0x2e;

/// The attribute that names an entry.
pub const AT_NAME: u16 = 0x03;

/// The attribute that gives the column of a declaration.
pub const AT_DECL_COLUMN: u16 = 0x39;

/// The attribute that gives the file of a declaration.
pub const AT_DECL_FILE: u16 = 0x3a;

/// The attribute that gives the line of a declaration.
pub const AT_DECL_LINE: u16 = 0x3b;

/// The file index that stands for the unit's own source file.
pub const MODULE_FILE: u64 = 1;

/// The value of an attribute, by kind.
#[derive(Debug, Clone, Copy, PartialEq, Eq)]
pub enum AttributeValue {
    /// An offset into the string table.
    StringRef(usize),
    /// A string stored in the entry itself.
    InlineString,
    /// An index into the unit's file table.
    FileIndex(u64),
    /// An unsigned number.
    Unsigned(u64),
    /// A signed number.
    Signed(i64),
    /// Any other kind.
    Other,
}

/// One attribute of an entry: the code of its name, and its value.
#[derive(Debug, Clone, Copy, PartialEq, Eq)]
pub struct Attribute {
    pub name: u16,
    pub value: AttributeValue,
}

/// The unsigned number that a value carries, if it carries one: an unsigned
/// number itself, or a signed number that is not negative.
pub open spec fn unsigned_of(value: AttributeValue) -> Option<u64> {
    match value {
        AttributeValue::Unsigned(n) => Some(n),
        AttributeValue::Signed(n) => if n >= 0 {
            Some(n as u64)
        } else {
            None
        },
        _ => None,
    }
}

/// The string-table offset that a value carries, if it is a string-table
/// reference.
pub open spec fn string_ref_of(value: AttributeValue) -> Option<usize> {
    match value {
        AttributeValue::StringRef(offset) => Some(offset),
        _ => None,
    }
}

/// The file index that a value carries, if it is one.
pub open spec fn file_index_of(value: AttributeValue) -> Option<u64> {
    match value {
        AttributeValue::FileIndex(index) => Some(index),
        _ => None,
    }
}

impl AttributeValue {
    /// The unsigned number that this value carries, if it carries one.
    pub fn unsigned(&self) -> (r: Option<u64>)
        ensures
            r == unsigned_of(*self),
    {
        match *self {
            AttributeValue::Unsigned(n) => Some(n),
            AttributeValue::Signed(n) => if n >= 0 {
                Some(n as u64)
            } else {
                None
            },
            _ => None,
        }
    }

    /// The string-table offset that this value carries, if it is a
    /// string-table reference.
    pub fn string_ref(&self) -> (r: Option<usize>)
        ensures
            r == string_ref_of(*self),
    {
        match *self {
            AttributeValue::StringRef(offset) => Some(offset),
            _ => None,
        }
    }

    /// The file index that this value carries, if it is one.
    pub fn file_index(&self) -> (r: Option<u64>)
        ensures
            r == file_index_of(*self),
    {
        match *self {
            AttributeValue::FileIndex(index) => Some(index),
            _ => None,
        }
    }
}

/// Where a file index points.
#[derive(Debug, Clone, Copy, PartialEq, Eq)]
pub enum FileReference {
    /// The unit's own source file.
    Module,
    /// The slot of the unit's file table, counted from zero.
    Table(u64),
    /// No file at all.
    Nowhere,
}

/// Where `index` points: the unit's own file for `MODULE_FILE`, nowhere for
/// zero, and else the table slot one below the index.
pub open spec fn file_reference_of(index: u64) -> FileReference {
    if index == MODULE_FILE {
        FileReference::Module
    } else if index == 0 {
        FileReference::Nowhere
    } else {
        FileReference::Table((index - 1) as u64)
    }
}

/// Where `index` points.
pub fn file_reference(index: u64) -> (r: FileReference)
    ensures
        r == file_reference_of(index),
{
    if index == MODULE_FILE {
        FileReference::Module
    } else if index == 0 {
        FileReference::Nowhere
    } else {
        FileReference::Table(index - 1)
    }
}

/// One slot of a unit's file table, with its directory looked up.
pub struct FileEntryView {
    pub directory: Seq<char>,
    pub name: Seq<char>,
}

/// The path of the file that `index` declares, given the unit's own source
/// name and what the file table holds in the slot that `index` points to.
pub open spec fn declared_path(
    index: u64,
    unit_name: Option<Seq<char>>,
    slot: Option<FileEntryView>,
) -> Option<Seq<char>> {
    match file_reference_of(index) {
        FileReference::Module => unit_name,
        FileReference::Nowhere => None,
        FileReference::Table(_) => match slot {
            Some(entry) => Some(joined(entry.directory, entry.name)),
            None => None,
        },
    }
}

/// The fields of a record as far as they are resolved.
#[derive(Debug, Clone, PartialEq, Eq)]
pub struct FieldSlots {
    pub name: Option<String>,
    pub file: Option<String>,
    pub line: Option<u64>,
    pub column: Option<u64>,
}

/// What the slots hold, as mathematical values.
pub struct SlotsView {
    pub name: Option<Seq<char>>,
    pub file: Option<Seq<char>>,
    pub line: Option<u64>,
    pub column: Option<u64>,
}

/// The text in a slot.
pub open spec fn text_of(slot: Option<String>) -> Option<Seq<char>> {
    match slot {
        Some(s) => Some(s@),
        None => None,
    }
}

impl View for FieldSlots {
    type V = SlotsView;

    open spec fn view(&self) -> SlotsView {
        SlotsView {
            name: text_of(self.name),
            file: text_of(self.file),
            line: self.line,
            column: self.column,
        }
    }
}

/// Slots with nothing resolved.
pub open spec fn empty_slots() -> SlotsView {
    SlotsView { name: None, file: None, line: None, column: None }
}

/// The record that the slots make: one exactly when all four are resolved.
pub open spec fn completed(slots: SlotsView) -> Option<RecordView> {
    if slots.name is Some && slots.file is Some && slots.line is Some && slots.column is Some {
        Some(
            RecordView {
                name: slots.name->0,
                file: slots.file->0,
                line: slots.line->0,
                column: slots.column->0,
            },
        )
    } else {
        None
    }
}

/// The view of a record that may be absent.
pub open spec fn record_of(record: Option<FunctionRecord>) -> Option<RecordView> {
    match record {
        Some(r) => Some(r@),
        None => None,
    }
}

impl FieldSlots {
    /// Slots with nothing resolved.
    pub fn new() -> (slots: FieldSlots)
        ensures
            slots@ == empty_slots(),
    {
        FieldSlots { name: None, file: None, line: None, column: None }
    }

    /// The record of the four fields, if all four are resolved.
    pub fn finish(self) -> (record: Option<FunctionRecord>)
        ensures
            record_of(record) == completed(self@),
    {
        match (self.name, self.file, self.line, self.column) {
            (Some(name), Some(file), Some(line), Some(column)) => Some(
                FunctionRecord { name, file, line, column },
            ),
            _ => None,
        }
    }
}

} // verus!
