//! The record of one function, and the order in which records are listed.

use vstd::prelude::*;
use crate::order::{lemma_text_lt_total_order, text_before, text_lt};

verus! {

/// One function as the debug information declares it.
#[derive(Debug, Clone, PartialEq, Eq, PartialOrd, Ord)]
pub struct FunctionRecord {
    /// The function's name.
    pub name: String,
    /// The path of the source file that declares it.
    pub file: String,
    /// The line of the declaration.
    pub line: u64,
    /// The column of the declaration.
    pub column: u64,
}

/// What a record holds, as mathematical values.
pub struct RecordView {
    pub name: Seq<char>,
    pub file: Seq<char>,
    pub line: u64,
    pub column: u64,
}

impl View for FunctionRecord {
    type V = RecordView;

    open spec fn view(&self) -> RecordView {
        RecordView { name: self.name@, file: self.file@, line: self.line, column: self.column }
    }
}

/// `a` is listed strictly before `b`: lexicographic over name, file, line and
/// column.
pub open spec fn record_lt(a: RecordView, b: RecordView) -> bool {
    if a.name != b.name {
        text_lt(a.name, b.name)
    } else if a.file != b.file {
        text_lt(a.file, b.file)
    } else if a.line != b.line {
        a.line < b.line
    } else {
        a.column < b.column
    }
}

/// `a` is listed before `b`, or is the same record.
pub open spec fn record_le(a: RecordView, b: RecordView) -> bool {
    a == b || record_lt(a, b)
}

/// The views of a sequence of records.
pub open spec fn views(records: Seq<FunctionRecord>) -> Seq<RecordView> {
    Seq::new(records.len(), |i: int| records[i]@)
}

/// The order on records is a strict total order: no record precedes itself,
/// of two different records exactly one precedes the other, and the order is
/// transitive.
pub proof fn lemma_record_order(a: RecordView, b: RecordView, c: RecordView)
    ensures
        !record_lt(a, a),
        record_lt(a, b) || a == b || record_lt(b, a),
        !(record_lt(a, b) && record_lt(b, a)),
        record_lt(a, b) && record_lt(b, c) ==> record_lt(a, c),
{
    lemma_text_lt_total_order(a.name, b.name, c.name);
    lemma_text_lt_total_order(a.file, b.file, c.file);
    lemma_text_lt_total_order(b.name, c.name, a.name);
    lemma_text_lt_total_order(b.file, c.file, a.file);
    lemma_text_lt_total_order(a.name, c.name, b.name);
    lemma_text_lt_total_order(a.file, c.file, b.file);
}

/// Two records are the same exactly when all four fields are.
pub proof fn lemma_record_equality(a: RecordView, b: RecordView)
    ensures
        a == b <==> (a.name == b.name && a.file == b.file && a.line == b.line && a.column
            == b.column),
{
}

impl FunctionRecord {
    /// A record of the four fields given.
    pub fn new(name: String, file: String, line: u64, column: u64) -> (r: FunctionRecord)
        ensures
            r.name == name,
            r.file == file,
            r.line == line,
            r.column == column,
    {
        FunctionRecord { name, file, line, column }
    }

    /// A second record with the same four fields.
    pub fn duplicate(&self) -> (r: FunctionRecord)
        ensures
            r == *self,
    {
        FunctionRecord {
            name: self.name.clone(),
            file: self.file.clone(),
            line: self.line,
            column: self.column,
        }
    }

    /// Whether this record is listed strictly before `other`.
    pub fn precedes(&self, other: &FunctionRecord) -> (r: bool)
        ensures
            r == record_lt(self@, other@),
    {
        if !(self.name == other.name) {
            text_before(self.name.as_str(), other.name.as_str())
        } else if !(self.file == other.file) {
            text_before(self.file.as_str(), other.file.as_str())
        } else if self.line != other.line {
            self.line < other.line
        } else {
            self.column < other.column
        }
    }

    /// Whether this record and `other` agree in all four fields.
    pub fn same_as(&self, other: &FunctionRecord) -> (r: bool)
        ensures
            r == (self@ == other@),
    {
        self.name == other.name && self.file == other.file && self.line == other.line
            && self.column == other.column
    }
}

} // verus!
