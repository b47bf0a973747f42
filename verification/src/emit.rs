//! The index as text: two header lines, then one line for each record.

use vstd::prelude::*;
use vstd::string::*;
use crate::index::{is_index_of, lemma_index_of_nothing};
use crate::record::{views, FunctionRecord, RecordView};

verus! {

/// The first header line: the format of the lines that follow.
pub const FORMAT_HEADER: &'static str =
    "!_TAG_FILE_FORMAT\t2\t/extended format; --format=1 will not append ;\" to lines/";

/// The second header line: the lines that follow are sorted.
pub const SORTED_HEADER: &'static str = "!_TAG_FILE_SORTED\t1\t/0=unsorted, 1=sorted, 2=foldcase/";

/// The decimal digit for a number below ten.
pub open spec fn digit(d: nat) -> char {
    if d == 0 {
        '0'
    } else if d == 1 {
        '1'
    } else if d == 2 {
        '2'
    } else if d == 3 {
        '3'
    } else if d == 4 {
        '4'
    } else if d == 5 {
        '5'
    } else if d == 6 {
        '6'
    } else if d == 7 {
        '7'
    } else if d == 8 {
        '8'
    } else {
        '9'
    }
}

/// A number in decimal, without leading zeros.
pub open spec fn decimal(n: nat) -> Seq<char>
    decreases n,
{
    if n < 10 {
        seq![digit(n)]
    } else {
        decimal(n / 10).push(digit(n % 10))
    }
}

/// The line of one record: its name, a tab, its file, a tab, a colon and its
/// line number. The column is not written.
pub open spec fn line_of(record: RecordView) -> Seq<char> {
    record.name + seq!['\t'] + record.file + seq!['\t', ':'] + decimal(record.line as nat)
}

/// The lines of an index: the two header lines, then the line of each
/// record in turn.
pub open spec fn lines_of(index: Seq<RecordView>) -> Seq<Seq<char>> {
    seq![FORMAT_HEADER@, SORTED_HEADER@] + Seq::new(index.len(), |i: int| line_of(index[i]))
}

/// The texts of a sequence of strings.
pub open spec fn texts(lines: Seq<String>) -> Seq<Seq<char>> {
    Seq::new(lines.len(), |i: int| lines[i]@)
}

/// The lines of an index are the two header lines and, for each record in
/// turn, its line.
pub proof fn lemma_lines_of(index: Seq<RecordView>)
    ensures
        lines_of(index).len() == index.len() + 2,
        lines_of(index)[0] == FORMAT_HEADER@,
        lines_of(index)[1] == SORTED_HEADER@,
        forall|i: int| 0 <= i < index.len() ==> lines_of(index)[i + 2] == line_of(index[i]),
{
}

/// Where there is no record, the lines are the two header lines and nothing
/// else.
pub proof fn lemma_lines_of_nothing(index: Seq<RecordView>, records: Seq<RecordView>)
    requires
        is_index_of(index, records),
        records.len() == 0,
    ensures
        lines_of(index) == seq![FORMAT_HEADER@, SORTED_HEADER@],
{
    lemma_index_of_nothing(index, records);
    assert(lines_of(index) =~= seq![FORMAT_HEADER@, SORTED_HEADER@]);
}

/// The decimal digit for a number below ten, as text.
fn digit_text(d: u64) -> (text: &'static str)
    requires
        d < 10,
    ensures
        text@ == seq![digit(d as nat)],
{
    proof {
        reveal_strlit("0");
        reveal_strlit("1");
        reveal_strlit("2");
        reveal_strlit("3");
        reveal_strlit("4");
        reveal_strlit("5");
        reveal_strlit("6");
        reveal_strlit("7");
        reveal_strlit("8");
        reveal_strlit("9");
    }
    let text = if d == 0 {
        "0"
    } else if d == 1 {
        "1"
    } else if d == 2 {
        "2"
    } else if d == 3 {
        "3"
    } else if d == 4 {
        "4"
    } else if d == 5 {
        "5"
    } else if d == 6 {
        "6"
    } else if d == 7 {
        "7"
    } else if d == 8 {
        "8"
    } else {
        "9"
    };
    assert(text@ =~= seq![digit(d as nat)]);
    text
}

/// A number in decimal, without leading zeros.
pub fn decimal_text(n: u64) -> (text: String)
    ensures
        text@ == decimal(n as nat),
    decreases n,
{
    if n < 10 {
        digit_text(n).to_owned()
    } else {
        let mut text = decimal_text(n / 10);
        text.append(digit_text(n % 10));
        assert(text@ =~= decimal((n / 10) as nat).push(digit((n % 10) as nat)));
        text
    }
}

/// The line of one record.
pub fn format_line(record: &FunctionRecord) -> (line: String)
    ensures
        line@ == line_of(record@),
{
    proof {
        reveal_strlit("\t");
        reveal_strlit("\t:");
    }
    let mut line = record.name.clone();
    line.append("\t");
    line.append(record.file.as_str());
    line.append("\t:");
    let number = decimal_text(record.line);
    line.append(number.as_str());
    assert(line@ =~= line_of(record@));
    line
}

/// The lines of an index: the two header lines, which are there even when
/// the index is empty, then the line of each record in turn.
pub fn render_lines(index: &Vec<FunctionRecord>) -> (lines: Vec<String>)
    ensures
        texts(lines@) == lines_of(views(index@)),
{
    let mut lines: Vec<String> = Vec::new();
    lines.push(FORMAT_HEADER.to_owned());
    lines.push(SORTED_HEADER.to_owned());
    let mut i: usize = 0;
    assert(texts(lines@) =~= lines_of(views(index@).take(0)));
    while i < index.len()
        invariant
            i <= index.len(),
            texts(lines@) == lines_of(views(index@).take(i as int)),
        decreases index.len() - i,
    {
        let ghost before = texts(lines@);
        let line = format_line(&index[i]);
        lines.push(line);
        assert(texts(lines@) =~= before.push(line_of(index@[i as int]@)));
        assert(texts(lines@) =~= lines_of(views(index@).take(i + 1)));
        i = i + 1;
    }
    assert(views(index@).take(i as int) =~= views(index@));
    lines
}

} // verus!
