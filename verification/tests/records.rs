use dwarf_tags::attribute::{file_reference, AttributeValue, FieldSlots, FileReference};
use dwarf_tags::emit::{decimal_text, format_line, render_lines, FORMAT_HEADER, SORTED_HEADER};
use dwarf_tags::error::FormatError;
use dwarf_tags::index::{build_index, dedup_records, sort_records};
use dwarf_tags::order::text_before;
use dwarf_tags::path::join_path;
use dwarf_tags::record::FunctionRecord;

fn record(name: &str, file: &str, line: u64, column: u64) -> FunctionRecord {
    FunctionRecord::new(name.to_string(), file.to_string(), line, column)
}

#[test]
fn join_adds_one_separator() {
    assert_eq!(join_path("/usr/include", "stdio.h"), "/usr/include/stdio.h");
    assert_eq!(join_path("src", "a.c"), "src/a.c");
}

#[test]
fn join_keeps_a_trailing_separator() {
    assert_eq!(join_path("/usr/include/", "stdio.h"), "/usr/include/stdio.h");
    assert_eq!(join_path("/", "a.c"), "/a.c");
}

#[test]
fn join_with_empty_directory_is_the_file() {
    assert_eq!(join_path("", "a.c"), "a.c");
}

#[test]
fn join_with_rooted_file_is_the_file() {
    assert_eq!(join_path("/src", "/abs/a.c"), "/abs/a.c");
}

#[test]
fn join_does_not_normalise() {
    assert_eq!(join_path("/src/./x", "../a.c"), "/src/./x/../a.c");
    assert_eq!(join_path("/src", ""), "/src/");
}

#[test]
fn join_agrees_with_std_path() {
    let cases = [("/src", "a.c"), ("/src/", "a.c"), ("", "a.c"), ("rel", "/abs.c"), ("/a/b", "c/d.h")];
    for (directory, file) in cases {
        let expected = std::path::Path::new(directory).join(file);
        assert_eq!(join_path(directory, file), expected.to_str().unwrap());
    }
}

#[test]
fn join_handles_text_beyond_ascii() {
    assert_eq!(join_path("/söurce", "dätei.c"), "/söurce/dätei.c");
}

#[test]
fn decimal_of_small_numbers() {
    assert_eq!(decimal_text(0), "0");
    assert_eq!(decimal_text(7), "7");
    assert_eq!(decimal_text(10), "10");
    assert_eq!(decimal_text(120), "120");
    assert_eq!(decimal_text(9876543210), "9876543210");
}

#[test]
fn decimal_of_the_largest_number() {
    assert_eq!(decimal_text(u64::MAX), "18446744073709551615");
}

#[test]
fn line_has_name_file_and_line_number() {
    let line = format_line(&record("foo", "a.c", 10, 3));
    assert_eq!(line, "foo\ta.c\t:10");
}

#[test]
fn line_leaves_the_column_out() {
    let one = format_line(&record("foo", "a.c", 10, 1));
    let two = format_line(&record("foo", "a.c", 10, 2));
    assert_eq!(one, two);
}

#[test]
fn headers_are_fixed() {
    assert_eq!(
        FORMAT_HEADER,
        "!_TAG_FILE_FORMAT\t2\t/extended format; --format=1 will not append ;\" to lines/"
    );
    assert_eq!(SORTED_HEADER, "!_TAG_FILE_SORTED\t1\t/0=unsorted, 1=sorted, 2=foldcase/");
}

#[test]
fn no_records_give_the_two_header_lines_only() {
    let lines = render_lines(&Vec::new());
    assert_eq!(lines, vec![FORMAT_HEADER.to_string(), SORTED_HEADER.to_string()]);
}

#[test]
fn records_give_one_line_each_after_the_headers() {
    let index = vec![record("bar", "a.c", 5, 1), record("foo", "a.c", 10, 1)];
    let lines = render_lines(&index);
    assert_eq!(lines.len(), 4);
    assert_eq!(lines[0], FORMAT_HEADER);
    assert_eq!(lines[1], SORTED_HEADER);
    assert_eq!(lines[2], "bar\ta.c\t:5");
    assert_eq!(lines[3], "foo\ta.c\t:10");
}

#[test]
fn two_functions_are_listed_by_name() {
    let found = vec![record("foo", "a.c", 10, 1), record("bar", "a.c", 5, 1)];
    let lines = render_lines(&build_index(found));
    assert_eq!(lines[2..].to_vec(), vec!["bar\ta.c\t:5".to_string(), "foo\ta.c\t:10".to_string()]);
}

#[test]
fn the_same_function_twice_is_listed_once() {
    let found = vec![
        record("foo", "a.c", 10, 1),
        record("bar", "a.c", 5, 1),
        record("foo", "a.c", 10, 1),
    ];
    let index = build_index(found);
    assert_eq!(index, vec![record("bar", "a.c", 5, 1), record("foo", "a.c", 10, 1)]);
    assert_eq!(render_lines(&index).len(), 4);
}

#[test]
fn records_that_differ_in_the_column_only_are_both_kept() {
    let found = vec![record("foo", "a.c", 10, 2), record("foo", "a.c", 10, 1)];
    let index = build_index(found);
    assert_eq!(index, vec![record("foo", "a.c", 10, 1), record("foo", "a.c", 10, 2)]);
}

#[test]
fn order_is_name_then_file_then_line_then_column() {
    let mut records = vec![
        record("b", "a.c", 1, 1),
        record("a", "z.c", 9, 9),
        record("a", "b.c", 2, 1),
        record("a", "b.c", 1, 7),
        record("a", "b.c", 1, 3),
    ];
    sort_records(&mut records);
    assert_eq!(
        records,
        vec![
            record("a", "b.c", 1, 3),
            record("a", "b.c", 1, 7),
            record("a", "b.c", 2, 1),
            record("a", "z.c", 9, 9),
            record("b", "a.c", 1, 1),
        ]
    );
}

#[test]
fn sort_keeps_repeated_records() {
    let mut records = vec![record("b", "f", 1, 1), record("a", "f", 1, 1), record("b", "f", 1, 1)];
    sort_records(&mut records);
    assert_eq!(records, vec![record("a", "f", 1, 1), record("b", "f", 1, 1), record("b", "f", 1, 1)]);
}

#[test]
fn sort_agrees_with_the_order_of_std() {
    let names = ["zeta", "Alpha", "alpha", "", "é", "e", "ab", "a", "日本", "~"];
    let mut records: Vec<FunctionRecord> = Vec::new();
    for (i, name) in names.iter().enumerate() {
        for (j, file) in names.iter().enumerate() {
            records.push(record(name, file, ((i * 7 + j * 3) % 5) as u64, ((i + j) % 3) as u64));
        }
    }
    let mut expected = records.clone();
    expected.sort();
    sort_records(&mut records);
    assert_eq!(records, expected);
}

#[test]
fn sort_of_nothing_and_of_one() {
    let mut none: Vec<FunctionRecord> = Vec::new();
    sort_records(&mut none);
    assert!(none.is_empty());
    let mut one = vec![record("a", "f", 1, 1)];
    sort_records(&mut one);
    assert_eq!(one, vec![record("a", "f", 1, 1)]);
}

#[test]
fn dedup_removes_adjacent_repetitions_only() {
    let mut records = vec![
        record("a", "f", 1, 1),
        record("a", "f", 1, 1),
        record("b", "f", 1, 1),
        record("a", "f", 1, 1),
        record("a", "f", 1, 1),
        record("a", "f", 1, 1),
    ];
    dedup_records(&mut records);
    assert_eq!(records, vec![record("a", "f", 1, 1), record("b", "f", 1, 1), record("a", "f", 1, 1)]);
}

#[test]
fn dedup_agrees_with_std() {
    let mut records = vec![
        record("a", "f", 1, 1),
        record("a", "f", 1, 2),
        record("a", "f", 1, 2),
        record("a", "g", 1, 2),
        record("a", "g", 1, 2),
    ];
    let mut expected = records.clone();
    expected.dedup();
    dedup_records(&mut records);
    assert_eq!(records, expected);
}

#[test]
fn index_is_sorted_and_without_repetition() {
    let mut found: Vec<FunctionRecord> = Vec::new();
    for i in 0..50u64 {
        found.push(record(&format!("f{}", (i * 37) % 11), "a.c", (i * 13) % 4, 1));
    }
    let mut expected = found.clone();
    expected.sort();
    expected.dedup();
    let index = build_index(found);
    assert_eq!(index, expected);
    for pair in index.windows(2) {
        assert!(pair[0] < pair[1]);
    }
}

#[test]
fn precedes_is_the_strict_order() {
    let a = record("bar", "a.c", 5, 1);
    let b = record("foo", "a.c", 10, 1);
    assert!(a.precedes(&b));
    assert!(!b.precedes(&a));
    assert!(!a.precedes(&a));
    assert!(a.same_as(&a.duplicate()));
    assert!(!a.same_as(&b));
    assert!(record("a", "f", 1, 1).precedes(&record("a", "f", 1, 2)));
    assert!(record("a", "f", 1, 9).precedes(&record("a", "f", 2, 0)));
    assert!(record("a", "f", 9, 9).precedes(&record("a", "g", 0, 0)));
}

#[test]
fn text_order_is_that_of_the_bytes() {
    assert!(text_before("a", "b"));
    assert!(!text_before("b", "a"));
    assert!(text_before("a", "ab"));
    assert!(!text_before("ab", "a"));
    assert!(text_before("", "a"));
    assert!(!text_before("", ""));
    assert!(!text_before("same", "same"));
    assert!(text_before("Z", "a"));
    assert!(text_before("z", "é"));
    let words = ["", "a", "ab", "b", "é", "e", "日本", "~", "A"];
    for x in words {
        for y in words {
            assert_eq!(text_before(x, y), x < y);
        }
    }
}

#[test]
fn file_index_one_is_the_module_file() {
    assert_eq!(file_reference(1), FileReference::Module);
}

#[test]
fn file_index_zero_is_no_file() {
    assert_eq!(file_reference(0), FileReference::Nowhere);
}

#[test]
fn other_file_indices_point_one_slot_below() {
    assert_eq!(file_reference(2), FileReference::Table(1));
    assert_eq!(file_reference(40), FileReference::Table(39));
    assert_eq!(file_reference(u64::MAX), FileReference::Table(u64::MAX - 1));
}

#[test]
fn unsigned_reading_of_values() {
    assert_eq!(AttributeValue::Unsigned(7).unsigned(), Some(7));
    assert_eq!(AttributeValue::Signed(7).unsigned(), Some(7));
    assert_eq!(AttributeValue::Signed(0).unsigned(), Some(0));
    assert_eq!(AttributeValue::Signed(-1).unsigned(), None);
    assert_eq!(AttributeValue::FileIndex(7).unsigned(), None);
    assert_eq!(AttributeValue::StringRef(7).unsigned(), None);
    assert_eq!(AttributeValue::InlineString.unsigned(), None);
    assert_eq!(AttributeValue::Other.unsigned(), None);
}

#[test]
fn kinds_are_told_apart() {
    assert_eq!(AttributeValue::StringRef(12).string_ref(), Some(12));
    assert_eq!(AttributeValue::InlineString.string_ref(), None);
    assert_eq!(AttributeValue::Unsigned(12).string_ref(), None);
    assert_eq!(AttributeValue::FileIndex(3).file_index(), Some(3));
    assert_eq!(AttributeValue::Unsigned(3).file_index(), None);
}

#[test]
fn slots_make_a_record_when_all_four_are_filled() {
    let mut slots = FieldSlots::new();
    assert_eq!(slots.clone().finish(), None);
    slots.name = Some("foo".to_string());
    slots.file = Some("a.c".to_string());
    slots.line = Some(10);
    slots.column = Some(3);
    assert_eq!(slots.finish(), Some(record("foo", "a.c", 10, 3)));
}

#[test]
fn slots_make_no_record_when_one_is_empty() {
    let full = FieldSlots {
        name: Some("foo".to_string()),
        file: Some("a.c".to_string()),
        line: Some(10),
        column: Some(3),
    };
    let mut slots = full.clone();
    slots.name = None;
    assert_eq!(slots.finish(), None);
    let mut slots = full.clone();
    slots.file = None;
    assert_eq!(slots.finish(), None);
    let mut slots = full.clone();
    slots.line = None;
    assert_eq!(slots.finish(), None);
    let mut slots = full.clone();
    slots.column = None;
    assert_eq!(slots.finish(), None);
}

#[test]
fn errors_say_what_is_wrong() {
    assert_eq!(FormatError::Container.message(), "not a readable object file");
    assert_eq!(FormatError::DebugInfo.message(), "malformed debug information");
}
