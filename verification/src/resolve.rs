//! From debug entries to function records: which file an index declares,
//! which record the attributes of an entry make, and which records a unit and
//! the whole of the debug information hold.
//!
//! Each of these is a value where everything that has to be read can be
//! read, and a failure where something is malformed.

use vstd::prelude::*;
use crate::attribute::{
    completed, declared_path, empty_slots, file_index_of, file_reference, file_reference_of,
    record_of, string_ref_of, text_of, unsigned_of, Attribute, FieldSlots, FileEntryView,
    FileReference, SlotsView, AT_DECL_COLUMN, AT_DECL_FILE, AT_DECL_LINE, AT_NAME, MODULE_FILE,
    TAG_SUBPROGRAM,
};
use crate::debug_info::{
    attribute_name, attribute_value, directory_name, directory_text, entries_of,
    entry_attributes, entry_tag, entry_view, file_directory, file_directory_index, file_name,
    file_name_text, next_attribute, next_entry, next_header, parse_unit, pending_attributes,
    pending_entries, pending_headers, string_at, string_at_offset, unit_entries, unit_headers,
    unit_headers_of, unit_name, unit_of, unit_source_name, DebugData, Entry, EntryView, Lookup,
    Stream, Unit, UnitHeader,
};
use crate::error::FormatError;
use crate::path::{join_path, joined};
use crate::record::{views, FunctionRecord, RecordView};

verus! {

/// Something that has to be read is malformed.
pub struct Malformed;

/// The text that a lookup gives, if it gives one, and a failure where what
/// is recorded is malformed.
pub open spec fn found(lookup: Lookup) -> Result<Option<Seq<char>>, Malformed> {
    match lookup {
        Lookup::Text(text) => Ok(Some(text)),
        Lookup::Nothing => Ok(None),
        Lookup::Malformed => Err(Malformed),
    }
}

/// The table slot that `index` points to, where it points to one.
pub open spec fn slot_of(index: u64) -> u64 {
    match file_reference_of(index) {
        FileReference::Table(slot) => slot,
        _ => 0,
    }
}

/// What the file table of `unit` holds in `slot`: the name of the file's
/// directory and the file's own name. There is no such entry where the table
/// has no such slot or the directory has no name. The directory is looked up
/// first.
pub open spec fn table_entry(data: DebugData, unit: Unit, slot: u64) -> Result<
    Option<FileEntryView>,
    Malformed,
> {
    match file_directory(unit, slot) {
        None => Ok(None),
        Some(directory) => match directory_name(unit, directory) {
            Lookup::Malformed => Err(Malformed),
            Lookup::Nothing => Ok(None),
            Lookup::Text(directory_text) => match file_name(data, unit, slot) {
                Lookup::Malformed => Err(Malformed),
                Lookup::Nothing => Ok(None),
                Lookup::Text(name) => Ok(Some(FileEntryView { directory: directory_text, name })),
            },
        },
    }
}

/// The path of the file that `index` declares in `unit`. Only what the index
/// points to is read: the unit's own name for the module file, and else the
/// file table.
pub open spec fn declaring_file(data: DebugData, unit: Unit, index: u64) -> Result<
    Option<Seq<char>>,
    Malformed,
> {
    match file_reference_of(index) {
        FileReference::Module => found(unit_source_name(unit)),
        FileReference::Nowhere => Ok(None),
        FileReference::Table(slot) => match table_entry(data, unit, slot) {
            Ok(entry) => Ok(declared_path(index, None, entry)),
            Err(e) => Err(e),
        },
    }
}

/// The slots after one more attribute: an attribute with one of the four
/// names fills its slot where its value is of the kind that the name asks
/// for and can be resolved, and leaves the slots as they are otherwise.
pub open spec fn applied(slots: SlotsView, attribute: Attribute, data: DebugData, unit: Unit)
    -> Result<SlotsView, Malformed> {
    if attribute.name == AT_NAME {
        match string_ref_of(attribute.value) {
            Some(offset) => match string_at_offset(data, offset) {
                Some(text) => Ok(SlotsView { name: Some(text), ..slots }),
                None => Err(Malformed),
            },
            None => Ok(slots),
        }
    } else if attribute.name == AT_DECL_FILE {
        match file_index_of(attribute.value) {
            Some(index) => match declaring_file(data, unit, index) {
                Ok(Some(path)) => Ok(SlotsView { file: Some(path), ..slots }),
                Ok(None) => Ok(slots),
                Err(e) => Err(e),
            },
            None => Ok(slots),
        }
    } else if attribute.name == AT_DECL_LINE {
        match unsigned_of(attribute.value) {
            Some(line) => Ok(SlotsView { line: Some(line), ..slots }),
            None => Ok(slots),
        }
    } else if attribute.name == AT_DECL_COLUMN {
        match unsigned_of(attribute.value) {
            Some(column) => Ok(SlotsView { column: Some(column), ..slots }),
            None => Ok(slots),
        }
    } else {
        Ok(slots)
    }
}

/// The slots after all of `attributes`, taken in order.
pub open spec fn resolved_from(
    slots: SlotsView,
    attributes: Stream<Attribute>,
    data: DebugData,
    unit: Unit,
) -> Result<SlotsView, Malformed>
    decreases attributes.items.len(),
{
    if attributes.items.len() == 0 {
        if attributes.complete {
            Ok(slots)
        } else {
            Err(Malformed)
        }
    } else {
        match applied(slots, attributes.items[0], data, unit) {
            Ok(next) => resolved_from(next, attributes.rest(), data, unit),
            Err(e) => Err(e),
        }
    }
}

/// The record that an entry with these attributes makes: one exactly when
/// all four fields are resolved.
pub open spec fn resolved_record(attributes: Stream<Attribute>, data: DebugData, unit: Unit)
    -> Result<Option<RecordView>, Malformed> {
    match resolved_from(empty_slots(), attributes, data, unit) {
        Ok(slots) => Ok(completed(slots)),
        Err(e) => Err(e),
    }
}

/// `first`, where there is one, before `rest`.
pub open spec fn prepended(first: Option<RecordView>, rest: Seq<RecordView>) -> Seq<RecordView> {
    match first {
        Some(record) => seq![record] + rest,
        None => rest,
    }
}

/// The records of the entries given, in their order: one for each entry that
/// defines a function and resolves all four fields. The attributes of other
/// entries are not read.
pub open spec fn records_of_entries(entries: Stream<EntryView>, data: DebugData, unit: Unit)
    -> Result<Seq<RecordView>, Malformed>
    decreases entries.items.len(),
{
    if entries.items.len() == 0 {
        if entries.complete {
            Ok(Seq::empty())
        } else {
            Err(Malformed)
        }
    } else {
        let first = if entries.items[0].tag == TAG_SUBPROGRAM {
            resolved_record(entries.items[0].attributes, data, unit)
        } else {
            Ok(None)
        };
        match (first, records_of_entries(entries.rest(), data, unit)) {
            (Ok(record), Ok(rest)) => Ok(prepended(record, rest)),
            _ => Err(Malformed),
        }
    }
}

/// The records of one unit.
pub open spec fn records_of_unit(data: DebugData, unit: Unit) -> Result<
    Seq<RecordView>,
    Malformed,
> {
    records_of_entries(entries_of(unit), data, unit)
}

/// The records of the unit that `header` heads.
pub open spec fn records_under(data: DebugData, header: UnitHeader) -> Result<
    Seq<RecordView>,
    Malformed,
> {
    match unit_of(data, header) {
        Some(unit) => records_of_unit(data, unit),
        None => Err(Malformed),
    }
}

/// The records of the units under the headers given, in their order.
pub open spec fn records_of_units(headers: Stream<UnitHeader>, data: DebugData) -> Result<
    Seq<RecordView>,
    Malformed,
>
    decreases headers.items.len(),
{
    if headers.items.len() == 0 {
        if headers.complete {
            Ok(Seq::empty())
        } else {
            Err(Malformed)
        }
    } else {
        match (records_under(data, headers.items[0]), records_of_units(headers.rest(), data)) {
            (Ok(first), Ok(rest)) => Ok(first + rest),
            _ => Err(Malformed),
        }
    }
}

/// All the records that `data` holds, unit by unit.
pub open spec fn all_records(data: DebugData) -> Result<Seq<RecordView>, Malformed> {
    records_of_units(unit_headers_of(data), data)
}

/// `before`, and after it what `then` gives.
pub open spec fn followed_by(before: Seq<RecordView>, then: Result<Seq<RecordView>, Malformed>)
    -> Result<Seq<RecordView>, Malformed> {
    match then {
        Ok(records) => Ok(before + records),
        Err(e) => Err(e),
    }
}

/// No attribute of `attributes` has the name `code`.
pub open spec fn lacks(attributes: Seq<Attribute>, code: u16) -> bool {
    forall|i: int| 0 <= i < attributes.len() ==> attributes[i].name != code
}

/// The slot that the attribute named `code` fills is empty.
pub open spec fn unfilled(slots: SlotsView, code: u16) -> bool {
    if code == AT_NAME {
        slots.name is None
    } else if code == AT_DECL_FILE {
        slots.file is None
    } else if code == AT_DECL_LINE {
        slots.line is None
    } else {
        code == AT_DECL_COLUMN && slots.column is None
    }
}

/// A slot that is empty stays empty while no attribute of its name comes.
pub proof fn lemma_slot_stays_unfilled(
    slots: SlotsView,
    attributes: Stream<Attribute>,
    data: DebugData,
    unit: Unit,
    code: u16,
)
    requires
        lacks(attributes.items, code),
        unfilled(slots, code),
    ensures
        resolved_from(slots, attributes, data, unit) matches Ok(after) ==> unfilled(after, code),
    decreases attributes.items.len(),
{
    if attributes.items.len() > 0 {
        let rest = attributes.rest();
        assert forall|i: int| 0 <= i < rest.items.len() implies rest.items[i].name != code by {
            assert(rest.items[i] == attributes.items[i + 1]);
        }
        match applied(slots, attributes.items[0], data, unit) {
            Ok(next) => {
                lemma_slot_stays_unfilled(next, rest, data, unit, code);
            },
            Err(_) => {},
        }
    }
}

/// An entry that lacks the name, the file, the line or the column makes no
/// record.
pub proof fn lemma_missing_field_no_record(
    attributes: Stream<Attribute>,
    data: DebugData,
    unit: Unit,
    code: u16,
)
    requires
        code == AT_NAME || code == AT_DECL_FILE || code == AT_DECL_LINE || code == AT_DECL_COLUMN,
        lacks(attributes.items, code),
    ensures
        resolved_record(attributes, data, unit) matches Ok(record) ==> record is None,
{
    lemma_slot_stays_unfilled(empty_slots(), attributes, data, unit, code);
}

/// An entry that makes no record adds nothing to the records of its unit:
/// they are those of the entries after it.
pub proof fn lemma_no_record_no_change(entries: Stream<EntryView>, data: DebugData, unit: Unit)
    requires
        entries.items.len() > 0,
        entries.items[0].tag != TAG_SUBPROGRAM || resolved_record(
            entries.items[0].attributes,
            data,
            unit,
        ) == Ok::<Option<RecordView>, Malformed>(None),
    ensures
        records_of_entries(entries, data, unit) == records_of_entries(entries.rest(), data, unit),
{
}

/// The module file is the unit's own source name, whatever the file table of
/// the unit holds.
pub proof fn lemma_module_file(
    unit_name: Option<Seq<char>>,
    slot: Option<FileEntryView>,
    data: DebugData,
    unit: Unit,
)
    ensures
        declared_path(MODULE_FILE, unit_name, slot) == unit_name,
        declaring_file(data, unit, MODULE_FILE) == found(unit_source_name(unit)),
{
}

/// Any other file, but that of index zero, which is no file, is the one in
/// the slot of the file table one below its index: its directory and its
/// name, joined.
pub proof fn lemma_table_file(
    index: u64,
    unit_name: Option<Seq<char>>,
    entry: FileEntryView,
    data: DebugData,
    unit: Unit,
)
    requires
        index != MODULE_FILE,
        index != 0,
    ensures
        slot_of(index) == index - 1,
        declared_path(index, unit_name, Some(entry)) == Some(
            joined(entry.directory, entry.name),
        ),
        table_entry(data, unit, slot_of(index)) == Ok::<Option<FileEntryView>, Malformed>(
            Some(entry),
        ) ==> declaring_file(data, unit, index) == Ok::<Option<Seq<char>>, Malformed>(
            Some(joined(entry.directory, entry.name)),
        ),
{
}

/// The path of the file that `index` declares in `unit`: the unit's own
/// source name for the module file, and else the directory and the name that
/// the file table holds for it, joined. No path comes where the index points
/// nowhere, the unit records no name, the table has no such slot, or the
/// directory cannot be had. The lookup fails where a string that has to be
/// read is malformed.
pub fn declaring_file_path<'a>(data: &DebugData<'a>, unit: &Unit<'a>, index: u64) -> (r: Result<
    Option<String>,
    FormatError,
>)
    ensures
        match declaring_file(*data, *unit, index) {
            Ok(path) => r matches Ok(given) && text_of(given) == path,
            Err(_) => r == Err::<Option<String>, FormatError>(FormatError::DebugInfo),
        },
{
    match file_reference(index) {
        FileReference::Module => match unit_name(unit) {
            Ok(name) => Ok(name),
            Err(_) => Err(FormatError::DebugInfo),
        },
        FileReference::Nowhere => Ok(None),
        FileReference::Table(slot) => {
            let directory = match file_directory_index(unit, slot) {
                Some(directory) => directory,
                None => {
                    return Ok(None);
                },
            };
            let directory_path = match directory_text(unit, directory) {
                Ok(Some(text)) => text,
                Ok(None) => {
                    return Ok(None);
                },
                Err(_) => {
                    return Err(FormatError::DebugInfo);
                },
            };
            let name = match file_name_text(data, unit, slot) {
                Ok(Some(text)) => text,
                Ok(None) => {
                    return Ok(None);
                },
                Err(_) => {
                    return Err(FormatError::DebugInfo);
                },
            };
            Ok(Some(join_path(directory_path.as_str(), name.as_str())))
        },
    }
}

/// The record of an entry that defines a function: its name, the file that
/// declares it, and the line and column of the declaration, each from the
/// attribute of that name. An attribute whose value is not of the kind that
/// its name asks for is passed over, and so is every other attribute. The
/// entry makes a record if and only if all four fields are resolved. Reading
/// fails where an attribute, or a string that has to be read, is malformed.
pub fn process_subprogram<'c, 'u, 'a>(
    data: &DebugData<'a>,
    unit: &Unit<'a>,
    entry: &Entry<'c, 'u, 'a>,
) -> (r: Result<Option<FunctionRecord>, FormatError>)
    ensures
        match resolved_record(entry_view(*entry).attributes, *data, *unit) {
            Ok(record) => r matches Ok(made) && record_of(made) == record,
            Err(_) => r == Err::<Option<FunctionRecord>, FormatError>(FormatError::DebugInfo),
        },
{
    let mut attributes = entry_attributes(entry);
    let mut slots = FieldSlots::new();
    loop
        invariant
            resolved_from(slots@, pending_attributes(attributes), *data, *unit) == resolved_from(
                empty_slots(),
                entry_view(*entry).attributes,
                *data,
                *unit,
            ),
        decreases pending_attributes(attributes).items.len(),
    {
        let attribute = match next_attribute(&mut attributes) {
            Ok(Some(attribute)) => attribute,
            Ok(None) => {
                return Ok(slots.finish());
            },
            Err(_) => {
                return Err(FormatError::DebugInfo);
            },
        };
        let name = attribute_name(&attribute);
        let value = attribute_value(&attribute);
        if name == AT_NAME {
            if let Some(offset) = value.string_ref() {
                match string_at(data, offset) {
                    Ok(text) => {
                        slots.name = Some(text);
                    },
                    Err(_) => {
                        return Err(FormatError::DebugInfo);
                    },
                }
            }
        } else if name == AT_DECL_FILE {
            if let Some(index) = value.file_index() {
                match declaring_file_path(data, unit, index) {
                    Ok(Some(path)) => {
                        slots.file = Some(path);
                    },
                    Ok(None) => {},
                    Err(e) => {
                        return Err(e);
                    },
                }
            }
        } else if name == AT_DECL_LINE {
            if let Some(line) = value.unsigned() {
                slots.line = Some(line);
            }
        } else if name == AT_DECL_COLUMN {
            if let Some(column) = value.unsigned() {
                slots.column = Some(column);
            }
        }
    }
}

/// Walks the entries of `unit` depth first, the root first, and appends to
/// `records` the record of each entry that defines a function and resolves
/// all four fields. Entries of other kinds, and functions that lack a field,
/// are passed over. The walk fails where the tree, an attribute or a string
/// is malformed; the records that were there before stay in either case.
pub fn collect_unit<'a>(data: &DebugData<'a>, unit: &Unit<'a>, records: &mut Vec<FunctionRecord>)
    -> (r: Result<(), FormatError>)
    ensures
        match records_of_unit(*data, *unit) {
            Ok(found) => r is Ok && views(final(records)@) == views(old(records)@) + found,
            Err(_) => r == Err::<(), FormatError>(FormatError::DebugInfo),
        },
        old(records)@.is_prefix_of(final(records)@),
{
    let mut cursor = unit_entries(unit);
    loop
        invariant
            followed_by(
                views(records@),
                records_of_entries(pending_entries(cursor), *data, *unit),
            ) == followed_by(views(old(records)@), records_of_unit(*data, *unit)),
            old(records)@.is_prefix_of(records@),
        decreases pending_entries(cursor).items.len(),
    {
        let ghost before = views(records@);
        let ghost pending = pending_entries(cursor);
        let entry = match next_entry(&mut cursor) {
            Ok(Some(entry)) => entry,
            Ok(None) => {
                assert(before + Seq::<RecordView>::empty() =~= before);
                return Ok(());
            },
            Err(_) => {
                return Err(FormatError::DebugInfo);
            },
        };
        if entry_tag(&entry) == TAG_SUBPROGRAM {
            match process_subprogram(data, unit, &entry) {
                Ok(Some(record)) => {
                    records.push(record);
                    proof {
                        assert(views(records@) =~= before.push(record@));
                        match records_of_entries(pending.rest(), *data, *unit) {
                            Ok(rest) => {
                                assert(before.push(record@) + rest =~= before + (seq![record@]
                                    + rest));
                            },
                            Err(_) => {},
                        }
                    }
                },
                Ok(None) => {},
                Err(e) => {
                    return Err(e);
                },
            }
        }
    }
}

/// The records of all the units of `data`, unit by unit in the order of the
/// section. Reading fails where a unit header, a unit's tree, an attribute
/// or a string is malformed.
pub fn collect_functions<'a>(data: &DebugData<'a>) -> (r: Result<
    Vec<FunctionRecord>,
    FormatError,
>)
    ensures
        match all_records(*data) {
            Ok(found) => r matches Ok(records) && views(records@) == found,
            Err(_) => r == Err::<Vec<FunctionRecord>, FormatError>(FormatError::DebugInfo),
        },
{
    let mut headers = unit_headers(data);
    let mut records: Vec<FunctionRecord> = Vec::new();
    proof {
        match all_records(*data) {
            Ok(found) => {
                assert(views(records@) + found =~= found);
            },
            Err(_) => {},
        }
    }
    loop
        invariant
            followed_by(views(records@), records_of_units(pending_headers(headers), *data))
                == all_records(*data),
        decreases pending_headers(headers).items.len(),
    {
        let ghost before = views(records@);
        let ghost pending = pending_headers(headers);
        let header = match next_header(&mut headers) {
            Ok(Some(header)) => header,
            Ok(None) => {
                assert(before + Seq::<RecordView>::empty() =~= before);
                return Ok(records);
            },
            Err(_) => {
                return Err(FormatError::DebugInfo);
            },
        };
        let unit = match parse_unit(data, header) {
            Ok(unit) => unit,
            Err(_) => {
                return Err(FormatError::DebugInfo);
            },
        };
        match collect_unit(data, &unit, &mut records) {
            Ok(()) => {
                proof {
                    match (records_of_unit(*data, unit), records_of_units(pending.rest(), *data)) {
                        (Ok(first), Ok(rest)) => {
                            assert((before + first) + rest =~= before + (first + rest));
                        },
                        _ => {},
                    }
                }
            },
            Err(e) => {
                return Err(e);
            },
        }
    }
}

} // verus!
