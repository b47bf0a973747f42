//! The debug information of one object file, as the `gimli` crate reads it.
//!
//! The values of `gimli` are held in structs whose inside the verifier does
//! not see. What they hold is given a name each, and the functions of this
//! module, which make the calls into `gimli`, say over those names what the
//! calls return. None of these statements is proved: they describe `gimli`.

use vstd::prelude::*;
use crate::attribute::{Attribute, AttributeValue};

verus! {

/// The error that a call into `gimli` returns.
#[verifier::external_type_specification]
#[verifier::external_body]
pub struct ExGimliError(gimli::Error);

/// The debug sections of one object file.
#[verifier::external_body]
pub struct DebugData<'a> {
    pub(crate) inner: gimli::Dwarf<gimli::EndianSlice<'a, gimli::RunTimeEndian>>,
}

/// The unit headers of the debug-info section that are still to be read.
#[verifier::external_body]
pub struct UnitHeaders<'a> {
    pub(crate) inner: gimli::DebugInfoUnitHeadersIter<gimli::EndianSlice<'a, gimli::RunTimeEndian>>,
}

/// The header of one compilation unit.
#[verifier::external_body]
pub struct UnitHeader<'a> {
    pub(crate) inner: gimli::UnitHeader<gimli::EndianSlice<'a, gimli::RunTimeEndian>>,
}

/// One compilation unit: its entries, its own source name and its file
/// table.
#[verifier::external_body]
pub struct Unit<'a> {
    pub(crate) inner: gimli::Unit<gimli::EndianSlice<'a, gimli::RunTimeEndian>>,
}

/// A position in the tree of a unit's entries, walked depth first.
#[verifier::external_body]
pub struct EntryCursor<'u, 'a> {
    pub(crate) inner: gimli::EntriesCursor<'u, 'u, gimli::EndianSlice<'a, gimli::RunTimeEndian>>,
}

/// One entry of a unit's tree.
#[verifier::external_body]
pub struct Entry<'c, 'u, 'a> {
    pub(crate) inner: &'c gimli::DebuggingInformationEntry<
        'u,
        'u,
        gimli::EndianSlice<'a, gimli::RunTimeEndian>,
    >,
}

/// The attributes of an entry that are still to be read.
#[verifier::external_body]
pub struct AttributeIter<'c, 'u, 'a> {
    pub(crate) inner: gimli::AttrsIter<'u, 'c, 'u, gimli::EndianSlice<'a, gimli::RunTimeEndian>>,
}

/// One attribute as read.
#[verifier::external_body]
pub struct RawAttribute<'a> {
    pub(crate) inner: gimli::Attribute<gimli::EndianSlice<'a, gimli::RunTimeEndian>>,
}

/// What a reader has yet to give out: the items that can be read, in their
/// order, and whether reading then comes to the end. Where it does not, what
/// follows the items is malformed.
pub struct Stream<T> {
    pub items: Seq<T>,
    pub complete: bool,
}

impl<T> Stream<T> {
    /// The stream without its first item.
    pub open spec fn rest(self) -> Stream<T> {
        Stream { items: self.items.skip(1), complete: self.complete }
    }
}

/// What looking up a text gives: the text, nothing where none is recorded,
/// or the finding that what is recorded is malformed.
pub enum Lookup {
    Text(Seq<char>),
    Nothing,
    Malformed,
}

/// What an entry holds: its tag, and its attributes in the order in which
/// they are read.
pub struct EntryView {
    pub tag: u16,
    pub attributes: Stream<Attribute>,
}

/// The headers of the units of `data`, in the order of the section.
pub uninterp spec fn unit_headers_of(data: DebugData) -> Stream<UnitHeader>;

/// The headers that `headers` has yet to give out.
pub uninterp spec fn pending_headers(headers: UnitHeaders) -> Stream<UnitHeader>;

/// The unit that `header` heads in `data`, if it can be read.
pub uninterp spec fn unit_of(data: DebugData, header: UnitHeader) -> Option<Unit<'static>>;

/// The entries of `unit` in depth-first pre-order, the root first.
pub uninterp spec fn entries_of(unit: Unit) -> Stream<EntryView>;

/// The entries that `cursor` has yet to give out.
pub uninterp spec fn pending_entries(cursor: EntryCursor) -> Stream<EntryView>;

/// What `entry` holds.
pub uninterp spec fn entry_view(entry: Entry) -> EntryView;

/// The attributes that `attributes` has yet to give out.
pub uninterp spec fn pending_attributes(attributes: AttributeIter) -> Stream<Attribute>;

/// What `attribute` holds.
pub uninterp spec fn attribute_view(attribute: RawAttribute) -> Attribute;

/// The text that the string table of `data` holds at `offset`, if it holds
/// one there.
pub uninterp spec fn string_at_offset(data: DebugData, offset: usize) -> Option<Seq<char>>;

/// The source name that `unit` records for itself.
pub uninterp spec fn unit_source_name(unit: Unit) -> Lookup;

/// The directory index of the file in slot `slot` of the file table of
/// `unit`, if the table has that slot.
pub uninterp spec fn file_directory(unit: Unit, slot: u64) -> Option<u64>;

/// The name of directory `directory` of `unit`: nothing where the unit has
/// no such directory, or gives its name in another form than a string of its
/// own.
pub uninterp spec fn directory_name(unit: Unit, directory: u64) -> Lookup;

/// The name of the file in slot `slot` of the file table of `unit`: nothing
/// where the table has no such slot.
pub uninterp spec fn file_name(data: DebugData, unit: Unit, slot: u64) -> Lookup;

/// Calls `gimli::Dwarf::units`: the iterator that is returned has all the
/// unit headers of the data yet to give out.
#[verifier::external_body]
pub(crate) fn unit_headers<'a>(data: &DebugData<'a>) -> (headers: UnitHeaders<'a>)
    ensures
        pending_headers(headers) == unit_headers_of(*data),
{
    UnitHeaders { inner: data.inner.units() }
}

/// Calls `gimli::DebugInfoUnitHeadersIter::next`: a header that is returned
/// is the first of those pending, and leaves the pending ones; when none is
/// returned, none was pending and the section is at its end. An error says
/// that none was pending and that what follows is malformed.
#[verifier::external_body]
pub(crate) fn next_header<'a>(headers: &mut UnitHeaders<'a>) -> (r: Result<
    Option<UnitHeader<'a>>,
    gimli::Error,
>)
    ensures
        match r {
            Ok(Some(header)) => pending_headers(*old(headers)).items.len() > 0 && header == pending_headers(
                *old(headers),
            ).items[0] && pending_headers(*final(headers)) == pending_headers(*old(headers)).rest(),
            Ok(None) => pending_headers(*old(headers)).items.len() == 0 && pending_headers(*old(headers)).complete,
            Err(_) => pending_headers(*old(headers)).items.len() == 0 && !pending_headers(*old(headers)).complete,
        },
{
    match headers.inner.next() {
        Ok(Some(header)) => Ok(Some(UnitHeader { inner: header })),
        Ok(None) => Ok(None),
        Err(e) => Err(e),
    }
}

/// Calls `gimli::Dwarf::unit`, which reads the abbreviations and the root
/// entry of the unit under `header`: a unit that is returned is the one that
/// `header` heads, and an error says that this unit cannot be read.
#[verifier::external_body]
pub(crate) fn parse_unit<'a>(data: &DebugData<'a>, header: UnitHeader<'a>) -> (r: Result<
    Unit<'a>,
    gimli::Error,
>)
    ensures
        match r {
            Ok(unit) => unit_of(*data, header) == Some(unit),
            Err(_) => unit_of(*data, header) is None,
        },
{
    match data.inner.unit(header.inner) {
        Ok(unit) => Ok(Unit { inner: unit }),
        Err(e) => Err(e),
    }
}

/// Calls `gimli::Unit::entries`: the cursor that is returned stands before
/// the root and has all the entries of the unit yet to give out.
#[verifier::external_body]
pub(crate) fn unit_entries<'u, 'a>(unit: &'u Unit<'a>) -> (cursor: EntryCursor<'u, 'a>)
    ensures
        pending_entries(cursor) == entries_of(*unit),
{
    EntryCursor { inner: unit.inner.entries() }
}

/// Calls `gimli::EntriesCursor::next_dfs`, which moves to the next entry in
/// depth-first pre-order: an entry that is returned is the first of those
/// pending, and leaves the pending ones; when none is returned, none was
/// pending and the tree is at its end. An error says that none was pending
/// and that what follows is malformed.
#[verifier::external_body]
pub(crate) fn next_entry<'c, 'u, 'a>(cursor: &'c mut EntryCursor<'u, 'a>) -> (r: Result<
    Option<Entry<'c, 'u, 'a>>,
    gimli::Error,
>)
    ensures
        match r {
            Ok(Some(entry)) => pending_entries(*old(cursor)).items.len() > 0 && entry_view(entry) == pending_entries(
                *old(cursor),
            ).items[0] && pending_entries(*final(cursor)) == pending_entries(*old(cursor)).rest(),
            Ok(None) => pending_entries(*old(cursor)).items.len() == 0 && pending_entries(*old(cursor)).complete,
            Err(_) => pending_entries(*old(cursor)).items.len() == 0 && !pending_entries(*old(cursor)).complete,
        },
{
    match cursor.inner.next_dfs() {
        Ok(Some((_, entry))) => Ok(Some(Entry { inner: entry })),
        Ok(None) => Ok(None),
        Err(e) => Err(e),
    }
}

/// Calls `gimli::DebuggingInformationEntry::tag`: the code of the entry's
/// tag.
#[verifier::external_body]
pub(crate) fn entry_tag<'c, 'u, 'a>(entry: &Entry<'c, 'u, 'a>) -> (tag: u16)
    ensures
        tag == entry_view(*entry).tag,
{
    entry.inner.tag().0
}

/// Calls `gimli::DebuggingInformationEntry::attrs`: the iterator that is
/// returned has all the attributes of the entry yet to give out.
#[verifier::external_body]
pub(crate) fn entry_attributes<'c, 'u, 'a>(entry: &Entry<'c, 'u, 'a>) -> (attributes:
    AttributeIter<'c, 'u, 'a>)
    ensures
        pending_attributes(attributes) == entry_view(*entry).attributes,
{
    AttributeIter { inner: entry.inner.attrs() }
}

/// Calls `gimli::AttrsIter::next`: an attribute that is returned is the
/// first of those pending, and leaves the pending ones; when none is
/// returned, none was pending and the entry is at its end. An error says
/// that none was pending and that what follows is malformed.
#[verifier::external_body]
pub(crate) fn next_attribute<'c, 'u, 'a>(attributes: &mut AttributeIter<'c, 'u, 'a>) -> (r:
    Result<Option<RawAttribute<'a>>, gimli::Error>)
    ensures
        match r {
            Ok(Some(attribute)) => pending_attributes(*old(attributes)).items.len() > 0 && attribute_view(attribute) == pending_attributes(
                *old(attributes),
            ).items[0] && pending_attributes(*final(attributes)) == pending_attributes(*old(attributes)).rest(),
            Ok(None) => pending_attributes(*old(attributes)).items.len() == 0 && pending_attributes(*old(attributes)).complete,
            Err(_) => pending_attributes(*old(attributes)).items.len() == 0 && !pending_attributes(*old(attributes)).complete,
        },
{
    match attributes.inner.next() {
        Ok(Some(attribute)) => Ok(Some(RawAttribute { inner: attribute })),
        Ok(None) => Ok(None),
        Err(e) => Err(e),
    }
}

/// Calls `gimli::Attribute::name`: the code of the attribute's name.
#[verifier::external_body]
pub(crate) fn attribute_name<'a>(attribute: &RawAttribute<'a>) -> (name: u16)
    ensures
        name == attribute_view(*attribute).name,
{
    attribute.inner.name().0
}

/// Calls `gimli::Attribute::value`, which gives the value in the kind that
/// the attribute's name asks for where the encoding allows it, and passes
/// the kind on: a string-table offset, an inline string, a file index, an
/// unsigned or a signed number, or anything else.
#[verifier::external_body]
pub(crate) fn attribute_value<'a>(attribute: &RawAttribute<'a>) -> (value: AttributeValue)
    ensures
        value == attribute_view(*attribute).value,
{
    match attribute.inner.value() {
        gimli::AttributeValue::DebugStrRef(offset) => AttributeValue::StringRef(offset.0),
        gimli::AttributeValue::String(_) => AttributeValue::InlineString,
        gimli::AttributeValue::FileIndex(index) => AttributeValue::FileIndex(index),
        gimli::AttributeValue::Data1(n) => AttributeValue::Unsigned(n.into()),
        gimli::AttributeValue::Data2(n) => AttributeValue::Unsigned(n.into()),
        gimli::AttributeValue::Data4(n) => AttributeValue::Unsigned(n.into()),
        gimli::AttributeValue::Data8(n) => AttributeValue::Unsigned(n),
        gimli::AttributeValue::Udata(n) => AttributeValue::Unsigned(n),
        gimli::AttributeValue::Sdata(n) => AttributeValue::Signed(n),
        _ => AttributeValue::Other,
    }
}

/// Calls `gimli::DebugStr::get_str` and reads the bytes it returns, those
/// from `offset` up to the next zero byte, as UTF-8: the text that is
/// returned is the one the string table holds at `offset`. An error says
/// that the table has no string there, or that the bytes are no UTF-8.
#[verifier::external_body]
pub(crate) fn string_at<'a>(data: &DebugData<'a>, offset: usize) -> (r: Result<
    String,
    gimli::Error,
>)
    ensures
        match r {
            Ok(text) => string_at_offset(*data, offset) == Some(text@),
            Err(_) => string_at_offset(*data, offset) is None,
        },
{
    match data.inner.debug_str.get_str(gimli::DebugStrOffset(offset)) {
        Ok(bytes) => bytes.to_string().map(String::from),
        Err(e) => Err(e),
    }
}

/// Reads the field `name` of `gimli::Unit`, the name attribute of the unit's
/// root entry, as UTF-8: the text that is returned is the unit's own source
/// name, and none is returned when the unit records none. An error says that
/// the bytes are no UTF-8.
#[verifier::external_body]
pub(crate) fn unit_name<'a>(unit: &Unit<'a>) -> (r: Result<Option<String>, gimli::Error>)
    ensures
        match r {
            Ok(Some(text)) => unit_source_name(*unit) == Lookup::Text(text@),
            Ok(None) => unit_source_name(*unit) is Nothing,
            Err(_) => unit_source_name(*unit) is Malformed,
        },
{
    match unit.inner.name {
        Some(bytes) => bytes.to_string().map(|text| Some(String::from(text))),
        None => Ok(None),
    }
}

/// Looks up slot `slot` in `gimli::LineProgramHeader::file_names` and calls
/// `gimli::FileEntry::directory_index` on it: the directory index of that
/// file, and none when the unit has no line-number program or its table has
/// no such slot.
#[verifier::external_body]
pub(crate) fn file_directory_index<'a>(unit: &Unit<'a>, slot: u64) -> (r: Option<u64>)
    ensures
        r == file_directory(*unit, slot),
{
    let program = unit.inner.line_program.as_ref()?;
    let file = program.header().file_names().get(usize::try_from(slot).ok()?)?;
    Some(file.directory_index())
}

/// Calls `gimli::LineProgramHeader::directory` and reads the string it
/// returns as UTF-8: the name of that directory, and none when the unit has
/// no line-number program or no such directory, or gives the name in another
/// form than a string of its own. An error says that the bytes are no UTF-8.
#[verifier::external_body]
pub(crate) fn directory_text<'a>(unit: &Unit<'a>, directory: u64) -> (r: Result<
    Option<String>,
    gimli::Error,
>)
    ensures
        match r {
            Ok(Some(text)) => directory_name(*unit, directory) == Lookup::Text(text@),
            Ok(None) => directory_name(*unit, directory) is Nothing,
            Err(_) => directory_name(*unit, directory) is Malformed,
        },
{
    match unit.inner.line_program.as_ref().and_then(|p| p.header().directory(directory)) {
        Some(gimli::AttributeValue::String(bytes)) => bytes.to_string().map(
            |text| Some(String::from(text)),
        ),
        _ => Ok(None),
    }
}

/// Looks up slot `slot` in `gimli::LineProgramHeader::file_names`, calls
/// `gimli::Dwarf::attr_string` on the `path_name` of that file, which
/// follows a reference into a string table where the name is one, and reads
/// the bytes as UTF-8: the name of that file, and none when the unit has no
/// line-number program or its table has no such slot. An error says that the
/// name has no string form, that a table has no string there, or that the
/// bytes are no UTF-8.
#[verifier::external_body]
pub(crate) fn file_name_text<'a>(data: &DebugData<'a>, unit: &Unit<'a>, slot: u64) -> (r: Result<
    Option<String>,
    gimli::Error,
>)
    ensures
        match r {
            Ok(Some(text)) => file_name(*data, *unit, slot) == Lookup::Text(text@),
            Ok(None) => file_name(*data, *unit, slot) is Nothing,
            Err(_) => file_name(*data, *unit, slot) is Malformed,
        },
{
    let files = unit.inner.line_program.as_ref().map(|p| p.header().file_names());
    match files.and_then(|f| f.get(usize::try_from(slot).ok()?)) {
        Some(file) => data.inner.attr_string(&unit.inner, file.path_name())?.to_string().map(
            |text| Some(String::from(text)),
        ),
        None => Ok(None),
    }
}

} // verus!
