//! The object file that holds the debug information, as the `elf` crate
//! reads it, and the lookup of its sections by name.
//!
//! The file is held in a struct whose inside the verifier does not see. What
//! the calls into `elf` and `gimli` return is given a name each; the
//! statements about them here are not proved: they describe those crates.

use vstd::prelude::*;
use crate::debug_info::DebugData;
use crate::error::FormatError;

verus! {

/// The error that a call into `elf` returns.
#[verifier::external_type_specification]
#[verifier::external_body]
pub struct ExParseError(elf::ParseError);

/// The header of one section of an object file.
#[verifier::external_type_specification]
#[verifier::external_body]
pub struct ExSectionHeader(elf::section::SectionHeader);

/// The debug sections by kind.
#[verifier::external_type_specification]
#[verifier::external_body]
pub struct ExSectionId(gimli::SectionId);

/// An object file in memory.
#[verifier::external_body]
pub struct ObjectFile<'a> {
    pub(crate) inner: elf::ElfBytes<'a, elf::endian::AnyEndian>,
}

/// The order of the bytes of a number in an object file.
#[derive(Debug, Clone, Copy, PartialEq, Eq)]
pub enum ByteOrder {
    Little,
    Big,
}

/// A table of the object file cannot be read, or a section lies outside of
/// the file.
pub struct Unreadable;

/// The object file that `bytes` hold, if they hold one.
pub uninterp spec fn object_of(bytes: Seq<u8>) -> Option<ObjectFile<'static>>;

/// The byte order that the header of `file` declares.
pub uninterp spec fn byte_order_of(file: ObjectFile) -> ByteOrder;

/// The name under which an object file holds the section `section`.
pub uninterp spec fn section_name_of(section: gimli::SectionId) -> Seq<char>;

/// The header of the first section of `file` with the name `name`, if it has
/// one, and a failure where the section table or the table of section names
/// cannot be read.
pub uninterp spec fn header_named(file: ObjectFile, name: Seq<char>) -> Result<
    Option<elf::section::SectionHeader>,
    Unreadable,
>;

/// The bytes of the section of `file` that `header` describes, if they lie
/// in the file.
pub uninterp spec fn contents_of(file: ObjectFile, header: elf::section::SectionHeader)
    -> Option<Seq<u8>>;

/// The debug sections of `file`, its numbers read in the byte order `order`,
/// if each of them can be looked up.
pub uninterp spec fn debug_data_of(file: ObjectFile, order: ByteOrder) -> Option<
    DebugData<'static>,
>;

/// Calls `elf::ElfBytes::minimal_parse`, which reads the file header and
/// finds the section and segment tables: the file that is returned is the
/// one the bytes hold. An error says that the bytes are no object file of
/// this format, or that a table lies outside of them.
#[verifier::external_body]
pub(crate) fn parse_object<'a>(bytes: &'a [u8]) -> (r: Result<ObjectFile<'a>, elf::ParseError>)
    ensures
        match r {
            Ok(file) => object_of(bytes@) == Some(file),
            Err(_) => object_of(bytes@) is None,
        },
{
    match elf::ElfBytes::minimal_parse(bytes) {
        Ok(file) => Ok(ObjectFile { inner: file }),
        Err(e) => Err(e),
    }
}

/// Reads the field `ehdr.endianness` of `elf::ElfBytes`: the byte order that
/// the file header declares.
#[verifier::external_body]
pub(crate) fn byte_order<'a>(file: &ObjectFile<'a>) -> (order: ByteOrder)
    ensures
        order == byte_order_of(*file),
{
    match file.inner.ehdr.endianness {
        elf::endian::AnyEndian::Little => ByteOrder::Little,
        elf::endian::AnyEndian::Big => ByteOrder::Big,
    }
}

/// Calls `gimli::SectionId::name`: the name under which an object file holds
/// that section.
#[verifier::external_body]
pub(crate) fn section_name(section: gimli::SectionId) -> (name: &'static str)
    ensures
        name@ == section_name_of(section),
{
    section.name()
}

/// Calls `elf::ElfBytes::section_header_by_name`: the header of the first
/// section with that name, and none when the file has no section table, no
/// table of section names, or no section of that name. An error says that
/// one of the two tables cannot be read.
#[verifier::external_body]
pub(crate) fn find_section_header<'a>(file: &ObjectFile<'a>, name: &str) -> (r: Result<
    Option<elf::section::SectionHeader>,
    elf::ParseError,
>)
    ensures
        match r {
            Ok(header) => header_named(*file, name@) == Ok::<
                Option<elf::section::SectionHeader>,
                Unreadable,
            >(header),
            Err(_) => header_named(*file, name@) is Err,
        },
{
    file.inner.section_header_by_name(name)
}

/// Calls `elf::ElfBytes::section_data` and takes the bytes of what it
/// returns: the bytes of the section that the header describes. An error
/// says that the section lies outside of the file.
#[verifier::external_body]
pub(crate) fn section_contents<'a>(
    file: &ObjectFile<'a>,
    header: &elf::section::SectionHeader,
) -> (r: Result<&'a [u8], elf::ParseError>)
    ensures
        match r {
            Ok(bytes) => contents_of(*file, *header) == Some(bytes@),
            Err(_) => contents_of(*file, *header) is None,
        },
{
    file.inner.section_data(header).map(|data| data.0)
}

/// Calls `gimli::Dwarf::load`, which asks for each debug section in turn and
/// stops at the first that cannot be had; each is looked up in `file` with
/// `section_bytes`, and its numbers are read in the byte order `order`. The
/// data that is returned is that of `file` in that byte order; an error says
/// that one of the lookups failed.
#[verifier::external_body]
pub(crate) fn load_sections<'a>(file: &ObjectFile<'a>, order: ByteOrder) -> (r: Result<
    DebugData<'a>,
    FormatError,
>)
    ensures
        match r {
            Ok(data) => debug_data_of(*file, order) == Some(data),
            Err(_) => debug_data_of(*file, order) is None,
        },
{
    let endian = match order {
        ByteOrder::Little => gimli::RunTimeEndian::Little,
        ByteOrder::Big => gimli::RunTimeEndian::Big,
    };
    let section = |id| section_bytes(id, file).map(|bytes| gimli::EndianSlice::new(bytes, endian));
    gimli::Dwarf::load(section).map(|inner| DebugData { inner })
}

/// The bytes of the section `section` of `file`, none where the file has no
/// section of that name, and a failure where the lookup of the section or of
/// its bytes fails.
pub open spec fn section_of(file: ObjectFile, section: gimli::SectionId) -> Result<
    Option<Seq<u8>>,
    Unreadable,
> {
    match header_named(file, section_name_of(section)) {
        Ok(Some(header)) => match contents_of(file, header) {
            Some(bytes) => Ok(Some(bytes)),
            None => Err(Unreadable),
        },
        Ok(None) => Ok(None),
        Err(e) => Err(e),
    }
}

impl<'a> ObjectFile<'a> {
    /// Reads `bytes` as an object file. Fails where they are none.
    pub fn parse(bytes: &'a [u8]) -> (r: Result<ObjectFile<'a>, FormatError>)
        ensures
            match object_of(bytes@) {
                Some(file) => r matches Ok(read) && read == file,
                None => r matches Err(e) && e == FormatError::Container,
            },
    {
        match parse_object(bytes) {
            Ok(file) => Ok(file),
            Err(_) => Err(FormatError::Container),
        }
    }
}

/// The bytes of the section `section` of `file`, or none where the file has
/// no section of that name. Fails where the section tables of the file, or
/// the place of the section in it, cannot be read.
pub fn load_file_section<'a>(section: gimli::SectionId, file: &ObjectFile<'a>) -> (r: Result<
    Option<&'a [u8]>,
    FormatError,
>)
    ensures
        match section_of(*file, section) {
            Ok(Some(bytes)) => r matches Ok(Some(found)) && found@ == bytes,
            Ok(None) => r matches Ok(None),
            Err(_) => r matches Err(e) && e == FormatError::Container,
        },
{
    let name = section_name(section);
    match find_section_header(file, name) {
        Ok(Some(header)) => match section_contents(file, &header) {
            Ok(bytes) => Ok(Some(bytes)),
            Err(_) => Err(FormatError::Container),
        },
        Ok(None) => Ok(None),
        Err(_) => Err(FormatError::Container),
    }
}

/// The bytes of the section `section` of `file`, the empty span standing for
/// a section that the file does not have.
pub fn section_bytes<'a>(section: gimli::SectionId, file: &ObjectFile<'a>) -> (r: Result<
    &'a [u8],
    FormatError,
>)
    ensures
        match section_of(*file, section) {
            Ok(Some(bytes)) => r matches Ok(found) && found@ == bytes,
            Ok(None) => r matches Ok(found) && found@ == Seq::<u8>::empty(),
            Err(_) => r matches Err(e) && e == FormatError::Container,
        },
{
    match load_file_section(section, file) {
        Ok(Some(bytes)) => Ok(bytes),
        Ok(None) => {
            let nothing: &'static [u8] = &[];
            assert(nothing@ =~= Seq::<u8>::empty());
            Ok(nothing)
        },
        Err(e) => Err(e),
    }
}

/// The debug sections of `file`, read in the byte order that its header
/// declares. A section that the file does not have is taken as empty. Fails
/// where a section cannot be looked up.
pub fn load_debug_data<'a>(file: &ObjectFile<'a>) -> (r: Result<DebugData<'a>, FormatError>)
    ensures
        match debug_data_of(*file, byte_order_of(*file)) {
            Some(data) => r matches Ok(loaded) && loaded == data,
            None => r matches Err(e) && e == FormatError::Container,
        },
{
    let order = byte_order(file);
    match load_sections(file, order) {
        Ok(data) => Ok(data),
        Err(_) => Err(FormatError::Container),
    }
}

} // verus!
