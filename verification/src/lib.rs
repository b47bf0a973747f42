//! A sorted, duplicate-free index of the functions that a binary's debug
//! information declares: for each function its name, the source file that
//! declares it, and the declaration's line and column.

use vstd::prelude::*;

pub mod attribute;
pub mod debug_info;
pub mod emit;
pub mod error;
pub mod index;
pub mod object;
pub mod order;
pub mod path;
pub mod record;
pub mod resolve;

verus! {

/// The records that the object file in `bytes` declares, unit by unit, or
/// why they cannot be had.
pub open spec fn object_records(bytes: Seq<u8>) -> Result<
    Seq<record::RecordView>,
    error::FormatError,
> {
    match object::object_of(bytes) {
        None => Err(error::FormatError::Container),
        Some(file) => match object::debug_data_of(file, object::byte_order_of(file)) {
            None => Err(error::FormatError::Container),
            Some(data) => match resolve::all_records(data) {
                Ok(found) => Ok(found),
                Err(_) => Err(error::FormatError::DebugInfo),
            },
        },
    }
}

/// The functions that the debug information of `data` declares, in order and
/// each once. Header lines and record lines are made of it by
/// `emit::render_lines`. Fails where a unit header, a unit's tree, an
/// attribute or a string is malformed; no part of an index is returned then.
pub fn index_debug_data<'a>(data: &debug_info::DebugData<'a>) -> (r: Result<
    Vec<record::FunctionRecord>,
    error::FormatError,
>)
    ensures
        match resolve::all_records(*data) {
            Ok(found) => r matches Ok(listed) && index::is_index_of(
                record::views(listed@),
                found,
            ),
            Err(_) => r matches Err(e) && e == error::FormatError::DebugInfo,
        },
{
    match resolve::collect_functions(data) {
        Ok(records) => Ok(index::build_index(records)),
        Err(e) => Err(e),
    }
}

/// The functions that the object file in `bytes` declares in its debug
/// information, in order and each once. Fails where the bytes are no object
/// file that can be read, or the debug information is malformed.
pub fn index_object(bytes: &[u8]) -> (r: Result<Vec<record::FunctionRecord>, error::FormatError>)
    ensures
        match object_records(bytes@) {
            Ok(found) => r matches Ok(listed) && index::is_index_of(
                record::views(listed@),
                found,
            ),
            Err(e) => r matches Err(given) && given == e,
        },
{
    let file = match object::ObjectFile::parse(bytes) {
        Ok(file) => file,
        Err(e) => {
            return Err(e);
        },
    };
    let data = match object::load_debug_data(&file) {
        Ok(data) => data,
        Err(e) => {
            return Err(e);
        },
    };
    index_debug_data(&data)
}

} // verus!
