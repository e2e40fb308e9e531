//! Telling compiled music data from source text.

use vstd::prelude::*;
use vstd::utf8::{decode_utf8, valid_utf8};

verus! {

/// The byte that ends compiled data: the channel end command.
pub const CHANNEL_END_BYTE: u8 = 0xFF;

/// The byte appended to compiled data so that the argument byte of a
/// trailing function command can be read.
pub const TERMINATOR: u8 = 0x00;

/// What an input file holds.
pub enum MmmlData {
    /// Compiled data, terminator appended: ready to be played.
    Binary(Vec<u8>),
    /// Source text, still to be compiled.
    Source(String),
}

/// The input is neither compiled data nor text.
#[derive(Debug, Clone, Copy, PartialEq, Eq)]
pub struct InvalidData;

/// Whether `data` is compiled data: its last byte is a channel end.
pub open spec fn is_compiled(data: Seq<u8>) -> bool {
    data.len() > 0 && data.last() == CHANNEL_END_BYTE
}

/// `String::from_utf8`, with the error dropped: the text that `bytes`
/// encode where they are valid UTF-8, and nothing where they are not.
#[verifier::external_body]
fn text_of(bytes: Vec<u8>) -> (r: Option<String>)
    ensures
        match r {
            Some(text) => valid_utf8(bytes@) && text@ == decode_utf8(bytes@),
            None => !valid_utf8(bytes@),
        },
{
    String::from_utf8(bytes).ok()
}

/// Appends the terminator to compiled data.
pub fn terminate(bytes: Vec<u8>) -> (r: Vec<u8>)
    ensures
        r@ == bytes@.push(TERMINATOR),
{
    let mut bytes = bytes;
    bytes.push(TERMINATOR);
    bytes
}

/// Sorts out what was read from an input file. Data whose last byte is a
/// channel end is compiled already and is returned with the terminator
/// appended; other data is source text if it is valid UTF-8, and invalid
/// if it is not. Compiled source text takes its terminator from
/// `terminate`.
pub fn get_mmml_data(data: Vec<u8>) -> (r: Result<MmmlData, InvalidData>)
    ensures
        match r {
            Ok(MmmlData::Binary(bytes)) => is_compiled(data@) && bytes@ == data@.push(TERMINATOR),
            Ok(MmmlData::Source(text)) => !is_compiled(data@) && valid_utf8(data@) && text@
                == decode_utf8(data@),
            Err(_) => !is_compiled(data@) && !valid_utf8(data@),
        },
{
    if data.len() > 0 && data[data.len() - 1] == CHANNEL_END_BYTE {
        return Ok(MmmlData::Binary(terminate(data)));
    }
    match text_of(data) {
        Some(text) => Ok(MmmlData::Source(text)),
        None => Err(InvalidData),
    }
}

} // verus!
