//! Pages of a listing: the cursor of each record, and the page's metadata.

use vstd::prelude::*;
use vstd::string::StringExecFns;
use vstd::utf8::{decode_utf8, valid_utf8};
use crate::identity::{address_bytes, IdentityAddress};

verus! {

/// The metadata of one page of a listing.
#[derive(Debug, PartialEq, Eq)]
pub struct PageInfo {
    /// The cursor of the first record on the page.
    pub start_cursor: String,
    /// The cursor of the last record on the page.
    pub end_cursor: String,
    pub has_next_page: bool,
    pub has_previous_page: bool,
    pub page_limit: Option<usize>,
    pub total_count: Option<usize>,
}

/// `String::from_utf8` of the standard library, with its error dropped: the
/// text that the bytes encode where they are well-formed UTF-8, and nothing
/// where they are not.
#[verifier::external_body]
fn string_from_utf8(bytes: Vec<u8>) -> (text: Option<String>)
    ensures
        match text {
            Some(decoded) => valid_utf8(bytes@) && decoded@ == decode_utf8(bytes@),
            None => !valid_utf8(bytes@),
        },
{
    match String::from_utf8(bytes) {
        Ok(decoded) => Some(decoded),
        Err(_) => None,
    }
}

/// The cursor of a record: the bytes of its identity address read as UTF-8,
/// and the empty text where they are not UTF-8.
pub open spec fn cursor_text(address: IdentityAddress) -> Seq<char> {
    if valid_utf8(address_bytes(address)) {
        decode_utf8(address_bytes(address))
    } else {
        Seq::empty()
    }
}

/// The cursor of the record with this identity address. It depends on the
/// address alone.
pub fn cursor_of(address: &IdentityAddress) -> (cursor: String)
    ensures
        cursor@ == cursor_text(*address),
{
    match string_from_utf8(address.to_bytes()) {
        Some(text) => text,
        None => String::new(),
    }
}

/// The cursor that stands at both ends of an empty page.
pub open spec fn empty_page_cursor() -> Seq<char> {
    "0"@
}

/// The cursor at the start of a page with these cursors.
pub open spec fn start_of_page(cursors: Seq<Seq<char>>) -> Seq<char> {
    if cursors.len() == 0 {
        empty_page_cursor()
    } else {
        cursors.first()
    }
}

/// The cursor at the end of a page with these cursors.
pub open spec fn end_of_page(cursors: Seq<Seq<char>>) -> Seq<char> {
    if cursors.len() == 0 {
        empty_page_cursor()
    } else {
        cursors.last()
    }
}

/// The metadata of the page that holds records with these cursors, in this
/// order: the page starts at the first cursor and ends at the last. Neither a
/// limit nor a total is known, and a page may lie on either side.
pub fn page_info(cursors: &Vec<String>) -> (info: PageInfo)
    ensures
        info.start_cursor@ == start_of_page(cursors.deep_view()),
        info.end_cursor@ == end_of_page(cursors.deep_view()),
        info.has_next_page,
        info.has_previous_page,
        info.page_limit is None,
        info.total_count is None,
{
    let count = cursors.len();
    let start_cursor = if count == 0 {
        String::from_str("0")
    } else {
        cursors[0].clone()
    };
    let end_cursor = if count == 0 {
        String::from_str("0")
    } else {
        cursors[count - 1].clone()
    };
    PageInfo {
        start_cursor,
        end_cursor,
        has_next_page: true,
        has_previous_page: true,
        page_limit: None,
        total_count: None,
    }
}

} // verus!
