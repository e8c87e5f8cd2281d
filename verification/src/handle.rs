//! Handles are opaque, unguessable 128-bit identifiers, carried across the
//! request boundary in their canonical hyphenated text form. Minting,
//! formatting and parsing are done by the `uuid` crate behind the trusted
//! wrappers below; everything the rest of the library proves about handles
//! goes through the two named results `handle_text` and `parsed_handle`.

use vstd::prelude::*;

verus! {

/// The canonical text form that the `uuid` crate gives a 128-bit handle:
/// a function of the handle value alone.
pub uninterp spec fn handle_text(h: u128) -> Seq<char>;

/// What the `uuid` crate's parser makes of a handle string: the handle
/// value when the text is a well-formed identifier, `None` otherwise;
/// a function of the text alone.
pub uninterp spec fn parsed_handle(s: Seq<char>) -> Option<u128>;

/// Relies on uuid::Uuid::new_v4: a freshly drawn random identifier,
/// returned as its 128-bit value. Nothing is promised of the value; the
/// crate's random backend aborts the process if the operating system's
/// random source fails, an environmental failure outside any contract.
#[verifier::external_body]
pub(crate) fn mint_handle() -> u128 {
    uuid::Uuid::new_v4().as_u128()
}

/// Relies on uuid::Uuid::from_u128 and the hyphenated `Display` form:
/// the canonical 36-character text of the identifier, a function of the
/// handle value alone. Relies on uuid::Uuid::parse_str accepting that
/// hyphenated encoding and recovering the very value it encodes, so the
/// text round-trips back to the handle it was minted for.
#[verifier::external_body]
pub(crate) fn handle_to_string(h: u128) -> (r: String)
    ensures
        r@ == handle_text(h),
        r@.len() == 36,
        parsed_handle(r@) == Some(h),
{
    format!("{}", uuid::Uuid::from_u128(h))
}

/// Relies on uuid::Uuid::parse_str and uuid::Uuid::as_u128: the 128-bit
/// value parsed out of a well-formed identifier string, `None` where the
/// text is rejected; a function of the text alone.
#[verifier::external_body]
pub(crate) fn parse_handle(s: &str) -> (r: Option<u128>)
    ensures
        r == parsed_handle(s@),
{
    match uuid::Uuid::parse_str(s) {
        Ok(u) => Some(u.as_u128()),
        Err(_) => None,
    }
}

} // verus!
