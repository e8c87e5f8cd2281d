//! The two requests the UI layer can make of the native side. The host
//! transport deserializes its JSON command envelope into this shape and
//! carries the caller-supplied callback and error tokens along with it.

use vstd::prelude::*;

verus! {

/// A decoded UI command: start a glob search, or load one page of an
/// earlier search's results.
pub enum Cmd {
    SearchGlob { pattern: String, callback: String, error: String },
    LoadResource { id: String, amount: usize, callback: String, error: String },
}

} // verus!
