//! Where the hex of a transaction is to be had from, given what the user
//! typed.

use vstd::prelude::*;

verus! {

/// The number of characters of a transaction id.
pub const TXID_CHARS: usize = 64;

/// What stands before the id in the address of a transaction's hex.
pub const LOOKUP_PREFIX: &'static str = "https://blockstream.info/api/tx/";

/// What stands after the id in the address of a transaction's hex.
pub const LOOKUP_SUFFIX: &'static str = "/hex";

/// Where the hex of a transaction comes from.
#[derive(Clone, Debug, PartialEq, Eq)]
pub enum TxSource {
    /// The input is the hex itself.
    RawHex(String),
    /// The hex is the body of the answer to one GET of this address.
    Lookup(String),
}

/// What a `TxSource` holds.
pub enum TxSourceView {
    RawHex(Seq<char>),
    Lookup(Seq<char>),
}

impl View for TxSource {
    type V = TxSourceView;

    open spec fn view(&self) -> TxSourceView {
        match self {
            TxSource::RawHex(hex) => TxSourceView::RawHex(hex@),
            TxSource::Lookup(url) => TxSourceView::Lookup(url@),
        }
    }
}

/// The address at which the hex of the transaction `id` is looked up: the
/// id stands in it as it was given.
pub open spec fn lookup_url(id: Seq<char>) -> Seq<char> {
    LOOKUP_PREFIX@ + id + LOOKUP_SUFFIX@
}

/// An input of exactly 64 characters is taken for a transaction id, whatever
/// the characters are; any other input is taken for the hex itself.
pub open spec fn resolved(input: Seq<char>) -> TxSourceView {
    if input.len() == TXID_CHARS {
        TxSourceView::Lookup(lookup_url(input))
    } else {
        TxSourceView::RawHex(input)
    }
}

/// Decides where the hex of the transaction comes from.
pub fn resolve(input: &str) -> (source: TxSource)
    ensures
        source@ == resolved(input@),
{
    if input.unicode_len() == TXID_CHARS {
        let mut url = String::from_str(LOOKUP_PREFIX);
        url.append(input);
        url.append(LOOKUP_SUFFIX);
        TxSource::Lookup(url)
    } else {
        TxSource::RawHex(String::from_str(input))
    }
}

/// Why no hex was had from a lookup.
#[derive(Clone, Copy, Debug, PartialEq, Eq, Structural)]
pub enum ResolveError {
    /// The request did not get an answer.
    Transport,
    /// The answer came with this status, which is not one of success.
    Status(u16),
}

/// The statuses of success: 200 to 299.
pub open spec fn is_success(status: u16) -> bool {
    200 <= status <= 299
}

/// What an answer to the lookup gives: its whole body as the hex if the
/// status is one of success, and nothing of the body otherwise.
pub open spec fn answered(status: u16, body: Seq<char>) -> Result<Seq<char>, ResolveError> {
    if is_success(status) {
        Ok(body)
    } else {
        Err(ResolveError::Status(status))
    }
}

/// The view of a hex string that was or was not had.
pub open spec fn hex_view(r: Result<String, ResolveError>) -> Result<Seq<char>, ResolveError> {
    match r {
        Ok(hex) => Ok(hex@),
        Err(e) => Err(e),
    }
}

/// Takes the hex from the answer to a lookup.
pub fn accept_answer(status: u16, body: String) -> (r: Result<String, ResolveError>)
    ensures
        hex_view(r) == answered(status, body@),
{
    if 200 <= status && status <= 299 {
        Ok(body)
    } else {
        Err(ResolveError::Status(status))
    }
}

} // verus!
