//! Addresses as `hyper` reads them.

use vstd::prelude::*;

verus! {

/// Whether `hyper` reads a text as a URI.
pub uninterp spec fn uri_accepted(text: Seq<char>) -> bool;

/// `str::parse` at the type `hyper::Uri`: tries to read a text as a URI.
/// Nothing is proved of it: the text alone decides whether it is accepted.
#[verifier::external_body]
pub(crate) fn is_uri(text: &str) -> (accepted: bool)
    ensures
        accepted == uri_accepted(text@),
{
    text.parse::<hyper::Uri>().is_ok()
}

} // verus!
