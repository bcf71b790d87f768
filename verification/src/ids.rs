use vstd::prelude::*;

verus! {

/// Identifier of an account, asset, or authority in the host environment.
///
/// The host addresses accounts by opaque identifiers; the core never looks
/// inside one, it only compares them for equality.
#[derive(Clone, Copy, PartialEq, Eq, Structural, Debug, Hash)]
pub struct AccountId(pub u64);

} // verus!
