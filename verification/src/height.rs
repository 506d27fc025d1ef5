//! Block heights.
use vstd::prelude::*;

verus! {

/// A position in a chain's history: a revision and a block height within it.
#[derive(Clone, Copy, Debug, PartialEq, Eq, Structural)]
pub struct Height {
    pub revision_number: u64,
    pub revision_height: u64,
}

/// Calls `ibc::Height::zero` and copies its two fields. The contract claims
/// what the source shows: both fields are 0.
#[verifier::external_body]
fn zero_height() -> (r: Height)
    ensures
        r.revision_number == 0,
        r.revision_height == 0,
{
    let h = ibc::Height::zero();
    Height { revision_number: h.revision_number, revision_height: h.revision_height }
}

/// Calls `<ibc::Height as Default>::default` and copies its two fields. The
/// contract claims what the source shows: the default is the zero height.
#[verifier::external_body]
fn default_height() -> (r: Height)
    ensures
        r.revision_number == 0,
        r.revision_height == 0,
{
    let h = ibc::Height::default();
    Height { revision_number: h.revision_number, revision_height: h.revision_height }
}

impl Height {
    /// The height that a query reads as "the latest".
    pub open spec fn spec_zero() -> Height {
        Height { revision_number: 0, revision_height: 0 }
    }

    #[verifier::when_used_as_spec(spec_zero)]
    pub fn zero() -> (r: Height)
        ensures
            r == Height::spec_zero(),
    {
        zero_height()
    }
}

impl Default for Height {
    fn default() -> (r: Height)
        ensures
            r == Height::spec_zero(),
    {
        default_height()
    }
}

} // verus!
