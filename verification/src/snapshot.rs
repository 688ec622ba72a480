//! What one successful fetch yields.

use vstd::prelude::*;

verus! {

/// The result of one successful fetch.
///
/// Only `height` is interpreted: it orders snapshots, and a healthy node
/// never reports a lower one later. Everything else the node sent travels
/// along untouched in `payload`.
#[derive(Clone, Debug, PartialEq, Eq)]
pub struct TemplateSnapshot<P> {
    /// Height of the block the template is for.
    pub height: u64,
    /// The remaining template fields.
    pub payload: P,
}

impl<P> TemplateSnapshot<P> {
    /// Pairs a payload with the height it was reported at.
    pub fn new(height: u64, payload: P) -> (snapshot: Self)
        ensures
            snapshot == (TemplateSnapshot { height, payload }),
    {
        TemplateSnapshot { height, payload }
    }
}

} // verus!
