//! Header and transition model.
//!
//! The step logic is agnostic to the concrete header format: all it
//! ever reads of a header is its identity digest. The caller that owns
//! the full header — and runs the consensus-specific verification on
//! it — hands the step this digest.

use vstd::prelude::*;

use crate::bytes::copy_bytes;

verus! {

/// How stale a trusted header may be before light-client trust
/// verification refuses to extend from it: two weeks, in seconds.
pub const TRUSTING_PERIOD_SECS: u64 = 14 * 24 * 60 * 60;

/// Clock-skew allowance added to the head header's own timestamp to
/// form the verification time for the light-client check, in seconds.
pub const VERIFY_TIME_SKEW_SECS: u64 = 20;

/// What the step reads of a header: its identity digest.
pub struct Header {
    pub hash: Vec<u8>,
}

impl Header {
    /// A fresh header record with the same digest.
    pub fn duplicate(&self) -> (r: Header)
        ensures
            r.hash@ == self.hash@,
    {
        Header { hash: copy_bytes(&self.hash) }
    }
}

/// Whether this step extends a chain or starts one: either there is no
/// prior header — the chain's genesis — or the header one step back is
/// present.
pub enum Transition {
    Genesis,
    Continuation(Header),
}

/// The mathematical model of a transition: the prior header reduced to
/// its digest.
pub enum TransitionView {
    Genesis,
    Continuation(Seq<u8>),
}

impl View for Transition {
    type V = TransitionView;

    open spec fn view(&self) -> TransitionView {
        match self {
            Transition::Genesis => TransitionView::Genesis,
            Transition::Continuation(prior) => TransitionView::Continuation(prior.hash@),
        }
    }
}

} // verus!
