//! Values shared by the raw request types.

use vstd::prelude::*;
use vstd::std_specs::convert::FromSpecImpl;

verus! {

/// A span of time as the raw request types carry it.
#[derive(Clone, Copy, Debug)]
pub struct Duration {
    val: std::time::Duration,
}

impl Duration {
    /// The span that is carried.
    pub closed spec fn span(self) -> std::time::Duration {
        self.val
    }

    /// The value that carries `span`.
    pub closed spec fn of(span: std::time::Duration) -> Duration {
        Duration { val: span }
    }

    /// What `of` wraps is what `span` gives back.
    pub broadcast proof fn lemma_of_span(span: std::time::Duration)
        ensures
            (#[trigger] Duration::of(span)).span() == span,
    {
    }
}

impl From<std::time::Duration> for Duration {
    /// Carries `val` as it is.
    fn from(val: std::time::Duration) -> (duration: Self) {
        Duration { val }
    }
}

impl FromSpecImpl<std::time::Duration> for Duration {
    open spec fn obeys_from_spec() -> bool {
        true
    }

    open spec fn from_spec(val: std::time::Duration) -> Self {
        Duration::of(val)
    }
}

} // verus!
