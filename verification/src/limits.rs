use vstd::prelude::*;

verus! {

/// Default number of item metadata records represented in each collection.
pub const DEFAULT_MAX_ITEMS: usize = 128;

/// Absolute maximum number of item metadata records represented in each collection.
pub const HARD_MAX_ITEMS: usize = 512;

/// Limits applied while projecting a context snapshot.
#[derive(Clone, Copy, Debug, PartialEq, Eq, Structural)]
pub struct ContextInspectionLimits {
    max_items: usize,
}

impl ContextInspectionLimits {
    /// The applied item metadata limit.
    pub closed spec fn spec_max_items(self) -> usize {
        self.max_items
    }

    #[verifier::type_invariant]
    spec fn within_hard_cap(self) -> bool {
        self.max_items <= HARD_MAX_ITEMS
    }

    /// Creates limits with `max_items` clamped to [`HARD_MAX_ITEMS`].
    pub fn with_max_items(max_items: usize) -> (limits: Self)
        ensures
            limits.spec_max_items() == if max_items <= HARD_MAX_ITEMS {
                max_items
            } else {
                HARD_MAX_ITEMS
            },
    {
        let clamped = if max_items <= HARD_MAX_ITEMS {
            max_items
        } else {
            HARD_MAX_ITEMS
        };
        Self { max_items: clamped }
    }

    /// Returns the applied item metadata limit.
    #[verifier::when_used_as_spec(spec_max_items)]
    pub fn max_items(self) -> (max_items: usize)
        ensures
            max_items == self.spec_max_items(),
            max_items <= HARD_MAX_ITEMS,
    {
        proof {
            use_type_invariant(&self);
        }
        self.max_items
    }
}

impl Default for ContextInspectionLimits {
    fn default() -> (limits: Self)
        ensures
            limits.spec_max_items() == DEFAULT_MAX_ITEMS,
    {
        Self::with_max_items(DEFAULT_MAX_ITEMS)
    }
}

} // verus!
