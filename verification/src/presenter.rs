//! Presenters: what draws a frame.

use vstd::prelude::*;

verus! {

/// Something that can present a frame.
pub trait Presenter {
    fn present(&mut self);
}

/// Context used for `NullPresenter`.
#[derive(Copy, Clone, Debug, Default)]
pub struct NullContext;

/// A presenter that draws nothing.
#[derive(Copy, Clone, Debug, Default)]
pub struct NullPresenter {
    ctx: NullContext,
}

impl NullPresenter {
    /// A presenter that draws nothing.
    pub fn new() -> Self {
        NullPresenter { ctx: NullContext }
    }
}

impl Presenter for NullPresenter {
    fn present(&mut self)
        ensures
            *final(self) == *old(self),
    {
    }
}

} // verus!
