//! Events.

use vstd::prelude::*;

verus! {

/// An event, propagated downwards during event flow.
#[derive(Clone, Copy, Debug)]
pub enum Event {
    Dummy,
    Attach,
    Detach,
}

/// Application life cycle events.
#[derive(Clone, Copy, Debug)]
pub enum LifeCycle {
    /// Sent to a widget when it is added to the widget tree. This is the
    /// first event that a widget receives.
    WidgetAdded,
    /// Sent to a widget when it is taken out of the widget tree.
    WidgetRemoved,
}

} // verus!
