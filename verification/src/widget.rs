//! The identity and the state flags of a widget.

use vstd::prelude::*;
use crate::counter::{following, Counter};

verus! {

/// A unique identifier for a single widget: a number that is not zero.
#[derive(Clone, Copy, Debug, Hash, PartialEq, Eq, Structural)]
pub struct WidgetId {
    raw: u64,
}

impl View for WidgetId {
    type V = nat;

    /// The number behind the id.
    closed spec fn view(&self) -> nat {
        self.raw as nat
    }
}

impl WidgetId {
    /// Two ids with the same number are the same id.
    pub proof fn lemma_id_is_its_number(a: WidgetId, b: WidgetId)
        ensures
            (a@ == b@) <==> (a == b),
    {
    }

    /// A fresh id: the next number of `counter`, which has not started
    /// again.
    pub fn next(counter: &mut Counter) -> (r: WidgetId)
        requires
            old(counter)@ != 0,
        ensures
            r@ == old(counter)@,
            r@ != 0,
            final(counter)@ == following(old(counter)@),
    {
        WidgetId { raw: counter.next_nonzero() }
    }

    /// A reserved id, suitable for reuse: its number is the largest 64-bit
    /// number less `raw`.
    pub fn reserved(raw: u16) -> (r: WidgetId)
        ensures
            r@ == u64::MAX - raw,
            r@ != 0,
    {
        WidgetId { raw: u64::MAX - raw as u64 }
    }

    /// The number behind the id.
    pub fn to_raw(self) -> (r: u64)
        ensures
            r == self@,
    {
        self.raw
    }
}

/// The state that every widget has: its id, and the flags that say whether
/// it is active, hovered or focused, and whether it can be.
#[derive(Copy, Clone, Debug)]
pub struct WidgetState {
    /// Identifier of the widget.
    pub id: WidgetId,
    /// True if the widget is activated.
    pub is_actived: bool,
    /// True if the widget is hovered.
    pub is_hovered: bool,
    /// True if the widget is focused.
    pub is_focused: bool,
    /// The widget could be activate or deactivate.
    pub has_active: bool,
    /// The widget could accept user inputs.
    pub has_focus: bool,
    /// The widget provide state on mouse is hovered over it.
    pub has_hover: bool,
}

impl WidgetState {
    /// The state of a new widget with a fresh id from `counter`: neither
    /// active, hovered nor focused; it can be activated and focused, and
    /// does not track the mouse.
    pub fn new(counter: &mut Counter) -> (r: Self)
        requires
            old(counter)@ != 0,
        ensures
            r.id@ == old(counter)@,
            final(counter)@ == following(old(counter)@),
            !r.is_actived && !r.is_hovered && !r.is_focused,
            r.has_active && r.has_focus && !r.has_hover,
    {
        WidgetState {
            id: WidgetId::next(counter),
            is_actived: false,
            is_hovered: false,
            is_focused: false,
            has_active: true,
            has_focus: true,
            has_hover: false,
        }
    }
}

/// An axis in visual space.
#[derive(Debug, Clone, Copy, PartialEq, Eq, Structural)]
pub enum Axis {
    /// The x axis
    Horizontal,
    /// The y axis
    Vertical,
}

} // verus!
