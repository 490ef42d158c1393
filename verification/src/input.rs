//! The input controller: what a frame's key presses do to a sheet.

use vstd::prelude::*;
use crate::order::{moved_to, next_target, prev_target};
use crate::sheet::{activation, awaiting_step, lemma_activation_keeps_selection, PropertySheet};
use crate::view::PropertyView;

verus! {

/// The keys that are down in one frame.
#[derive(Clone, Copy, Debug, Default, PartialEq, Eq, Structural)]
pub struct KeyInput {
    pub enter: bool,
    pub up: bool,
    pub down: bool,
    pub left: bool,
    pub right: bool,
}

/// The sheet after the selection moved as the keys say: towards the front
/// for `up`, then towards the end for `down`, both wrapping.
pub open spec fn navigated(s: Seq<PropertyView>, keys: KeyInput) -> Seq<PropertyView> {
    let a = if keys.up {
        moved_to(s, prev_target(s, true))
    } else {
        s
    };
    if keys.down {
        moved_to(a, next_target(a, true))
    } else {
        a
    }
}

/// `after` is the sheet `before` after one frame, with `between` as the
/// sheet between the two activations: the selection moves; then the
/// current entry is activated backward for `left`, which gives `between`;
/// then it is activated forward for `right`. `enter` does nothing.
pub open spec fn processed(
    before: Seq<PropertyView>,
    between: Seq<PropertyView>,
    after: Seq<PropertyView>,
    keys: KeyInput,
) -> bool {
    let a = navigated(before, keys);
    &&& if keys.left {
        activation(a, between, false)
    } else {
        between == a
    }
    &&& if keys.right {
        activation(between, after, true)
    } else {
        after == between
    }
}

/// The position of a floating-point property that `left` or `right` asked
/// to step in this frame.
pub open spec fn step_left_over(s: Seq<PropertyView>, keys: KeyInput) -> Option<usize> {
    if keys.left || keys.right {
        awaiting_step(navigated(s, keys))
    } else {
        None
    }
}

/// Turns key presses into changes of a sheet.
#[derive(Debug)]
pub struct PropertySheetInputCtrl;

impl Default for PropertySheetInputCtrl {
    fn default() -> Self {
        Self::new()
    }
}

impl PropertySheetInputCtrl {
    /// A controller.
    pub fn new() -> Self {
        PropertySheetInputCtrl {  }
    }

    /// Applies the keys of one frame to `ps`: `up` and `down` move the
    /// selection, wrapping at the ends; `left` and `right` activate the
    /// current entry backward and forward; `enter` does nothing.
    ///
    /// The step of a floating-point property is not made here. Where the
    /// current entry is one and `left` or `right` is down, its position is
    /// returned: the caller makes the backward step for `left`, then the
    /// forward step for `right`, by setting the value to the difference or
    /// sum of value and step width.
    pub fn process(self, keys: &KeyInput, ps: &mut PropertySheet) -> (r: Option<usize>)
        ensures
            exists|between: Seq<PropertyView>| processed(old(ps)@, between, final(ps)@, *keys),
            r == step_left_over(old(ps)@, *keys),
    {
        if keys.up {
            ps.select_prev_wrapped();
        }
        if keys.down {
            ps.select_next_wrapped();
        }
        let ghost a = ps@;
        let mut pending: Option<usize> = None;
        if keys.left {
            pending = ps.activate_current(false);
            proof {
                lemma_activation_keeps_selection(a, ps@, false);
            }
        }
        let ghost between = ps@;
        if keys.right {
            pending = ps.activate_current(true);
        }
        assert(processed(old(ps)@, between, ps@, *keys));
        pending
    }
}

} // verus!
