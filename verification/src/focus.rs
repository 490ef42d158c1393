//! The focus chain: the widgets that can take the focus, in order.

use vstd::prelude::*;
use crate::widget::WidgetId;

verus! {

/// A focus chain as plain values.
pub struct FocusView {
    /// The widgets of the chain, in the order they were added.
    pub widgets: Seq<WidgetId>,
    /// The widget that is active, if any.
    pub actived: Option<WidgetId>,
    /// The widget that has the focus, if any.
    pub focused: Option<WidgetId>,
}

/// `i` is the first place at which `widget` stands in `widgets`.
pub open spec fn is_first_place(widgets: Seq<WidgetId>, widget: WidgetId, i: int) -> bool {
    &&& 0 <= i < widgets.len()
    &&& widgets[i] == widget
    &&& forall|j: int| 0 <= j < i ==> widgets[j] != widget
}

/// `widgets` without the first occurrence of `widget`; `widgets` itself
/// where `widget` does not occur.
pub open spec fn without_first(widgets: Seq<WidgetId>, widget: WidgetId) -> Seq<WidgetId> {
    if exists|i: int| is_first_place(widgets, widget, i) {
        widgets.remove(choose|i: int| is_first_place(widgets, widget, i))
    } else {
        widgets
    }
}

/// A list to control the focus of the widgets.
#[derive(Debug)]
pub struct FocusChain {
    widgets: Vec<WidgetId>,
    actived: Option<WidgetId>,
    focused: Option<WidgetId>,
}

impl View for FocusChain {
    type V = FocusView;

    closed spec fn view(&self) -> FocusView {
        FocusView { widgets: self.widgets@, actived: self.actived, focused: self.focused }
    }
}

impl Default for FocusChain {
    fn default() -> (r: Self)
        ensures
            r@ == (FocusView { widgets: Seq::<WidgetId>::empty(), actived: None, focused: None }),
    {
        FocusChain::new()
    }
}

impl FocusChain {
    /// An empty chain in which no widget is active or focused.
    pub fn new() -> (r: Self)
        ensures
            r@ == (FocusView { widgets: Seq::<WidgetId>::empty(), actived: None, focused: None }),
    {
        FocusChain { widgets: Vec::new(), actived: None, focused: None }
    }

    /// Adds `widget` at the end of the chain.
    pub fn add_widget(&mut self, widget: WidgetId)
        ensures
            final(self)@ == (FocusView { widgets: old(self)@.widgets.push(widget), ..old(self)@ }),
    {
        self.widgets.push(widget)
    }

    /// Takes the first occurrence of `widget` out of the chain. A chain
    /// without `widget` stays as it is.
    pub fn remove_widget(&mut self, widget: WidgetId)
        ensures
            final(self)@ == (FocusView {
                widgets: without_first(old(self)@.widgets, widget),
                ..old(self)@
            }),
    {
        let mut i: usize = 0;
        while i < self.widgets.len()
            invariant
                i <= self.widgets.len(),
                self.widgets@ == old(self).widgets@,
                self.actived == old(self).actived,
                self.focused == old(self).focused,
                forall|j: int| 0 <= j < i ==> self.widgets@[j] != widget,
            decreases self.widgets.len() - i,
        {
            if self.widgets[i] == widget {
                proof {
                    let w = old(self)@.widgets;
                    assert(is_first_place(w, widget, i as int));
                    let c = choose|c: int| is_first_place(w, widget, c);
                    assert(c == i) by {
                        if c < i {
                            assert(w[c] != widget);
                        }
                        if i < c {
                            assert(w[i as int] != widget);
                        }
                    }
                }
                self.widgets.remove(i);
                return ;
            }
            i += 1;
        }
        proof {
            let w = old(self)@.widgets;
            assert(!(exists|k: int| is_first_place(w, widget, k)));
        }
    }

    /// Whether `widget` is the active one.
    pub fn is_actived(&self, widget: WidgetId) -> (r: bool)
        ensures
            r == (self@.actived == Some(widget)),
    {
        match self.actived {
            Some(x) => x == widget,
            None => false,
        }
    }

    /// Whether `widget` has the focus.
    pub fn is_focused(&self, widget: WidgetId) -> (r: bool)
        ensures
            r == (self@.focused == Some(widget)),
    {
        match self.focused {
            Some(x) => x == widget,
            None => false,
        }
    }
}

} // verus!
