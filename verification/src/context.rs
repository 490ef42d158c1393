//! The contexts that are handed to the methods of a widget.

use vstd::prelude::*;
use crate::focus::{without_first, FocusChain, FocusView};
use crate::presenter::Presenter;
use crate::widget::{WidgetId, WidgetState};

verus! {

/// State that is shared between the contexts.
pub struct ContextState<'a> {
    /// The widgets that can take the focus.
    pub focus_chain: &'a mut FocusChain,
}

/// A context passed to the life cycle methods of widgets.
pub struct LifeCycleCtx<'a, 'b> {
    /// The state shared between the contexts.
    pub state: &'a mut ContextState<'b>,
    /// The state of the current widget.
    pub widget_state: &'a mut WidgetState,
}

impl<'a, 'b> LifeCycleCtx<'a, 'b> {
    /// The state of the current widget.
    pub open spec fn widget(&self) -> WidgetState {
        *self.widget_state
    }

    /// The focus chain.
    pub open spec fn chain(&self) -> FocusView {
        self.state.focus_chain@
    }

    /// A context for the widget with the state `widget_state`.
    pub fn new(state: &'a mut ContextState<'b>, widget_state: &'a mut WidgetState) -> (r: Self)
        ensures
            r.widget() == *old(widget_state),
            r.chain() == old(state).focus_chain@,
    {
        LifeCycleCtx { state, widget_state }
    }

    /// Says whether the widget can be activated.
    pub fn set_has_active(&mut self, has: bool)
        ensures
            final(self).widget() == (WidgetState { has_active: has, ..old(self).widget() }),
            final(self).chain() == old(self).chain(),
    {
        self.widget_state.has_active = has;
    }

    /// Says whether the widget can take the focus.
    pub fn set_has_focus(&mut self, has: bool)
        ensures
            final(self).widget() == (WidgetState { has_focus: has, ..old(self).widget() }),
            final(self).chain() == old(self).chain(),
    {
        self.widget_state.has_focus = has;
    }

    /// Says whether the widget tracks the mouse over it.
    pub fn set_has_hover(&mut self, has: bool)
        ensures
            final(self).widget() == (WidgetState { has_hover: has, ..old(self).widget() }),
            final(self).chain() == old(self).chain(),
    {
        self.widget_state.has_hover = has;
    }

    /// Adds `widget` to the focus chain.
    pub fn add_focus_widget(&mut self, widget: WidgetId)
        ensures
            final(self).chain() == (FocusView {
                widgets: old(self).chain().widgets.push(widget),
                ..old(self).chain()
            }),
            final(self).widget() == old(self).widget(),
    {
        self.state.focus_chain.add_widget(widget);
    }

    /// Takes `widget` out of the focus chain.
    pub fn remove_focus_widget(&mut self, widget: WidgetId)
        ensures
            final(self).chain() == (FocusView {
                widgets: without_first(old(self).chain().widgets, widget),
                ..old(self).chain()
            }),
            final(self).widget() == old(self).widget(),
    {
        self.state.focus_chain.remove_widget(widget);
    }

    /// The id of the current widget.
    pub fn widget_id(&self) -> (r: WidgetId)
        ensures
            r == self.widget().id,
    {
        self.widget_state.id
    }

    /// Whether the current widget is active.
    pub fn is_actived(&self) -> (r: bool)
        ensures
            r == self.widget().is_actived,
    {
        self.widget_state.is_actived
    }

    /// Whether the current widget has the focus.
    pub fn is_focused(&self) -> (r: bool)
        ensures
            r == self.widget().is_focused,
    {
        self.widget_state.is_focused
    }

    /// Whether the mouse is over the current widget.
    pub fn is_hovered(&self) -> (r: bool)
        ensures
            r == self.widget().is_hovered,
    {
        self.widget_state.is_hovered
    }
}

/// A context passed to the present methods of widgets.
pub struct PresentCtx<'a, 'b, P: Presenter> {
    /// The state shared between the contexts.
    pub state: &'a mut ContextState<'b>,
    /// The state of the current widget.
    pub widget_state: &'a WidgetState,
    /// What draws the frame.
    pub presenter: &'a mut P,
}

impl<'a, 'b, P: Presenter> PresentCtx<'a, 'b, P> {
    /// The state of the current widget.
    pub open spec fn widget(&self) -> WidgetState {
        *self.widget_state
    }

    /// The focus chain.
    pub open spec fn chain(&self) -> FocusView {
        self.state.focus_chain@
    }

    /// A context for the widget with the state `widget_state`, drawn by
    /// `presenter`.
    pub fn new(
        state: &'a mut ContextState<'b>,
        widget_state: &'a WidgetState,
        presenter: &'a mut P,
    ) -> (r: Self)
        ensures
            r.widget() == *widget_state,
            r.chain() == old(state).focus_chain@,
    {
        PresentCtx { state, widget_state, presenter }
    }

    /// Adds `widget` to the focus chain.
    pub fn add_focus_widget(&mut self, widget: WidgetId)
        ensures
            final(self).chain() == (FocusView {
                widgets: old(self).chain().widgets.push(widget),
                ..old(self).chain()
            }),
            final(self).widget() == old(self).widget(),
    {
        self.state.focus_chain.add_widget(widget);
    }

    /// Takes `widget` out of the focus chain.
    pub fn remove_focus_widget(&mut self, widget: WidgetId)
        ensures
            final(self).chain() == (FocusView {
                widgets: without_first(old(self).chain().widgets, widget),
                ..old(self).chain()
            }),
            final(self).widget() == old(self).widget(),
    {
        self.state.focus_chain.remove_widget(widget);
    }

    /// The id of the current widget.
    pub fn widget_id(&self) -> (r: WidgetId)
        ensures
            r == self.widget().id,
    {
        self.widget_state.id
    }

    /// Whether the current widget is active.
    pub fn is_actived(&self) -> (r: bool)
        ensures
            r == self.widget().is_actived,
    {
        self.widget_state.is_actived
    }

    /// Whether the current widget has the focus.
    pub fn is_focused(&self) -> (r: bool)
        ensures
            r == self.widget().is_focused,
    {
        self.widget_state.is_focused
    }

    /// Whether the mouse is over the current widget.
    pub fn is_hovered(&self) -> (r: bool)
        ensures
            r == self.widget().is_hovered,
    {
        self.widget_state.is_hovered
    }
}

} // verus!
