//! Widgets: the trait that all widgets implement, and the pod that holds a
//! widget together with its state.

use vstd::prelude::*;
use crate::context::{LifeCycleCtx, PresentCtx};
use crate::counter::{following, Counter};
use crate::env::Env;
use crate::event::LifeCycle;
use crate::focus::FocusView;
use crate::presenter::Presenter;
use crate::widget::{WidgetId, WidgetState};

verus! {

/// The trait implemented by all widgets.
pub trait Widget<T> {
    /// Handles a life cycle notification.
    fn lifecycle(&mut self, ctx: &mut LifeCycleCtx, event: &LifeCycle, data: &T, env: &Env);

    /// Presents the widget.
    fn present<P: Presenter>(&mut self, ctx: &mut PresentCtx<P>, data: &T, env: &Env);

    /// The identity of the widget, where it has one of its own.
    fn id(&self) -> Option<WidgetId> {
        None
    }
}

/// A container for one widget in the hierarchy: the widget and the state
/// that it needs to take part in the event flow.
#[derive(Debug)]
pub struct WidgetPod<T, W> {
    state: WidgetState,
    old_data: Option<T>,
    inner: W,
}

impl<T, W: Widget<T>> WidgetPod<T, W> {
    /// The state of the pod.
    pub closed spec fn spec_state(&self) -> WidgetState {
        self.state
    }

    /// The widget in the pod.
    pub closed spec fn spec_widget(&self) -> W {
        self.inner
    }

    /// A pod for `inner` with a fresh id from `counter`.
    pub fn new(inner: W, counter: &mut Counter) -> (r: WidgetPod<T, W>)
        requires
            old(counter)@ != 0,
        ensures
            r.spec_widget() == inner,
            r.spec_state().id@ == old(counter)@,
            final(counter)@ == following(old(counter)@),
            !r.spec_state().is_actived && !r.spec_state().is_hovered && !r.spec_state().is_focused,
            r.spec_state().has_active && r.spec_state().has_focus && !r.spec_state().has_hover,
    {
        WidgetPod { state: WidgetState::new(counter), old_data: None, inner }
    }

    /// Read-only access to the state.
    pub fn state(&self) -> (r: &WidgetState)
        ensures
            *r == self.spec_state(),
    {
        &self.state
    }

    /// Returns `true` if the widget can be activated.
    pub fn has_active(&self) -> (r: bool)
        ensures
            r == self.spec_state().has_active,
    {
        self.state.has_active
    }

    /// Returns `true` if the widget tracks the mouse over it.
    pub fn has_hover(&self) -> (r: bool)
        ensures
            r == self.spec_state().has_hover,
    {
        self.state.has_hover
    }

    /// Returns `true` if the widget can take the focus.
    pub fn has_focus(&self) -> (r: bool)
        ensures
            r == self.spec_state().has_focus,
    {
        self.state.has_focus
    }

    /// Query the "active" state of the widget.
    pub fn is_actived(&self) -> (r: bool)
        ensures
            r == self.spec_state().is_actived,
    {
        self.state.is_actived
    }

    /// Query the "hover" state of the widget.
    pub fn is_hovered(&self) -> (r: bool)
        ensures
            r == self.spec_state().is_hovered,
    {
        self.state.is_hovered
    }

    /// Query the "focus" state of the widget.
    pub fn is_focused(&self) -> (r: bool)
        ensures
            r == self.spec_state().is_focused,
    {
        self.state.is_focused
    }

    /// Return a reference to the inner widget.
    pub fn widget(&self) -> (r: &W)
        ensures
            *r == self.spec_widget(),
    {
        &self.inner
    }

    /// Return a mutable reference to the inner widget.
    pub fn widget_mut(&mut self) -> (r: &mut W)
        ensures
            *r == old(self).spec_widget(),
            final(self).spec_widget() == *final(r),
            final(self).spec_state() == old(self).spec_state(),
    {
        &mut self.inner
    }

    /// Get the identity of the widget.
    pub fn id(&self) -> (r: WidgetId)
        ensures
            r == self.spec_state().id,
    {
        self.state.id
    }

    /// What follows a life cycle notification that the widget has handled:
    /// when the widget was added and can take the focus, its id is added
    /// to the focus chain. Nothing else changes.
    pub fn join_focus(&self, ctx: &mut LifeCycleCtx, event: &LifeCycle)
        ensures
            final(ctx).widget() == old(ctx).widget(),
            final(ctx).chain() == (if *event is WidgetAdded && self.spec_state().has_focus {
                FocusView {
                    widgets: old(ctx).chain().widgets.push(self.spec_state().id),
                    ..old(ctx).chain()
                }
            } else {
                old(ctx).chain()
            }),
    {
        match event {
            LifeCycle::WidgetAdded => {
                if self.state.has_focus {
                    ctx.add_focus_widget(self.state.id);
                }
            },
            _ => {},
        }
    }
}

impl<T, W: Widget<T>> Widget<T> for WidgetPod<T, W> {
    /// Hands the notification to the widget, with the state of the pod as
    /// the state of the current widget. When the widget was added and can
    /// take the focus afterwards, it joins the focus chain.
    fn lifecycle(&mut self, ctx: &mut LifeCycleCtx, event: &LifeCycle, data: &T, env: &Env)
        ensures
            final(ctx).widget() == old(ctx).widget(),
            *event is WidgetAdded && final(self).spec_state().has_focus ==> ({
                let chain = final(ctx).chain().widgets;
                chain.len() > 0 && chain.last() == final(self).spec_state().id
            }),
    {
        {
            let mut child_ctx = LifeCycleCtx::new(&mut *ctx.state, &mut self.state);
            self.inner.lifecycle(&mut child_ctx, event, data, env);
        }
        self.join_focus(ctx, event);
    }

    fn present<P: Presenter>(&mut self, ctx: &mut PresentCtx<P>, data: &T, env: &Env) {
        self.inner.present(ctx, data, env);
    }
}

} // verus!
