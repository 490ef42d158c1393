//! Common widgets: the slider, the text box, the wrapper that narrows the
//! data of a widget, and the titled property row.

use vstd::prelude::*;
use core::marker::PhantomData;
use crate::context::{LifeCycleCtx, PresentCtx};
use crate::counter::{following, Counter};
use crate::env::Env;
use crate::event::LifeCycle;
use crate::pod::{Widget, WidgetPod};
use crate::presenter::Presenter;

verus! {

/// A widget that lets a number be chosen by sliding.
#[derive(Debug, Default, Clone)]
pub struct Slider;

impl Slider {
    /// A slider.
    pub fn new() -> Self {
        Slider {  }
    }
}

impl Widget<i32> for Slider {
    /// A slider of whole numbers keeps what it was given.
    fn lifecycle(&mut self, ctx: &mut LifeCycleCtx, event: &LifeCycle, data: &i32, env: &Env)
        ensures
            final(ctx).widget() == old(ctx).widget(),
            final(ctx).chain() == old(ctx).chain(),
    {
    }

    fn present<P: Presenter>(&mut self, ctx: &mut PresentCtx<P>, data: &i32, env: &Env)
        ensures
            final(ctx).widget() == old(ctx).widget(),
            final(ctx).chain() == old(ctx).chain(),
    {
    }
}

/// A widget that allows user text input.
#[derive(Debug, Clone)]
pub struct TextBox<T> {
    text: T,
}

impl<T: Default> TextBox<T> {
    /// An empty text box.
    pub fn new() -> Self {
        TextBox { text: Default::default() }
    }
}

impl<T: Default> Default for TextBox<T> {
    fn default() -> Self {
        TextBox::new()
    }
}

impl<T> Widget<T> for TextBox<T> {
    fn lifecycle(&mut self, ctx: &mut LifeCycleCtx, event: &LifeCycle, data: &T, env: &Env)
        ensures
            final(ctx).widget() == old(ctx).widget(),
            final(ctx).chain() == old(ctx).chain(),
    {
    }

    fn present<P: Presenter>(&mut self, ctx: &mut PresentCtx<P>, data: &T, env: &Env)
        ensures
            final(ctx).widget() == old(ctx).widget(),
            final(ctx).chain() == old(ctx).chain(),
    {
    }
}

/// A wrapper that lets a widget for data of type `U` stand where the data
/// is of another type, of which the lens shows the part of type `U`.
pub struct LensWrap<U, L, W> {
    inner: W,
    lens: L,
    phantom: PhantomData<U>,
}

impl<U, L, W> LensWrap<U, L, W> {
    /// The widget that is wrapped.
    pub closed spec fn spec_inner(&self) -> W {
        self.inner
    }

    /// The lens.
    pub closed spec fn spec_lens(&self) -> L {
        self.lens
    }

    /// Wraps `inner` with `lens`.
    pub fn new(inner: W, lens: L) -> (r: LensWrap<U, L, W>)
        ensures
            r.spec_inner() == inner,
            r.spec_lens() == lens,
    {
        LensWrap { inner, lens, phantom: PhantomData }
    }
}

/// Extra methods for combining widgets.
pub trait WidgetExt<T>: Widget<T> + Sized {
    /// Wraps this widget with `lens`.
    fn lens<L>(self, lens: L) -> (r: LensWrap<T, L, Self>)
        ensures
            r.spec_inner() == self,
            r.spec_lens() == lens,
    {
        LensWrap::new(self, lens)
    }
}

impl<T, W: Widget<T>> WidgetExt<T> for W {
}

/// A title that waits for the widget to stand beside it.
pub struct PropertyTitled<T> {
    title: &'static str,
    phantom: PhantomData<T>,
}

/// A titled row: a title and, beside it, a widget in its pod.
pub struct Property<T, W> {
    title: &'static str,
    child: WidgetPod<T, W>,
}

impl<T> PropertyTitled<T> {
    /// The title.
    pub closed spec fn spec_title(&self) -> Seq<char> {
        self.title@
    }

    /// The row with this title and `child` beside it, in a pod with a fresh
    /// id from `counter`.
    pub fn with<W: Widget<T>>(self, child: W, counter: &mut Counter) -> (r: Property<T, W>)
        requires
            old(counter)@ != 0,
        ensures
            r.spec_title() == self.spec_title(),
            r.spec_child().spec_widget() == child,
            r.spec_child().spec_state().id@ == old(counter)@,
            final(counter)@ == following(old(counter)@),
    {
        Property { title: self.title, child: WidgetPod::new(child, counter) }
    }
}

impl<T, W: Widget<T>> Property<T, W> {
    /// The title.
    pub closed spec fn spec_title(&self) -> Seq<char> {
        self.title@
    }

    /// The pod of the widget beside the title.
    pub closed spec fn spec_child(&self) -> WidgetPod<T, W> {
        self.child
    }

    /// The title of a row that still waits for its widget.
    pub fn new(title: &'static str) -> (r: PropertyTitled<T>)
        ensures
            r.spec_title() == title@,
    {
        PropertyTitled { title, phantom: PhantomData }
    }
}

impl<T, W: Widget<T>> Widget<T> for Property<T, W> {
    /// Hands the notification to the child, but for the notification that
    /// the row was added: a titled row does not join the focus chain.
    fn lifecycle(&mut self, ctx: &mut LifeCycleCtx, event: &LifeCycle, data: &T, env: &Env)
        ensures
            final(self).spec_title() == old(self).spec_title(),
            final(ctx).widget() == old(ctx).widget(),
            *event is WidgetAdded ==> final(self).spec_child() == old(self).spec_child(),
            *event is WidgetAdded ==> final(ctx).chain() == old(ctx).chain(),
    {
        match event {
            LifeCycle::WidgetAdded => {},
            _ => self.child.lifecycle(ctx, event, data, env),
        }
    }

    fn present<P: Presenter>(&mut self, ctx: &mut PresentCtx<P>, data: &T, env: &Env)
        ensures
            final(self).spec_title() == old(self).spec_title(),
    {
        self.child.present(ctx, data, env);
    }
}

} // verus!
