//! A label widget: fixed text, or text made from the data.

use vstd::prelude::*;
use vstd::string::StringExecFns;
use crate::context::{LifeCycleCtx, PresentCtx};
use crate::env::Env;
use crate::event::LifeCycle;
use crate::pod::Widget;
use crate::presenter::Presenter;
use crate::theme::Rgba;
use crate::widget::WidgetState;

verus! {

/// What makes the text of a label from the data.
pub trait LabelSource<T> {
    /// The text for `data`.
    spec fn text_of(&self, data: T, env: Env) -> Seq<char>;

    /// Makes the text for `data`.
    fn text(&self, data: &T, env: &Env) -> (r: String)
        ensures
            r@ == self.text_of(*data, *env),
    ;
}

/// The source of the empty text.
#[derive(Clone, Copy, Debug, Default)]
pub struct Blank;

impl<T> LabelSource<T> for Blank {
    open spec fn text_of(&self, data: T, env: Env) -> Seq<char> {
        Seq::<char>::empty()
    }

    fn text(&self, data: &T, env: &Env) -> (r: String) {
        String::new()
    }
}

/// Fixed text.
#[derive(Debug)]
pub struct Fixed {
    /// The text.
    v: String,
}

/// Text that is computed dynamically.
#[verifier::reject_recursive_types(T)]
pub struct Dynamic<T> {
    f: Box<dyn LabelSource<T>>,
}

/// The text for a label.
#[verifier::reject_recursive_types(T)]
pub enum LabelText<T> {
    /// Fixed text.
    Fixed(Fixed),
    /// The source is asked on every update, and what it makes is the text
    /// of the label.
    Dynamic(Dynamic<T>),
}

impl<T> LabelText<T> {
    /// The text that the label shows for `data`.
    pub closed spec fn text_for(&self, data: T, env: Env) -> Seq<char> {
        match self {
            LabelText::Fixed(s) => s.v@,
            LabelText::Dynamic(s) => s.f.text_of(data, env),
        }
    }

    /// The fixed text `text`.
    pub fn fixed(text: &str) -> (r: Self)
        ensures
            forall|data: T, env: Env| #[trigger] r.text_for(data, env) == text@,
    {
        LabelText::Fixed(Fixed { v: String::from_str(text) })
    }

    /// The text that is made by the source that is taken out of `source`.
    /// What is left there makes the empty text.
    pub fn dynamic_from(source: &mut Box<dyn LabelSource<T>>) -> (r: Self)
        ensures
            forall|data: T, env: Env|
                #[trigger] r.text_for(data, env) == old(source).text_of(data, env),
            forall|data: T, env: Env|
                #[trigger] final(source).text_of(data, env) == Seq::<char>::empty(),
    {
        let mut s = Dynamic { f: Box::new(Blank) };
        core::mem::swap(&mut s.f, source);
        LabelText::Dynamic(s)
    }

    /// The text that is made by `source`.
    pub fn dynamic(source: Box<dyn LabelSource<T>>) -> (r: Self)
        ensures
            forall|data: T, env: Env| #[trigger] r.text_for(data, env) == source.text_of(data, env),
    {
        let mut source = source;
        LabelText::dynamic_from(&mut source)
    }

    /// The text for `data`: the fixed text, or what the source makes.
    pub fn resolve(&mut self, data: &T, env: &Env) -> (r: String)
        ensures
            r@ == old(self).text_for(*data, *env),
            *final(self) == *old(self),
    {
        match self {
            LabelText::Fixed(s) => s.v.clone(),
            LabelText::Dynamic(s) => s.f.text(data, env),
        }
    }
}

/// Black, the colour of a label's text unless it is given another.
pub open spec fn black() -> Rgba {
    Rgba { r: 0, g: 0, b: 0, a: 255 }
}

/// A label that displays static or dynamic text.
#[verifier::reject_recursive_types(T)]
pub struct Label<T> {
    text: LabelText<T>,
    text_color: Rgba,
}

impl<T> Label<T> {
    /// The text of the label.
    pub closed spec fn spec_text(&self) -> LabelText<T> {
        self.text
    }

    /// The colour of the text.
    pub closed spec fn spec_text_color(&self) -> Rgba {
        self.text_color
    }

    /// A label with the text `text`, in black.
    pub fn new(text: LabelText<T>) -> (r: Self)
        ensures
            r.spec_text() == text,
            r.spec_text_color() == black(),
    {
        Label { text, text_color: Rgba { r: 0, g: 0, b: 0, a: 255 } }
    }

    /// A label whose text is made by `source`, in black.
    pub fn dynamic(source: Box<dyn LabelSource<T>>) -> (r: Self)
        ensures
            forall|data: T, env: Env|
                #[trigger] r.spec_text().text_for(data, env) == source.text_of(data, env),
            r.spec_text_color() == black(),
    {
        let mut source = source;
        Label::new(LabelText::dynamic_from(&mut source))
    }

    /// A label with the fixed text `text`, in black.
    pub fn fixed(text: &str) -> (r: Self)
        ensures
            forall|data: T, env: Env| #[trigger] r.spec_text().text_for(data, env) == text@,
            r.spec_text_color() == black(),
    {
        Label::new(LabelText::fixed(text))
    }

    /// The same label with the text in `color`.
    pub fn with_text_color(self, color: Rgba) -> (r: Self)
        ensures
            r.spec_text() == self.spec_text(),
            r.spec_text_color() == color,
    {
        let mut label = self;
        label.set_text_color(color);
        label
    }

    /// Sets the colour of the text.
    pub fn set_text_color(&mut self, color: Rgba)
        ensures
            final(self).spec_text() == old(self).spec_text(),
            final(self).spec_text_color() == color,
    {
        self.text_color = color;
    }
}

impl<T> Widget<T> for Label<T> {
    /// A label that was added says that it cannot take the focus.
    fn lifecycle(&mut self, ctx: &mut LifeCycleCtx, event: &LifeCycle, data: &T, env: &Env)
        ensures
            *final(self) == *old(self),
            final(ctx).chain() == old(ctx).chain(),
            final(ctx).widget() == (if *event is WidgetAdded {
                WidgetState { has_focus: false, ..old(ctx).widget() }
            } else {
                old(ctx).widget()
            }),
    {
        match event {
            LifeCycle::WidgetAdded => ctx.set_has_focus(false),
            _ => {},
        }
    }

    /// Makes the text for `data`.
    fn present<P: Presenter>(&mut self, ctx: &mut PresentCtx<P>, data: &T, env: &Env)
        ensures
            *final(self) == *old(self),
            final(ctx).widget() == old(ctx).widget(),
            final(ctx).chain() == old(ctx).chain(),
    {
        let _text = self.text.resolve(data, env);
    }
}

} // verus!
