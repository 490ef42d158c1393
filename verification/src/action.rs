//! The action: a property that asks its callback what to do when it is
//! triggered, and keeps the answer as its check state.

use vstd::prelude::*;
use crate::base::{fresh_base, BaseView, PropertyBase};
use crate::kinds::{action_widget, as_action_widget, ValueType, WidgetType};
use crate::property::{Property, PropertyItem};
use crate::text::texts;
use crate::view::{Payload, PropertyView};

verus! {

/// What decides the outcome of a trigger. It is handed the metadata of the
/// action and the state that was asked for, and answers with the state
/// that the action takes.
pub trait ActionCallback {
    /// What the callback, as it is now, answers when it is handed
    /// `property` and `requested`.
    spec fn answer(&self, property: BaseView, requested: bool) -> bool;

    /// Answers, and may change the callback for the answers to come.
    fn decide(&mut self, property: &PropertyBase, requested: bool) -> (r: bool)
        ensures
            r == old(self).answer(property@, requested),
    ;
}

/// The callback that grants whatever is asked for.
#[derive(Clone, Copy, Debug, Default)]
pub struct Granting;

impl ActionCallback for Granting {
    open spec fn answer(&self, property: BaseView, requested: bool) -> bool {
        requested
    }

    fn decide(&mut self, property: &PropertyBase, requested: bool) -> (r: bool) {
        requested
    }
}

/// The same action with the check state `checked` and the same callback;
/// any other property unchanged.
pub open spec fn settled(v: PropertyView, checked: bool) -> PropertyView {
    match v.payload {
        Payload::Action { answer, .. } => v.with_payload(Payload::Action { checked, answer }),
        _ => v,
    }
}

/// The check state of an action; false for any other property.
pub open spec fn check_state(v: PropertyView) -> bool {
    match v.payload {
        Payload::Action { checked, .. } => checked,
        _ => false,
    }
}

/// What the callback of an action answers when the action is triggered
/// with `requested`: it is handed the metadata of the action. False for
/// any other property.
pub open spec fn asked(v: PropertyView, requested: bool) -> bool {
    match v.payload {
        Payload::Action { answer, .. } => answer(v.base, requested),
        _ => false,
    }
}

/// An action whose callback answers false to whatever it is handed is
/// unchecked after a trigger, whatever was asked for.
pub proof fn lemma_veto(v: PropertyView, requested: bool)
    requires
        v.payload matches Payload::Action { answer, .. } && forall|p: BaseView, q: bool|
            !(#[trigger] answer(p, q)),
    ensures
        !asked(v, requested),
        !check_state(settled(v, asked(v, requested))),
{
}

/// The two properties are the same but for what the callback of an action
/// answers, which may have changed.
pub open spec fn same_but_callback(a: PropertyView, b: PropertyView) -> bool {
    &&& a.base == b.base
    &&& match a.payload {
        Payload::Action { checked, .. } => b.payload is Action && check_state(b) == checked,
        _ => a.payload == b.payload,
    }
}

/// The view of a fresh push button with the label `text` whose callback
/// answers as `answer` says.
pub open spec fn fresh_button(
    name: Seq<char>,
    text: Seq<char>,
    answer: spec_fn(BaseView, bool) -> bool,
) -> PropertyView {
    PropertyView {
        base: fresh_base(name, seq![text], ValueType::Action, WidgetType::Button),
        payload: Payload::Action { checked: false, answer },
    }
}

/// The view of a fresh check box whose callback answers as `answer` says.
pub open spec fn fresh_check_box(
    name: Seq<char>,
    checked: bool,
    answer: spec_fn(BaseView, bool) -> bool,
) -> PropertyView {
    PropertyView {
        base: fresh_base(name, Seq::<Seq<char>>::empty(), ValueType::Action, WidgetType::CheckBox),
        payload: Payload::Action { checked, answer },
    }
}

/// The metadata of an action: that of a push button or a check box.
struct ActionBase {
    base: PropertyBase,
}

impl ActionBase {
    /// The metadata carries the value type and a widget of an action.
    #[verifier::type_invariant]
    spec fn typed(&self) -> bool {
        &&& self.base@.value_type == ValueType::Action
        &&& self.base@.widget_type == WidgetType::Button || self.base@.widget_type
            == WidgetType::CheckBox
    }
}

/// A property that runs a callback when triggered.
pub struct PropertyAction {
    face: ActionBase,
    checked: bool,
    callback: Box<dyn ActionCallback>,
}

impl View for PropertyAction {
    type V = PropertyView;

    closed spec fn view(&self) -> PropertyView {
        PropertyView {
            base: BaseView {
                value_type: ValueType::Action,
                widget_type: action_widget(self.face.base@.widget_type),
                ..self.face.base@
            },
            payload: Payload::Action {
                checked: self.checked,
                answer: |property: BaseView, requested: bool|
                    self.callback.answer(property, requested),
            },
        }
    }
}

impl Default for PropertyAction {
    /// A push button called "UnTitled", labelled "Click Me", that grants
    /// whatever is asked for.
    fn default() -> (r: Self)
        ensures
            r@ == fresh_button(
                "UnTitled"@,
                "Click Me"@,
                |property: BaseView, requested: bool| requested,
            ),
    {
        PropertyAction::with_button("UnTitled", "Click Me", Box::new(Granting))
    }
}

impl PropertyAction {
    /// A push button called `name` with the label `text`, which asks
    /// `callback` when it is triggered.
    pub fn with_button(
        name: &'static str,
        text: &'static str,
        callback: Box<dyn ActionCallback>,
    ) -> (r: Self)
        ensures
            r@ == fresh_button(
                name@,
                text@,
                |property: BaseView, requested: bool| callback.answer(property, requested),
            ),
    {
        let mut callback = callback;
        PropertyAction::button_from(name, text, &mut callback)
    }

    /// A check box called `name` that starts at `checked` and asks
    /// `callback` when it is triggered.
    pub fn with_check_box(
        name: &'static str,
        checked: bool,
        callback: Box<dyn ActionCallback>,
    ) -> (r: Self)
        ensures
            r@ == fresh_check_box(
                name@,
                checked,
                |property: BaseView, requested: bool| callback.answer(property, requested),
            ),
    {
        let mut callback = callback;
        PropertyAction::check_box_from(name, checked, &mut callback)
    }

    /// A push button called `name` with the label `text`, which asks the
    /// callback that is taken out of `callback`. What is left there grants
    /// whatever is asked for.
    pub fn button_from(
        name: &'static str,
        text: &'static str,
        callback: &mut Box<dyn ActionCallback>,
    ) -> (r: Self)
        ensures
            r@ == fresh_button(
                name@,
                text@,
                |property: BaseView, requested: bool| old(callback).answer(property, requested),
            ),
            forall|property: BaseView, requested: bool|
                #[trigger] final(callback).answer(property, requested) == requested,
    {
        let mut labels: Vec<&'static str> = Vec::new();
        labels.push(text);
        assert(texts(labels@) =~= seq![text@]);
        let mut r = PropertyAction {
            face: ActionBase { base: PropertyBase::with_action_button(name, labels.as_slice()) },
            checked: false,
            callback: Box::new(Granting),
        };
        core::mem::swap(&mut r.callback, callback);
        r
    }

    /// A check box called `name` that starts at `checked` and asks the
    /// callback that is taken out of `callback`. What is left there grants
    /// whatever is asked for.
    pub fn check_box_from(
        name: &'static str,
        checked: bool,
        callback: &mut Box<dyn ActionCallback>,
    ) -> (r: Self)
        ensures
            r@ == fresh_check_box(
                name@,
                checked,
                |property: BaseView, requested: bool| old(callback).answer(property, requested),
            ),
            forall|property: BaseView, requested: bool|
                #[trigger] final(callback).answer(property, requested) == requested,
    {
        let mut r = PropertyAction {
            face: ActionBase { base: PropertyBase::with_action_check_box(name) },
            checked,
            callback: Box::new(Granting),
        };
        core::mem::swap(&mut r.callback, callback);
        r
    }

    /// The check state.
    pub fn is_checked(&self) -> (r: bool)
        ensures
            r == check_state(self@),
            self@.payload is Action,
    {
        self.checked
    }

    /// Takes `verdict` as the check state and returns it. The callback is
    /// neither asked nor changed.
    pub fn settle(&mut self, verdict: bool) -> (r: bool)
        ensures
            r == verdict,
            final(self)@ == settled(old(self)@, verdict),
    {
        self.checked = verdict;
        verdict
    }

    /// Asks the callback, with the action's metadata and `requested`, and
    /// takes its answer as the check state. Returns that state. Nothing
    /// else about the action changes but the callback itself, which may
    /// answer differently from now on.
    pub fn trigger(&mut self, requested: bool) -> (r: bool)
        ensures
            r == asked(old(self)@, requested),
            same_but_callback(final(self)@, settled(old(self)@, r)),
    {
        proof {
            use_type_invariant(&self.face);
        }
        let verdict = self.callback.decide(&self.face.base, requested);
        self.checked = verdict;
        verdict
    }
}

impl PropertyAction {
    /// The view carries the value type of the kind and a payload of its
    /// shape.
    pub proof fn lemma_shape(&self)
        ensures
            self@.base.value_type == ValueType::Action,
            self@.payload is Action,
            self@.well_formed(),
    {
    }
}

impl Property for PropertyAction {
    fn id(&self) -> (r: usize) {
        self.face.base.id()
    }

    fn set_id(&mut self, id: usize) {
        proof {
            use_type_invariant(&self.face);
        }
        self.face.base.set_id(id)
    }

    fn name(&self) -> (r: &'static str) {
        self.face.base.name()
    }

    fn options(&self) -> (r: &[&'static str]) {
        self.face.base.options()
    }

    fn value_type(&self) -> (r: ValueType)
        ensures
            r == ValueType::Action,
    {
        ValueType::Action
    }

    fn widget_type(&self) -> (r: WidgetType)
    {
        as_action_widget(self.face.base.widget_type())
    }

    fn is_selectable(&self) -> (r: bool)
        ensures
            r == true,
    {
        true
    }

    fn is_selected(&self) -> (r: bool) {
        self.face.base.is_selected()
    }

    fn set_selected(&mut self, selected: bool) {
        proof {
            use_type_invariant(&self.face);
        }
        self.face.base.set_selected(selected)
    }

    fn is_visible(&self) -> (r: bool) {
        self.face.base.is_visible()
    }

    fn set_visible(&mut self, visible: bool) {
        proof {
            use_type_invariant(&self.face);
        }
        self.face.base.set_visible(visible)
    }

    fn show(&mut self) {
        proof {
            use_type_invariant(&self.face);
        }
        self.face.base.show()
    }

    fn conceal(&mut self) {
        proof {
            use_type_invariant(&self.face);
        }
        self.face.base.conceal()
    }

    fn into_item(self) -> (r: PropertyItem) {
        PropertyItem::Action(self)
    }
}

} // verus!
