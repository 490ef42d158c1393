//! The switch: a property that is on or off.

use vstd::prelude::*;
use crate::base::{fresh_base, BaseView, PropertyBase};
use crate::kinds::{ValueType, WidgetType};
use crate::property::{Property, PropertyItem};
use crate::view::{Payload, PropertyView};

verus! {

/// The view of a fresh switch called `name`.
pub open spec fn fresh_switch(name: Seq<char>, def_val: bool) -> PropertyView {
    PropertyView {
        base: fresh_base(name, Seq::<Seq<char>>::empty(), ValueType::Bool, WidgetType::Switch),
        payload: Payload::Bool { def_val, value: def_val },
    }
}

/// The same switch holding `value`; any other property unchanged.
pub open spec fn switched(v: PropertyView, value: bool) -> PropertyView {
    match v.payload {
        Payload::Bool { def_val, value: _ } => v.with_payload(Payload::Bool { def_val, value }),
        _ => v,
    }
}

/// What a switch holds; false for any other property.
pub open spec fn switch_value(v: PropertyView) -> bool {
    match v.payload {
        Payload::Bool { value, .. } => value,
        _ => false,
    }
}

/// The value of a switch that started at `start` and was toggled `n` times.
pub open spec fn toggled(start: bool, n: nat) -> bool
    decreases n,
{
    if n == 0 {
        start
    } else {
        !toggled(start, (n - 1) as nat)
    }
}

/// A switch toggled `n` times holds its first value after an even number
/// of toggles and the opposite after an odd number. A switch that starts
/// off is therefore on exactly when `n` is odd.
pub proof fn lemma_toggle_parity(start: bool, n: nat)
    ensures
        toggled(start, n) == (if n % 2 == 1 {
            !start
        } else {
            start
        }),
        toggled(false, n) <==> n % 2 == 1,
    decreases n,
{
    if n > 0 {
        lemma_toggle_parity(start, (n - 1) as nat);
        lemma_toggle_parity(false, (n - 1) as nat);
    }
}

/// Toggling `a` times and then `b` times is toggling `a + b` times.
pub proof fn lemma_toggled_adds(start: bool, a: nat, b: nat)
    ensures
        toggled(toggled(start, a), b) == toggled(start, a + b),
    decreases b,
{
    if b > 0 {
        lemma_toggled_adds(start, a, (b - 1) as nat);
    }
}

/// A property that is on or off.
#[derive(Debug)]
pub struct PropertyBool {
    base: PropertyBase,
    def_val: bool,
    value: bool,
}

impl View for PropertyBool {
    type V = PropertyView;

    closed spec fn view(&self) -> PropertyView {
        PropertyView {
            base: BaseView {
                value_type: ValueType::Bool,
                widget_type: WidgetType::Switch,
                ..self.base@
            },
            payload: Payload::Bool { def_val: self.def_val, value: self.value },
        }
    }
}

impl Default for PropertyBool {
    /// A switch called "UnTitled" that is off.
    fn default() -> (r: Self)
        ensures
            r@ == fresh_switch("UnTitled"@, false),
    {
        PropertyBool::with_switch("UnTitled", false)
    }
}

impl PropertyBool {
    /// A switch called `name` that starts at `def_val`.
    pub fn with_switch(name: &'static str, def_val: bool) -> (r: Self)
        ensures
            r@ == fresh_switch(name@, def_val),
    {
        PropertyBool { base: PropertyBase::with_switch(name), def_val, value: def_val }
    }

    /// The value given at construction.
    pub fn def_val(&self) -> (r: bool)
        ensures
            self@.payload matches Payload::Bool { def_val, .. } && r == def_val,
    {
        self.def_val
    }

    /// The current value.
    pub fn value(&self) -> (r: bool)
        ensures
            r == switch_value(self@),
            self@.payload is Bool,
    {
        self.value
    }

    /// The current value, to be written in place.
    pub fn value_mut(&mut self) -> (r: &mut bool)
        ensures
            *r == switch_value(old(self)@),
            final(self)@ == switched(old(self)@, *final(r)),
    {
        &mut self.value
    }

    /// Stores `value` as it is and returns it.
    pub fn set_value(&mut self, value: bool) -> (r: bool)
        ensures
            r == value,
            final(self)@ == switched(old(self)@, value),
    {
        self.value = value;
        value
    }

    /// Stores and returns the opposite of the current value.
    pub fn toggle(&mut self) -> (r: bool)
        ensures
            r == !switch_value(old(self)@),
            final(self)@ == switched(old(self)@, r),
            switch_value(final(self)@) == toggled(switch_value(old(self)@), 1),
    {
        let flipped = !self.value;
        assert(toggled(self.value, 1) == !toggled(self.value, 0));
        self.value = flipped;
        flipped
    }
}

impl PropertyBool {
    /// The view carries the value type of the kind and a payload of its
    /// shape.
    pub proof fn lemma_shape(&self)
        ensures
            self@.base.value_type == ValueType::Bool,
            self@.payload is Bool,
            self@.well_formed(),
    {
    }
}

impl Property for PropertyBool {
    fn id(&self) -> (r: usize) {
        self.base.id()
    }

    fn set_id(&mut self, id: usize) {
        self.base.set_id(id)
    }

    fn name(&self) -> (r: &'static str) {
        self.base.name()
    }

    fn options(&self) -> (r: &[&'static str]) {
        self.base.options()
    }

    fn value_type(&self) -> (r: ValueType)
        ensures
            r == ValueType::Bool,
    {
        ValueType::Bool
    }

    fn widget_type(&self) -> (r: WidgetType)
        ensures
            r == WidgetType::Switch,
    {
        WidgetType::Switch
    }

    fn is_selectable(&self) -> (r: bool)
        ensures
            r == true,
    {
        true
    }

    fn is_selected(&self) -> (r: bool) {
        self.base.is_selected()
    }

    fn set_selected(&mut self, selected: bool) {
        self.base.set_selected(selected)
    }

    fn is_visible(&self) -> (r: bool) {
        self.base.is_visible()
    }

    fn set_visible(&mut self, visible: bool) {
        self.base.set_visible(visible)
    }

    fn show(&mut self) {
        self.base.show()
    }

    fn conceal(&mut self) {
        self.base.conceal()
    }

    fn into_item(self) -> (r: PropertyItem) {
        PropertyItem::Bool(self)
    }
}

} // verus!
