//! The surface that every kind of property offers, and the sum of the
//! kinds: one entry of a sheet, with its downcasts and the typed access to
//! its value.

use vstd::prelude::*;
use crate::action::{asked, same_but_callback, settled, PropertyAction};
use crate::ieee::{INFINITY_32, INFINITY_64, SIGN_32, SIGN_64};
use crate::kinds::{ValueType, WidgetType};
use crate::number::{
    admitted, admitted_bits, stepped, PropertyF32, PropertyF64, PropertyI32, PropertyI64,
    PropertyNumber,
};
use crate::separator::PropertyDummy;
use crate::switch::{switched, PropertyBool};
use crate::text::texts;
use crate::text_box::{with_text, PropertyString};
use crate::view::{Payload, PropertyView};

verus! {

/// A property after it was activated, forward or backward: an action takes
/// as its check state what its callback answers when asked for the checked
/// state; a switch is toggled; an integer property makes a step. A
/// floating-point property, a text box and a separator stay as they are.
pub open spec fn activated_entry(v: PropertyView, forward: bool) -> PropertyView {
    match v.payload {
        Payload::Action { .. } => settled(v, asked(v, true)),
        Payload::Bool { value, .. } => switched(v, !value),
        Payload::Number { .. } => if v.base.value_type == ValueType::I32 || v.base.value_type
            == ValueType::I64 {
            v.with_number(stepped(v.payload, forward))
        } else {
            v
        },
        _ => v,
    }
}

/// The property holds a floating-point number.
pub open spec fn is_float(v: PropertyView) -> bool {
    v.base.value_type == ValueType::F32 || v.base.value_type == ValueType::F64
}

/// What every property offers: its metadata, and the two mutable flags.
pub trait Property: View<V = PropertyView> + Sized {
    /// The position-derived identity.
    fn id(&self) -> (r: usize)
        ensures
            r == self@.base.id,
    ;

    /// Replaces the identity and nothing else.
    fn set_id(&mut self, id: usize)
        ensures
            final(self)@ == old(self)@.with_id(id as nat),
    ;

    /// The name given at construction.
    fn name(&self) -> (r: &'static str)
        ensures
            r@ == self@.base.name,
    ;

    /// The labels given at construction, in order.
    fn options(&self) -> (r: &[&'static str])
        ensures
            texts(r@) == self@.base.options,
    ;

    /// The type of the value.
    fn value_type(&self) -> (r: ValueType)
        ensures
            r == self@.base.value_type,
    ;

    /// The widget that renders the property.
    fn widget_type(&self) -> (r: WidgetType)
        ensures
            r == self@.base.widget_type,
    ;

    /// True unless the property is drawn as a separator.
    fn is_selectable(&self) -> (r: bool)
        ensures
            r == self@.base.selectable(),
    ;

    /// The selection flag.
    fn is_selected(&self) -> (r: bool)
        ensures
            r == self@.base.selected,
    ;

    /// Replaces the selection flag and nothing else.
    fn set_selected(&mut self, selected: bool)
        ensures
            final(self)@ == old(self)@.with_selected(selected),
    ;

    /// The visibility flag.
    fn is_visible(&self) -> (r: bool)
        ensures
            r == self@.base.visible,
    ;

    /// Replaces the visibility flag and nothing else.
    fn set_visible(&mut self, visible: bool)
        ensures
            final(self)@ == old(self)@.with_visible(visible),
    ;

    /// Makes the property visible.
    fn show(&mut self)
        ensures
            final(self)@ == old(self)@.with_visible(true),
    ;

    /// Makes the property invisible.
    fn conceal(&mut self)
        ensures
            final(self)@ == old(self)@.with_visible(false),
    ;

    /// The property as an entry of a sheet.
    fn into_item(self) -> (r: PropertyItem)
        ensures
            r@ == self@,
    ;
}

/// One entry of a sheet: a property of any one kind.
pub enum PropertyItem {
    Action(PropertyAction),
    Bool(PropertyBool),
    Dummy(PropertyDummy),
    F32(PropertyF32),
    F64(PropertyF64),
    I32(PropertyI32),
    I64(PropertyI64),
    String(PropertyString),
}

impl View for PropertyItem {
    type V = PropertyView;

    open spec fn view(&self) -> PropertyView {
        match self {
            PropertyItem::Action(p) => p@,
            PropertyItem::Bool(p) => p@,
            PropertyItem::Dummy(p) => p@,
            PropertyItem::F32(p) => p@,
            PropertyItem::F64(p) => p@,
            PropertyItem::I32(p) => p@,
            PropertyItem::I64(p) => p@,
            PropertyItem::String(p) => p@,
        }
    }
}

impl PropertyItem {
    /// The value type that belongs to the kind of the entry.
    pub open spec fn tag(&self) -> ValueType {
        match self {
            PropertyItem::Action(_) => ValueType::Action,
            PropertyItem::Bool(_) => ValueType::Bool,
            PropertyItem::Dummy(_) => ValueType::Dummy,
            PropertyItem::F32(_) => ValueType::F32,
            PropertyItem::F64(_) => ValueType::F64,
            PropertyItem::I32(_) => ValueType::I32,
            PropertyItem::I64(_) => ValueType::I64,
            PropertyItem::String(_) => ValueType::String,
        }
    }

    /// The value type of an entry is the one of its kind, and what the
    /// entry holds has the shape of its kind: a separator holds nothing and
    /// is drawn as one, and nothing else is.
    pub proof fn lemma_kind(&self)
        ensures
            self@.base.value_type == self.tag(),
            self@.well_formed(),
    {
        match self {
            PropertyItem::Action(p) => p.lemma_shape(),
            PropertyItem::Bool(p) => p.lemma_shape(),
            PropertyItem::Dummy(p) => p.lemma_shape(),
            PropertyItem::F32(p) => p.lemma_shape(),
            PropertyItem::F64(p) => p.lemma_shape(),
            PropertyItem::I32(p) => p.lemma_shape(),
            PropertyItem::I64(p) => p.lemma_shape(),
            PropertyItem::String(p) => p.lemma_shape(),
        }
    }

    /// The entry as an action, if it is one.
    pub fn as_property_action(&self) -> (r: Option<&PropertyAction>)
        ensures
            self matches PropertyItem::Action(p) ==> r == Some(p),
            !(self is Action) ==> r is None,
            r is Some <==> self@.base.value_type == ValueType::Action,
    {
        proof {
            self.lemma_kind();
        }
        match self {
            PropertyItem::Action(p) => Some(p),
            _ => None,
        }
    }

    /// The entry as an action, to be changed in place, if it is one.
    pub fn as_property_action_mut(&mut self) -> (r: Option<&mut PropertyAction>)
        ensures
            *old(self) matches PropertyItem::Action(p) ==> (r matches Some(q) && *q == p
                && *final(self) == PropertyItem::Action(*final(q))),
            !(*old(self) is Action) ==> r is None && *final(self) == *old(self),
            r is Some <==> old(self)@.base.value_type == ValueType::Action,
    {
        proof {
            self.lemma_kind();
        }
        match self {
            PropertyItem::Action(p) => Some(p),
            _ => None,
        }
    }

    /// The entry as a switch, if it is one.
    pub fn as_property_bool(&self) -> (r: Option<&PropertyBool>)
        ensures
            self matches PropertyItem::Bool(p) ==> r == Some(p),
            !(self is Bool) ==> r is None,
            r is Some <==> self@.base.value_type == ValueType::Bool,
    {
        proof {
            self.lemma_kind();
        }
        match self {
            PropertyItem::Bool(p) => Some(p),
            _ => None,
        }
    }

    /// The entry as a switch, to be changed in place, if it is one.
    pub fn as_property_bool_mut(&mut self) -> (r: Option<&mut PropertyBool>)
        ensures
            *old(self) matches PropertyItem::Bool(p) ==> (r matches Some(q) && *q == p
                && *final(self) == PropertyItem::Bool(*final(q))),
            !(*old(self) is Bool) ==> r is None && *final(self) == *old(self),
            r is Some <==> old(self)@.base.value_type == ValueType::Bool,
    {
        proof {
            self.lemma_kind();
        }
        match self {
            PropertyItem::Bool(p) => Some(p),
            _ => None,
        }
    }

    /// The entry as a separator, if it is one.
    pub fn as_property_dummy(&self) -> (r: Option<&PropertyDummy>)
        ensures
            self matches PropertyItem::Dummy(p) ==> r == Some(p),
            !(self is Dummy) ==> r is None,
            r is Some <==> self@.base.value_type == ValueType::Dummy,
    {
        proof {
            self.lemma_kind();
        }
        match self {
            PropertyItem::Dummy(p) => Some(p),
            _ => None,
        }
    }

    /// The entry as a separator, to be changed in place, if it is one.
    pub fn as_property_dummy_mut(&mut self) -> (r: Option<&mut PropertyDummy>)
        ensures
            *old(self) matches PropertyItem::Dummy(p) ==> (r matches Some(q) && *q == p
                && *final(self) == PropertyItem::Dummy(*final(q))),
            !(*old(self) is Dummy) ==> r is None && *final(self) == *old(self),
            r is Some <==> old(self)@.base.value_type == ValueType::Dummy,
    {
        proof {
            self.lemma_kind();
        }
        match self {
            PropertyItem::Dummy(p) => Some(p),
            _ => None,
        }
    }

    /// The entry as a 32-bit floating-point property, if it is one.
    pub fn as_property_f32(&self) -> (r: Option<&PropertyF32>)
        ensures
            self matches PropertyItem::F32(p) ==> r == Some(p),
            !(self is F32) ==> r is None,
            r is Some <==> self@.base.value_type == ValueType::F32,
    {
        proof {
            self.lemma_kind();
        }
        match self {
            PropertyItem::F32(p) => Some(p),
            _ => None,
        }
    }

    /// The entry as a 32-bit floating-point property, to be changed in place, if it is one.
    pub fn as_property_f32_mut(&mut self) -> (r: Option<&mut PropertyF32>)
        ensures
            *old(self) matches PropertyItem::F32(p) ==> (r matches Some(q) && *q == p
                && *final(self) == PropertyItem::F32(*final(q))),
            !(*old(self) is F32) ==> r is None && *final(self) == *old(self),
            r is Some <==> old(self)@.base.value_type == ValueType::F32,
    {
        proof {
            self.lemma_kind();
        }
        match self {
            PropertyItem::F32(p) => Some(p),
            _ => None,
        }
    }

    /// The entry as a 64-bit floating-point property, if it is one.
    pub fn as_property_f64(&self) -> (r: Option<&PropertyF64>)
        ensures
            self matches PropertyItem::F64(p) ==> r == Some(p),
            !(self is F64) ==> r is None,
            r is Some <==> self@.base.value_type == ValueType::F64,
    {
        proof {
            self.lemma_kind();
        }
        match self {
            PropertyItem::F64(p) => Some(p),
            _ => None,
        }
    }

    /// The entry as a 64-bit floating-point property, to be changed in place, if it is one.
    pub fn as_property_f64_mut(&mut self) -> (r: Option<&mut PropertyF64>)
        ensures
            *old(self) matches PropertyItem::F64(p) ==> (r matches Some(q) && *q == p
                && *final(self) == PropertyItem::F64(*final(q))),
            !(*old(self) is F64) ==> r is None && *final(self) == *old(self),
            r is Some <==> old(self)@.base.value_type == ValueType::F64,
    {
        proof {
            self.lemma_kind();
        }
        match self {
            PropertyItem::F64(p) => Some(p),
            _ => None,
        }
    }

    /// The entry as a 32-bit integer property, if it is one.
    pub fn as_property_i32(&self) -> (r: Option<&PropertyI32>)
        ensures
            self matches PropertyItem::I32(p) ==> r == Some(p),
            !(self is I32) ==> r is None,
            r is Some <==> self@.base.value_type == ValueType::I32,
    {
        proof {
            self.lemma_kind();
        }
        match self {
            PropertyItem::I32(p) => Some(p),
            _ => None,
        }
    }

    /// The entry as a 32-bit integer property, to be changed in place, if it is one.
    pub fn as_property_i32_mut(&mut self) -> (r: Option<&mut PropertyI32>)
        ensures
            *old(self) matches PropertyItem::I32(p) ==> (r matches Some(q) && *q == p
                && *final(self) == PropertyItem::I32(*final(q))),
            !(*old(self) is I32) ==> r is None && *final(self) == *old(self),
            r is Some <==> old(self)@.base.value_type == ValueType::I32,
    {
        proof {
            self.lemma_kind();
        }
        match self {
            PropertyItem::I32(p) => Some(p),
            _ => None,
        }
    }

    /// The entry as a 64-bit integer property, if it is one.
    pub fn as_property_i64(&self) -> (r: Option<&PropertyI64>)
        ensures
            self matches PropertyItem::I64(p) ==> r == Some(p),
            !(self is I64) ==> r is None,
            r is Some <==> self@.base.value_type == ValueType::I64,
    {
        proof {
            self.lemma_kind();
        }
        match self {
            PropertyItem::I64(p) => Some(p),
            _ => None,
        }
    }

    /// The entry as a 64-bit integer property, to be changed in place, if it is one.
    pub fn as_property_i64_mut(&mut self) -> (r: Option<&mut PropertyI64>)
        ensures
            *old(self) matches PropertyItem::I64(p) ==> (r matches Some(q) && *q == p
                && *final(self) == PropertyItem::I64(*final(q))),
            !(*old(self) is I64) ==> r is None && *final(self) == *old(self),
            r is Some <==> old(self)@.base.value_type == ValueType::I64,
    {
        proof {
            self.lemma_kind();
        }
        match self {
            PropertyItem::I64(p) => Some(p),
            _ => None,
        }
    }

    /// The entry as a text box, if it is one.
    pub fn as_property_string(&self) -> (r: Option<&PropertyString>)
        ensures
            self matches PropertyItem::String(p) ==> r == Some(p),
            !(self is String) ==> r is None,
            r is Some <==> self@.base.value_type == ValueType::String,
    {
        proof {
            self.lemma_kind();
        }
        match self {
            PropertyItem::String(p) => Some(p),
            _ => None,
        }
    }

    /// The entry as a text box, to be changed in place, if it is one.
    pub fn as_property_string_mut(&mut self) -> (r: Option<&mut PropertyString>)
        ensures
            *old(self) matches PropertyItem::String(p) ==> (r matches Some(q) && *q == p
                && *final(self) == PropertyItem::String(*final(q))),
            !(*old(self) is String) ==> r is None && *final(self) == *old(self),
            r is Some <==> old(self)@.base.value_type == ValueType::String,
    {
        proof {
            self.lemma_kind();
        }
        match self {
            PropertyItem::String(p) => Some(p),
            _ => None,
        }
    }

    /// The check state, if the entry is an action.
    pub fn is_action_checked(&self) -> (r: Option<bool>)
        ensures
            r == (match self@.payload {
                Payload::Action { checked, .. } => Some(checked),
                _ => None,
            }),
    {
        proof {
            self.lemma_kind();
        }
        match self {
            PropertyItem::Action(p) => Some(p.is_checked()),
            _ => None,
        }
    }

    /// Triggers the entry if it is an action: its callback is asked, with
    /// the metadata of the action and `checked`, and its answer is taken as
    /// the check state and returned. Any other entry is left as it is.
    pub fn trigger_action(&mut self, checked: bool) -> (r: Option<bool>)
        ensures
            r == (if old(self)@.payload is Action {
                Some(asked(old(self)@, checked))
            } else {
                None
            }),
            same_but_callback(final(self)@, settled(old(self)@, asked(old(self)@, checked))),
    {
        proof {
            self.lemma_kind();
        }
        match self {
            PropertyItem::Action(p) => Some(p.trigger(checked)),
            _ => None,
        }
    }

    /// The value, if the entry is a switch.
    pub fn get_value_bool(&self) -> (r: Option<bool>)
        ensures
            r == (match self@.payload {
                Payload::Bool { value, .. } => Some(value),
                _ => None,
            }),
    {
        proof {
            self.lemma_kind();
        }
        match self {
            PropertyItem::Bool(p) => Some(p.value()),
            _ => None,
        }
    }

    /// Stores `value` if the entry is a switch, and returns it. Any other
    /// entry is left as it is.
    pub fn set_value_bool(&mut self, value: bool) -> (r: Option<bool>)
        ensures
            r == (if old(self)@.payload is Bool {
                Some(value)
            } else {
                None
            }),
            final(self)@ == switched(old(self)@, value),
    {
        proof {
            self.lemma_kind();
        }
        match self {
            PropertyItem::Bool(p) => Some(p.set_value(value)),
            _ => None,
        }
    }

    /// The value as a bit pattern, if the entry is a 32-bit floating-point
    /// property.
    pub fn get_value_f32(&self) -> (r: Option<u32>)
        ensures
            match r {
                Some(x) => self@.number_of(ValueType::F32) == Some(x as int),
                None => self@.number_of(ValueType::F32) is None,
            },
    {
        proof {
            self.lemma_kind();
        }
        match self {
            PropertyItem::F32(p) => Some(p.value()),
            _ => None,
        }
    }

    /// Clamps the bit pattern `value` between the two bounds of the range
    /// and stores it, if the entry is a 32-bit floating-point property, and
    /// returns what was stored. Any other entry is left as it is.
    pub fn set_value_f32(&mut self, value: u32) -> (r: Option<u32>)
        ensures
            r is Some <==> old(self)@.base.value_type == ValueType::F32,
            r matches Some(x) ==> x == admitted_bits(
                old(self)@.payload,
                value as int,
                SIGN_32 as int,
                INFINITY_32 as int,
            ) && final(self)@ == old(self)@.with_number(x as int),
            r is None ==> final(self)@ == old(self)@,
    {
        proof {
            self.lemma_kind();
        }
        match self {
            PropertyItem::F32(p) => Some(p.set_value(value)),
            _ => None,
        }
    }

    /// The value as a bit pattern, if the entry is a 64-bit floating-point
    /// property.
    pub fn get_value_f64(&self) -> (r: Option<u64>)
        ensures
            match r {
                Some(x) => self@.number_of(ValueType::F64) == Some(x as int),
                None => self@.number_of(ValueType::F64) is None,
            },
    {
        proof {
            self.lemma_kind();
        }
        match self {
            PropertyItem::F64(p) => Some(p.value()),
            _ => None,
        }
    }

    /// Clamps the bit pattern `value` between the two bounds of the range
    /// and stores it, if the entry is a 64-bit floating-point property, and
    /// returns what was stored. Any other entry is left as it is.
    pub fn set_value_f64(&mut self, value: u64) -> (r: Option<u64>)
        ensures
            r is Some <==> old(self)@.base.value_type == ValueType::F64,
            r matches Some(x) ==> x == admitted_bits(
                old(self)@.payload,
                value as int,
                SIGN_64 as int,
                INFINITY_64 as int,
            ) && final(self)@ == old(self)@.with_number(x as int),
            r is None ==> final(self)@ == old(self)@,
    {
        proof {
            self.lemma_kind();
        }
        match self {
            PropertyItem::F64(p) => Some(p.set_value(value)),
            _ => None,
        }
    }

    /// The value, if the entry is a 32-bit integer property.
    pub fn get_value_i32(&self) -> (r: Option<i32>)
        ensures
            match r {
                Some(x) => self@.number_of(ValueType::I32) == Some(x as int),
                None => self@.number_of(ValueType::I32) is None,
            },
    {
        proof {
            self.lemma_kind();
        }
        match self {
            PropertyItem::I32(p) => Some(p.value()),
            _ => None,
        }
    }

    /// Clamps `value` between the two bounds of the range and stores it, if
    /// the entry is a 32-bit integer property, and returns what was stored.
    /// Any other entry is left as it is.
    pub fn set_value_i32(&mut self, value: i32) -> (r: Option<i32>)
        ensures
            r is Some <==> old(self)@.base.value_type == ValueType::I32,
            r matches Some(x) ==> x == admitted(old(self)@.payload, value as int) && final(self)@
                == old(self)@.with_number(x as int),
            r is None ==> final(self)@ == old(self)@,
    {
        proof {
            self.lemma_kind();
        }
        match self {
            PropertyItem::I32(p) => Some(p.set_value(value)),
            _ => None,
        }
    }

    /// The value, if the entry is a 64-bit integer property.
    pub fn get_value_i64(&self) -> (r: Option<i64>)
        ensures
            match r {
                Some(x) => self@.number_of(ValueType::I64) == Some(x as int),
                None => self@.number_of(ValueType::I64) is None,
            },
    {
        proof {
            self.lemma_kind();
        }
        match self {
            PropertyItem::I64(p) => Some(p.value()),
            _ => None,
        }
    }

    /// Clamps `value` between the two bounds of the range and stores it, if
    /// the entry is a 64-bit integer property, and returns what was stored.
    /// Any other entry is left as it is.
    pub fn set_value_i64(&mut self, value: i64) -> (r: Option<i64>)
        ensures
            r is Some <==> old(self)@.base.value_type == ValueType::I64,
            r matches Some(x) ==> x == admitted(old(self)@.payload, value as int) && final(self)@
                == old(self)@.with_number(x as int),
            r is None ==> final(self)@ == old(self)@,
    {
        proof {
            self.lemma_kind();
        }
        match self {
            PropertyItem::I64(p) => Some(p.set_value(value)),
            _ => None,
        }
    }

    /// The text, if the entry is a text box.
    pub fn get_value_string(&self) -> (r: Option<&str>)
        ensures
            match r {
                Some(s) => self@.payload matches Payload::Text { value, .. } && s@ == value,
                None => !(self@.payload is Text),
            },
    {
        proof {
            self.lemma_kind();
        }
        match self {
            PropertyItem::String(p) => Some(p.value()),
            _ => None,
        }
    }

    /// Replaces the text by `value` if the entry is a text box, and
    /// returns the new text. Any other entry is left as it is.
    pub fn set_value_string(&mut self, value: &str) -> (r: Option<&str>)
        ensures
            r is Some <==> old(self)@.payload is Text,
            r matches Some(s) ==> s@ == value@,
            final(self)@ == with_text(old(self)@, value@),
    {
        proof {
            self.lemma_kind();
        }
        match self {
            PropertyItem::String(p) => Some(p.set_value(value)),
            _ => None,
        }
    }

    /// Activates the entry: triggers an action, asking for the checked
    /// state; toggles a switch; moves an integer property one step forward
    /// or backward. A floating-point property is left as it is and `true`
    /// is returned: its step is for the caller to make. A text box and a
    /// separator are left as they are.
    pub fn activate(&mut self, forward: bool) -> (r: bool)
        ensures
            same_but_callback(final(self)@, activated_entry(old(self)@, forward)),
            r == is_float(old(self)@),
    {
        proof {
            self.lemma_kind();
        }
        match self {
            PropertyItem::Action(p) => {
                p.trigger(true);
                false
            },
            PropertyItem::Bool(p) => {
                p.toggle();
                false
            },
            PropertyItem::I32(p) => {
                if forward {
                    p.step_forward();
                } else {
                    p.step_backward();
                }
                false
            },
            PropertyItem::I64(p) => {
                if forward {
                    p.step_forward();
                } else {
                    p.step_backward();
                }
                false
            },
            PropertyItem::F32(_) => true,
            PropertyItem::F64(_) => true,
            PropertyItem::Dummy(_) => false,
            PropertyItem::String(_) => false,
        }
    }
}

impl Property for PropertyItem {
    fn id(&self) -> (r: usize) {
        match self {
            PropertyItem::Action(p) => p.id(),
            PropertyItem::Bool(p) => p.id(),
            PropertyItem::Dummy(p) => p.id(),
            PropertyItem::F32(p) => p.id(),
            PropertyItem::F64(p) => p.id(),
            PropertyItem::I32(p) => p.id(),
            PropertyItem::I64(p) => p.id(),
            PropertyItem::String(p) => p.id(),
        }
    }

    fn set_id(&mut self, id: usize) {
        match self {
            PropertyItem::Action(p) => p.set_id(id),
            PropertyItem::Bool(p) => p.set_id(id),
            PropertyItem::Dummy(p) => p.set_id(id),
            PropertyItem::F32(p) => p.set_id(id),
            PropertyItem::F64(p) => p.set_id(id),
            PropertyItem::I32(p) => p.set_id(id),
            PropertyItem::I64(p) => p.set_id(id),
            PropertyItem::String(p) => p.set_id(id),
        }
    }

    fn name(&self) -> (r: &'static str) {
        match self {
            PropertyItem::Action(p) => p.name(),
            PropertyItem::Bool(p) => p.name(),
            PropertyItem::Dummy(p) => p.name(),
            PropertyItem::F32(p) => p.name(),
            PropertyItem::F64(p) => p.name(),
            PropertyItem::I32(p) => p.name(),
            PropertyItem::I64(p) => p.name(),
            PropertyItem::String(p) => p.name(),
        }
    }

    fn options(&self) -> (r: &[&'static str]) {
        match self {
            PropertyItem::Action(p) => p.options(),
            PropertyItem::Bool(p) => p.options(),
            PropertyItem::Dummy(p) => p.options(),
            PropertyItem::F32(p) => p.options(),
            PropertyItem::F64(p) => p.options(),
            PropertyItem::I32(p) => p.options(),
            PropertyItem::I64(p) => p.options(),
            PropertyItem::String(p) => p.options(),
        }
    }

    fn value_type(&self) -> (r: ValueType)
        ensures
            r == self.tag(),
    {
        match self {
            PropertyItem::Action(p) => p.value_type(),
            PropertyItem::Bool(p) => p.value_type(),
            PropertyItem::Dummy(p) => p.value_type(),
            PropertyItem::F32(p) => p.value_type(),
            PropertyItem::F64(p) => p.value_type(),
            PropertyItem::I32(p) => p.value_type(),
            PropertyItem::I64(p) => p.value_type(),
            PropertyItem::String(p) => p.value_type(),
        }
    }

    fn widget_type(&self) -> (r: WidgetType) {
        match self {
            PropertyItem::Action(p) => p.widget_type(),
            PropertyItem::Bool(p) => p.widget_type(),
            PropertyItem::Dummy(p) => p.widget_type(),
            PropertyItem::F32(p) => p.widget_type(),
            PropertyItem::F64(p) => p.widget_type(),
            PropertyItem::I32(p) => p.widget_type(),
            PropertyItem::I64(p) => p.widget_type(),
            PropertyItem::String(p) => p.widget_type(),
        }
    }

    fn is_selectable(&self) -> (r: bool) {
        match self {
            PropertyItem::Action(p) => p.is_selectable(),
            PropertyItem::Bool(p) => p.is_selectable(),
            PropertyItem::Dummy(p) => p.is_selectable(),
            PropertyItem::F32(p) => p.is_selectable(),
            PropertyItem::F64(p) => p.is_selectable(),
            PropertyItem::I32(p) => p.is_selectable(),
            PropertyItem::I64(p) => p.is_selectable(),
            PropertyItem::String(p) => p.is_selectable(),
        }
    }

    fn is_selected(&self) -> (r: bool) {
        match self {
            PropertyItem::Action(p) => p.is_selected(),
            PropertyItem::Bool(p) => p.is_selected(),
            PropertyItem::Dummy(p) => p.is_selected(),
            PropertyItem::F32(p) => p.is_selected(),
            PropertyItem::F64(p) => p.is_selected(),
            PropertyItem::I32(p) => p.is_selected(),
            PropertyItem::I64(p) => p.is_selected(),
            PropertyItem::String(p) => p.is_selected(),
        }
    }

    fn set_selected(&mut self, selected: bool) {
        match self {
            PropertyItem::Action(p) => p.set_selected(selected),
            PropertyItem::Bool(p) => p.set_selected(selected),
            PropertyItem::Dummy(p) => p.set_selected(selected),
            PropertyItem::F32(p) => p.set_selected(selected),
            PropertyItem::F64(p) => p.set_selected(selected),
            PropertyItem::I32(p) => p.set_selected(selected),
            PropertyItem::I64(p) => p.set_selected(selected),
            PropertyItem::String(p) => p.set_selected(selected),
        }
    }

    fn is_visible(&self) -> (r: bool) {
        match self {
            PropertyItem::Action(p) => p.is_visible(),
            PropertyItem::Bool(p) => p.is_visible(),
            PropertyItem::Dummy(p) => p.is_visible(),
            PropertyItem::F32(p) => p.is_visible(),
            PropertyItem::F64(p) => p.is_visible(),
            PropertyItem::I32(p) => p.is_visible(),
            PropertyItem::I64(p) => p.is_visible(),
            PropertyItem::String(p) => p.is_visible(),
        }
    }

    fn set_visible(&mut self, visible: bool) {
        match self {
            PropertyItem::Action(p) => p.set_visible(visible),
            PropertyItem::Bool(p) => p.set_visible(visible),
            PropertyItem::Dummy(p) => p.set_visible(visible),
            PropertyItem::F32(p) => p.set_visible(visible),
            PropertyItem::F64(p) => p.set_visible(visible),
            PropertyItem::I32(p) => p.set_visible(visible),
            PropertyItem::I64(p) => p.set_visible(visible),
            PropertyItem::String(p) => p.set_visible(visible),
        }
    }

    fn show(&mut self) {
        match self {
            PropertyItem::Action(p) => p.show(),
            PropertyItem::Bool(p) => p.show(),
            PropertyItem::Dummy(p) => p.show(),
            PropertyItem::F32(p) => p.show(),
            PropertyItem::F64(p) => p.show(),
            PropertyItem::I32(p) => p.show(),
            PropertyItem::I64(p) => p.show(),
            PropertyItem::String(p) => p.show(),
        }
    }

    fn conceal(&mut self) {
        match self {
            PropertyItem::Action(p) => p.conceal(),
            PropertyItem::Bool(p) => p.conceal(),
            PropertyItem::Dummy(p) => p.conceal(),
            PropertyItem::F32(p) => p.conceal(),
            PropertyItem::F64(p) => p.conceal(),
            PropertyItem::I32(p) => p.conceal(),
            PropertyItem::I64(p) => p.conceal(),
            PropertyItem::String(p) => p.conceal(),
        }
    }

    fn into_item(self) -> (r: PropertyItem) {
        self
    }
}

} // verus!
