//! The mathematical view of a property: its metadata and what it holds.

use vstd::prelude::*;
use crate::base::BaseView;
use crate::kinds::{ValueType, WidgetType};

verus! {

/// What a property holds besides its metadata.
#[verifier::ext_equal]
#[allow(inconsistent_fields)]
pub enum Payload {
    /// Nothing: a separator.
    Empty,
    /// The check state of an action, and what its callback, as it is
    /// now, answers when it is handed a property's metadata and the state
    /// that is asked for.
    Action { checked: bool, answer: spec_fn(BaseView, bool) -> bool },
    /// A switch.
    Bool { def_val: bool, value: bool },
    /// A number with its range and step. Floating-point kinds hold IEEE-754
    /// bit patterns, read as unsigned integers.
    Number { lo: int, hi: int, step: int, def_val: int, value: int },
    /// A text buffer with its advisory capacity.
    Text { max_length: nat, def_val: Seq<char>, value: Seq<char> },
}

/// A property as plain values.
#[verifier::ext_equal]
pub struct PropertyView {
    pub base: BaseView,
    pub payload: Payload,
}

impl PropertyView {
    /// What the property holds and the widget that draws it fit its value
    /// type: an action is a push button or a check box, a switch a switch,
    /// a number a combo box, select, slider or spin box, a text a text box,
    /// and what holds nothing is a separator.
    pub open spec fn well_formed(self) -> bool {
        match self.payload {
            Payload::Empty => self.base.value_type == ValueType::Dummy && self.base.widget_type
                == WidgetType::Separator,
            Payload::Action { .. } => self.base.value_type == ValueType::Action && (
            self.base.widget_type == WidgetType::Button || self.base.widget_type
                == WidgetType::CheckBox),
            Payload::Bool { .. } => self.base.value_type == ValueType::Bool && self.base.widget_type
                == WidgetType::Switch,
            Payload::Number { .. } => (self.base.value_type == ValueType::F32
                || self.base.value_type == ValueType::F64 || self.base.value_type == ValueType::I32
                || self.base.value_type == ValueType::I64) && (self.base.widget_type
                == WidgetType::ComboBox || self.base.widget_type == WidgetType::Select
                || self.base.widget_type == WidgetType::Slider || self.base.widget_type
                == WidgetType::SpinBox),
            Payload::Text { .. } => self.base.value_type == ValueType::String
                && self.base.widget_type == WidgetType::TextBox,
        }
    }

    /// Of the well-formed properties exactly the separators cannot be
    /// selected, and exactly they hold nothing.
    pub proof fn lemma_only_separators_are_passed(self)
        requires
            self.well_formed(),
        ensures
            !self.base.selectable() <==> self.payload is Empty,
            self.payload is Empty <==> self.base.value_type == ValueType::Dummy,
    {
    }

    /// The number that the property holds, if its value type is `tag` and
    /// it holds one.
    pub open spec fn number_of(self, tag: ValueType) -> Option<int> {
        match self.payload {
            Payload::Number { value, .. } if self.base.value_type == tag => Some(value),
            _ => None,
        }
    }

    /// What the property holds, if it is a switch.
    pub open spec fn switch_of(self) -> Option<bool> {
        match self.payload {
            Payload::Bool { value, .. } => Some(value),
            _ => None,
        }
    }

    /// The text that the property holds, if it is a text box.
    pub open spec fn text_of(self) -> Option<Seq<char>> {
        match self.payload {
            Payload::Text { value, .. } => Some(value),
            _ => None,
        }
    }

    /// The same property under another id.
    pub open spec fn with_id(self, id: nat) -> PropertyView {
        PropertyView { base: self.base.with_id(id), ..self }
    }

    /// The same property with the selection flag set to `selected`.
    pub open spec fn with_selected(self, selected: bool) -> PropertyView {
        PropertyView { base: self.base.with_selected(selected), ..self }
    }

    /// The same property with the visibility flag set to `visible`.
    pub open spec fn with_visible(self, visible: bool) -> PropertyView {
        PropertyView { base: self.base.with_visible(visible), ..self }
    }

    /// The same property holding `payload`.
    pub open spec fn with_payload(self, payload: Payload) -> PropertyView {
        PropertyView { payload, ..self }
    }

    /// The same number property holding `value`; any other property
    /// unchanged.
    pub open spec fn with_number(self, value: int) -> PropertyView {
        match self.payload {
            Payload::Number { lo, hi, step, def_val, value: _ } => self.with_payload(
                Payload::Number { lo, hi, step, def_val, value },
            ),
            _ => self,
        }
    }
}

} // verus!
