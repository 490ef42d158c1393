//! The text box: a property that holds text.

use vstd::prelude::*;
use vstd::string::StringExecFns;
use crate::base::{fresh_base, BaseView, PropertyBase};
use crate::kinds::{ValueType, WidgetType};
use crate::property::{Property, PropertyItem};
use crate::view::{Payload, PropertyView};

verus! {

/// The view of a fresh text box called `name`.
pub open spec fn fresh_text_box(
    name: Seq<char>,
    max_length: nat,
    def_val: Seq<char>,
) -> PropertyView {
    PropertyView {
        base: fresh_base(name, Seq::<Seq<char>>::empty(), ValueType::String, WidgetType::TextBox),
        payload: Payload::Text { max_length, def_val, value: def_val },
    }
}

/// The same text box holding `value`; any other property unchanged.
pub open spec fn with_text(v: PropertyView, value: Seq<char>) -> PropertyView {
    match v.payload {
        Payload::Text { max_length, def_val, value: _ } => v.with_payload(
            Payload::Text { max_length, def_val, value },
        ),
        _ => v,
    }
}

/// What a text box holds; the empty text for any other property.
pub open spec fn text_value(v: PropertyView) -> Seq<char> {
    match v.payload {
        Payload::Text { value, .. } => value,
        _ => Seq::<char>::empty(),
    }
}

/// A property that holds text. `max_length` is advice to whoever edits the
/// text: no operation here truncates or refuses a longer text.
#[derive(Debug)]
pub struct PropertyString {
    base: PropertyBase,
    max_length: usize,
    def_val: String,
    value: String,
}

impl View for PropertyString {
    type V = PropertyView;

    closed spec fn view(&self) -> PropertyView {
        PropertyView {
            base: BaseView {
                value_type: ValueType::String,
                widget_type: WidgetType::TextBox,
                ..self.base@
            },
            payload: Payload::Text {
                max_length: self.max_length as nat,
                def_val: self.def_val@,
                value: self.value@,
            },
        }
    }
}

impl Default for PropertyString {
    /// An empty text box called "UnTitled" with room for 256 bytes.
    fn default() -> (r: Self)
        ensures
            r@ == fresh_text_box("UnTitled"@, 256, Seq::<char>::empty()),
    {
        proof {
            reveal_strlit("");
        }
        let r = PropertyString::with_text_box("UnTitled", 256, "");
        assert(""@ =~= Seq::<char>::empty());
        r
    }
}

impl PropertyString {
    /// A text box called `name` that starts with the text `def_val`.
    pub fn with_text_box(name: &'static str, max_length: usize, def_val: &str) -> (r: Self)
        ensures
            r@ == fresh_text_box(name@, max_length as nat, def_val@),
    {
        PropertyString {
            base: PropertyBase::with_text_box(name),
            max_length,
            def_val: String::from_str(def_val),
            value: String::from_str(def_val),
        }
    }

    /// The advisory capacity.
    pub fn max_length(&self) -> (r: usize)
        ensures
            self@.payload matches Payload::Text { max_length, .. } && r == max_length,
    {
        self.max_length
    }

    /// The text given at construction.
    pub fn def_val(&self) -> (r: &str)
        ensures
            self@.payload matches Payload::Text { def_val, .. } && r@ == def_val,
    {
        self.def_val.as_str()
    }

    /// The current text.
    pub fn value(&self) -> (r: &str)
        ensures
            r@ == text_value(self@),
            self@.payload is Text,
    {
        self.value.as_str()
    }

    /// The buffer, to be edited in place.
    pub fn value_mut(&mut self) -> (r: &mut String)
        ensures
            r@ == text_value(old(self)@),
            final(self)@ == with_text(old(self)@, final(r)@),
    {
        &mut self.value
    }

    /// Replaces the whole text by `value` and returns the new text. The
    /// text is stored whatever its length.
    pub fn set_value(&mut self, value: &str) -> (r: &str)
        ensures
            r@ == value@,
            final(self)@ == with_text(old(self)@, value@),
    {
        self.value = String::from_str(value);
        self.value.as_str()
    }
}

impl PropertyString {
    /// The view carries the value type of the kind and a payload of its
    /// shape.
    pub proof fn lemma_shape(&self)
        ensures
            self@.base.value_type == ValueType::String,
            self@.payload is Text,
            self@.well_formed(),
    {
    }
}

impl Property for PropertyString {
    fn id(&self) -> (r: usize) {
        self.base.id()
    }

    fn set_id(&mut self, id: usize) {
        self.base.set_id(id)
    }

    fn name(&self) -> (r: &'static str) {
        self.base.name()
    }

    fn options(&self) -> (r: &[&'static str]) {
        self.base.options()
    }

    fn value_type(&self) -> (r: ValueType)
        ensures
            r == ValueType::String,
    {
        ValueType::String
    }

    fn widget_type(&self) -> (r: WidgetType)
        ensures
            r == WidgetType::TextBox,
    {
        WidgetType::TextBox
    }

    fn is_selectable(&self) -> (r: bool)
        ensures
            r == true,
    {
        true
    }

    fn is_selected(&self) -> (r: bool) {
        self.base.is_selected()
    }

    fn set_selected(&mut self, selected: bool) {
        self.base.set_selected(selected)
    }

    fn is_visible(&self) -> (r: bool) {
        self.base.is_visible()
    }

    fn set_visible(&mut self, visible: bool) {
        self.base.set_visible(visible)
    }

    fn show(&mut self) {
        self.base.show()
    }

    fn conceal(&mut self) {
        self.base.conceal()
    }

    fn into_item(self) -> (r: PropertyItem) {
        PropertyItem::String(self)
    }
}

} // verus!
