//! The separator: an entry without a value that divides a sheet and that
//! keyboard navigation passes over.

use vstd::prelude::*;
use crate::base::{fresh_base, BaseView, PropertyBase};
use crate::kinds::{ValueType, WidgetType};
use crate::property::{Property, PropertyItem};
use crate::view::{Payload, PropertyView};

verus! {

/// The view of a fresh separator.
pub open spec fn fresh_separator() -> PropertyView {
    PropertyView {
        base: fresh_base(
            Seq::<char>::empty(),
            Seq::<Seq<char>>::empty(),
            ValueType::Dummy,
            WidgetType::Separator,
        ),
        payload: Payload::Empty,
    }
}

/// An entry without a value.
#[derive(Debug)]
pub struct PropertyDummy {
    base: PropertyBase,
}

impl View for PropertyDummy {
    type V = PropertyView;

    closed spec fn view(&self) -> PropertyView {
        PropertyView {
            base: BaseView {
                value_type: ValueType::Dummy,
                widget_type: WidgetType::Separator,
                ..self.base@
            },
            payload: Payload::Empty,
        }
    }
}

impl Default for PropertyDummy {
    fn default() -> (r: Self)
        ensures
            r@ == fresh_separator(),
    {
        PropertyDummy::with_separator()
    }
}

impl PropertyDummy {
    /// A separator.
    pub fn with_separator() -> (r: Self)
        ensures
            r@ == fresh_separator(),
    {
        PropertyDummy { base: PropertyBase::with_separator() }
    }
}

impl PropertyDummy {
    /// The view carries the value type of the kind and a payload of its
    /// shape.
    pub proof fn lemma_shape(&self)
        ensures
            self@.base.value_type == ValueType::Dummy,
            self@.payload is Empty,
            self@.well_formed(),
    {
    }
}

impl Property for PropertyDummy {
    fn id(&self) -> (r: usize) {
        self.base.id()
    }

    fn set_id(&mut self, id: usize) {
        self.base.set_id(id)
    }

    fn name(&self) -> (r: &'static str) {
        self.base.name()
    }

    fn options(&self) -> (r: &[&'static str]) {
        self.base.options()
    }

    fn value_type(&self) -> (r: ValueType)
        ensures
            r == ValueType::Dummy,
    {
        ValueType::Dummy
    }

    fn widget_type(&self) -> (r: WidgetType)
        ensures
            r == WidgetType::Separator,
    {
        WidgetType::Separator
    }

    fn is_selectable(&self) -> (r: bool)
        ensures
            r == false,
    {
        false
    }

    fn is_selected(&self) -> (r: bool) {
        self.base.is_selected()
    }

    fn set_selected(&mut self, selected: bool) {
        self.base.set_selected(selected)
    }

    fn is_visible(&self) -> (r: bool) {
        self.base.is_visible()
    }

    fn set_visible(&mut self, visible: bool) {
        self.base.set_visible(visible)
    }

    fn show(&mut self) {
        self.base.show()
    }

    fn conceal(&mut self) {
        self.base.conceal()
    }

    fn into_item(self) -> (r: PropertyItem) {
        PropertyItem::Dummy(self)
    }
}

} // verus!
