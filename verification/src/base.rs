//! The metadata that every property carries: identity, name, options, the
//! two type tags, and the selection and visibility flags.

use vstd::prelude::*;
use crate::kinds::{ValueType, WidgetType, widget_is_selectable};
use crate::text::{texts, copy_options};

verus! {

/// What a property's metadata says, as plain mathematical values.
#[verifier::ext_equal]
pub struct BaseView {
    pub id: nat,
    pub name: Seq<char>,
    pub options: Seq<Seq<char>>,
    pub value_type: ValueType,
    pub widget_type: WidgetType,
    pub selected: bool,
    pub visible: bool,
}

impl BaseView {
    /// The same metadata under another id.
    pub open spec fn with_id(self, id: nat) -> BaseView {
        BaseView { id, ..self }
    }

    /// The same metadata with the selection flag set to `selected`.
    pub open spec fn with_selected(self, selected: bool) -> BaseView {
        BaseView { selected, ..self }
    }

    /// The same metadata with the visibility flag set to `visible`.
    pub open spec fn with_visible(self, visible: bool) -> BaseView {
        BaseView { visible, ..self }
    }

    /// Keyboard navigation may rest on this property.
    pub open spec fn selectable(self) -> bool {
        widget_is_selectable(self.widget_type)
    }
}

/// Metadata shared by every kind of property.
#[derive(Clone, Debug)]
pub struct PropertyBase {
    id: usize,
    name: &'static str,
    options: Vec<&'static str>,
    value_type: ValueType,
    widget_type: WidgetType,
    selected: bool,
    visible: bool,
}

impl View for PropertyBase {
    type V = BaseView;

    closed spec fn view(&self) -> BaseView {
        BaseView {
            id: self.id as nat,
            name: self.name@,
            options: texts(self.options@),
            value_type: self.value_type,
            widget_type: self.widget_type,
            selected: self.selected,
            visible: self.visible,
        }
    }
}

impl Default for PropertyBase {
    /// Unnamed metadata of unknown type, at position zero, deselected and
    /// hidden.
    fn default() -> (r: Self)
        ensures
            r@ == (BaseView {
                id: 0,
                name: Seq::<char>::empty(),
                options: Seq::<Seq<char>>::empty(),
                value_type: ValueType::Unknown,
                widget_type: WidgetType::Unknown,
                selected: false,
                visible: false,
            }),
    {
        proof {
            reveal_strlit("");
        }
        let r = PropertyBase {
            id: 0,
            name: "",
            options: Vec::new(),
            value_type: ValueType::Unknown,
            widget_type: WidgetType::Unknown,
            selected: false,
            visible: false,
        };
        assert(r@.name =~= Seq::<char>::empty());
        assert(r@.options =~= Seq::<Seq<char>>::empty());
        r
    }
}

/// The metadata of a fresh property: at position zero, deselected, visible.
pub open spec fn fresh_base(
    name: Seq<char>,
    options: Seq<Seq<char>>,
    value_type: ValueType,
    widget_type: WidgetType,
) -> BaseView {
    BaseView { id: 0, name, options, value_type, widget_type, selected: false, visible: true }
}

impl PropertyBase {
    /// Metadata for a property called `name` with the labels `options`.
    pub fn new(
        name: &'static str,
        options: &[&'static str],
        value_type: ValueType,
        widget_type: WidgetType,
    ) -> (r: Self)
        ensures
            r@ == fresh_base(name@, texts(options@), value_type, widget_type),
    {
        PropertyBase {
            id: 0,
            name,
            options: copy_options(options),
            value_type,
            widget_type,
            selected: false,
            visible: true,
        }
    }

    /// Metadata for a property called `name` without labels.
    fn plain(name: &'static str, value_type: ValueType, widget_type: WidgetType) -> (r: Self)
        ensures
            r@ == fresh_base(name@, Seq::<Seq<char>>::empty(), value_type, widget_type),
    {
        let r = PropertyBase {
            id: 0,
            name,
            options: Vec::new(),
            value_type,
            widget_type,
            selected: false,
            visible: true,
        };
        assert(r@.options =~= Seq::<Seq<char>>::empty());
        r
    }

    /// Metadata for an action drawn as a push button.
    pub fn with_action_button(name: &'static str, options: &[&'static str]) -> (r: Self)
        ensures
            r@ == fresh_base(name@, texts(options@), ValueType::Action, WidgetType::Button),
    {
        Self::new(name, options, ValueType::Action, WidgetType::Button)
    }

    /// Metadata for an action drawn as a check box.
    pub fn with_action_check_box(name: &'static str) -> (r: Self)
        ensures
            r@ == fresh_base(
                name@,
                Seq::<Seq<char>>::empty(),
                ValueType::Action,
                WidgetType::CheckBox,
            ),
    {
        Self::plain(name, ValueType::Action, WidgetType::CheckBox)
    }

    /// Metadata for a 32-bit floating-point slider.
    pub fn with_slider_f32(name: &'static str) -> (r: Self)
        ensures
            r@ == fresh_base(name@, Seq::<Seq<char>>::empty(), ValueType::F32, WidgetType::Slider),
    {
        Self::plain(name, ValueType::F32, WidgetType::Slider)
    }

    /// Metadata for a 64-bit floating-point slider.
    pub fn with_slider_f64(name: &'static str) -> (r: Self)
        ensures
            r@ == fresh_base(name@, Seq::<Seq<char>>::empty(), ValueType::F64, WidgetType::Slider),
    {
        Self::plain(name, ValueType::F64, WidgetType::Slider)
    }

    /// Metadata for a 32-bit choice drawn as a combo box.
    pub fn with_combo_box_i32(name: &'static str, options: &[&'static str]) -> (r: Self)
        ensures
            r@ == fresh_base(name@, texts(options@), ValueType::I32, WidgetType::ComboBox),
    {
        Self::new(name, options, ValueType::I32, WidgetType::ComboBox)
    }

    /// Metadata for a 64-bit choice drawn as a combo box.
    pub fn with_combo_box_i64(name: &'static str, options: &[&'static str]) -> (r: Self)
        ensures
            r@ == fresh_base(name@, texts(options@), ValueType::I64, WidgetType::ComboBox),
    {
        Self::new(name, options, ValueType::I64, WidgetType::ComboBox)
    }

    /// Metadata for a 32-bit choice drawn as a select.
    pub fn with_select_i32(name: &'static str, options: &[&'static str]) -> (r: Self)
        ensures
            r@ == fresh_base(name@, texts(options@), ValueType::I32, WidgetType::Select),
    {
        Self::new(name, options, ValueType::I32, WidgetType::Select)
    }

    /// Metadata for a 64-bit choice drawn as a select.
    pub fn with_select_i64(name: &'static str, options: &[&'static str]) -> (r: Self)
        ensures
            r@ == fresh_base(name@, texts(options@), ValueType::I64, WidgetType::Select),
    {
        Self::new(name, options, ValueType::I64, WidgetType::Select)
    }

    /// Metadata for a 32-bit integer slider.
    pub fn with_slider_i32(name: &'static str) -> (r: Self)
        ensures
            r@ == fresh_base(name@, Seq::<Seq<char>>::empty(), ValueType::I32, WidgetType::Slider),
    {
        Self::plain(name, ValueType::I32, WidgetType::Slider)
    }

    /// Metadata for a 64-bit integer slider.
    pub fn with_slider_i64(name: &'static str) -> (r: Self)
        ensures
            r@ == fresh_base(name@, Seq::<Seq<char>>::empty(), ValueType::I64, WidgetType::Slider),
    {
        Self::plain(name, ValueType::I64, WidgetType::Slider)
    }

    /// Metadata for a separator: unnamed, without a value.
    pub fn with_separator() -> (r: Self)
        ensures
            r@ == fresh_base(
                Seq::<char>::empty(),
                Seq::<Seq<char>>::empty(),
                ValueType::Dummy,
                WidgetType::Separator,
            ),
    {
        proof {
            reveal_strlit("");
        }
        let r = Self::plain("", ValueType::Dummy, WidgetType::Separator);
        assert(r@.name =~= Seq::<char>::empty());
        r
    }

    /// Metadata for a 32-bit floating-point spin box.
    pub fn with_spin_box_f32(name: &'static str) -> (r: Self)
        ensures
            r@ == fresh_base(name@, Seq::<Seq<char>>::empty(), ValueType::F32, WidgetType::SpinBox),
    {
        Self::plain(name, ValueType::F32, WidgetType::SpinBox)
    }

    /// Metadata for a 64-bit floating-point spin box.
    pub fn with_spin_box_f64(name: &'static str) -> (r: Self)
        ensures
            r@ == fresh_base(name@, Seq::<Seq<char>>::empty(), ValueType::F64, WidgetType::SpinBox),
    {
        Self::plain(name, ValueType::F64, WidgetType::SpinBox)
    }

    /// Metadata for a 32-bit integer spin box.
    pub fn with_spin_box_i32(name: &'static str) -> (r: Self)
        ensures
            r@ == fresh_base(name@, Seq::<Seq<char>>::empty(), ValueType::I32, WidgetType::SpinBox),
    {
        Self::plain(name, ValueType::I32, WidgetType::SpinBox)
    }

    /// Metadata for a 64-bit integer spin box.
    pub fn with_spin_box_i64(name: &'static str) -> (r: Self)
        ensures
            r@ == fresh_base(name@, Seq::<Seq<char>>::empty(), ValueType::I64, WidgetType::SpinBox),
    {
        Self::plain(name, ValueType::I64, WidgetType::SpinBox)
    }

    /// Metadata for a switch.
    pub fn with_switch(name: &'static str) -> (r: Self)
        ensures
            r@ == fresh_base(name@, Seq::<Seq<char>>::empty(), ValueType::Bool, WidgetType::Switch),
    {
        Self::plain(name, ValueType::Bool, WidgetType::Switch)
    }

    /// Metadata for a text box.
    pub fn with_text_box(name: &'static str) -> (r: Self)
        ensures
            r@ == fresh_base(
                name@,
                Seq::<Seq<char>>::empty(),
                ValueType::String,
                WidgetType::TextBox,
            ),
    {
        Self::plain(name, ValueType::String, WidgetType::TextBox)
    }

    /// The position-derived identity.
    pub fn id(&self) -> (r: usize)
        ensures
            r == self@.id,
    {
        self.id
    }

    /// Replaces the identity and nothing else.
    pub fn set_id(&mut self, id: usize)
        ensures
            final(self)@ == old(self)@.with_id(id as nat),
        no_unwind
    {
        self.id = id;
    }

    /// The name given at construction.
    pub fn name(&self) -> (r: &'static str)
        ensures
            r@ == self@.name,
    {
        self.name
    }

    /// The labels given at construction, in order.
    pub fn options(&self) -> (r: &[&'static str])
        ensures
            texts(r@) == self@.options,
    {
        self.options.as_slice()
    }

    /// The type of the value.
    pub fn value_type(&self) -> (r: ValueType)
        ensures
            r == self@.value_type,
    {
        self.value_type
    }

    /// The widget that renders the property.
    pub fn widget_type(&self) -> (r: WidgetType)
        ensures
            r == self@.widget_type,
    {
        self.widget_type
    }

    /// True unless the property is drawn as a separator.
    pub fn is_selectable(&self) -> (r: bool)
        ensures
            r == self@.selectable(),
    {
        self.widget_type != WidgetType::Separator
    }

    /// The selection flag.
    pub fn is_selected(&self) -> (r: bool)
        ensures
            r == self@.selected,
    {
        self.selected
    }

    /// Replaces the selection flag and nothing else.
    pub fn set_selected(&mut self, selected: bool)
        ensures
            final(self)@ == old(self)@.with_selected(selected),
        no_unwind
    {
        self.selected = selected;
    }

    /// The visibility flag.
    pub fn is_visible(&self) -> (r: bool)
        ensures
            r == self@.visible,
    {
        self.visible
    }

    /// Replaces the visibility flag and nothing else.
    pub fn set_visible(&mut self, visible: bool)
        ensures
            final(self)@ == old(self)@.with_visible(visible),
        no_unwind
    {
        self.visible = visible;
    }

    /// Makes the property visible.
    pub fn show(&mut self)
        ensures
            final(self)@ == old(self)@.with_visible(true),
        no_unwind
    {
        self.visible = true;
    }

    /// Makes the property invisible.
    pub fn conceal(&mut self)
        ensures
            final(self)@ == old(self)@.with_visible(false),
        no_unwind
    {
        self.visible = false;
    }
}

} // verus!
