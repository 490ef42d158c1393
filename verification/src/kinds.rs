//! The two closed vocabularies of the registry: what a property's value is,
//! and which widget draws it.

use vstd::prelude::*;

verus! {

/// The type of a property's value.
#[derive(Copy, Clone, Debug, PartialEq, Eq, Structural)]
pub enum ValueType {
    Unknown,
    Action,
    Bool,
    Dummy,
    F32,
    F64,
    I32,
    I64,
    String,
}

impl Default for ValueType {
    fn default() -> (r: Self)
        ensures
            r == ValueType::Unknown,
    {
        ValueType::Unknown
    }
}

/// The kind of widget that renders a property.
#[derive(Copy, Clone, Debug, PartialEq, Eq, Structural)]
pub enum WidgetType {
    Unknown,
    Button,
    CheckBox,
    ComboBox,
    Select,
    Separator,
    Slider,
    SpinBox,
    Switch,
    TextBox,
}

impl Default for WidgetType {
    fn default() -> (r: Self)
        ensures
            r == WidgetType::Unknown,
    {
        WidgetType::Unknown
    }
}

/// The widget of an action: a check box, or else a push button.
pub open spec fn action_widget(w: WidgetType) -> WidgetType {
    if w == WidgetType::CheckBox {
        WidgetType::CheckBox
    } else {
        WidgetType::Button
    }
}

/// The widget of a number: a combo box, a select, a slider, or else a spin
/// box.
pub open spec fn number_widget(w: WidgetType) -> WidgetType {
    if w == WidgetType::ComboBox || w == WidgetType::Select || w == WidgetType::Slider {
        w
    } else {
        WidgetType::SpinBox
    }
}

/// The widget of an action that was made with the widget `w`.
pub fn as_action_widget(w: WidgetType) -> (r: WidgetType)
    ensures
        r == action_widget(w),
{
    match w {
        WidgetType::CheckBox => WidgetType::CheckBox,
        _ => WidgetType::Button,
    }
}

/// The widget of a number that was made with the widget `w`.
pub fn as_number_widget(w: WidgetType) -> (r: WidgetType)
    ensures
        r == number_widget(w),
{
    match w {
        WidgetType::ComboBox => WidgetType::ComboBox,
        WidgetType::Select => WidgetType::Select,
        WidgetType::Slider => WidgetType::Slider,
        _ => WidgetType::SpinBox,
    }
}

/// Whether keyboard navigation may rest on a property drawn by `w`: every
/// widget but the separator.
pub open spec fn widget_is_selectable(w: WidgetType) -> bool {
    w != WidgetType::Separator
}

} // verus!
