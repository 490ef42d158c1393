//! Numeric properties: a value with a range and a step. Setting a value
//! clamps it between the two bounds of the range, whichever of them is the
//! smaller; a step moves the value by the step width and clamps the result.

use vstd::prelude::*;
use crate::base::{fresh_base, BaseView, PropertyBase};
use crate::ieee::{clamp_32, clamp_64, clamp_bits, INFINITY_32, INFINITY_64, SIGN_32, SIGN_64};
use crate::kinds::{as_number_widget, number_widget, ValueType, WidgetType};
use crate::property::{Property, PropertyItem};
use crate::scalar::{clamp_i32, clamp_i64, clamp_int, step_i32, step_i64};
use crate::text::texts;
use crate::view::{Payload, PropertyView};

verus! {

/// The view of a fresh numeric property: `def_val` is stored as the value
/// as it is, clamped or not.
pub open spec fn fresh_number(
    base: BaseView,
    lo: int,
    hi: int,
    step: int,
    def_val: int,
) -> PropertyView {
    PropertyView { base, payload: Payload::Number { lo, hi, step, def_val, value: def_val } }
}

/// The value of a number property after a step of the step width, forward
/// or backward, clamped between the two bounds of the range. Any other
/// payload has value 0.
pub open spec fn stepped(payload: Payload, forward: bool) -> int {
    match payload {
        Payload::Number { lo, hi, step, value, .. } => clamp_int(
            if forward {
                value + step
            } else {
                value - step
            },
            lo,
            hi,
        ),
        _ => 0,
    }
}

/// The value that an integer property stores when asked to hold `value`:
/// the median of `value` and the two bounds of the range.
pub open spec fn admitted(payload: Payload, value: int) -> int {
    match payload {
        Payload::Number { lo, hi, .. } => clamp_int(value, lo, hi),
        _ => 0,
    }
}

/// The bit pattern that a floating-point property stores when asked to
/// hold `value`, in the format given by `sign` and `infinity`.
pub open spec fn admitted_bits(payload: Payload, value: int, sign: int, infinity: int) -> int {
    match payload {
        Payload::Number { lo, hi, .. } => clamp_bits(value, lo, hi, sign, infinity),
        _ => 0,
    }
}

/// A property whose value is a number of type `T`.
pub trait PropertyNumber<T>: Property {
    /// The number as a mathematical integer.
    spec fn number(v: T) -> int;

    /// The two bounds of the range.
    fn range(&self) -> (r: (T, T))
        ensures
            self@.payload matches Payload::Number { lo, hi, .. } && Self::number(r.0) == lo
                && Self::number(r.1) == hi,
    ;

    /// The step width.
    fn step(&self) -> (r: T)
        ensures
            self@.payload matches Payload::Number { step, .. } && Self::number(r) == step,
    ;

    /// Adds the step width to the value, clamps the sum between the two
    /// bounds of the range, stores and returns it.
    fn step_forward(&mut self) -> (r: T)
        ensures
            Self::number(r) == stepped(old(self)@.payload, true),
            final(self)@ == old(self)@.with_number(Self::number(r)),
    ;

    /// Subtracts the step width from the value, clamps the difference
    /// between the two bounds of the range, stores and returns it.
    fn step_backward(&mut self) -> (r: T)
        ensures
            Self::number(r) == stepped(old(self)@.payload, false),
            final(self)@ == old(self)@.with_number(Self::number(r)),
    ;

    /// The value given at construction.
    fn def_val(&self) -> (r: T)
        ensures
            self@.payload matches Payload::Number { def_val, .. } && Self::number(r) == def_val,
    ;

    /// The current value.
    fn value(&self) -> (r: T)
        ensures
            self@.payload matches Payload::Number { value, .. } && Self::number(r) == value,
    ;

    /// The current value, to be written in place: whatever is written is
    /// stored as it is.
    fn value_mut(&mut self) -> (r: &mut T)
        ensures
            old(self)@.payload matches Payload::Number { value, .. } && Self::number(*r) == value,
            final(self)@ == old(self)@.with_number(Self::number(*final(r))),
    ;

    /// Clamps `value` between the two bounds of the range, whichever is
    /// the smaller, stores and returns it.
    fn set_value(&mut self, value: T) -> (r: T)
        ensures
            Self::number(r) == admitted(old(self)@.payload, Self::number(value)),
            final(self)@ == old(self)@.with_number(Self::number(r)),
    ;
}

/// A 32-bit floating-point property. Its numbers are held and handed
/// over as IEEE-754 bit patterns; they are compared in the order of the
/// numbers they stand for.
#[derive(Debug)]
pub struct PropertyF32 {
    base: PropertyBase,
    range: (u32, u32),
    step: u32,
    def_val: u32,
    value: u32,
}

impl View for PropertyF32 {
    type V = PropertyView;

    closed spec fn view(&self) -> PropertyView {
        PropertyView {
            base: BaseView {
                value_type: ValueType::F32,
                widget_type: number_widget(self.base@.widget_type),
                ..self.base@
            },
            payload: Payload::Number {
                lo: self.range.0 as int,
                hi: self.range.1 as int,
                step: self.step as int,
                def_val: self.def_val as int,
                value: self.value as int,
            },
        }
    }
}

impl PropertyF32 {
    /// A slider over `range`. `def_val` is stored as it is.
    pub fn with_slider(name: &'static str, range: (u32, u32), step: u32, def_val: u32) -> (r: Self)
        ensures
            r@ == fresh_number(
                fresh_base(name@, Seq::<Seq<char>>::empty(), ValueType::F32, WidgetType::Slider),
                range.0 as int,
                range.1 as int,
                step as int,
                def_val as int,
            ),
    {
        PropertyF32 {
            base: PropertyBase::with_slider_f32(name),
            range,
            step,
            def_val,
            value: def_val,
        }
    }

    /// A spin box over `range`. `def_val` is stored as it is.
    pub fn with_spin_box(
        name: &'static str,
        range: (u32, u32),
        step: u32,
        def_val: u32,
    ) -> (r: Self)
        ensures
            r@ == fresh_number(
                fresh_base(name@, Seq::<Seq<char>>::empty(), ValueType::F32, WidgetType::SpinBox),
                range.0 as int,
                range.1 as int,
                step as int,
                def_val as int,
            ),
    {
        PropertyF32 {
            base: PropertyBase::with_spin_box_f32(name),
            range,
            step,
            def_val,
            value: def_val,
        }
    }

    /// The two bounds of the range.
    pub fn range(&self) -> (r: (u32, u32))
        ensures
            self@.payload matches Payload::Number { lo, hi, .. } && r.0 == lo && r.1 == hi,
    {
        self.range
    }

    /// The step width.
    pub fn step(&self) -> (r: u32)
        ensures
            self@.payload matches Payload::Number { step, .. } && r == step,
    {
        self.step
    }

    /// The value given at construction.
    pub fn def_val(&self) -> (r: u32)
        ensures
            self@.payload matches Payload::Number { def_val, .. } && r == def_val,
    {
        self.def_val
    }

    /// The current value.
    pub fn value(&self) -> (r: u32)
        ensures
            self@.payload matches Payload::Number { value, .. } && r == value,
    {
        self.value
    }

    /// The current value, to be written in place: whatever is written is
    /// stored as it is.
    pub fn value_mut(&mut self) -> (r: &mut u32)
        ensures
            old(self)@.payload matches Payload::Number { value, .. } && *r == value,
            final(self)@ == old(self)@.with_number(*final(r) as int),
    {
        &mut self.value
    }

    /// Clamps `value` between the two bounds of the range, whichever is
    /// the smaller, stores and returns it. A step is made
    /// by handing over the sum or difference of value and step width.
    pub fn set_value(&mut self, value: u32) -> (r: u32)
        ensures
            r == admitted_bits(
                old(self)@.payload,
                value as int,
                SIGN_32 as int,
                INFINITY_32 as int,
            ),
            final(self)@ == old(self)@.with_number(r as int),
    {
        let clamped = clamp_32(value, self.range);
        self.value = clamped;
        clamped
    }
}

impl PropertyF32 {
    /// The view carries the value type of the kind and a payload of its
    /// shape.
    pub proof fn lemma_shape(&self)
        ensures
            self@.base.value_type == ValueType::F32,
            self@.payload is Number,
            self@.well_formed(),
    {
    }
}

impl Property for PropertyF32 {
    fn id(&self) -> (r: usize) {
        self.base.id()
    }

    fn set_id(&mut self, id: usize) {
        self.base.set_id(id)
    }

    fn name(&self) -> (r: &'static str) {
        self.base.name()
    }

    fn options(&self) -> (r: &[&'static str]) {
        self.base.options()
    }

    fn value_type(&self) -> (r: ValueType)
        ensures
            r == ValueType::F32,
    {
        ValueType::F32
    }

    fn widget_type(&self) -> (r: WidgetType)
    {
        as_number_widget(self.base.widget_type())
    }

    fn is_selectable(&self) -> (r: bool)
        ensures
            r == true,
    {
        true
    }

    fn is_selected(&self) -> (r: bool) {
        self.base.is_selected()
    }

    fn set_selected(&mut self, selected: bool) {
        self.base.set_selected(selected)
    }

    fn is_visible(&self) -> (r: bool) {
        self.base.is_visible()
    }

    fn set_visible(&mut self, visible: bool) {
        self.base.set_visible(visible)
    }

    fn show(&mut self) {
        self.base.show()
    }

    fn conceal(&mut self) {
        self.base.conceal()
    }

    fn into_item(self) -> (r: PropertyItem) {
        PropertyItem::F32(self)
    }
}

/// A 64-bit floating-point property. Its numbers are held and handed
/// over as IEEE-754 bit patterns; they are compared in the order of the
/// numbers they stand for.
#[derive(Debug)]
pub struct PropertyF64 {
    base: PropertyBase,
    range: (u64, u64),
    step: u64,
    def_val: u64,
    value: u64,
}

impl View for PropertyF64 {
    type V = PropertyView;

    closed spec fn view(&self) -> PropertyView {
        PropertyView {
            base: BaseView {
                value_type: ValueType::F64,
                widget_type: number_widget(self.base@.widget_type),
                ..self.base@
            },
            payload: Payload::Number {
                lo: self.range.0 as int,
                hi: self.range.1 as int,
                step: self.step as int,
                def_val: self.def_val as int,
                value: self.value as int,
            },
        }
    }
}

impl PropertyF64 {
    /// A slider over `range`. `def_val` is stored as it is.
    pub fn with_slider(name: &'static str, range: (u64, u64), step: u64, def_val: u64) -> (r: Self)
        ensures
            r@ == fresh_number(
                fresh_base(name@, Seq::<Seq<char>>::empty(), ValueType::F64, WidgetType::Slider),
                range.0 as int,
                range.1 as int,
                step as int,
                def_val as int,
            ),
    {
        PropertyF64 {
            base: PropertyBase::with_slider_f64(name),
            range,
            step,
            def_val,
            value: def_val,
        }
    }

    /// A spin box over `range`. `def_val` is stored as it is.
    pub fn with_spin_box(
        name: &'static str,
        range: (u64, u64),
        step: u64,
        def_val: u64,
    ) -> (r: Self)
        ensures
            r@ == fresh_number(
                fresh_base(name@, Seq::<Seq<char>>::empty(), ValueType::F64, WidgetType::SpinBox),
                range.0 as int,
                range.1 as int,
                step as int,
                def_val as int,
            ),
    {
        PropertyF64 {
            base: PropertyBase::with_spin_box_f64(name),
            range,
            step,
            def_val,
            value: def_val,
        }
    }

    /// The two bounds of the range.
    pub fn range(&self) -> (r: (u64, u64))
        ensures
            self@.payload matches Payload::Number { lo, hi, .. } && r.0 == lo && r.1 == hi,
    {
        self.range
    }

    /// The step width.
    pub fn step(&self) -> (r: u64)
        ensures
            self@.payload matches Payload::Number { step, .. } && r == step,
    {
        self.step
    }

    /// The value given at construction.
    pub fn def_val(&self) -> (r: u64)
        ensures
            self@.payload matches Payload::Number { def_val, .. } && r == def_val,
    {
        self.def_val
    }

    /// The current value.
    pub fn value(&self) -> (r: u64)
        ensures
            self@.payload matches Payload::Number { value, .. } && r == value,
    {
        self.value
    }

    /// The current value, to be written in place: whatever is written is
    /// stored as it is.
    pub fn value_mut(&mut self) -> (r: &mut u64)
        ensures
            old(self)@.payload matches Payload::Number { value, .. } && *r == value,
            final(self)@ == old(self)@.with_number(*final(r) as int),
    {
        &mut self.value
    }

    /// Clamps `value` between the two bounds of the range, whichever is
    /// the smaller, stores and returns it. A step is made
    /// by handing over the sum or difference of value and step width.
    pub fn set_value(&mut self, value: u64) -> (r: u64)
        ensures
            r == admitted_bits(
                old(self)@.payload,
                value as int,
                SIGN_64 as int,
                INFINITY_64 as int,
            ),
            final(self)@ == old(self)@.with_number(r as int),
    {
        let clamped = clamp_64(value, self.range);
        self.value = clamped;
        clamped
    }
}

impl PropertyF64 {
    /// The view carries the value type of the kind and a payload of its
    /// shape.
    pub proof fn lemma_shape(&self)
        ensures
            self@.base.value_type == ValueType::F64,
            self@.payload is Number,
            self@.well_formed(),
    {
    }
}

impl Property for PropertyF64 {
    fn id(&self) -> (r: usize) {
        self.base.id()
    }

    fn set_id(&mut self, id: usize) {
        self.base.set_id(id)
    }

    fn name(&self) -> (r: &'static str) {
        self.base.name()
    }

    fn options(&self) -> (r: &[&'static str]) {
        self.base.options()
    }

    fn value_type(&self) -> (r: ValueType)
        ensures
            r == ValueType::F64,
    {
        ValueType::F64
    }

    fn widget_type(&self) -> (r: WidgetType)
    {
        as_number_widget(self.base.widget_type())
    }

    fn is_selectable(&self) -> (r: bool)
        ensures
            r == true,
    {
        true
    }

    fn is_selected(&self) -> (r: bool) {
        self.base.is_selected()
    }

    fn set_selected(&mut self, selected: bool) {
        self.base.set_selected(selected)
    }

    fn is_visible(&self) -> (r: bool) {
        self.base.is_visible()
    }

    fn set_visible(&mut self, visible: bool) {
        self.base.set_visible(visible)
    }

    fn show(&mut self) {
        self.base.show()
    }

    fn conceal(&mut self) {
        self.base.conceal()
    }

    fn into_item(self) -> (r: PropertyItem) {
        PropertyItem::F64(self)
    }
}

/// A 32-bit integer property.
#[derive(Debug)]
pub struct PropertyI32 {
    base: PropertyBase,
    range: (i32, i32),
    step: i32,
    def_val: i32,
    value: i32,
}

impl View for PropertyI32 {
    type V = PropertyView;

    closed spec fn view(&self) -> PropertyView {
        PropertyView {
            base: BaseView {
                value_type: ValueType::I32,
                widget_type: number_widget(self.base@.widget_type),
                ..self.base@
            },
            payload: Payload::Number {
                lo: self.range.0 as int,
                hi: self.range.1 as int,
                step: self.step as int,
                def_val: self.def_val as int,
                value: self.value as int,
            },
        }
    }
}

impl PropertyI32 {
    /// A choice among `options`, drawn as a combo box: the range runs over
    /// the positions of the options and the step is one. `def_val` is
    /// stored as it is.
    pub fn with_combo_box(name: &'static str, options: &[&'static str], def_val: i32) -> (r: Self)
        requires
            0 < options@.len() <= 0x8000_0000,
        ensures
            r@ == fresh_number(
                fresh_base(name@, texts(options@), ValueType::I32, WidgetType::ComboBox),
                0,
                options@.len() - 1,
                1,
                def_val as int,
            ),
    {
        let last: i32 = (options.len() - 1) as i32;
        PropertyI32 {
            base: PropertyBase::with_combo_box_i32(name, options),
            range: (0, last),
            step: 1,
            def_val,
            value: def_val,
        }
    }

    /// A choice among `options`, drawn as a select: the range runs over the
    /// positions of the options and the step is one. `def_val` is stored as
    /// it is.
    pub fn with_select(name: &'static str, options: &[&'static str], def_val: i32) -> (r: Self)
        requires
            0 < options@.len() <= 0x8000_0000,
        ensures
            r@ == fresh_number(
                fresh_base(name@, texts(options@), ValueType::I32, WidgetType::Select),
                0,
                options@.len() - 1,
                1,
                def_val as int,
            ),
    {
        let last: i32 = (options.len() - 1) as i32;
        PropertyI32 {
            base: PropertyBase::with_select_i32(name, options),
            range: (0, last),
            step: 1,
            def_val,
            value: def_val,
        }
    }

    /// A slider over `range`. `def_val` is stored as it is.
    pub fn with_slider(name: &'static str, range: (i32, i32), step: i32, def_val: i32) -> (r: Self)
        ensures
            r@ == fresh_number(
                fresh_base(name@, Seq::<Seq<char>>::empty(), ValueType::I32, WidgetType::Slider),
                range.0 as int,
                range.1 as int,
                step as int,
                def_val as int,
            ),
    {
        PropertyI32 {
            base: PropertyBase::with_slider_i32(name),
            range,
            step,
            def_val,
            value: def_val,
        }
    }

    /// A spin box over `range`. `def_val` is stored as it is.
    pub fn with_spin_box(
        name: &'static str,
        range: (i32, i32),
        step: i32,
        def_val: i32,
    ) -> (r: Self)
        ensures
            r@ == fresh_number(
                fresh_base(name@, Seq::<Seq<char>>::empty(), ValueType::I32, WidgetType::SpinBox),
                range.0 as int,
                range.1 as int,
                step as int,
                def_val as int,
            ),
    {
        PropertyI32 {
            base: PropertyBase::with_spin_box_i32(name),
            range,
            step,
            def_val,
            value: def_val,
        }
    }
}

impl PropertyNumber<i32> for PropertyI32 {
    open spec fn number(v: i32) -> int {
        v as int
    }

    fn range(&self) -> (r: (i32, i32)) {
        self.range
    }

    fn step(&self) -> (r: i32) {
        self.step
    }

    fn step_forward(&mut self) -> (r: i32) {
        let next = step_i32(self.value, self.step, true, self.range);
        self.value = next;
        next
    }

    fn step_backward(&mut self) -> (r: i32) {
        let next = step_i32(self.value, self.step, false, self.range);
        self.value = next;
        next
    }

    fn def_val(&self) -> (r: i32) {
        self.def_val
    }

    fn value(&self) -> (r: i32) {
        self.value
    }

    fn value_mut(&mut self) -> (r: &mut i32) {
        &mut self.value
    }

    fn set_value(&mut self, value: i32) -> (r: i32) {
        let clamped = clamp_i32(value, self.range);
        self.value = clamped;
        clamped
    }
}

impl PropertyI32 {
    /// The view carries the value type of the kind and a payload of its
    /// shape.
    pub proof fn lemma_shape(&self)
        ensures
            self@.base.value_type == ValueType::I32,
            self@.payload is Number,
            self@.well_formed(),
    {
    }
}

impl Property for PropertyI32 {
    fn id(&self) -> (r: usize) {
        self.base.id()
    }

    fn set_id(&mut self, id: usize) {
        self.base.set_id(id)
    }

    fn name(&self) -> (r: &'static str) {
        self.base.name()
    }

    fn options(&self) -> (r: &[&'static str]) {
        self.base.options()
    }

    fn value_type(&self) -> (r: ValueType)
        ensures
            r == ValueType::I32,
    {
        ValueType::I32
    }

    fn widget_type(&self) -> (r: WidgetType)
    {
        as_number_widget(self.base.widget_type())
    }

    fn is_selectable(&self) -> (r: bool)
        ensures
            r == true,
    {
        true
    }

    fn is_selected(&self) -> (r: bool) {
        self.base.is_selected()
    }

    fn set_selected(&mut self, selected: bool) {
        self.base.set_selected(selected)
    }

    fn is_visible(&self) -> (r: bool) {
        self.base.is_visible()
    }

    fn set_visible(&mut self, visible: bool) {
        self.base.set_visible(visible)
    }

    fn show(&mut self) {
        self.base.show()
    }

    fn conceal(&mut self) {
        self.base.conceal()
    }

    fn into_item(self) -> (r: PropertyItem) {
        PropertyItem::I32(self)
    }
}

/// A 64-bit integer property.
#[derive(Debug)]
pub struct PropertyI64 {
    base: PropertyBase,
    range: (i64, i64),
    step: i64,
    def_val: i64,
    value: i64,
}

impl View for PropertyI64 {
    type V = PropertyView;

    closed spec fn view(&self) -> PropertyView {
        PropertyView {
            base: BaseView {
                value_type: ValueType::I64,
                widget_type: number_widget(self.base@.widget_type),
                ..self.base@
            },
            payload: Payload::Number {
                lo: self.range.0 as int,
                hi: self.range.1 as int,
                step: self.step as int,
                def_val: self.def_val as int,
                value: self.value as int,
            },
        }
    }
}

impl PropertyI64 {
    /// A choice among `options`, drawn as a combo box: the range runs over
    /// the positions of the options and the step is one. `def_val` is
    /// stored as it is.
    pub fn with_combo_box(name: &'static str, options: &[&'static str], def_val: i64) -> (r: Self)
        requires
            0 < options@.len() <= 0x8000_0000_0000_0000,
        ensures
            r@ == fresh_number(
                fresh_base(name@, texts(options@), ValueType::I64, WidgetType::ComboBox),
                0,
                options@.len() - 1,
                1,
                def_val as int,
            ),
    {
        let last: i64 = (options.len() - 1) as i64;
        PropertyI64 {
            base: PropertyBase::with_combo_box_i64(name, options),
            range: (0, last),
            step: 1,
            def_val,
            value: def_val,
        }
    }

    /// A choice among `options`, drawn as a select: the range runs over the
    /// positions of the options and the step is one. `def_val` is stored as
    /// it is.
    pub fn with_select(name: &'static str, options: &[&'static str], def_val: i64) -> (r: Self)
        requires
            0 < options@.len() <= 0x8000_0000_0000_0000,
        ensures
            r@ == fresh_number(
                fresh_base(name@, texts(options@), ValueType::I64, WidgetType::Select),
                0,
                options@.len() - 1,
                1,
                def_val as int,
            ),
    {
        let last: i64 = (options.len() - 1) as i64;
        PropertyI64 {
            base: PropertyBase::with_select_i64(name, options),
            range: (0, last),
            step: 1,
            def_val,
            value: def_val,
        }
    }

    /// A slider over `range`. `def_val` is stored as it is.
    pub fn with_slider(name: &'static str, range: (i64, i64), step: i64, def_val: i64) -> (r: Self)
        ensures
            r@ == fresh_number(
                fresh_base(name@, Seq::<Seq<char>>::empty(), ValueType::I64, WidgetType::Slider),
                range.0 as int,
                range.1 as int,
                step as int,
                def_val as int,
            ),
    {
        PropertyI64 {
            base: PropertyBase::with_slider_i64(name),
            range,
            step,
            def_val,
            value: def_val,
        }
    }

    /// A spin box over `range`. `def_val` is stored as it is.
    pub fn with_spin_box(
        name: &'static str,
        range: (i64, i64),
        step: i64,
        def_val: i64,
    ) -> (r: Self)
        ensures
            r@ == fresh_number(
                fresh_base(name@, Seq::<Seq<char>>::empty(), ValueType::I64, WidgetType::SpinBox),
                range.0 as int,
                range.1 as int,
                step as int,
                def_val as int,
            ),
    {
        PropertyI64 {
            base: PropertyBase::with_spin_box_i64(name),
            range,
            step,
            def_val,
            value: def_val,
        }
    }
}

impl PropertyNumber<i64> for PropertyI64 {
    open spec fn number(v: i64) -> int {
        v as int
    }

    fn range(&self) -> (r: (i64, i64)) {
        self.range
    }

    fn step(&self) -> (r: i64) {
        self.step
    }

    fn step_forward(&mut self) -> (r: i64) {
        let next = step_i64(self.value, self.step, true, self.range);
        self.value = next;
        next
    }

    fn step_backward(&mut self) -> (r: i64) {
        let next = step_i64(self.value, self.step, false, self.range);
        self.value = next;
        next
    }

    fn def_val(&self) -> (r: i64) {
        self.def_val
    }

    fn value(&self) -> (r: i64) {
        self.value
    }

    fn value_mut(&mut self) -> (r: &mut i64) {
        &mut self.value
    }

    fn set_value(&mut self, value: i64) -> (r: i64) {
        let clamped = clamp_i64(value, self.range);
        self.value = clamped;
        clamped
    }
}

impl PropertyI64 {
    /// The view carries the value type of the kind and a payload of its
    /// shape.
    pub proof fn lemma_shape(&self)
        ensures
            self@.base.value_type == ValueType::I64,
            self@.payload is Number,
            self@.well_formed(),
    {
    }
}

impl Property for PropertyI64 {
    fn id(&self) -> (r: usize) {
        self.base.id()
    }

    fn set_id(&mut self, id: usize) {
        self.base.set_id(id)
    }

    fn name(&self) -> (r: &'static str) {
        self.base.name()
    }

    fn options(&self) -> (r: &[&'static str]) {
        self.base.options()
    }

    fn value_type(&self) -> (r: ValueType)
        ensures
            r == ValueType::I64,
    {
        ValueType::I64
    }

    fn widget_type(&self) -> (r: WidgetType)
    {
        as_number_widget(self.base.widget_type())
    }

    fn is_selectable(&self) -> (r: bool)
        ensures
            r == true,
    {
        true
    }

    fn is_selected(&self) -> (r: bool) {
        self.base.is_selected()
    }

    fn set_selected(&mut self, selected: bool) {
        self.base.set_selected(selected)
    }

    fn is_visible(&self) -> (r: bool) {
        self.base.is_visible()
    }

    fn set_visible(&mut self, visible: bool) {
        self.base.set_visible(visible)
    }

    fn show(&mut self) {
        self.base.show()
    }

    fn conceal(&mut self) {
        self.base.conceal()
    }

    fn into_item(self) -> (r: PropertyItem) {
        PropertyItem::I64(self)
    }
}

} // verus!
