//! What a panel shows of a sheet: which presentation a property gets, the
//! labels of its widgets, and how far the panel scrolls to show the
//! selection. Drawing itself is left to the panel.

use vstd::prelude::*;
use crate::file_list::FileList;
use crate::kinds::{ValueType, WidgetType};
use crate::number::{PropertyI32, PropertyNumber};
use crate::property::Property;
use crate::sheet::PropertySheet;
use crate::text::texts;
use crate::view::{Payload, PropertyView};

verus! {

/// The ways in which a property is presented.
#[derive(Clone, Copy, Debug, PartialEq, Eq, Structural)]
pub enum Presentation {
    /// Nothing is drawn.
    Nothing,
    /// A push button with its label.
    Button,
    /// The chosen option of a 32-bit choice.
    SelectI32,
    /// A horizontal line, half a row high.
    Separator,
    /// A slider over a 32-bit floating-point range.
    SliderF32,
    /// A slider over a 32-bit integer range.
    SliderI32,
    /// The value of a 32-bit floating-point property as text.
    SpinBoxF32,
    /// The value of a 32-bit integer property as text.
    SpinBoxI32,
    /// A switch with its label.
    Switch,
}

/// The presentation for a widget type and a value type. Check boxes, combo
/// boxes and text boxes get none, nor selects, sliders and spin boxes of
/// other than the 32-bit types.
pub open spec fn presentation_of(widget: WidgetType, value: ValueType) -> Presentation {
    match widget {
        WidgetType::Button => Presentation::Button,
        WidgetType::Select => match value {
            ValueType::I32 => Presentation::SelectI32,
            _ => Presentation::Nothing,
        },
        WidgetType::Separator => Presentation::Separator,
        WidgetType::Slider => match value {
            ValueType::F32 => Presentation::SliderF32,
            ValueType::I32 => Presentation::SliderI32,
            _ => Presentation::Nothing,
        },
        WidgetType::SpinBox => match value {
            ValueType::F32 => Presentation::SpinBoxF32,
            ValueType::I32 => Presentation::SpinBoxI32,
            _ => Presentation::Nothing,
        },
        WidgetType::Switch => Presentation::Switch,
        _ => Presentation::Nothing,
    }
}

/// The presentation of `p`.
pub fn presentation<P: Property>(p: &P) -> (r: Presentation)
    ensures
        r == presentation_of(p@.base.widget_type, p@.base.value_type),
{
    match p.widget_type() {
        WidgetType::Button => Presentation::Button,
        WidgetType::Select => match p.value_type() {
            ValueType::I32 => Presentation::SelectI32,
            _ => Presentation::Nothing,
        },
        WidgetType::Separator => Presentation::Separator,
        WidgetType::Slider => match p.value_type() {
            ValueType::F32 => Presentation::SliderF32,
            ValueType::I32 => Presentation::SliderI32,
            _ => Presentation::Nothing,
        },
        WidgetType::SpinBox => match p.value_type() {
            ValueType::F32 => Presentation::SpinBoxF32,
            ValueType::I32 => Presentation::SpinBoxI32,
            _ => Presentation::Nothing,
        },
        WidgetType::Switch => Presentation::Switch,
        _ => Presentation::Nothing,
    }
}

/// The label of a switch: the second option when it is on and the first
/// when it is off, or "ON" and "OFF" where the options do not say.
pub open spec fn switch_label_of(options: Seq<Seq<char>>, on: bool) -> Seq<char> {
    if on {
        if options.len() > 1 {
            options[1]
        } else {
            "ON"@
        }
    } else {
        if options.len() > 0 {
            options[0]
        } else {
            "OFF"@
        }
    }
}

/// The label of a switch with the labels `options` that is on or off.
pub fn switch_label(options: &[&'static str], on: bool) -> (r: &'static str)
    ensures
        r@ == switch_label_of(texts(options@), on),
{
    if on {
        if options.len() > 1 {
            options[1]
        } else {
            "ON"
        }
    } else {
        if options.len() > 0 {
            options[0]
        } else {
            "OFF"
        }
    }
}

/// The label of a button: its first option, if it has one.
pub fn button_label(options: &[&'static str]) -> (r: Option<&'static str>)
    ensures
        match r {
            Some(t) => options@.len() > 0 && t@ == texts(options@)[0],
            None => options@.len() == 0,
        },
{
    if options.len() > 0 {
        Some(options[0])
    } else {
        None
    }
}

/// The option that a choice shows: the one at the position that the value
/// names. `None` where the value names no option.
pub fn select_label(p: &PropertyI32) -> (r: Option<&'static str>)
    ensures
        p@.payload matches Payload::Number { value, .. } && (match r {
            Some(t) => 0 <= value < p@.base.options.len() && t@ == p@.base.options[value],
            None => !(0 <= value < p@.base.options.len()),
        }),
{
    let value = p.value();
    let options = p.options();
    if value >= 0 && (value as usize) < options.len() {
        Some(options[value as usize])
    } else {
        None
    }
}

/// The height of the row of `p`: nothing for an invisible entry, `half`
/// for a separator, `row` for any other.
pub open spec fn row_height(p: PropertyView, row: int, half: int) -> int {
    if !p.base.visible {
        0
    } else if p.base.widget_type == WidgetType::Separator {
        half
    } else {
        row
    }
}

/// How far down the lower edge of the first visible selected entry lies:
/// the heights of the rows down to and with that entry, or of all rows
/// where no visible entry is selected.
pub open spec fn rows_down(s: Seq<PropertyView>, row: int, half: int) -> int
    decreases s.len(),
{
    if s.len() == 0 {
        0
    } else if s[0].base.visible && s[0].base.selected {
        row_height(s[0], row, half)
    } else {
        row_height(s[0], row, half) + rows_down(s.drop_first(), row, half)
    }
}

/// The scroll position that brings a row into view whose lower edge lies
/// `down` pixels from the top, in a window `window` pixels high, keeping
/// `margin` pixels below it: as far as the row lies below the window, and
/// zero where it does not. `None` where that is more than a position can
/// be.
pub open spec fn scroll_for(down: int, window: int, margin: int) -> Option<u32> {
    let offset = down - window + margin;
    if offset <= 0 {
        Some(0u32)
    } else if offset <= u32::MAX {
        Some(offset as u32)
    } else {
        None
    }
}

/// The scroll position for a row whose lower edge lies `down` pixels from
/// the top.
fn scroll_position(down: i128, window: i32, margin: i32) -> (r: Option<u32>)
    requires
        -0x1_0000_0000_0000_0000_0000_0000 <= down <= 0x1_0000_0000_0000_0000_0000_0000,
    ensures
        r == scroll_for(down as int, window as int, margin as int),
{
    let offset: i128 = down - window as i128 + margin as i128;
    if offset <= 0 {
        Some(0)
    } else if offset <= u32::MAX as i128 {
        Some(offset as u32)
    } else {
        None
    }
}

/// The rows of a sheet lie as far down as the row of its first entry and,
/// unless that entry is visible and selected, the rows of the rest.
proof fn lemma_rows_down_step(s: Seq<PropertyView>, row: int, half: int)
    requires
        s.len() > 0,
    ensures
        rows_down(s, row, half) == row_height(s[0], row, half) + (if s[0].base.visible
            && s[0].base.selected {
            0
        } else {
            rows_down(s.drop_first(), row, half)
        }),
{
}

/// The scroll position that brings the first visible selected entry of
/// `ps` into view, in a window `window` pixels high with rows of `row`
/// pixels, separators of `half` pixels, and `margin` pixels kept below the
/// entry. `None` where that is more than a position can be.
pub fn scroll_to_selected(ps: &PropertySheet, row: i32, half: i32, window: i32, margin: i32) -> (r:
    Option<u32>)
    ensures
        r == scroll_for(rows_down(ps@, row as int, half as int), window as int, margin as int),
{
    let items = ps.iter();
    let mut y: i128 = 0;
    let mut k: usize = 0;
    let ghost all = ps@;
    assert(all.skip(0) =~= all);
    while k < items.len()
        invariant
            k <= items.len(),
            items@ == ps.entries(),
            all == ps@,
            -0x8000_0000 * k <= y <= 0x8000_0000 * k,
            rows_down(all, row as int, half as int) == y + rows_down(
                all.skip(k as int),
                row as int,
                half as int,
            ),
        decreases items.len() - k,
    {
        let p = &items[k];
        proof {
            lemma_rows_down_step(all.skip(k as int), row as int, half as int);
            assert(all.skip(k as int).drop_first() =~= all.skip(k + 1));
            assert(all.skip(k as int)[0] == p@);
        }
        if p.is_visible() {
            if p.widget_type() == WidgetType::Separator {
                y = y + half as i128;
            } else {
                y = y + row as i128;
            }
            if p.is_selected() {
                return scroll_position(y, window, margin);
            }
        }
        k += 1;
    }
    assert(all.skip(k as int) =~= Seq::<PropertyView>::empty());
    scroll_position(y, window, margin)
}

/// How far down the lower edge of the selected file lies in a list of
/// `len` files with rows of `row` pixels.
pub open spec fn files_down(selected: nat, len: nat, row: int) -> int {
    if len == 0 {
        0
    } else {
        (selected + 1) * row
    }
}

/// The scroll position that brings the selected file of `fl` into view, in
/// a window `window` pixels high with rows of `row` pixels and `margin`
/// pixels kept below the file. `None` where that is more than a position
/// can be.
pub fn scroll_to_selected_file(
    fl: &FileList,
    row: i32,
    window: i32,
    margin: i32,
) -> (r: Option<u32>)
    ensures
        r == scroll_for(
            files_down(fl@.selected, fl@.files.len(), row as int),
            window as int,
            margin as int,
        ),
{
    if fl.is_empty() {
        scroll_position(0, window, margin)
    } else {
        let rows: i128 = fl.selected() as i128 + 1;
        assert(-0x8000_0000 * rows <= rows * row <= 0x8000_0000 * rows) by (nonlinear_arith)
            requires
                -0x8000_0000 <= row < 0x8000_0000,
                rows > 0,
        ;
        let down: i128 = rows * row as i128;
        scroll_position(down, window, margin)
    }
}

} // verus!
