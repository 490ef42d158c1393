use nuki::action::{ActionCallback, Granting, PropertyAction};
use nuki::base::{BaseView, PropertyBase};
use nuki::input::{KeyInput, PropertySheetInputCtrl};
use nuki::kinds::{ValueType, WidgetType};
use nuki::number::{PropertyF32, PropertyF64, PropertyI32, PropertyI64, PropertyNumber};
use nuki::property::{Property, PropertyItem};
use nuki::separator::PropertyDummy;
use nuki::sheet::PropertySheet;
use nuki::switch::PropertyBool;
use nuki::text_box::PropertyString;
use std::cell::Cell;
use std::rc::Rc;

/// Answers with what was asked for and counts the calls.
struct Counting {
    calls: Rc<Cell<usize>>,
}

impl ActionCallback for Counting {
    fn answer(&self, _property: BaseView, requested: bool) -> bool {
        requested
    }

    fn decide(&mut self, property: &PropertyBase, requested: bool) -> bool {
        assert!(property.name().len() > 0);
        self.calls.set(self.calls.get() + 1);
        requested
    }
}

/// Refuses whatever is asked for.
struct Veto;

impl ActionCallback for Veto {
    fn answer(&self, _property: BaseView, _requested: bool) -> bool {
        false
    }

    fn decide(&mut self, _property: &PropertyBase, _requested: bool) -> bool {
        false
    }
}

fn bits(x: f32) -> u32 {
    x.to_bits()
}

fn bits64(x: f64) -> u64 {
    x.to_bits()
}

fn keys(up: bool, down: bool, left: bool, right: bool) -> KeyInput {
    KeyInput { enter: false, up, down, left, right }
}

#[test]
fn test_property_sheet() {
    let calls = Rc::new(Cell::new(0usize));
    let mut ps = PropertySheet::new();
    ps.action_button("Foo", "Click Me", Box::new(Counting { calls: Rc::clone(&calls) }));
    ps.action_button("Bar", "Click Me", Box::new(Counting { calls: Rc::clone(&calls) }));
    ps.combo_box_i32("ComboBox", &["A", "B", "C"], 0);
    ps.slider_f32("Float1", (bits(-1.0), bits(1.0)), bits(0.01), bits(0.0));
    ps.slider_f32("Float10", (bits(-10.0), bits(10.0)), bits(0.1), bits(0.0));
    ps.slider_f32("Float100", (bits(-100.0), bits(100.0)), bits(1.0), bits(0.0));
    ps.slider_f64("Float1000", (bits64(-1000.0), bits64(1000.0)), bits64(10.0), bits64(0.0));
    ps.switch("Switch", false);
    ps.text_box("TextBox", 128, "Okay");

    for p in ps.iter() {
        assert!(p.name().len() > 0);
        assert!(p.value_type() != ValueType::Unknown);
        assert!(p.widget_type() != WidgetType::Unknown);
        assert!(p.is_visible() == true);
    }
    for p in ps.iter().iter().filter(|x| x.value_type() == ValueType::Bool) {
        assert!(p.name().len() > 0);
        assert!(p.value_type() == ValueType::Bool);
    }
    for p in ps.iter().iter().filter(|x| x.value_type() == ValueType::F32) {
        assert!(p.name().len() > 0);
        assert!(p.value_type() == ValueType::F32);
    }

    if let Some(p) = ps.get_mut(0) {
        let fp = p.as_property_action_mut();
        fp.unwrap().trigger(true);
    }
    if let Some(p) = ps.get_mut(1) {
        let fp = p.as_property_action_mut();
        fp.unwrap().trigger(true);
    }
    if let Some(p) = ps.get_mut(3) {
        let fp = p.as_property_f32_mut().unwrap();
        fp.set_value(bits(0.123456));
        assert_eq!(f32::from_bits(fp.value()), 0.123456);
    }
    if let Some(p) = ps.get_mut(7) {
        let fp = p.as_property_bool_mut().unwrap();
        fp.set_value(true);
        assert_eq!(fp.value(), true);
    }
    if let Some(p) = ps.get_mut(8) {
        let fp = p.as_property_string_mut().unwrap();
        fp.set_value("Failure");
        fp.value_mut().push('!');
        assert_eq!(fp.value(), "Failure!");
    }
    assert_eq!(calls.get(), 2);

    assert_eq!(ps.find("Foo").is_some(), true);
    assert_eq!(ps.find("Bar").is_some(), true);
    assert_eq!(ps.find("Switch").is_some(), true);
    assert_eq!(ps.find("TextBox").is_some(), true);
    assert_eq!(ps.find("UnExists").is_none(), true);

    assert_eq!(ps.find_mut("Foo").is_some(), true);
    assert_eq!(ps.find_mut("Bar").is_some(), true);
    assert_eq!(ps.find_mut("Switch").is_some(), true);
    assert_eq!(ps.find_mut("TextBox").is_some(), true);
    assert_eq!(ps.find_mut("UnExists").is_none(), true);

    assert_eq!(ps.find("Foo").unwrap().is_action_checked(), Some(true));
    assert_eq!(ps.find_mut("Foo").unwrap().trigger_action(false), Some(false));
    assert_eq!(
        ps.find("Float1").unwrap().get_value_f32().map(f32::from_bits),
        Some(0.123456)
    );
    assert_eq!(ps.find("ComboBox").unwrap().get_value_i32(), Some(0));
    assert_eq!(ps.find("TextBox").unwrap().get_value_string().unwrap(), "Failure!");
}

fn selected(ps: &PropertySheet) -> Vec<usize> {
    ps.selected_items()
}

fn four_with_separator() -> PropertySheet {
    let mut ps = PropertySheet::new();
    ps.action_button("Foo", "Click Me", Box::new(Granting));
    ps.action_button("Bar", "Click Me", Box::new(Granting));
    ps.separator();
    ps.slider_f32("F1", (bits(0.0), bits(1.0)), bits(0.1), bits(0.5));
    ps
}

fn four_selectable() -> PropertySheet {
    let mut ps = PropertySheet::new();
    ps.switch("a", false);
    ps.switch("b", false);
    ps.switch("c", false);
    ps.switch("d", false);
    ps
}

#[test]
fn select_next_skips_a_separator() {
    let mut ps = four_with_separator();
    ps.select_items(&[1]);
    assert_eq!(selected(&ps), vec![1]);
    ps.select_next();
    assert_eq!(selected(&ps), vec![3]);
    assert!(ps.get(3).unwrap().is_selected());
    assert!(!ps.get(1).unwrap().is_selected());
    assert!(!ps.get(2).unwrap().is_selected());
}

#[test]
fn select_prev_skips_a_separator() {
    let mut ps = four_with_separator();
    ps.select_items(&[3]);
    ps.select_prev();
    assert_eq!(selected(&ps), vec![1]);
    ps.select_prev();
    assert_eq!(selected(&ps), vec![0]);
    ps.select_prev();
    assert_eq!(selected(&ps), vec![0]);
}

#[test]
fn select_prev_skips_a_separator_next_to_the_front() {
    let mut ps = PropertySheet::new();
    ps.switch("a", false);
    ps.separator();
    ps.switch("b", false);
    ps.select_items(&[2]);
    ps.select_prev();
    assert_eq!(selected(&ps), vec![0]);
}

#[test]
fn select_next_rests_on_a_separator_at_the_end() {
    let mut ps = PropertySheet::new();
    ps.switch("a", false);
    ps.separator();
    ps.select_items(&[0]);
    ps.select_next();
    assert_eq!(selected(&ps), vec![1]);
}

#[test]
fn select_next_passes_only_one_of_two_separators() {
    let mut ps = PropertySheet::new();
    ps.switch("a", false);
    ps.separator();
    ps.separator();
    ps.switch("b", false);
    ps.select_items(&[0]);
    ps.select_next();
    assert_eq!(selected(&ps), vec![2]);
}

#[test]
fn select_next_wraps_only_when_asked() {
    let mut ps = four_selectable();
    ps.select_items(&[3]);
    ps.select_next();
    assert_eq!(selected(&ps), vec![3]);
    ps.select_next_wrapped();
    assert_eq!(selected(&ps), vec![0]);
}

#[test]
fn select_prev_wraps_only_when_asked() {
    let mut ps = four_selectable();
    ps.select_items(&[0]);
    ps.select_prev();
    assert_eq!(selected(&ps), vec![0]);
    ps.select_prev_wrapped();
    assert_eq!(selected(&ps), vec![3]);
}

#[test]
fn navigation_without_selection_starts_at_an_end() {
    let mut ps = four_selectable();
    ps.select_next();
    assert_eq!(selected(&ps), vec![0]);
    ps.select_items(&[]);
    ps.select_next_wrapped();
    assert_eq!(selected(&ps), vec![0]);
    ps.select_items(&[]);
    ps.select_prev();
    assert_eq!(selected(&ps), vec![3]);
    ps.select_items(&[]);
    ps.select_prev_wrapped();
    assert_eq!(selected(&ps), vec![3]);
}

#[test]
fn navigation_on_an_empty_sheet_changes_nothing() {
    let mut ps = PropertySheet::new();
    ps.select_prev();
    ps.select_prev_wrapped();
    ps.select_next();
    ps.select_next_wrapped();
    assert!(ps.is_empty());
    assert_eq!(selected(&ps), Vec::<usize>::new());
    assert!(ps.current_selected().is_none());
}

#[test]
fn navigation_starts_from_the_first_selected_entry() {
    let mut ps = four_selectable();
    ps.select_items(&[2, 0]);
    assert_eq!(selected(&ps), vec![0, 2]);
    assert_eq!(ps.current_selected().unwrap().id(), 0);
    ps.select_next();
    assert_eq!(selected(&ps), vec![1]);
}

#[test]
fn select_items_replaces_the_selection() {
    let mut ps = four_selectable();
    ps.select_items(&[0, 1]);
    ps.select_items(&[3, 9]);
    assert_eq!(selected(&ps), vec![3]);
    assert_eq!(ps.current_selected().unwrap().name(), "d");
}

#[test]
fn combo_box_keeps_its_default_and_clamps_later() {
    let mut p = PropertyI32::with_combo_box("C", &["A", "B", "C"], 5);
    assert_eq!(p.range(), (0, 2));
    assert_eq!(p.step(), 1);
    assert_eq!(p.def_val(), 5);
    assert_eq!(p.value(), 5);
    assert_eq!(p.set_value(5), 2);
    assert_eq!(p.value(), 2);
    assert_eq!(p.widget_type(), WidgetType::ComboBox);
    assert_eq!(p.options().len(), 3);
    assert_eq!(p.options()[2], "C");

    let mut ps = PropertySheet::new();
    ps.combo_box_i32("C", &["A", "B", "C"], 5);
    assert_eq!(ps.get_value_i32_at(0), Some(5));
    assert_eq!(ps.get_mut(0).unwrap().set_value_i32(5), Some(2));
    assert_eq!(ps.get_value_i32_of("C"), Some(2));
}

#[test]
fn select_kinds_run_over_their_options() {
    let p = PropertyI32::with_select("S", &["A", "B"], 0);
    assert_eq!(p.range(), (0, 1));
    assert_eq!(p.widget_type(), WidgetType::Select);
    assert_eq!(p.value_type(), ValueType::I32);
    let q = PropertyI64::with_select("S", &["A", "B", "C", "D"], 1);
    assert_eq!(q.range(), (0, 3));
    assert_eq!(q.step(), 1);
    assert_eq!(q.value_type(), ValueType::I64);
    let r = PropertyI64::with_combo_box("S", &["A"], 0);
    assert_eq!(r.range(), (0, 0));
    assert_eq!(r.widget_type(), WidgetType::ComboBox);
}

#[test]
fn a_vetoing_callback_keeps_the_action_unchecked() {
    let mut a = PropertyAction::with_check_box("A", true, Box::new(Veto));
    assert_eq!(a.is_checked(), true);
    assert_eq!(a.trigger(true), false);
    assert_eq!(a.is_checked(), false);
    assert_eq!(a.trigger(false), false);
    assert_eq!(a.is_checked(), false);
}

#[test]
fn a_granting_callback_gives_what_is_asked() {
    let mut a = PropertyAction::default();
    assert_eq!(a.name(), "UnTitled");
    assert_eq!(a.options(), &["Click Me"]);
    assert_eq!(a.widget_type(), WidgetType::Button);
    assert_eq!(a.is_checked(), false);
    assert_eq!(a.trigger(true), true);
    assert_eq!(a.is_checked(), true);
    assert_eq!(a.trigger(false), false);
    assert_eq!(a.settle(true), true);
    assert_eq!(a.is_checked(), true);
}

#[test]
fn text_box_round_trip() {
    let mut t = PropertyString::with_text_box("T", 128, "Okay");
    assert_eq!(t.value(), "Okay");
    assert_eq!(t.def_val(), "Okay");
    assert_eq!(t.max_length(), 128);
    assert_eq!(t.set_value("Foo"), "Foo");
    t.value_mut().push('!');
    assert_eq!(t.value(), "Foo!");
    assert_eq!(t.def_val(), "Okay");
}

#[test]
fn text_box_stores_more_than_its_advisory_length() {
    let mut t = PropertyString::with_text_box("T", 2, "abcdef");
    assert_eq!(t.value(), "abcdef");
    assert_eq!(t.set_value("0123456789"), "0123456789");
    assert_eq!(t.max_length(), 2);
    let d = PropertyString::default();
    assert_eq!(d.value(), "");
    assert_eq!(d.max_length(), 256);
    assert_eq!(d.name(), "UnTitled");
}

#[test]
fn ids_follow_positions_through_edits() {
    let mut ps = PropertySheet::new();
    ps.append(PropertyBool::with_switch("a", false));
    ps.append(PropertyBool::with_switch("b", false));
    ps.append(PropertyDummy::with_separator());
    ps.insert(0, PropertyBool::with_switch("front", true));
    ps.insert(2, PropertyI32::with_slider("mid", (0, 9), 1, 4));
    ps.insert(5, PropertyBool::with_switch("back", true));
    assert_eq!(ps.len(), 6);
    for k in 0..ps.len() {
        assert_eq!(ps.get(k).unwrap().id(), k);
    }
    let names: Vec<&str> = ps.iter().iter().map(|p| p.name()).collect();
    assert_eq!(names, vec!["front", "a", "mid", "b", "", "back"]);

    let gone = ps.remove(2);
    assert_eq!(gone.name(), "mid");
    assert_eq!(gone.id(), 2);
    assert_eq!(ps.len(), 5);
    for k in 0..ps.len() {
        assert_eq!(ps.get(k).unwrap().id(), k);
    }
    let first = ps.remove(0);
    assert_eq!(first.name(), "front");
    assert_eq!(first.id(), 0);
    let last = ps.remove(3);
    assert_eq!(last.name(), "back");
    for k in 0..ps.len() {
        assert_eq!(ps.get(k).unwrap().id(), k);
    }
    assert_eq!(ps.len(), 3);
    assert!(ps.get(3).is_none());
}

#[test]
fn with_items_numbers_the_entries() {
    let mut a = PropertyBool::with_switch("a", false);
    a.set_id(7);
    let items = vec![
        a.into_item(),
        PropertyDummy::with_separator().into_item(),
        PropertyString::with_text_box("t", 8, "x").into_item(),
    ];
    let ps = PropertySheet::with_items(items);
    assert_eq!(ps.len(), 3);
    for k in 0..3 {
        assert_eq!(ps.get(k).unwrap().id(), k);
    }
}

#[test]
fn set_value_clamps_to_the_median() {
    let mut p = PropertyI32::with_slider("n", (-5, 5), 2, 0);
    for v in [-100, -6, -5, -1, 0, 3, 5, 6, i32::MAX, i32::MIN] {
        let mut three = [-5, v, 5];
        three.sort();
        assert_eq!(p.set_value(v), three[1]);
        assert_eq!(p.value(), three[1]);
    }
    let mut q = PropertyI64::with_spin_box("n", (10, 20), 3, 0);
    assert_eq!(q.value(), 0);
    assert_eq!(q.set_value(i64::MIN), 10);
    assert_eq!(q.set_value(i64::MAX), 20);
    assert_eq!(q.set_value(15), 15);
}

#[test]
fn a_range_with_its_bounds_out_of_order_clamps_to_the_median() {
    let mut p = PropertyI32::with_slider("R", (10, -10), 1, 0);
    assert_eq!(p.set_value(3), 3);
    assert_eq!(p.value(), 3);
    assert_eq!(p.set_value(11), 10);
    assert_eq!(p.set_value(-11), -10);
    assert_eq!(p.set_value(10), 10);
    assert_eq!(p.set_value(-10), -10);
    assert_eq!(p.step_backward(), -10);
    assert_eq!(p.step_forward(), -9);
    let mut q = PropertyI64::with_slider("R", (5, 1), 3, 3);
    assert_eq!(q.set_value(3), 3);
    assert_eq!(q.set_value(0), 1);
    assert_eq!(q.set_value(9), 5);
    assert_eq!(q.step_backward(), 2);
    assert_eq!(q.step_backward(), 1);
    assert_eq!(q.step_forward(), 4);
    assert_eq!(q.step_forward(), 5);
    assert_eq!(q.range(), (5, 1));
    for v in [i32::MIN, -7, 0, 2, 9, i32::MAX] {
        let mut three = [8, v, -3];
        three.sort();
        let mut r = PropertyI32::with_spin_box("R", (8, -3), 1, 0);
        assert_eq!(r.set_value(v), three[1]);
    }
}

#[test]
fn a_float_range_with_its_bounds_out_of_order_clamps_to_the_median() {
    let mut p = PropertyF32::with_slider("f", (bits(1.0), bits(-1.0)), bits(0.5), bits(0.0));
    assert_eq!(p.set_value(bits(0.25)), bits(0.25));
    assert_eq!(p.set_value(bits(3.0)), bits(1.0));
    assert_eq!(p.set_value(bits(-3.0)), bits(-1.0));
    assert_eq!(p.set_value(bits(f32::NAN)), bits(1.0));
    let mut q = PropertyF64::with_slider("d", (bits64(2.0), bits64(-2.0)), bits64(0.5), bits64(0.0));
    assert_eq!(q.set_value(bits64(0.5)), bits64(0.5));
    assert_eq!(q.set_value(bits64(1e9)), bits64(2.0));
    assert_eq!(q.set_value(bits64(-1e9)), bits64(-2.0));
    // A bound that stands for no number counts as the other bound.
    let mut n = PropertyF32::with_slider("f", (bits(f32::NAN), bits(1.0)), bits(0.5), bits(0.0));
    assert_eq!(n.set_value(bits(0.25)), bits(1.0));
    assert_eq!(n.set_value(bits(7.0)), bits(1.0));
}

#[test]
fn the_callback_that_was_given_is_the_one_that_is_asked() {
    let calls = Rc::new(Cell::new(0usize));
    let mut given: Box<dyn ActionCallback> = Box::new(Counting { calls: Rc::clone(&calls) });
    let mut a = PropertyAction::button_from("A", "go", &mut given);
    a.set_id(3);
    a.set_selected(true);
    a.conceal();
    a.settle(true);
    assert_eq!(calls.get(), 0);
    assert_eq!(a.trigger(false), false);
    assert_eq!(calls.get(), 1);
    assert_eq!(a.options(), &["go"]);
    // What is left behind grants what is asked for and counts nothing.
    let base = PropertyBase::with_switch("x");
    assert_eq!(given.decide(&base, true), true);
    assert_eq!(given.decide(&base, false), false);
    assert_eq!(calls.get(), 1);
    let mut veto: Box<dyn ActionCallback> = Box::new(Veto);
    let mut b = PropertyAction::check_box_from("B", true, &mut veto);
    assert_eq!(b.is_checked(), true);
    assert_eq!(b.trigger(true), false);
    assert_eq!(b.is_checked(), false);
    assert_eq!(b.widget_type(), WidgetType::CheckBox);
    assert_eq!(veto.decide(&base, true), true);

    let mut ps = PropertySheet::new();
    ps.action_check_box("v", true, Box::new(Veto));
    ps.action_button("c", "go", Box::new(Counting { calls: Rc::clone(&calls) }));
    ps.insert(0, PropertyBool::with_switch("front", false));
    ps.select_items(&[2]);
    ps.select_prev();
    assert_eq!(ps.activate_current(true), None);
    assert_eq!(ps.get(1).unwrap().is_action_checked(), Some(false));
    assert_eq!(calls.get(), 1);
    let c = ps.remove(2);
    assert_eq!(c.name(), "c");
    let mut c = c;
    assert_eq!(c.trigger_action(true), Some(true));
    assert_eq!(calls.get(), 2);
}

#[test]
fn steps_stay_in_range() {
    let mut p = PropertyI32::with_slider("n", (0, 10), 3, 5);
    assert_eq!(p.step_forward(), 8);
    assert_eq!(p.step_forward(), 10);
    assert_eq!(p.step_forward(), 10);
    assert_eq!(p.step_backward(), 7);
    assert_eq!(p.step_backward(), 4);
    assert_eq!(p.step_backward(), 1);
    assert_eq!(p.step_backward(), 0);
    assert_eq!(p.step_backward(), 0);
    assert_eq!(p.value(), 0);
}

#[test]
fn steps_near_the_limits_of_the_type_do_not_overflow() {
    let mut p = PropertyI32::with_slider("n", (i32::MIN, i32::MAX), i32::MAX, i32::MAX - 1);
    assert_eq!(p.step_forward(), i32::MAX);
    assert_eq!(p.step_backward(), 0);
    assert_eq!(p.step_backward(), -i32::MAX);
    assert_eq!(p.step_backward(), i32::MIN);
    let mut q = PropertyI64::with_slider("n", (i64::MIN, i64::MAX), i64::MIN, 5);
    assert_eq!(q.step_backward(), i64::MAX);
    assert_eq!(q.step_forward(), -1);
    assert_eq!(q.step_forward(), i64::MIN);
    assert_eq!(q.step_forward(), i64::MIN);
}

#[test]
fn a_step_from_outside_lands_inside() {
    let mut p = PropertyI32::with_slider("n", (0, 10), 1, 500);
    assert_eq!(p.value(), 500);
    assert_eq!(p.step_forward(), 10);
    *p.value_mut() = -40;
    assert_eq!(p.value(), -40);
    assert_eq!(p.step_backward(), 0);
}

#[test]
fn float_values_are_clamped_in_the_order_of_the_numbers() {
    let mut p = PropertyF32::with_slider("f", (bits(-1.0), bits(1.0)), bits(0.01), bits(0.0));
    for v in [-3.5f32, -1.0, -0.25, -0.0, 0.0, 0.123456, 1.0, 7.0, f32::INFINITY, f32::NEG_INFINITY]
    {
        let stored = f32::from_bits(p.set_value(bits(v)));
        assert_eq!(stored, v.min(1.0).max(-1.0));
        assert_eq!(f32::from_bits(p.value()), stored);
    }
    assert_eq!(p.set_value(bits(f32::NAN)), bits(1.0));
    assert_eq!(p.set_value(bits(5.0)), bits(1.0));
    assert_eq!(p.set_value(bits(-5.0)), bits(-1.0));
    assert_eq!(p.range(), (bits(-1.0), bits(1.0)));
    assert_eq!(p.step(), bits(0.01));
    assert_eq!(p.def_val(), bits(0.0));
    assert_eq!(p.value_type(), ValueType::F32);

    let mut q =
        PropertyF64::with_spin_box("d", (bits64(-1000.0), bits64(1000.0)), bits64(10.0), bits64(0.0));
    for v in [-2000.5f64, -1000.0, -1e-300, 0.0, 999.999, 1e300, f64::INFINITY] {
        let stored = f64::from_bits(q.set_value(bits64(v)));
        assert_eq!(stored, v.min(1000.0).max(-1000.0));
    }
    assert_eq!(q.set_value(bits64(f64::NAN)), bits64(1000.0));
    assert_eq!(q.widget_type(), WidgetType::SpinBox);
}

#[test]
fn float_zero_signs_are_kept_apart() {
    let mut p = PropertyF32::with_slider("f", (bits(0.0), bits(1.0)), bits(0.5), bits(0.0));
    assert_eq!(p.set_value(bits(-0.0)), bits(0.0));
    let mut q = PropertyF32::with_slider("f", (bits(-0.0), bits(1.0)), bits(0.5), bits(0.0));
    assert_eq!(q.set_value(bits(-0.0)), bits(-0.0));
    assert_eq!(q.set_value(bits(0.0)), bits(0.0));
}

#[test]
fn find_returns_the_first_of_a_name() {
    let mut ps = PropertySheet::new();
    ps.switch("x", false);
    ps.slider_i32("dup", (0, 9), 1, 1);
    ps.slider_i32("dup", (0, 9), 1, 2);
    ps.switch("dup", true);
    assert_eq!(ps.find("dup").unwrap().id(), 1);
    assert_eq!(ps.position("dup"), Some(1));
    assert_eq!(ps.get_value_i32_of("dup"), Some(1));
    assert_eq!(ps.get_value_bool_of("dup"), None);
    assert_eq!(ps.find_mut("dup").unwrap().id(), 1);
    assert!(ps.find("none").is_none());
    assert_eq!(ps.position("none"), None);
    assert!(ps.find("du").is_none());
    assert!(ps.find("dupe").is_none());
    let gone = ps.remove(1);
    assert_eq!(gone.get_value_i32(), Some(1));
    assert_eq!(ps.get_value_i32_of("dup"), Some(2));
}

#[test]
fn toggling_flips_the_switch() {
    let mut b = PropertyBool::with_switch("b", false);
    assert_eq!(b.def_val(), false);
    for n in 1..=9usize {
        let now = b.toggle();
        assert_eq!(now, n % 2 == 1);
        assert_eq!(b.value(), n % 2 == 1);
    }
    assert_eq!(b.def_val(), false);
    *b.value_mut() = false;
    assert_eq!(b.value(), false);
    assert_eq!(b.set_value(true), true);
    assert_eq!(b.toggle(), false);
    let d = PropertyBool::default();
    assert_eq!(d.name(), "UnTitled");
    assert_eq!(d.value(), false);
}

#[test]
fn typed_access_refuses_other_kinds() {
    let mut ps = PropertySheet::new();
    ps.action_check_box("act", true, Box::new(Granting));
    ps.switch("sw", true);
    ps.separator();
    ps.spin_box_f32("f", (bits(0.0), bits(9.0)), bits(1.0), bits(4.0));
    ps.spin_box_f64("d", (bits64(0.0), bits64(9.0)), bits64(1.0), bits64(5.0));
    ps.spin_box_i32("i", (0, 9), 1, 6);
    ps.spin_box_i64("l", (0, 9), 1, 7);
    ps.text_box("t", 16, "txt");

    assert_eq!(ps.get_value_bool_at(1), Some(true));
    assert_eq!(ps.get_value_bool_at(0), None);
    assert_eq!(ps.get_value_bool_at(99), None);
    assert_eq!(ps.get_value_bool_of("sw"), Some(true));
    assert_eq!(ps.get_value_bool_of("t"), None);
    assert_eq!(ps.get_value_f32_at(3), Some(bits(4.0)));
    assert_eq!(ps.get_value_f32_at(4), None);
    assert_eq!(ps.get_value_f32_of("f"), Some(bits(4.0)));
    assert_eq!(ps.get_value_f32_of("missing"), None);
    assert_eq!(ps.get_value_f64_at(4), Some(bits64(5.0)));
    assert_eq!(ps.get_value_f64_at(3), None);
    assert_eq!(ps.get_value_f64_of("d"), Some(bits64(5.0)));
    assert_eq!(ps.get_value_i32_at(5), Some(6));
    assert_eq!(ps.get_value_i32_at(6), None);
    assert_eq!(ps.get_value_i32_of("i"), Some(6));
    assert_eq!(ps.get_value_string_at(7), Some("txt"));
    assert_eq!(ps.get_value_string_at(1), None);
    assert_eq!(ps.get_value_string_of("t"), Some("txt"));
    assert_eq!(ps.get_value_string_of("sw"), None);

    let tags = [
        ValueType::Action,
        ValueType::Bool,
        ValueType::Dummy,
        ValueType::F32,
        ValueType::F64,
        ValueType::I32,
        ValueType::I64,
        ValueType::String,
    ];
    for (k, tag) in tags.iter().enumerate() {
        let p = ps.get(k).unwrap();
        assert_eq!(p.value_type(), *tag);
        assert_eq!(p.as_property_action().is_some(), k == 0);
        assert_eq!(p.as_property_bool().is_some(), k == 1);
        assert_eq!(p.as_property_dummy().is_some(), k == 2);
        assert_eq!(p.as_property_f32().is_some(), k == 3);
        assert_eq!(p.as_property_f64().is_some(), k == 4);
        assert_eq!(p.as_property_i32().is_some(), k == 5);
        assert_eq!(p.as_property_i64().is_some(), k == 6);
        assert_eq!(p.as_property_string().is_some(), k == 7);
        assert_eq!(p.is_action_checked().is_some(), k == 0);
        assert_eq!(p.get_value_bool().is_some(), k == 1);
        assert_eq!(p.get_value_i64().is_some(), k == 6);
        assert_eq!(p.is_selectable(), k != 2);
    }
    let sep = ps.get_mut(2).unwrap();
    assert_eq!(sep.set_value_bool(true), None);
    assert_eq!(sep.set_value_i32(1), None);
    assert_eq!(sep.set_value_i64(1), None);
    assert_eq!(sep.set_value_f32(1), None);
    assert_eq!(sep.set_value_f64(1), None);
    assert_eq!(sep.set_value_string("x"), None);
    assert_eq!(sep.trigger_action(true), None);
    assert_eq!(sep.name(), "");
    assert_eq!(sep.widget_type(), WidgetType::Separator);
    let l = ps.get_mut(6).unwrap();
    assert_eq!(l.set_value_i64(100), Some(9));
    assert_eq!(l.get_value_i64(), Some(9));
    let t = ps.get_mut(7).unwrap();
    assert_eq!(t.set_value_string("new"), Some("new"));
    let d = ps.get_mut(4).unwrap();
    assert_eq!(d.set_value_f64(bits64(-3.0)), Some(bits64(0.0)));
}

#[test]
fn metadata_flags_change_alone() {
    let mut p = PropertyBool::with_switch("b", true);
    assert_eq!(p.id(), 0);
    assert!(p.is_visible());
    assert!(!p.is_selected());
    p.set_id(4);
    p.set_selected(true);
    p.conceal();
    assert_eq!(p.id(), 4);
    assert!(p.is_selected());
    assert!(!p.is_visible());
    p.show();
    assert!(p.is_visible());
    p.set_visible(false);
    assert!(!p.is_visible());
    assert_eq!(p.name(), "b");
    assert_eq!(p.value(), true);
    assert_eq!(p.value_type(), ValueType::Bool);
    assert_eq!(p.widget_type(), WidgetType::Switch);
    assert!(p.options().is_empty());
}

#[test]
fn base_constructors_set_both_types() {
    let b = PropertyBase::with_action_button("n", &["go"]);
    assert_eq!((b.value_type(), b.widget_type()), (ValueType::Action, WidgetType::Button));
    assert_eq!(b.options(), &["go"]);
    assert_eq!(b.name(), "n");
    assert_eq!(b.id(), 0);
    assert!(b.is_visible());
    assert!(!b.is_selected());
    let pairs = [
        (PropertyBase::with_action_check_box("n"), ValueType::Action, WidgetType::CheckBox),
        (PropertyBase::with_slider_f32("n"), ValueType::F32, WidgetType::Slider),
        (PropertyBase::with_slider_f64("n"), ValueType::F64, WidgetType::Slider),
        (PropertyBase::with_combo_box_i32("n", &["a"]), ValueType::I32, WidgetType::ComboBox),
        (PropertyBase::with_combo_box_i64("n", &["a"]), ValueType::I64, WidgetType::ComboBox),
        (PropertyBase::with_select_i32("n", &["a"]), ValueType::I32, WidgetType::Select),
        (PropertyBase::with_select_i64("n", &["a"]), ValueType::I64, WidgetType::Select),
        (PropertyBase::with_slider_i32("n"), ValueType::I32, WidgetType::Slider),
        (PropertyBase::with_slider_i64("n"), ValueType::I64, WidgetType::Slider),
        (PropertyBase::with_separator(), ValueType::Dummy, WidgetType::Separator),
        (PropertyBase::with_spin_box_f32("n"), ValueType::F32, WidgetType::SpinBox),
        (PropertyBase::with_spin_box_f64("n"), ValueType::F64, WidgetType::SpinBox),
        (PropertyBase::with_spin_box_i32("n"), ValueType::I32, WidgetType::SpinBox),
        (PropertyBase::with_spin_box_i64("n"), ValueType::I64, WidgetType::SpinBox),
        (PropertyBase::with_switch("n"), ValueType::Bool, WidgetType::Switch),
        (PropertyBase::with_text_box("n"), ValueType::String, WidgetType::TextBox),
    ];
    for (base, value_type, widget_type) in pairs.iter() {
        assert_eq!(base.value_type(), *value_type);
        assert_eq!(base.widget_type(), *widget_type);
        assert_eq!(base.is_selectable(), *widget_type != WidgetType::Separator);
    }
    let mut d = PropertyBase::default();
    assert_eq!((d.value_type(), d.widget_type()), (ValueType::Unknown, WidgetType::Unknown));
    assert_eq!(d.name(), "");
    assert!(!d.is_visible());
    d.set_id(3);
    d.set_selected(true);
    d.show();
    assert_eq!(d.id(), 3);
    assert!(d.is_selected() && d.is_visible());
    d.conceal();
    d.set_visible(true);
    assert!(d.is_visible());
    assert_eq!(ValueType::default(), ValueType::Unknown);
    assert_eq!(WidgetType::default(), WidgetType::Unknown);
}

#[test]
fn keys_move_the_selection_and_activate() {
    let calls = Rc::new(Cell::new(0usize));
    let mut ps = PropertySheet::new();
    ps.action_check_box("act", false, Box::new(Counting { calls: Rc::clone(&calls) }));
    ps.switch("sw", false);
    ps.separator();
    ps.slider_i32("n", (0, 10), 4, 5);
    ps.slider_f32("f", (bits(0.0), bits(1.0)), bits(0.25), bits(0.5));
    ps.text_box("t", 8, "x");

    // Nothing selected: down selects the first entry, right triggers it.
    let left_over = PropertySheetInputCtrl::new().process(&keys(false, true, false, true), &mut ps);
    assert_eq!(left_over, None);
    assert_eq!(selected(&ps), vec![0]);
    assert_eq!(calls.get(), 1);
    assert_eq!(ps.get(0).unwrap().is_action_checked(), Some(true));

    // Down to the switch, left toggles it.
    PropertySheetInputCtrl::new().process(&keys(false, true, true, false), &mut ps);
    assert_eq!(selected(&ps), vec![1]);
    assert_eq!(ps.get_value_bool_at(1), Some(true));

    // Down passes the separator; right steps the slider forward.
    PropertySheetInputCtrl::new().process(&keys(false, true, false, true), &mut ps);
    assert_eq!(selected(&ps), vec![3]);
    assert_eq!(ps.get_value_i32_at(3), Some(9));
    // Left and right together: one step back, then one forward.
    PropertySheetInputCtrl::new().process(&keys(false, false, true, true), &mut ps);
    assert_eq!(ps.get_value_i32_at(3), Some(9));
    PropertySheetInputCtrl::new().process(&keys(false, false, false, true), &mut ps);
    assert_eq!(ps.get_value_i32_at(3), Some(10));
    PropertySheetInputCtrl::new().process(&keys(false, false, true, true), &mut ps);
    assert_eq!(ps.get_value_i32_at(3), Some(10));

    // The step of a floating-point property is left to the caller.
    let left_over = PropertySheetInputCtrl::new().process(&keys(false, true, false, true), &mut ps);
    assert_eq!(left_over, Some(4));
    assert_eq!(ps.get_value_f32_at(4), Some(bits(0.5)));
    let p = ps.get_mut(4).unwrap().as_property_f32_mut().unwrap();
    let sum = f32::from_bits(p.value()) + f32::from_bits(p.step());
    assert_eq!(p.set_value(bits(sum)), bits(0.75));
    let sum = f32::from_bits(p.value()) + f32::from_bits(p.step());
    assert_eq!(p.set_value(bits(sum)), bits(1.0));
    let sum = f32::from_bits(p.value()) + f32::from_bits(p.step());
    assert_eq!(p.set_value(bits(sum)), bits(1.0));
    let left_over = PropertySheetInputCtrl::new().process(&keys(false, false, false, false), &mut ps);
    assert_eq!(left_over, None);

    // A text box is not stepped; down from the last entry wraps.
    let left_over = PropertySheetInputCtrl::new().process(&keys(false, true, true, true), &mut ps);
    assert_eq!(left_over, None);
    assert_eq!(selected(&ps), vec![5]);
    assert_eq!(ps.get_value_string_at(5), Some("x"));
    PropertySheetInputCtrl::new().process(&keys(false, true, false, false), &mut ps);
    assert_eq!(selected(&ps), vec![0]);
    // Up from the first entry wraps to the last.
    PropertySheetInputCtrl::new().process(&keys(true, false, false, false), &mut ps);
    assert_eq!(selected(&ps), vec![5]);
    // Up and down together cancel out here.
    PropertySheetInputCtrl::default().process(&keys(true, true, false, false), &mut ps);
    assert_eq!(selected(&ps), vec![5]);
    // Enter alone changes nothing.
    let enter = KeyInput { enter: true, up: false, down: false, left: false, right: false };
    assert_eq!(PropertySheetInputCtrl::new().process(&enter, &mut ps), None);
    assert_eq!(selected(&ps), vec![5]);
    assert_eq!(calls.get(), 1);
}

#[test]
fn activation_of_the_current_entry() {
    let mut ps = PropertySheet::new();
    ps.switch("sw", false);
    ps.slider_i64("n", (0, 100), 10, 95);
    assert_eq!(ps.activate_current(true), None);
    assert_eq!(ps.get_value_bool_at(0), Some(false));
    ps.select_items(&[0]);
    assert_eq!(ps.pivot_id(), Some(0));
    assert_eq!(ps.activate_current(true), None);
    assert_eq!(ps.get_value_bool_at(0), Some(true));
    ps.select_items(&[1]);
    ps.activate_current(true);
    assert_eq!(ps.get(1).unwrap().get_value_i64(), Some(100));
    ps.activate_current(false);
    assert_eq!(ps.get(1).unwrap().get_value_i64(), Some(90));
    let mut item = PropertyItem::Bool(PropertyBool::with_switch("x", true));
    assert_eq!(item.activate(false), false);
    assert_eq!(item.get_value_bool(), Some(false));
}

#[test]
fn iter_mut_reaches_every_entry() {
    let mut ps = four_selectable();
    for p in ps.iter_mut().iter_mut() {
        p.set_selected(true);
        p.conceal();
    }
    assert_eq!(selected(&ps), vec![0, 1, 2, 3]);
    assert!(ps.iter().iter().all(|p| !p.is_visible()));
    let d = PropertySheet::default();
    assert!(d.is_empty());
    assert_eq!(d.len(), 0);
}
