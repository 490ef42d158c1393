use nuki::action::{Granting, PropertyAction};
use nuki::file_list::{FileInfo, FileList};
use nuki::number::{PropertyF32, PropertyF64, PropertyI32, PropertyI64, PropertyNumber};
use nuki::present::{
    button_label, presentation, scroll_to_selected, scroll_to_selected_file, select_label,
    switch_label, Presentation,
};
use nuki::property::Property;
use nuki::separator::PropertyDummy;
use nuki::sheet::PropertySheet;
use nuki::switch::PropertyBool;
use nuki::text_box::PropertyString;

fn file(name: &str, modified: i128) -> FileInfo {
    FileInfo {
        file_name: name.to_string(),
        path: format!("/d/{}", name),
        len: name.len() as u64,
        modified,
    }
}

#[test]
fn presentations_follow_widget_and_value_type() {
    assert_eq!(
        presentation(&PropertyAction::with_button("a", "go", Box::new(Granting))),
        Presentation::Button
    );
    assert_eq!(
        presentation(&PropertyAction::with_check_box("a", true, Box::new(Granting))),
        Presentation::Nothing
    );
    assert_eq!(presentation(&PropertyI32::with_select("s", &["x"], 0)), Presentation::SelectI32);
    assert_eq!(presentation(&PropertyI64::with_select("s", &["x"], 0)), Presentation::Nothing);
    assert_eq!(presentation(&PropertyI32::with_combo_box("s", &["x"], 0)), Presentation::Nothing);
    assert_eq!(presentation(&PropertyDummy::with_separator()), Presentation::Separator);
    assert_eq!(presentation(&PropertyF32::with_slider("f", (0, 0), 0, 0)), Presentation::SliderF32);
    assert_eq!(presentation(&PropertyI32::with_slider("f", (0, 0), 0, 0)), Presentation::SliderI32);
    assert_eq!(presentation(&PropertyF64::with_slider("f", (0, 0), 0, 0)), Presentation::Nothing);
    assert_eq!(presentation(&PropertyI64::with_slider("f", (0, 0), 0, 0)), Presentation::Nothing);
    assert_eq!(presentation(&PropertyF32::with_spin_box("f", (0, 0), 0, 0)), Presentation::SpinBoxF32);
    assert_eq!(presentation(&PropertyI32::with_spin_box("f", (0, 0), 0, 0)), Presentation::SpinBoxI32);
    assert_eq!(presentation(&PropertyF64::with_spin_box("f", (0, 0), 0, 0)), Presentation::Nothing);
    assert_eq!(presentation(&PropertyBool::with_switch("b", true)), Presentation::Switch);
    assert_eq!(presentation(&PropertyString::with_text_box("t", 1, "")), Presentation::Nothing);
}

#[test]
fn labels_come_from_the_options() {
    assert_eq!(switch_label(&[], true), "ON");
    assert_eq!(switch_label(&[], false), "OFF");
    assert_eq!(switch_label(&["no"], true), "ON");
    assert_eq!(switch_label(&["no"], false), "no");
    assert_eq!(switch_label(&["no", "yes"], true), "yes");
    assert_eq!(switch_label(&["no", "yes"], false), "no");
    assert_eq!(button_label(&["Click Me", "x"]), Some("Click Me"));
    assert_eq!(button_label(&[]), None);
    let mut p = PropertyI32::with_select("s", &["A", "B", "C"], 5);
    assert_eq!(select_label(&p), None);
    p.set_value(5);
    assert_eq!(select_label(&p), Some("C"));
    p.set_value(0);
    assert_eq!(select_label(&p), Some("A"));
    *p.value_mut() = -1;
    assert_eq!(select_label(&p), None);
}

#[test]
fn scrolling_brings_the_selection_into_view() {
    let mut ps = PropertySheet::new();
    for name in ["a", "b", "c"] {
        ps.switch(name, false);
    }
    ps.separator();
    for name in ["d", "e", "f", "g"] {
        ps.switch(name, false);
    }
    // Nothing selected: all rows count, 7 * 32 + 16 = 240.
    assert_eq!(scroll_to_selected(&ps, 32, 16, 100, 64), Some(204));
    ps.select_items(&[0]);
    assert_eq!(scroll_to_selected(&ps, 32, 16, 100, 64), Some(0));
    ps.select_items(&[1]);
    assert_eq!(scroll_to_selected(&ps, 32, 16, 100, 64), Some(28));
    ps.select_items(&[4]);
    // 3 * 32 + 16 + 32 = 144; 144 - 100 + 64 = 108.
    assert_eq!(scroll_to_selected(&ps, 32, 16, 100, 64), Some(108));
    ps.get_mut(1).unwrap().conceal();
    assert_eq!(scroll_to_selected(&ps, 32, 16, 100, 64), Some(76));
    ps.get_mut(4).unwrap().conceal();
    // The selected entry is invisible: all visible rows count, 5 * 32 + 16.
    assert_eq!(scroll_to_selected(&ps, 32, 16, 100, 64), Some(140));
    ps.select_items(&[7, 2]);
    assert_eq!(scroll_to_selected(&ps, 32, 16, 100, 64), Some(28));
    assert_eq!(scroll_to_selected(&ps, i32::MAX, 0, i32::MIN, i32::MAX), None);
    assert_eq!(scroll_to_selected(&ps, 1, 0, i32::MIN, i32::MAX), None);
    assert_eq!(scroll_to_selected(&ps, 1, 0, i32::MIN, i32::MAX - 2), Some(u32::MAX));
    assert_eq!(scroll_to_selected(&ps, i32::MIN, i32::MIN, 0, 0), Some(0));
    assert_eq!(scroll_to_selected(&PropertySheet::new(), 32, 16, 100, 64), Some(0));
    assert_eq!(scroll_to_selected(&PropertySheet::new(), 32, 16, 10, 64), Some(54));

    let mut list = FileList::new("/d", "", vec![file("a", 1), file("b", 2), file("c", 3)]);
    assert_eq!(scroll_to_selected_file(&list, 32, 100, 64), Some(0));
    list.select_next();
    assert_eq!(scroll_to_selected_file(&list, 32, 100, 64), Some(28));
    list.select_next();
    assert_eq!(scroll_to_selected_file(&list, 32, 100, 64), Some(60));
    assert_eq!(scroll_to_selected_file(&list, i32::MAX, i32::MIN, 0), None);
    let empty = FileList::new("/d", "", Vec::new());
    assert_eq!(scroll_to_selected_file(&empty, 32, 100, 64), Some(0));
    assert_eq!(scroll_to_selected_file(&empty, 32, 10, 64), Some(54));
}
