//! The property sheet: an ordered collection of properties of any kind,
//! with structural edits that keep ids and positions in step, lookup by
//! position and by name, and the selection that keyboard navigation moves.

use vstd::prelude::*;
use crate::action::{
    fresh_button, fresh_check_box, same_but_callback, ActionCallback, PropertyAction,
};
use crate::base::{fresh_base, BaseView};
use crate::kinds::{ValueType, WidgetType};
use crate::number::{fresh_number, PropertyF32, PropertyF64, PropertyI32, PropertyI64};
use crate::order::{
    appended, current, first_named, ids_in_order, inserted, is_first_named, lemma_first_named,
    lemma_same_flags_same_selection, lemma_selected_ids_step, lemma_selection_needs_entries,
    listed, moved_to, next_target, pivot, prev_target, removed, renumbered, selected_ids,
    selecting,
};
use crate::property::{activated_entry, is_float, Property, PropertyItem};
use crate::separator::{fresh_separator, PropertyDummy};
use crate::switch::{fresh_switch, PropertyBool};
use crate::text::{str_eq, texts};
use crate::text_box::{fresh_text_box, PropertyString};
use crate::view::PropertyView;

verus! {

/// The views of the entries, in order.
pub open spec fn views(entries: Seq<PropertyItem>) -> Seq<PropertyView> {
    Seq::new(entries.len(), |k: int| entries[k]@)
}

/// `after` is the sheet `before` with its current entry activated: that
/// entry is as `activated_entry` says, but for the callback of an action,
/// which may have changed; every other entry is as it was. Without a
/// current entry the sheet is as it was.
pub open spec fn activation(
    before: Seq<PropertyView>,
    after: Seq<PropertyView>,
    forward: bool,
) -> bool {
    match current(before) {
        Some(i) => {
            &&& after.len() == before.len()
            &&& same_but_callback(after[i], activated_entry(before[i], forward))
            &&& forall|k: int| 0 <= k < before.len() && k != i ==> after[k] == before[k]
        },
        None => after == before,
    }
}

/// The position of the current entry where that is a floating-point
/// property, whose step is not made here.
pub open spec fn awaiting_step(s: Seq<PropertyView>) -> Option<usize> {
    match current(s) {
        Some(i) if is_float(s[i]) => Some(i as usize),
        _ => None,
    }
}

/// The ids as natural numbers.
pub open spec fn as_nats(ids: Seq<usize>) -> Seq<nat> {
    ids.map_values(|x: usize| x as nat)
}

/// Whether `id` occurs in `ids`.
pub fn contains_id(ids: &[usize], id: usize) -> (r: bool)
    ensures
        r == listed(ids@, id as nat),
{
    let mut j: usize = 0;
    while j < ids.len()
        invariant
            j <= ids.len(),
            forall|k: int| 0 <= k < j ==> ids@[k] != id,
        decreases ids.len() - j,
    {
        if ids[j] == id {
            return true;
        }
        j += 1;
    }
    false
}

/// An ordered collection of properties.
pub struct PropertySheet {
    items: Vec<PropertyItem>,
}

impl View for PropertySheet {
    type V = Seq<PropertyView>;

    open spec fn view(&self) -> Seq<PropertyView> {
        views(self.entries())
    }
}

impl Default for PropertySheet {
    fn default() -> (r: Self)
        ensures
            r.entries() == Seq::<PropertyItem>::empty(),
    {
        PropertySheet::new()
    }
}

impl PropertySheet {
    /// The entries themselves, in order.
    pub closed spec fn entries(&self) -> Seq<PropertyItem> {
        self.items@
    }

    /// In a sheet whose ids are in order every id is below the largest
    /// number there is, and every id but the first is above zero: what
    /// `insert` and `remove` ask for.
    pub proof fn lemma_ordered_ids_fit(&self)
        requires
            ids_in_order(self@),
        ensures
            self@.len() <= usize::MAX,
            forall|k: int| 0 <= k < self@.len() ==> (#[trigger] self@[k]).base.id < usize::MAX,
            forall|k: int| 0 < k < self@.len() ==> (#[trigger] self@[k]).base.id > 0,
    {
        assert(self.items.len() == self.items@.len());
    }

    /// Every entry of a sheet is well formed: what it holds and the widget
    /// that draws it fit its value type. So exactly the separators cannot
    /// be selected, and they hold no value.
    pub proof fn lemma_entries_are_well_formed(&self)
        ensures
            forall|k: int| 0 <= k < self@.len() ==> (#[trigger] self@[k]).well_formed(),
            forall|k: int|
                0 <= k < self@.len() ==> (!(#[trigger] self@[k]).base.selectable()
                    <==> self@[k].payload is Empty),
    {
        assert forall|k: int| 0 <= k < self@.len() implies (#[trigger] self@[k]).well_formed() && (
        !self@[k].base.selectable() <==> self@[k].payload is Empty) by {
            self.entries()[k].lemma_kind();
            self@[k].lemma_only_separators_are_passed();
        }
    }

    /// An empty sheet.
    pub fn new() -> (r: Self)
        ensures
            r.entries() == Seq::<PropertyItem>::empty(),
    {
        PropertySheet { items: Vec::new() }
    }

    /// A sheet of `items` in their order, each given its position as id.
    pub fn with_items(items: Vec<PropertyItem>) -> (r: Self)
        ensures
            r@ == renumbered(views(items@)),
            ids_in_order(r@),
    {
        let ghost before = items@;
        let mut items = items;
        let mut k: usize = 0;
        while k < items.len()
            invariant
                k <= items.len(),
                items@.len() == before.len(),
                forall|j: int|
                    0 <= j < k ==> (#[trigger] items@[j])@ == before[j]@.with_id(j as nat),
                forall|j: int| k <= j < items@.len() ==> items@[j] == before[j],
            decreases items.len() - k,
        {
            items[k].set_id(k);
            k += 1;
        }
        let r = PropertySheet { items };
        assert(r@ =~= renumbered(views(before)));
        r
    }

    /// Adds `item` at the end and gives it the former length as id.
    pub fn append<T: Property>(&mut self, item: T)
        ensures
            final(self)@ == appended(old(self)@, item@),
            ids_in_order(old(self)@) ==> ids_in_order(final(self)@),
    {
        let mut entry = item.into_item();
        entry.set_id(self.items.len());
        self.items.push(entry);
        assert(self@ =~= appended(old(self)@, item@));
    }

    /// Places `item` at `index` with `index` as its id, and moves every
    /// entry from `index` on one place up, raising its id by one.
    ///
    /// `index` is at most the length. No id from `index` on is the largest
    /// number there is; of a sheet whose ids are in order that is true.
    pub fn insert<T: Property>(&mut self, index: usize, item: T)
        requires
            index <= old(self)@.len(),
            forall|k: int|
                index <= k < old(self)@.len() ==> (#[trigger] old(self)@[k]).base.id
                    < usize::MAX,
        ensures
            final(self)@ == inserted(old(self)@, index as int, item@),
            ids_in_order(old(self)@) ==> ids_in_order(final(self)@),
    {
        let mut entry = item.into_item();
        entry.set_id(index);
        let mut k: usize = index;
        while k < self.items.len()
            invariant
                index <= k <= self.items.len(),
                self.items@.len() == old(self).items@.len(),
                forall|j: int| 0 <= j < index ==> self.items@[j] == old(self).items@[j],
                forall|j: int|
                    index <= j < k ==> (#[trigger] self.items@[j])@ == old(self).items@[j]@.with_id(
                        old(self).items@[j]@.base.id + 1,
                    ),
                forall|j: int| k <= j < self.items@.len() ==> self.items@[j] == old(self).items@[j],
                forall|j: int|
                    index <= j < old(self)@.len() ==> (#[trigger] old(self)@[j]).base.id
                        < usize::MAX,
            decreases self.items.len() - k,
        {
            assert(old(self)@[k as int].base.id < usize::MAX);
            let id = self.items[k].id();
            self.items[k].set_id(id + 1);
            k += 1;
        }
        self.items.insert(index, entry);
        assert(self@ =~= inserted(old(self)@, index as int, item@));
    }

    /// Takes the entry at `index` out and returns it as it was, and moves
    /// every entry behind it one place down, lowering its id by one. The
    /// removed entry keeps its id.
    ///
    /// `index` is below the length. No id behind `index` is zero; of a
    /// sheet whose ids are in order that is true.
    pub fn remove(&mut self, index: usize) -> (r: PropertyItem)
        requires
            index < old(self)@.len(),
            forall|k: int| index < k < old(self)@.len() ==> (#[trigger] old(self)@[k]).base.id > 0,
        ensures
            r == old(self).entries()[index as int],
            final(self)@ == removed(old(self)@, index as int),
            ids_in_order(old(self)@) ==> ids_in_order(final(self)@),
    {
        let len = self.items.len();
        assert(index < len);
        let mut k: usize = index + 1;
        while k < self.items.len()
            invariant
                index < k <= self.items.len(),
                self.items@.len() == old(self).items@.len(),
                forall|j: int| 0 <= j <= index ==> self.items@[j] == old(self).items@[j],
                forall|j: int|
                    index < j < k ==> (#[trigger] self.items@[j])@ == old(self).items@[j]@.with_id(
                        (old(self).items@[j]@.base.id - 1) as nat,
                    ),
                forall|j: int| k <= j < self.items@.len() ==> self.items@[j] == old(self).items@[j],
                forall|j: int|
                    index < j < old(self)@.len() ==> (#[trigger] old(self)@[j]).base.id > 0,
            decreases self.items.len() - k,
        {
            assert(old(self)@[k as int].base.id > 0);
            let id = self.items[k].id();
            self.items[k].set_id(id - 1);
            k += 1;
        }
        let r = self.items.remove(index);
        assert(self@ =~= removed(old(self)@, index as int));
        r
    }

    /// Whether the sheet holds no entry.
    pub fn is_empty(&self) -> (r: bool)
        ensures
            r == (self@.len() == 0),
    {
        self.items.len() == 0
    }

    /// The number of entries.
    pub fn len(&self) -> (r: usize)
        ensures
            r == self@.len(),
    {
        self.items.len()
    }

    /// The entry at `index`, if there is one.
    pub fn get(&self, index: usize) -> (r: Option<&PropertyItem>)
        ensures
            index < self@.len() ==> r == Some(&self.entries()[index as int]),
            index >= self@.len() ==> r is None,
    {
        if index < self.items.len() {
            Some(&self.items[index])
        } else {
            None
        }
    }

    /// The entry at `index`, to be changed in place, if there is one.
    pub fn get_mut(&mut self, index: usize) -> (r: Option<&mut PropertyItem>)
        ensures
            index < old(self)@.len() ==> (r matches Some(p)
                && *p == old(self).entries()[index as int]
                && final(self).entries() == old(self).entries().update(index as int, *final(p))),
            index >= old(self)@.len() ==> r is None && final(self).entries() == old(self).entries(),
    {
        if index < self.items.len() {
            Some(&mut self.items[index])
        } else {
            None
        }
    }

    /// All entries, in order.
    pub fn iter(&self) -> (r: &[PropertyItem])
        ensures
            r@ == self.entries(),
    {
        self.items.as_slice()
    }

    /// All entries, in order, to be changed in place.
    pub fn iter_mut(&mut self) -> (r: &mut [PropertyItem])
        ensures
            r@ == old(self).entries(),
            final(self).entries() == final(r)@,
    {
        self.items.as_mut_slice()
    }

    /// The position of the first entry called `name`, if there is one.
    pub fn position(&self, name: &str) -> (r: Option<usize>)
        ensures
            match r {
                Some(i) => first_named(self@, name@) == Some(i as int),
                None => first_named(self@, name@) is None,
            },
    {
        let mut i: usize = 0;
        while i < self.items.len()
            invariant
                i <= self.items.len(),
                forall|j: int| 0 <= j < i ==> (#[trigger] self@[j]).base.name != name@,
            decreases self.items.len() - i,
        {
            if str_eq(self.items[i].name(), name) {
                proof {
                    assert(is_first_named(self@, name@, i as int));
                    lemma_first_named(self@, name@);
                }
                return Some(i);
            }
            i += 1;
        }
        proof {
            lemma_first_named(self@, name@);
        }
        None
    }

    /// The first entry called `name` in the order of the sheet, if there
    /// is one.
    pub fn find(&self, name: &str) -> (r: Option<&PropertyItem>)
        ensures
            match first_named(self@, name@) {
                Some(i) => r == Some(&self.entries()[i]),
                None => r is None,
            },
            r matches Some(p) ==> p@.base.name == name@,
    {
        proof {
            lemma_first_named(self@, name@);
        }
        match self.position(name) {
            Some(i) => Some(&self.items[i]),
            None => None,
        }
    }

    /// The first entry called `name` in the order of the sheet, to be
    /// changed in place, if there is one.
    pub fn find_mut(&mut self, name: &str) -> (r: Option<&mut PropertyItem>)
        ensures
            match first_named(old(self)@, name@) {
                Some(i) => r matches Some(p) && *p == old(self).entries()[i]
                    && final(self).entries() == old(self).entries().update(i, *final(p)),
                None => r is None && final(self).entries() == old(self).entries(),
            },
    {
        proof {
            lemma_first_named(self@, name@);
        }
        match self.position(name) {
            Some(i) => Some(&mut self.items[i]),
            None => None,
        }
    }

    /// The value of the switch at `index`; `None` where there is no such
    /// entry or it is no switch.
    pub fn get_value_bool_at(&self, index: usize) -> (r: Option<bool>)
        ensures
            r == (if index < self@.len() {
                self@[index as int].switch_of()
            } else {
                None
            }),
    {
        match self.get(index) {
            Some(p) => p.get_value_bool(),
            None => None,
        }
    }

    /// The value of the first entry called `name`, if that is a switch.
    pub fn get_value_bool_of(&self, name: &str) -> (r: Option<bool>)
        ensures
            r == (match first_named(self@, name@) {
                Some(i) => self@[i].switch_of(),
                None => None,
            }),
    {
        proof {
            lemma_first_named(self@, name@);
        }
        match self.find(name) {
            Some(p) => p.get_value_bool(),
            None => None,
        }
    }

    /// The bit pattern held by the 32-bit floating-point property at
    /// `index`; `None` where there is no such entry or it is of another
    /// kind.
    pub fn get_value_f32_at(&self, index: usize) -> (r: Option<u32>)
        ensures
            index >= self@.len() ==> r is None,
            index < self@.len() ==> (match r {
                Some(x) => self@[index as int].number_of(ValueType::F32) == Some(x as int),
                None => self@[index as int].number_of(ValueType::F32) is None,
            }),
    {
        match self.get(index) {
            Some(p) => p.get_value_f32(),
            None => None,
        }
    }

    /// The bit pattern held by the first entry called `name`, if that is a
    /// 32-bit floating-point property.
    pub fn get_value_f32_of(&self, name: &str) -> (r: Option<u32>)
        ensures
            match first_named(self@, name@) {
                Some(i) => match r {
                    Some(x) => self@[i].number_of(ValueType::F32) == Some(x as int),
                    None => self@[i].number_of(ValueType::F32) is None,
                },
                None => r is None,
            },
    {
        proof {
            lemma_first_named(self@, name@);
        }
        match self.find(name) {
            Some(p) => p.get_value_f32(),
            None => None,
        }
    }

    /// The bit pattern held by the 64-bit floating-point property at
    /// `index`; `None` where there is no such entry or it is of another
    /// kind.
    pub fn get_value_f64_at(&self, index: usize) -> (r: Option<u64>)
        ensures
            index >= self@.len() ==> r is None,
            index < self@.len() ==> (match r {
                Some(x) => self@[index as int].number_of(ValueType::F64) == Some(x as int),
                None => self@[index as int].number_of(ValueType::F64) is None,
            }),
    {
        match self.get(index) {
            Some(p) => p.get_value_f64(),
            None => None,
        }
    }

    /// The bit pattern held by the first entry called `name`, if that is a
    /// 64-bit floating-point property.
    pub fn get_value_f64_of(&self, name: &str) -> (r: Option<u64>)
        ensures
            match first_named(self@, name@) {
                Some(i) => match r {
                    Some(x) => self@[i].number_of(ValueType::F64) == Some(x as int),
                    None => self@[i].number_of(ValueType::F64) is None,
                },
                None => r is None,
            },
    {
        proof {
            lemma_first_named(self@, name@);
        }
        match self.find(name) {
            Some(p) => p.get_value_f64(),
            None => None,
        }
    }

    /// The value of the 32-bit integer property at `index`; `None` where
    /// there is no such entry or it is of another kind.
    pub fn get_value_i32_at(&self, index: usize) -> (r: Option<i32>)
        ensures
            index >= self@.len() ==> r is None,
            index < self@.len() ==> (match r {
                Some(x) => self@[index as int].number_of(ValueType::I32) == Some(x as int),
                None => self@[index as int].number_of(ValueType::I32) is None,
            }),
    {
        match self.get(index) {
            Some(p) => p.get_value_i32(),
            None => None,
        }
    }

    /// The value of the first entry called `name`, if that is a 32-bit
    /// integer property.
    pub fn get_value_i32_of(&self, name: &str) -> (r: Option<i32>)
        ensures
            match first_named(self@, name@) {
                Some(i) => match r {
                    Some(x) => self@[i].number_of(ValueType::I32) == Some(x as int),
                    None => self@[i].number_of(ValueType::I32) is None,
                },
                None => r is None,
            },
    {
        proof {
            lemma_first_named(self@, name@);
        }
        match self.find(name) {
            Some(p) => p.get_value_i32(),
            None => None,
        }
    }

    /// The text of the text box at `index`; `None` where there is no such
    /// entry or it is no text box.
    pub fn get_value_string_at(&self, index: usize) -> (r: Option<&str>)
        ensures
            index >= self@.len() ==> r is None,
            index < self@.len() ==> (match r {
                Some(t) => self@[index as int].text_of() == Some(t@),
                None => self@[index as int].text_of() is None,
            }),
    {
        match self.get(index) {
            Some(p) => p.get_value_string(),
            None => None,
        }
    }

    /// The text of the first entry called `name`, if that is a text box.
    pub fn get_value_string_of(&self, name: &str) -> (r: Option<&str>)
        ensures
            match first_named(self@, name@) {
                Some(i) => match r {
                    Some(t) => self@[i].text_of() == Some(t@),
                    None => self@[i].text_of() is None,
                },
                None => r is None,
            },
    {
        proof {
            lemma_first_named(self@, name@);
        }
        match self.find(name) {
            Some(p) => p.get_value_string(),
            None => None,
        }
    }

    /// Selects exactly the entries whose id occurs in `ids`: those become
    /// selected, all others deselected, whatever they were before.
    pub fn select_items(&mut self, ids: &[usize])
        ensures
            final(self)@ == selecting(old(self)@, ids@),
    {
        let mut k: usize = 0;
        while k < self.items.len()
            invariant
                k <= self.items.len(),
                self.items@.len() == old(self).items@.len(),
                forall|j: int|
                    0 <= j < k ==> (#[trigger] self.items@[j])@
                        == old(self).items@[j]@.with_selected(
                        listed(ids@, old(self).items@[j]@.base.id),
                    ),
                forall|j: int| k <= j < self.items@.len() ==> self.items@[j] == old(self).items@[j],
            decreases self.items.len() - k,
        {
            let id = self.items[k].id();
            let chosen = contains_id(ids, id);
            self.items[k].set_selected(chosen);
            k += 1;
        }
        assert(self@ =~= selecting(old(self)@, ids@));
    }

    /// Selects exactly the entries whose id is `id`.
    fn select_only(&mut self, id: usize)
        ensures
            final(self)@ == selecting(old(self)@, seq![id]),
    {
        let mut ids: Vec<usize> = Vec::new();
        ids.push(id);
        assert(ids@ =~= seq![id]);
        self.select_items(ids.as_slice());
    }

    /// The ids of the selected entries, in the order of the sheet.
    pub fn selected_items(&self) -> (r: Vec<usize>)
        ensures
            as_nats(r@) == selected_ids(self@),
    {
        let mut sels: Vec<usize> = Vec::new();
        let mut k: usize = 0;
        assert(self@.take(0) =~= Seq::<PropertyView>::empty());
        assert(as_nats(sels@) =~= selected_ids(self@.take(0))) by {
            reveal_with_fuel(Seq::filter, 1);
        }
        while k < self.items.len()
            invariant
                k <= self.items.len(),
                as_nats(sels@) == selected_ids(self@.take(k as int)),
            decreases self.items.len() - k,
        {
            proof {
                lemma_selected_ids_step(self@, k as int);
            }
            if self.items[k].is_selected() {
                let id = self.items[k].id();
                sels.push(id);
                assert(as_nats(sels@) =~= selected_ids(self@.take(k as int)).push(id as nat));
            }
            k += 1;
        }
        assert(self@.take(self@.len() as int) =~= self@);
        sels
    }

    /// The first selected id, which navigation starts from.
    pub fn pivot_id(&self) -> (r: Option<usize>)
        ensures
            match r {
                Some(i) => pivot(self@) == Some(i as nat),
                None => pivot(self@) is None,
            },
    {
        let sels = self.selected_items();
        if sels.len() > 0 {
            assert(as_nats(sels@)[0] == sels@[0] as nat);
            Some(sels[0])
        } else {
            assert(as_nats(sels@).len() == 0);
            None
        }
    }

    /// The current entry: the one that stands at the first selected id.
    /// `None` where nothing is selected or no entry stands there.
    pub fn current_selected(&self) -> (r: Option<&PropertyItem>)
        ensures
            match current(self@) {
                Some(i) => r == Some(&self.entries()[i]),
                None => r is None,
            },
    {
        match self.pivot_id() {
            Some(i) => self.get(i),
            None => None,
        }
    }

    /// Activates the current entry, forward or backward: triggers an
    /// action, toggles a switch, moves an integer property by one step.
    /// Where the current entry is a floating-point property it is left as
    /// it is and its position is returned: its step is for the caller to
    /// make. Without a current entry nothing changes.
    pub fn activate_current(&mut self, forward: bool) -> (r: Option<usize>)
        ensures
            activation(old(self)@, final(self)@, forward),
            r == awaiting_step(old(self)@),
    {
        match self.pivot_id() {
            Some(i) => {
                if i < self.items.len() {
                    let pending = self.items[i].activate(forward);
                    assert(self@[i as int] == self.items@[i as int]@);
                    assert forall|k: int| 0 <= k < old(self)@.len() && k != i implies self@[k]
                        == old(self)@[k] by {
                        assert(self.items@[k] == old(self).items@[k]);
                    }
                    if pending {
                        Some(i)
                    } else {
                        None
                    }
                } else {
                    None
                }
            },
            None => None,
        }
    }

    /// Moves the selection one entry towards the front, or two where the
    /// entry in between cannot be selected. Without a selection the last
    /// entry is selected. At the front nothing changes.
    pub fn select_prev(&mut self)
        ensures
            final(self)@ == moved_to(old(self)@, prev_target(old(self)@, false)),
    {
        let len = self.items.len();
        match self.pivot_id() {
            Some(i) => {
                if i > 0 && i < len {
                    if !self.items[i - 1].is_selectable() && i >= 2 {
                        self.select_only(i - 2);
                    } else {
                        self.select_only(i - 1);
                    }
                }
            },
            None => {
                if len > 0 {
                    self.select_only(len - 1);
                }
            },
        }
    }

    /// Moves the selection one entry towards the front, or two where the
    /// entry in between cannot be selected. Without a selection, and from
    /// the front, the last entry is selected.
    pub fn select_prev_wrapped(&mut self)
        ensures
            final(self)@ == moved_to(old(self)@, prev_target(old(self)@, true)),
    {
        let len = self.items.len();
        match self.pivot_id() {
            Some(i) => {
                if i > 0 {
                    if i - 1 < len {
                        if !self.items[i - 1].is_selectable() && i >= 2 {
                            self.select_only(i - 2);
                        } else {
                            self.select_only(i - 1);
                        }
                    }
                } else {
                    proof {
                        lemma_selection_needs_entries(self@);
                    }
                    self.select_only(len - 1);
                }
            },
            None => {
                if len > 0 {
                    self.select_only(len - 1);
                }
            },
        }
    }

    /// Moves the selection one entry towards the end, or two where the
    /// entry in between cannot be selected. Without a selection the first
    /// entry is selected. At the end nothing changes.
    pub fn select_next(&mut self)
        ensures
            final(self)@ == moved_to(old(self)@, next_target(old(self)@, false)),
    {
        let len = self.items.len();
        match self.pivot_id() {
            Some(i) => {
                if len > 0 && i < len - 1 {
                    if !self.items[i + 1].is_selectable() && i + 2 < len {
                        self.select_only(i + 2);
                    } else {
                        self.select_only(i + 1);
                    }
                }
            },
            None => {
                self.select_only(0);
            },
        }
    }

    /// Moves the selection one entry towards the end, or two where the
    /// entry in between cannot be selected. Without a selection, and from
    /// the end, the first entry is selected.
    pub fn select_next_wrapped(&mut self)
        ensures
            final(self)@ == moved_to(old(self)@, next_target(old(self)@, true)),
    {
        let len = self.items.len();
        match self.pivot_id() {
            Some(i) => {
                if len > 0 && i < len - 1 {
                    if !self.items[i + 1].is_selectable() && i + 2 < len {
                        self.select_only(i + 2);
                    } else {
                        self.select_only(i + 1);
                    }
                } else {
                    self.select_only(0);
                }
            },
            None => {
                self.select_only(0);
            },
        }
    }

    /// Adds a push button with the label `text` at the end, which asks
    /// `callback` when it is triggered.
    pub fn action_button(
        &mut self,
        name: &'static str,
        text: &'static str,
        callback: Box<dyn ActionCallback>,
    )
        ensures
            final(self)@ == appended(
                old(self)@,
                fresh_button(
                    name@,
                    text@,
                    |property: BaseView, requested: bool| callback.answer(property, requested),
                ),
            ),
            ids_in_order(old(self)@) ==> ids_in_order(final(self)@),
    {
        let mut callback = callback;
        let p = PropertyAction::button_from(name, text, &mut callback);
        self.append(p);
    }

    /// Adds a check box at the end, which asks `callback` when it is
    /// triggered.
    pub fn action_check_box(
        &mut self,
        name: &'static str,
        checked: bool,
        callback: Box<dyn ActionCallback>,
    )
        ensures
            final(self)@ == appended(
                old(self)@,
                fresh_check_box(
                    name@,
                    checked,
                    |property: BaseView, requested: bool| callback.answer(property, requested),
                ),
            ),
            ids_in_order(old(self)@) ==> ids_in_order(final(self)@),
    {
        let mut callback = callback;
        let p = PropertyAction::check_box_from(name, checked, &mut callback);
        self.append(p);
    }

    /// Adds a 32-bit floating-point slider, its numbers given as bit patterns, at the end.
    pub fn slider_f32(&mut self, name: &'static str, range: (u32, u32), step: u32, def_val: u32)
        ensures
            final(self)@ == appended(
                old(self)@,
                fresh_number(
                    fresh_base(
                        name@,
                        Seq::<Seq<char>>::empty(),
                        ValueType::F32,
                        WidgetType::Slider,
                    ),
                    range.0 as int,
                    range.1 as int,
                    step as int,
                    def_val as int,
                ),
            ),
            ids_in_order(old(self)@) ==> ids_in_order(final(self)@),
    {
        let p = PropertyF32::with_slider(name, range, step, def_val);
        self.append(p);
    }

    /// Adds a 64-bit floating-point slider, its numbers given as bit patterns, at the end.
    pub fn slider_f64(&mut self, name: &'static str, range: (u64, u64), step: u64, def_val: u64)
        ensures
            final(self)@ == appended(
                old(self)@,
                fresh_number(
                    fresh_base(
                        name@,
                        Seq::<Seq<char>>::empty(),
                        ValueType::F64,
                        WidgetType::Slider,
                    ),
                    range.0 as int,
                    range.1 as int,
                    step as int,
                    def_val as int,
                ),
            ),
            ids_in_order(old(self)@) ==> ids_in_order(final(self)@),
    {
        let p = PropertyF64::with_slider(name, range, step, def_val);
        self.append(p);
    }

    /// Adds a choice among `options`, drawn as a combo box, at the end. `options` is not empty.
    pub fn combo_box_i32(&mut self, name: &'static str, options: &[&'static str], def_val: i32)
        requires
            0 < options@.len() <= 0x8000_0000,
        ensures
            final(self)@ == appended(
                old(self)@,
                fresh_number(
                    fresh_base(name@, texts(options@), ValueType::I32, WidgetType::ComboBox),
                    0,
                    options@.len() - 1,
                    1,
                    def_val as int,
                ),
            ),
            ids_in_order(old(self)@) ==> ids_in_order(final(self)@),
    {
        let p = PropertyI32::with_combo_box(name, options, def_val);
        self.append(p);
    }

    /// Adds a choice among `options`, drawn as a select, at the end. `options` is not empty.
    pub fn select_i32(&mut self, name: &'static str, options: &[&'static str], def_val: i32)
        requires
            0 < options@.len() <= 0x8000_0000,
        ensures
            final(self)@ == appended(
                old(self)@,
                fresh_number(
                    fresh_base(name@, texts(options@), ValueType::I32, WidgetType::Select),
                    0,
                    options@.len() - 1,
                    1,
                    def_val as int,
                ),
            ),
            ids_in_order(old(self)@) ==> ids_in_order(final(self)@),
    {
        let p = PropertyI32::with_select(name, options, def_val);
        self.append(p);
    }

    /// Adds a separator at the end.
    pub fn separator(&mut self)
        ensures
            final(self)@ == appended(old(self)@, fresh_separator()),
            ids_in_order(old(self)@) ==> ids_in_order(final(self)@),
    {
        let p = PropertyDummy::with_separator();
        self.append(p);
    }

    /// Adds a 32-bit integer slider at the end.
    pub fn slider_i32(&mut self, name: &'static str, range: (i32, i32), step: i32, def_val: i32)
        ensures
            final(self)@ == appended(
                old(self)@,
                fresh_number(
                    fresh_base(
                        name@,
                        Seq::<Seq<char>>::empty(),
                        ValueType::I32,
                        WidgetType::Slider,
                    ),
                    range.0 as int,
                    range.1 as int,
                    step as int,
                    def_val as int,
                ),
            ),
            ids_in_order(old(self)@) ==> ids_in_order(final(self)@),
    {
        let p = PropertyI32::with_slider(name, range, step, def_val);
        self.append(p);
    }

    /// Adds a 64-bit integer slider at the end.
    pub fn slider_i64(&mut self, name: &'static str, range: (i64, i64), step: i64, def_val: i64)
        ensures
            final(self)@ == appended(
                old(self)@,
                fresh_number(
                    fresh_base(
                        name@,
                        Seq::<Seq<char>>::empty(),
                        ValueType::I64,
                        WidgetType::Slider,
                    ),
                    range.0 as int,
                    range.1 as int,
                    step as int,
                    def_val as int,
                ),
            ),
            ids_in_order(old(self)@) ==> ids_in_order(final(self)@),
    {
        let p = PropertyI64::with_slider(name, range, step, def_val);
        self.append(p);
    }

    /// Adds a 32-bit floating-point spin box, its numbers given as bit patterns, at the end.
    pub fn spin_box_f32(&mut self, name: &'static str, range: (u32, u32), step: u32, def_val: u32)
        ensures
            final(self)@ == appended(
                old(self)@,
                fresh_number(
                    fresh_base(
                        name@,
                        Seq::<Seq<char>>::empty(),
                        ValueType::F32,
                        WidgetType::SpinBox,
                    ),
                    range.0 as int,
                    range.1 as int,
                    step as int,
                    def_val as int,
                ),
            ),
            ids_in_order(old(self)@) ==> ids_in_order(final(self)@),
    {
        let p = PropertyF32::with_spin_box(name, range, step, def_val);
        self.append(p);
    }

    /// Adds a 64-bit floating-point spin box, its numbers given as bit patterns, at the end.
    pub fn spin_box_f64(&mut self, name: &'static str, range: (u64, u64), step: u64, def_val: u64)
        ensures
            final(self)@ == appended(
                old(self)@,
                fresh_number(
                    fresh_base(
                        name@,
                        Seq::<Seq<char>>::empty(),
                        ValueType::F64,
                        WidgetType::SpinBox,
                    ),
                    range.0 as int,
                    range.1 as int,
                    step as int,
                    def_val as int,
                ),
            ),
            ids_in_order(old(self)@) ==> ids_in_order(final(self)@),
    {
        let p = PropertyF64::with_spin_box(name, range, step, def_val);
        self.append(p);
    }

    /// Adds a 32-bit integer spin box at the end.
    pub fn spin_box_i32(&mut self, name: &'static str, range: (i32, i32), step: i32, def_val: i32)
        ensures
            final(self)@ == appended(
                old(self)@,
                fresh_number(
                    fresh_base(
                        name@,
                        Seq::<Seq<char>>::empty(),
                        ValueType::I32,
                        WidgetType::SpinBox,
                    ),
                    range.0 as int,
                    range.1 as int,
                    step as int,
                    def_val as int,
                ),
            ),
            ids_in_order(old(self)@) ==> ids_in_order(final(self)@),
    {
        let p = PropertyI32::with_spin_box(name, range, step, def_val);
        self.append(p);
    }

    /// Adds a 64-bit integer spin box at the end.
    pub fn spin_box_i64(&mut self, name: &'static str, range: (i64, i64), step: i64, def_val: i64)
        ensures
            final(self)@ == appended(
                old(self)@,
                fresh_number(
                    fresh_base(
                        name@,
                        Seq::<Seq<char>>::empty(),
                        ValueType::I64,
                        WidgetType::SpinBox,
                    ),
                    range.0 as int,
                    range.1 as int,
                    step as int,
                    def_val as int,
                ),
            ),
            ids_in_order(old(self)@) ==> ids_in_order(final(self)@),
    {
        let p = PropertyI64::with_spin_box(name, range, step, def_val);
        self.append(p);
    }

    /// Adds a switch at the end.
    pub fn switch(&mut self, name: &'static str, def_val: bool)
        ensures
            final(self)@ == appended(old(self)@, fresh_switch(name@, def_val)),
            ids_in_order(old(self)@) ==> ids_in_order(final(self)@),
    {
        let p = PropertyBool::with_switch(name, def_val);
        self.append(p);
    }

    /// Adds a text box at the end.
    pub fn text_box(&mut self, name: &'static str, max_length: usize, def_val: &'static str)
        ensures
            final(self)@ == appended(
                old(self)@,
                fresh_text_box(name@, max_length as nat, def_val@),
            ),
            ids_in_order(old(self)@) ==> ids_in_order(final(self)@),
    {
        let p = PropertyString::with_text_box(name, max_length, def_val);
        self.append(p);
    }
}

/// An activation changes no id and no selection flag, so the selected ids,
/// the pivot and the current entry stay what they were.
pub proof fn lemma_activation_keeps_selection(
    before: Seq<PropertyView>,
    after: Seq<PropertyView>,
    forward: bool,
)
    requires
        activation(before, after, forward),
    ensures
        selected_ids(after) == selected_ids(before),
        pivot(after) == pivot(before),
        current(after) == current(before),
        awaiting_step(after) == awaiting_step(before),
        after.len() == before.len(),
{
    lemma_same_flags_same_selection(before, after);
}

} // verus!
