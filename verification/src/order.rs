//! A sheet as a sequence of property views: what the structural operations,
//! the lookups and the selection do to it.

use vstd::prelude::*;
use crate::view::PropertyView;

verus! {

/// Every entry carries its position as its id.
pub open spec fn ids_in_order(s: Seq<PropertyView>) -> bool {
    forall|k: int| 0 <= k < s.len() ==> (#[trigger] s[k]).base.id == k
}

/// The same entries, each with its position as its id.
pub open spec fn renumbered(s: Seq<PropertyView>) -> Seq<PropertyView> {
    Seq::new(s.len(), |k: int| s[k].with_id(k as nat))
}

/// `item` added at the end, with the former length as its id.
pub open spec fn appended(s: Seq<PropertyView>, item: PropertyView) -> Seq<PropertyView> {
    s.push(item.with_id(s.len()))
}

/// `item` placed at `index` with `index` as its id; the entries before it
/// untouched; each entry from `index` on moved one place up, its id raised
/// by one.
pub open spec fn inserted(s: Seq<PropertyView>, index: int, item: PropertyView) -> Seq<
    PropertyView,
> {
    Seq::new(
        s.len() + 1,
        |k: int|
            if k < index {
                s[k]
            } else if k == index {
                item.with_id(index as nat)
            } else {
                s[k - 1].with_id(s[k - 1].base.id + 1)
            },
    )
}

/// The entry at `index` taken out; the entries before it untouched; each
/// entry behind it moved one place down, its id lowered by one.
pub open spec fn removed(s: Seq<PropertyView>, index: int) -> Seq<PropertyView> {
    Seq::new(
        (s.len() - 1) as nat,
        |k: int|
            if k < index {
                s[k]
            } else {
                s[k + 1].with_id((s[k + 1].base.id - 1) as nat)
            },
    )
}

/// `i` is the first position whose entry is called `name`.
pub open spec fn is_first_named(s: Seq<PropertyView>, name: Seq<char>, i: int) -> bool {
    &&& 0 <= i < s.len()
    &&& s[i].base.name == name
    &&& forall|j: int| 0 <= j < i ==> (#[trigger] s[j]).base.name != name
}

/// The first position whose entry is called `name`, if there is one.
pub open spec fn first_named(s: Seq<PropertyView>, name: Seq<char>) -> Option<int> {
    if exists|i: int| is_first_named(s, name, i) {
        Some(choose|i: int| is_first_named(s, name, i))
    } else {
        None
    }
}

/// Among the entries that share a name, the first one is found: a position
/// that is the first of its name is the one that `first_named` gives, and
/// no entry before it has the name. Where no entry has the name, nothing is
/// found.
pub proof fn lemma_first_named(s: Seq<PropertyView>, name: Seq<char>)
    ensures
        forall|i: int| is_first_named(s, name, i) ==> first_named(s, name) == Some(i),
        first_named(s, name) matches Some(i) ==> is_first_named(s, name, i),
        first_named(s, name) is None <==> forall|j: int|
            0 <= j < s.len() ==> (#[trigger] s[j]).base.name != name,
        first_named(s, name) matches Some(i) ==> forall|j: int|
            0 <= j < s.len() && (#[trigger] s[j]).base.name == name ==> i <= j,
{
    assert forall|i: int| is_first_named(s, name, i) implies first_named(s, name) == Some(i) by {
        let c = choose|c: int| is_first_named(s, name, c);
        assert(is_first_named(s, name, c));
        if c < i {
            assert(s[c].base.name != name);
        }
        if i < c {
            assert(s[i].base.name != name);
        }
    }
    if first_named(s, name) is None {
        assert forall|j: int| 0 <= j < s.len() implies (#[trigger] s[j]).base.name != name by {
            if s[j].base.name == name {
                lemma_some_first(s, name, j);
            }
        }
    }
}

/// Where some entry up to `j` is called `name`, there is a first one.
proof fn lemma_some_first(s: Seq<PropertyView>, name: Seq<char>, j: int)
    requires
        0 <= j < s.len(),
        s[j].base.name == name,
    ensures
        exists|i: int| is_first_named(s, name, i),
    decreases j,
{
    if exists|k: int| 0 <= k < j && (#[trigger] s[k]).base.name == name {
        let k = choose|k: int| 0 <= k < j && (#[trigger] s[k]).base.name == name;
        lemma_some_first(s, name, k);
    } else {
        assert(is_first_named(s, name, j));
    }
}

/// `id` occurs in `ids`.
pub open spec fn listed(ids: Seq<usize>, id: nat) -> bool {
    exists|j: int| 0 <= j < ids.len() && #[trigger] ids[j] == id
}

/// Exactly the entries whose id occurs in `ids` are selected; nothing else
/// about any entry changes.
pub open spec fn selecting(s: Seq<PropertyView>, ids: Seq<usize>) -> Seq<PropertyView> {
    Seq::new(s.len(), |k: int| s[k].with_selected(listed(ids, s[k].base.id)))
}

/// The ids of the selected entries, in the order of the entries.
pub open spec fn selected_ids(s: Seq<PropertyView>) -> Seq<nat> {
    s.filter(|p: PropertyView| p.base.selected).map_values(|p: PropertyView| p.base.id)
}

/// The id that navigation starts from: that of the first selected entry.
pub open spec fn pivot(s: Seq<PropertyView>) -> Option<nat> {
    if selected_ids(s).len() > 0 {
        Some(selected_ids(s)[0])
    } else {
        None
    }
}

/// The position of the current entry: the pivot, where an entry stands
/// there.
pub open spec fn current(s: Seq<PropertyView>) -> Option<int> {
    match pivot(s) {
        Some(i) if i < s.len() => Some(i as int),
        _ => None,
    }
}

/// The neighbour below the pivot `i`: two places down where the entry one
/// place down cannot be selected and two places down is still in the
/// sheet, else one place down.
pub open spec fn step_down(s: Seq<PropertyView>, i: int) -> int {
    if !s[i - 1].base.selectable() && i >= 2 {
        i - 2
    } else {
        i - 1
    }
}

/// The neighbour above the pivot `i`: two places up where the entry one
/// place up cannot be selected and two places up is still in the sheet,
/// else one place up.
pub open spec fn step_up(s: Seq<PropertyView>, i: int) -> int {
    if !s[i + 1].base.selectable() && i + 2 < s.len() {
        i + 2
    } else {
        i + 1
    }
}

/// The id that a move towards the front selects, if it selects anything.
/// Without a pivot it is the last position. At the front a plain move
/// selects nothing and a wrapped move the last position. A pivot behind
/// the sheet selects nothing, but for a wrapped move from the place just
/// behind the last entry, which steps down from there.
pub open spec fn prev_target(s: Seq<PropertyView>, wrapped: bool) -> Option<int> {
    match pivot(s) {
        None => if s.len() > 0 {
            Some(s.len() - 1)
        } else {
            None
        },
        Some(i) => if i == 0 {
            if wrapped {
                Some(s.len() - 1)
            } else {
                None
            }
        } else if i < s.len() || (wrapped && i == s.len()) {
            Some(step_down(s, i as int))
        } else {
            None
        },
    }
}

/// The id that a move towards the end selects, if it selects anything.
/// Without a pivot it is the first position. At the end, and from a pivot
/// behind the sheet, a plain move selects nothing and a wrapped move the
/// first position.
pub open spec fn next_target(s: Seq<PropertyView>, wrapped: bool) -> Option<int> {
    match pivot(s) {
        None => Some(0),
        Some(i) => if i + 1 < s.len() {
            Some(step_up(s, i as int))
        } else if wrapped {
            Some(0)
        } else {
            None
        },
    }
}

/// The sheet after the selection has moved to `target`, or as it was where
/// there is no target.
pub open spec fn moved_to(s: Seq<PropertyView>, target: Option<int>) -> Seq<PropertyView> {
    match target {
        Some(t) => selecting(s, seq![t as usize]),
        None => s,
    }
}

/// The selected ids of the first `i + 1` entries are those of the first `i`
/// entries, followed by the id of entry `i` where that entry is selected.
pub proof fn lemma_selected_ids_step(s: Seq<PropertyView>, i: int)
    requires
        0 <= i < s.len(),
    ensures
        selected_ids(s.take(i + 1)) == (if s[i].base.selected {
            selected_ids(s.take(i)).push(s[i].base.id)
        } else {
            selected_ids(s.take(i))
        }),
{
    let pred = |p: PropertyView| p.base.selected;
    let front = s.take(i);
    let one = seq![s[i]];
    assert(s.take(i + 1) =~= front + one);
    Seq::filter_distributes_over_add(front, one, pred);
    reveal_with_fuel(Seq::filter, 2);
    assert(one.drop_last() =~= Seq::<PropertyView>::empty());
    if s[i].base.selected {
        assert(one.filter(pred) =~= one);
        assert(selected_ids(s.take(i + 1)) =~= selected_ids(front).push(s[i].base.id));
    } else {
        assert(one.filter(pred) =~= Seq::<PropertyView>::empty());
        assert(front.filter(pred) + Seq::<PropertyView>::empty() =~= front.filter(pred));
    }
}

/// A sheet in which something is selected holds an entry.
pub proof fn lemma_selection_needs_entries(s: Seq<PropertyView>)
    requires
        pivot(s) is Some,
    ensures
        s.len() > 0,
{
    s.lemma_filter_len(|p: PropertyView| p.base.selected);
}

/// Two sheets of one length whose entries agree in id and selection flag
/// have the same selected ids.
pub proof fn lemma_same_flags_same_selection(s: Seq<PropertyView>, t: Seq<PropertyView>)
    requires
        s.len() == t.len(),
        forall|k: int|
            0 <= k < s.len() ==> (#[trigger] s[k]).base.id == t[k].base.id && s[k].base.selected
                == t[k].base.selected,
    ensures
        selected_ids(s) == selected_ids(t),
    decreases s.len(),
{
    reveal_with_fuel(Seq::filter, 1);
    if s.len() > 0 {
        let n = s.len() - 1;
        lemma_same_flags_same_selection(s.take(n), t.take(n));
        lemma_selected_ids_step(s, n);
        lemma_selected_ids_step(t, n);
        assert(s.take(n + 1) =~= s);
        assert(t.take(n + 1) =~= t);
    } else {
        assert(s =~= t);
    }
}

/// In a sheet in which the entry at `t` is selected and no other, the
/// selected ids are the id of that entry alone.
pub proof fn lemma_one_selected(s: Seq<PropertyView>, t: int, k: int)
    requires
        0 <= t < s.len(),
        0 <= k <= s.len(),
        forall|j: int| 0 <= j < s.len() ==> (#[trigger] s[j]).base.selected == (j == t),
    ensures
        selected_ids(s.take(k)) == (if k <= t {
            Seq::<nat>::empty()
        } else {
            seq![s[t].base.id]
        }),
        k == s.len() ==> selected_ids(s) == seq![s[t].base.id],
    decreases k,
{
    if k > 0 {
        lemma_one_selected(s, t, k - 1);
        lemma_selected_ids_step(s, k - 1);
        assert(Seq::<nat>::empty().push(s[t].base.id) =~= seq![s[t].base.id]);
    } else {
        reveal_with_fuel(Seq::filter, 1);
        assert(s.take(0) =~= Seq::<PropertyView>::empty());
        assert(selected_ids(s.take(0)) =~= Seq::<nat>::empty());
    }
    if k == s.len() {
        assert(s.take(k) =~= s);
    }
}

/// Selecting the one id `t` in a sheet whose ids are in order selects the
/// entry at position `t` and no other: it is the pivot and the current
/// entry, and the ids stay in order.
pub proof fn lemma_selecting_one(s: Seq<PropertyView>, t: int)
    requires
        ids_in_order(s),
        0 <= t < s.len(),
        t <= usize::MAX,
    ensures
        selected_ids(selecting(s, seq![t as usize])) == seq![t as nat],
        pivot(selecting(s, seq![t as usize])) == Some(t as nat),
        current(selecting(s, seq![t as usize])) == Some(t),
        ids_in_order(selecting(s, seq![t as usize])),
        forall|k: int|
            0 <= k < s.len() ==> (#[trigger] selecting(s, seq![t as usize])[k])
                == s[k].with_selected(k == t),
{
    let ids = seq![t as usize];
    let u = selecting(s, ids);
    assert forall|k: int| 0 <= k < s.len() implies (#[trigger] u[k]) == s[k].with_selected(
        k == t,
    ) by {
        if k == t {
            assert(ids[0] == s[k].base.id);
        }
    }
    lemma_one_selected(u, t, u.len() as int);
}

/// A move in a sheet whose ids are in order, with the pivot in the sheet,
/// ends with exactly one entry selected, the target of the move, or leaves
/// the sheet as it was.
pub proof fn lemma_move_selects_target(s: Seq<PropertyView>, forward: bool, wrapped: bool)
    requires
        ids_in_order(s),
        s.len() <= usize::MAX,
        pivot(s) matches Some(i) ==> i < s.len(),
    ensures
        ({
            let target = if forward {
                next_target(s, wrapped)
            } else {
                prev_target(s, wrapped)
            };
            match target {
                Some(t) => s.len() == 0 || (0 <= t < s.len() && selected_ids(moved_to(s, target))
                    == seq![t as nat]),
                None => moved_to(s, target) == s,
            }
        }),
{
    let target = if forward {
        next_target(s, wrapped)
    } else {
        prev_target(s, wrapped)
    };
    if pivot(s) is Some {
        lemma_selection_needs_entries(s);
    }
    match target {
        Some(t) => {
            if s.len() > 0 {
                lemma_selecting_one(s, t);
            }
        },
        None => {},
    }
}

} // verus!
