//! Laws of the registry that hold over whole histories: of structural
//! edits, of steps and of value changes.

use vstd::prelude::*;
use crate::ieee::{is_nan, lemma_clamp_bits_is_median, rank};
use crate::number::{admitted, admitted_bits, stepped};
use crate::order::{appended, ids_in_order, inserted, removed};
use crate::scalar::{greater, lemma_clamp_is_median, lesser, median};
use crate::view::{Payload, PropertyView};

verus! {

/// One structural edit of a sheet.
pub enum Edit {
    /// Add the entry at the end.
    Append(PropertyView),
    /// Place the entry at the position.
    Insert(int, PropertyView),
    /// Take out the entry at the position.
    Remove(int),
}

/// The position of the edit lies in the sheet: up to the length for an
/// insertion, below it for a removal.
pub open spec fn edit_fits(s: Seq<PropertyView>, e: Edit) -> bool {
    match e {
        Edit::Append(_) => true,
        Edit::Insert(i, _) => 0 <= i <= s.len(),
        Edit::Remove(i) => 0 <= i < s.len(),
    }
}

/// The sheet after one edit.
pub open spec fn edited(s: Seq<PropertyView>, e: Edit) -> Seq<PropertyView> {
    match e {
        Edit::Append(v) => appended(s, v),
        Edit::Insert(i, v) => inserted(s, i, v),
        Edit::Remove(i) => removed(s, i),
    }
}

/// Each edit of the history fits the sheet that the edits before it left.
pub open spec fn edits_fit(s: Seq<PropertyView>, es: Seq<Edit>) -> bool
    decreases es.len(),
{
    es.len() == 0 || (edit_fits(s, es[0]) && edits_fit(edited(s, es[0]), es.drop_first()))
}

/// The sheet after a history of edits.
pub open spec fn after_edits(s: Seq<PropertyView>, es: Seq<Edit>) -> Seq<PropertyView>
    decreases es.len(),
{
    if es.len() == 0 {
        s
    } else {
        after_edits(edited(s, es[0]), es.drop_first())
    }
}

/// One edit that fits keeps the ids in order.
pub proof fn lemma_edit_keeps_ids_in_order(s: Seq<PropertyView>, e: Edit)
    requires
        ids_in_order(s),
        edit_fits(s, e),
    ensures
        ids_in_order(edited(s, e)),
{
}

/// After any history of appends, insertions and removals, starting from a
/// sheet whose ids are in order (the empty sheet is one), every entry
/// carries its position as its id.
pub proof fn lemma_identity_invariant(s: Seq<PropertyView>, es: Seq<Edit>)
    requires
        ids_in_order(s),
        edits_fit(s, es),
    ensures
        ids_in_order(after_edits(s, es)),
        forall|k: int|
            0 <= k < after_edits(s, es).len() ==> (#[trigger] after_edits(s, es)[k]).base.id == k,
    decreases es.len(),
{
    if es.len() > 0 {
        lemma_edit_keeps_ids_in_order(s, es[0]);
        lemma_identity_invariant(edited(s, es[0]), es.drop_first());
    }
}

/// An integer property asked to hold `v` holds the median of `v` and the
/// two bounds of its range, whichever bound is the smaller.
pub proof fn lemma_set_value_is_median(p: Payload, v: int)
    requires
        p is Number,
    ensures
        p matches Payload::Number { lo, hi, .. } && admitted(p, v) == median(lo, v, hi)
            && lesser(lo, hi) <= admitted(p, v) <= greater(lo, hi),
{
    match p {
        Payload::Number { lo, hi, .. } => {
            lemma_clamp_is_median(v, lo, hi);
        },
        _ => {},
    }
}

/// A floating-point property asked to hold the number `v` holds the one of
/// `v` and the two bounds of its range that is the median in the order of
/// the numbers, where the bounds are numbers, whichever is the smaller.
pub proof fn lemma_set_bits_is_median(p: Payload, v: int, sign: int, infinity: int)
    requires
        0 <= infinity < sign,
        0 <= v < 2 * sign,
        !is_nan(v, sign, infinity),
        p matches Payload::Number { lo, hi, .. } && 0 <= lo < 2 * sign && 0 <= hi < 2 * sign
            && !is_nan(lo, sign, infinity) && !is_nan(hi, sign, infinity),
    ensures
        p matches Payload::Number { lo, hi, .. } && rank(admitted_bits(p, v, sign, infinity), sign)
            == median(rank(lo, sign), rank(v, sign), rank(hi, sign)),
{
    match p {
        Payload::Number { lo, hi, .. } => {
            lemma_clamp_bits_is_median(v, lo, hi, sign, infinity);
        },
        _ => {},
    }
}

/// The property after a history of steps, `true` for a step forward and
/// `false` for a step backward.
pub open spec fn after_steps(v: PropertyView, steps: Seq<bool>) -> PropertyView
    decreases steps.len(),
{
    if steps.len() == 0 {
        v
    } else {
        after_steps(v.with_number(stepped(v.payload, steps[0])), steps.drop_first())
    }
}

/// The property holds a number between the two bounds of its range.
pub open spec fn in_range(v: PropertyView) -> bool {
    v.payload matches Payload::Number { lo, hi, value, .. } && lesser(lo, hi) <= value <= greater(
        lo,
        hi,
    )
}

/// After one step or more, in any directions and from any value, the value
/// of a number property lies between the two bounds of its range. From a
/// value between the bounds this also holds after no step.
pub proof fn lemma_steps_stay_in_range(v: PropertyView, steps: Seq<bool>)
    requires
        v.payload is Number,
        steps.len() > 0 || in_range(v),
    ensures
        in_range(after_steps(v, steps)),
        after_steps(v, steps).base == v.base,
    decreases steps.len(),
{
    if steps.len() > 0 {
        match v.payload {
            Payload::Number { lo, hi, step, value, .. } => {
                let target = if steps[0] {
                    value + step
                } else {
                    value - step
                };
                lemma_clamp_is_median(target, lo, hi);
            },
            _ => {},
        }
        lemma_steps_stay_in_range(v.with_number(stepped(v.payload, steps[0])), steps.drop_first());
    }
}

} // verus!
