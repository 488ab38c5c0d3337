//! Keyboard layouts of a base and an extras rules file, merged so that a
//! failure to read either one fails the whole.

use vstd::prelude::*;

use crate::section::{RulesError, RulesErrorKind};
use crate::{KeyboardLayouts, LayoutList};

verus! {

/// The layouts of each list, one list after the other, in order.
pub open spec fn flatten_layout_lists(lists: Seq<LayoutList>) -> Seq<crate::KeyboardLayout>
    decreases lists.len(),
{
    if lists.len() == 0 {
        Seq::empty()
    } else {
        flatten_layout_lists(lists.drop_last()) + lists.last()@
    }
}

/// Concatenates the layouts of all lists, keeping their order.
pub fn concat_layout_lists(layouts: Vec<LayoutList>) -> (r: LayoutList)
    ensures
        r@ == flatten_layout_lists(layouts@),
{
    let mut new_layouts: Vec<crate::KeyboardLayout> = Vec::new();
    let ghost all = layouts@;
    for layout_list in it: layouts
        invariant
            all == it.seq(),
            new_layouts@ == flatten_layout_lists(all.take(it.index() as int)),
    {
        let mut l = layout_list.layout;
        proof {
            assert(all.take(it.index() + 1).drop_last() == all.take(it.index() as int));
        }
        new_layouts.append(&mut l);
    }
    proof {
        assert(all.take(all.len() as int) == all);
    }
    LayoutList { layout: new_layouts }
}

/// Extends the layouts of `base` with those of `extras`.
pub fn merge_rules(base: KeyboardLayouts, extras: KeyboardLayouts) -> (r: KeyboardLayouts)
    ensures
        r@ == base@ + extras@,
{
    let mut lists: Vec<LayoutList> = Vec::new();
    lists.push(base.layout_list);
    lists.push(extras.layout_list);
    let merged = concat_layout_lists(lists);
    proof {
        reveal_with_fuel(flatten_layout_lists, 3);
    }
    KeyboardLayouts { layout_list: merged }
}

/// The layouts of a base and an extras rules file, merged: where either
/// could not be read, the error comes back as invalid data with the same
/// message, the base file's error first.
pub fn all_keyboard_layouts(
    base: Result<KeyboardLayouts, RulesError>,
    extras: Result<KeyboardLayouts, RulesError>,
) -> (r: Result<KeyboardLayouts, RulesError>)
    ensures
        (base is Ok && extras is Ok) ==> (r is Ok && r->Ok_0@ == base->Ok_0@ + extras->Ok_0@),
        base is Err ==> (r is Err && r->Err_0.kind == RulesErrorKind::InvalidData
            && r->Err_0.message@ == base->Err_0.message@),
        (base is Ok && extras is Err) ==> (r is Err && r->Err_0.kind == RulesErrorKind::InvalidData
            && r->Err_0.message@ == extras->Err_0.message@),
{
    match (base, extras) {
        (Ok(base_rules), Ok(extras_rules)) => Ok(merge_rules(base_rules, extras_rules)),
        (Err(why), _) => Err(RulesError::invalid_data(why.message)),
        (_, Err(why)) => Err(RulesError::invalid_data(why.message)),
    }
}

/// Concatenating the lists of two runs of lists one after the other gives
/// the same layouts as concatenating all the lists in one run.
pub proof fn law_concat_layout_lists_split(first: Seq<LayoutList>, second: Seq<LayoutList>)
    ensures
        flatten_layout_lists(first + second) == flatten_layout_lists(first) + flatten_layout_lists(
            second,
        ),
    decreases second.len(),
{
    if second.len() == 0 {
        assert(first + second == first);
    } else {
        law_concat_layout_lists_split(first, second.drop_last());
        assert((first + second).drop_last() == first + second.drop_last());
    }
}

/// Each list contributes all its layouts, after those of the lists before it;
/// a single list gives exactly its own layouts.
pub proof fn law_flatten_layout_lists_push(lists: Seq<LayoutList>, list: LayoutList)
    ensures
        flatten_layout_lists(lists.push(list)) == flatten_layout_lists(lists) + list@,
        flatten_layout_lists(seq![list]) == list@,
{
    assert(lists.push(list).drop_last() == lists);
    let single = seq![list];
    assert(single.drop_last() =~= Seq::<LayoutList>::empty());
    assert(flatten_layout_lists(Seq::<LayoutList>::empty()) + list@ =~= list@);
}

} // verus!
