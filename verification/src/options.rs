//! Options, as described in the XML files of xkeyboard-config, and the
//! merging of the option groups of a base and an extras rules file.

use vstd::prelude::*;

use crate::section::{fetch_user_section, found_lists, RulesError, RulesErrorKind};
use crate::{AccessList, ConfigItem};

verus! {

/// The options section of a rules file (`optionList`).
#[derive(Debug, Clone)]
pub struct XkbOptions {
    pub option_list: XkbOptionGroupList,
}

/// A list of option groups.
#[derive(Debug, Clone)]
pub struct XkbOptionGroupList {
    pub group: Vec<XkbOptionGroup>,
}

/// A group of options; the attribute `allowMultipleSelection` says whether
/// more than one option of the group may be selected.
#[derive(Debug, Clone)]
pub struct XkbOptionGroup {
    pub allow_multiple_selection: bool,
    pub config_item: ConfigItem,
    pub xkb_option: Vec<XkbOption>,
}

/// A single option.
#[derive(Debug, Clone)]
pub struct XkbOption {
    pub config_item: ConfigItem,
}

impl View for XkbOptionGroupList {
    type V = Seq<XkbOptionGroup>;

    open spec fn view(&self) -> Seq<XkbOptionGroup> {
        self.group@
    }
}

impl View for XkbOptions {
    type V = Seq<XkbOptionGroup>;

    open spec fn view(&self) -> Seq<XkbOptionGroup> {
        self.option_list@
    }
}

impl AccessList for XkbOptions {
    type InnerType = XkbOptionGroup;

    open spec fn list_view(&self) -> Seq<XkbOptionGroup> {
        self@
    }

    fn get_list(&self) -> (r: &[XkbOptionGroup]) {
        self.option_list.group.as_slice()
    }

    fn get_mut_list(&mut self) -> (r: &mut [XkbOptionGroup]) {
        self.option_list.group.as_mut_slice()
    }

    fn set_list(&mut self, list: Vec<XkbOptionGroup>) {
        self.option_list.group = list;
    }

    fn take_list(self) -> (r: Vec<XkbOptionGroup>) {
        self.option_list.group
    }

    fn new(list: Vec<XkbOptionGroup>) -> (r: Self) {
        XkbOptions { option_list: XkbOptionGroupList { group: list } }
    }
}

impl XkbOption {
    /// Fetches the name of the option.
    pub fn name(&self) -> (r: &str)
        ensures
            r@ == self.config_item.name@,
    {
        self.config_item.name.as_str()
    }

    /// Fetches a description of the option.
    pub fn description(&self) -> (r: &str)
        ensures
            r@ == self.config_item.description@,
    {
        self.config_item.description.as_str()
    }
}

impl XkbOptionGroup {
    /// Fetches the name of the option group.
    pub fn name(&self) -> (r: &str)
        ensures
            r@ == self.config_item.name@,
    {
        self.config_item.name.as_str()
    }

    /// Fetches a description of the option group.
    pub fn description(&self) -> (r: &str)
        ensures
            r@ == self.config_item.description@,
    {
        self.config_item.description.as_str()
    }

    /// Fetches the list of possible options.
    pub fn options(&self) -> (r: &Vec<XkbOption>)
        ensures
            r@ == self.xkb_option@,
    {
        &self.xkb_option
    }

    /// Is selecting multiple options allowed.
    pub fn multiple_options_allowed(&self) -> (r: bool)
        ensures
            r == self.allow_multiple_selection,
    {
        self.allow_multiple_selection
    }
}

/// The groups of each list, one list after the other, in order.
pub open spec fn flatten_group_lists(lists: Seq<XkbOptionGroupList>) -> Seq<XkbOptionGroup>
    decreases lists.len(),
{
    if lists.len() == 0 {
        Seq::empty()
    } else {
        flatten_group_lists(lists.drop_last()) + lists.last()@
    }
}

/// Concatenates the groups of all lists, keeping their order.
pub fn concat_group_lists(groups: Vec<XkbOptionGroupList>) -> (r: XkbOptionGroupList)
    ensures
        r@ == flatten_group_lists(groups@),
{
    let mut new_groups: Vec<XkbOptionGroup> = Vec::new();
    let ghost all = groups@;
    for group in it: groups
        invariant
            all == it.seq(),
            new_groups@ == flatten_group_lists(all.take(it.index() as int)),
    {
        let mut g = group.group;
        proof {
            assert(all.take(it.index() + 1).drop_last() == all.take(it.index() as int));
        }
        new_groups.append(&mut g);
    }
    proof {
        assert(all.take(all.len() as int) == all);
    }
    XkbOptionGroupList { group: new_groups }
}

/// Extends the option groups of `base` with those of `extras`.
pub fn merge_options(base: XkbOptions, extras: XkbOptions) -> (r: XkbOptions)
    ensures
        r@ == base@ + extras@,
{
    let mut lists: Vec<XkbOptionGroupList> = Vec::new();
    lists.push(base.option_list);
    lists.push(extras.option_list);
    let merged = concat_group_lists(lists);
    proof {
        reveal_with_fuel(flatten_group_lists, 3);
    }
    XkbOptions { option_list: merged }
}

/// The options of a base and an extras rules file, merged: where either
/// could not be read, the error comes back as invalid data with the same
/// message, the base file's error first.
pub fn all_xkb_options(
    base: Result<XkbOptions, RulesError>,
    extras: Result<XkbOptions, RulesError>,
) -> (r: Result<XkbOptions, RulesError>)
    ensures
        (base is Ok && extras is Ok) ==> (r is Ok && r->Ok_0@ == base->Ok_0@ + extras->Ok_0@),
        base is Err ==> (r is Err && r->Err_0.kind == RulesErrorKind::InvalidData
            && r->Err_0.message@ == base->Err_0.message@),
        (base is Ok && extras is Err) ==> (r is Err && r->Err_0.kind == RulesErrorKind::InvalidData
            && r->Err_0.message@ == extras->Err_0.message@),
{
    match (base, extras) {
        (Ok(base_rules), Ok(extras_rules)) => Ok(merge_options(base_rules, extras_rules)),
        (Err(why), _) => Err(RulesError::invalid_data(why.message)),
        (_, Err(why)) => Err(RulesError::invalid_data(why.message)),
    }
}

/// Fetches the user-specific options from the sections read from the
/// user's rules files, given in order of priority: the option groups of
/// those that could be read, in that order, and none where no file was found.
pub fn user_xkb_options(found: Vec<Result<XkbOptions, RulesError>>) -> (r: Result<
    XkbOptions,
    RulesError,
>)
    ensures
        r is Ok,
        r->Ok_0@ == found_lists(found@),
{
    fetch_user_section(found)
}

/// Concatenating the lists of two runs of lists one after the other gives
/// the same groups as concatenating all the lists in one run.
pub proof fn law_concat_group_lists_split(first: Seq<XkbOptionGroupList>, second: Seq<XkbOptionGroupList>)
    ensures
        flatten_group_lists(first + second) == flatten_group_lists(first) + flatten_group_lists(second),
    decreases second.len(),
{
    if second.len() == 0 {
        assert(first + second == first);
    } else {
        law_concat_group_lists_split(first, second.drop_last());
        assert((first + second).drop_last() == first + second.drop_last());
    }
}

/// Merging is associative: merging `a` with the merge of `b` and `c` gives
/// the same groups as merging the merge of `a` and `b` with `c`.
pub proof fn law_merge_options_associative(a: XkbOptions, b: XkbOptions, c: XkbOptions)
    ensures
        (a@ + b@) + c@ == a@ + (b@ + c@),
{
    assert((a@ + b@) + c@ =~= a@ + (b@ + c@));
}

/// Each list contributes all its groups, after those of the lists before it;
/// a single list gives exactly its own groups.
pub proof fn law_flatten_group_lists_push(lists: Seq<XkbOptionGroupList>, list: XkbOptionGroupList)
    ensures
        flatten_group_lists(lists.push(list)) == flatten_group_lists(lists) + list@,
        flatten_group_lists(seq![list]) == list@,
{
    assert(lists.push(list).drop_last() == lists);
    let single = seq![list];
    assert(single.drop_last() =~= Seq::<XkbOptionGroupList>::empty());
    assert(flatten_group_lists(Seq::<XkbOptionGroupList>::empty()) + list@ =~= list@);
}

/// The list of an options section is the whole vector of its group list,
/// element for element.
pub proof fn law_options_list_is_the_vector(options: XkbOptions)
    ensures
        options.list_view() == options.option_list.group@,
        options@ == options.option_list.group@,
        options.list_view().len() == options.option_list.group.len(),
{
}

} // verus!
