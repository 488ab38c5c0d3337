//! Sections of xkb XML rules files: the errors met when reading one, and
//! how the sections read from several files are combined.

use vstd::prelude::*;

use crate::AccessList;

verus! {

/// What kind of failure reading a rules file met.
#[derive(Debug, Clone, Copy, PartialEq, Eq)]
pub enum RulesErrorKind {
    /// The file does not exist.
    NotFound,
    /// The file could not be opened for lack of permission.
    PermissionDenied,
    /// The file's contents are not a rules file.
    InvalidData,
    /// Any other failure.
    Other,
}

/// A failure to read a section from a rules file.
#[derive(Debug, Clone)]
pub struct RulesError {
    pub kind: RulesErrorKind,
    pub message: String,
}

impl RulesError {

    /// An error of kind `InvalidData` with the given message.
    pub fn invalid_data(message: String) -> (r: RulesError)
        ensures
            r.kind == RulesErrorKind::InvalidData,
            r.message == message,
    {
        RulesError { kind: RulesErrorKind::InvalidData, message }
    }
}


/// The list of a section that was read, or nothing where it could not be.
pub open spec fn list_or_empty<S: AccessList>(read: Result<S, RulesError>) -> Seq<S::InnerType> {
    match read {
        Ok(section) => section.list_view(),
        Err(_) => Seq::empty(),
    }
}

/// The lists of the sections that were read, one after the other, in
/// order; those that could not be read contribute nothing.
pub open spec fn found_lists<S: AccessList>(found: Seq<Result<S, RulesError>>) -> Seq<S::InnerType>
    decreases found.len(),
{
    if found.len() == 0 {
        Seq::empty()
    } else {
        found_lists(found.drop_last()) + list_or_empty(found.last())
    }
}

/// A section that was read contributes its whole list; one that could not
/// be read contributes nothing.
pub proof fn law_list_or_empty<S: AccessList>(section: S, error: RulesError)
    ensures
        list_or_empty(Ok::<S, RulesError>(section)) == section.list_view(),
        list_or_empty(Err::<S, RulesError>(error)) == Seq::<S::InnerType>::empty(),
{
}

/// A readable user file contributes its whole list after those of the
/// files before it; an unreadable one contributes nothing.
pub proof fn law_user_file_contributes_whole_list<S: AccessList>(
    found: Seq<Result<S, RulesError>>,
    section: S,
    error: RulesError,
)
    ensures
        found_lists(found.push(Ok(section))) == found_lists(found) + section.list_view(),
        found_lists(found.push(Err(error))) == found_lists(found),
{
    assert(found.push(Ok(section)).drop_last() == found);
    assert(found.push(Err(error)).drop_last() == found);
    assert(found_lists(found) + Seq::<S::InnerType>::empty() == found_lists(found));
}

/// A single readable user file gives its whole list.
pub proof fn law_single_user_file<S: AccessList>(section: S)
    ensures
        found_lists(seq![Ok::<S, RulesError>(section)]) == section.list_view(),
{
    let found = seq![Ok::<S, RulesError>(section)];
    assert(found.drop_last() =~= Seq::<Result<S, RulesError>>::empty());
    assert(found_lists(Seq::<Result<S, RulesError>>::empty()) == Seq::<S::InnerType>::empty());
    assert(found.last() == Ok::<S, RulesError>(section));
    assert(list_or_empty(found.last()) == section.list_view());
    assert(Seq::<S::InnerType>::empty() + section.list_view() =~= section.list_view());
}

/// The merged user section is as long as the lists of the readable files
/// together.
pub proof fn law_user_section_length<S: AccessList>(found: Seq<Result<S, RulesError>>)
    ensures
        found_lists(found).len() == found_length(found),
    decreases found.len(),
{
    if found.len() > 0 {
        law_user_section_length(found.drop_last());
    }
}

/// The total length of the lists of the sections that were read.
pub open spec fn found_length<S: AccessList>(found: Seq<Result<S, RulesError>>) -> nat
    decreases found.len(),
{
    if found.len() == 0 {
        0
    } else {
        found_length(found.drop_last()) + match found.last() {
            Ok(section) => section.list_view().len(),
            Err(_) => 0,
        }
    }
}

/// Merges the sections read from the user's rules files, given in order of
/// priority, into one: the lists of those that could be read, in that
/// order. Where none could, the section is empty. This never fails.
pub fn fetch_user_section<S: AccessList>(found: Vec<Result<S, RulesError>>) -> (r: Result<
    S,
    RulesError,
>)
    ensures
        r is Ok,
        r->Ok_0.list_view() == found_lists(found@),
{
    let mut new_list: Vec<S::InnerType> = Vec::new();
    let ghost all = found@;
    for read in it: found
        invariant
            all == it.seq(),
            new_list@ == found_lists(all.take(it.index() as int)),
    {
        proof {
            assert(all.take(it.index() + 1).drop_last() == all.take(it.index() as int));
        }
        match read {
            Ok(section) => {
                let mut list = section.take_list();
                new_list.append(&mut list);
            },
            Err(_) => {},
        }
    }
    proof {
        assert(all.take(all.len() as int) == all);
    }
    Ok(S::new(new_list))
}

/// Merges the sections read from the system's base rules file, its extras
/// rules file and the user's rules files, in that order. A source that
/// could not be read contributes nothing; this never fails.
pub fn all_sections<S: AccessList>(
    base: Result<S, RulesError>,
    extras: Result<S, RulesError>,
    user: Result<S, RulesError>,
) -> (r: Result<S, RulesError>)
    ensures
        r is Ok,
        r->Ok_0.list_view() == list_or_empty(base) + list_or_empty(extras) + list_or_empty(user),
{
    let base_rules = match base {
        Ok(section) => section,
        Err(_) => S::new(Vec::new()),
    };
    let extras_rules = match extras {
        Ok(section) => section,
        Err(_) => S::new(Vec::new()),
    };
    let user_rules = match user {
        Ok(section) => section,
        Err(_) => S::new(Vec::new()),
    };
    let mut new_list = base_rules.take_list();
    let mut extras_list = extras_rules.take_list();
    let mut user_list = user_rules.take_list();
    new_list.append(&mut extras_list);
    new_list.append(&mut user_list);
    Ok(S::new(new_list))
}

/// Reading the user's rules files in two runs and putting the results one
/// after the other gives the same list as reading them in one run.
pub proof fn law_user_sections_split<S: AccessList>(
    first: Seq<Result<S, RulesError>>,
    second: Seq<Result<S, RulesError>>,
)
    ensures
        found_lists(first + second) == found_lists(first) + found_lists(second),
    decreases second.len(),
{
    if second.len() == 0 {
        assert(first + second == first);
    } else {
        law_user_sections_split(first, second.drop_last());
        assert((first + second).drop_last() == first + second.drop_last());
    }
}

/// Where none of the user's rules files could be read, or none was found,
/// the user's section is empty.
pub proof fn law_no_user_files_no_entries<S: AccessList>(found: Seq<Result<S, RulesError>>)
    requires
        forall|i: int| 0 <= i < found.len() ==> found[i] is Err,
    ensures
        found_lists(found) == Seq::<S::InnerType>::empty(),
    decreases found.len(),
{
    if found.len() > 0 {
        law_no_user_files_no_entries(found.drop_last());
    }
}

/// A source that could not be read leaves the merge of the others as it
/// would be without it: where only the base file can be read, all the
/// entries are those of the base file.
pub proof fn law_failed_sources_add_nothing<S: AccessList>(
    base: S,
    extras_error: RulesError,
    user_error: RulesError,
)
    ensures
        list_or_empty(Ok::<S, RulesError>(base)) + list_or_empty(Err::<S, RulesError>(extras_error))
            + list_or_empty(Err::<S, RulesError>(user_error)) == base.list_view(),
{
    assert(base.list_view() + Seq::<S::InnerType>::empty() + Seq::<S::InnerType>::empty()
        == base.list_view());
}

} // verus!
