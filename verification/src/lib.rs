//! Keyboard layouts, models and options as described by the XML rules
//! files of xkeyboard-config, together with the rules by which the sections
//! of several rules files are located and merged.
//!
//! Reading files and the environment is left to the caller: the functions
//! here take what was read as plain values.

use vstd::prelude::*;

pub mod layout;
pub mod models;
pub mod options;
pub mod registry;
pub mod rules;
pub mod section;

use crate::section::{all_sections, fetch_user_section, list_or_empty, found_lists, RulesError};



verus! {

/// A list of keyboard layouts, as found under `layoutList` in a rules file.
#[derive(Debug, Clone)]
pub struct KeyboardLayouts {
    pub layout_list: LayoutList,
}

/// A list of keyboard layouts.
#[derive(Debug, Clone)]
pub struct LayoutList {
    pub layout: Vec<KeyboardLayout>,
}

/// A keyboard layout, which contains an optional list of variants, a name, and a description.
#[derive(Debug, Clone)]
pub struct KeyboardLayout {
    pub config_item: ConfigItem,
    pub variant_list: Option<VariantList>,
}

/// Contains the name and description of a keyboard layout.
#[derive(Debug, Clone)]
pub struct ConfigItem {
    pub name: String,
    pub short_description: Option<String>,
    pub description: String,
    pub vendor: Option<String>,
}

/// A list of possible variants of a keyboard layout.
#[derive(Debug, Clone)]
pub struct VariantList {
    pub variant: Option<Vec<KeyboardVariant>>,
}

/// A variant of a keyboard layout.
#[derive(Debug, Clone)]
pub struct KeyboardVariant {
    pub config_item: ConfigItem,
}

impl View for LayoutList {
    type V = Seq<KeyboardLayout>;

    open spec fn view(&self) -> Seq<KeyboardLayout> {
        self.layout@
    }
}

impl View for KeyboardLayouts {
    type V = Seq<KeyboardLayout>;

    open spec fn view(&self) -> Seq<KeyboardLayout> {
        self.layout_list@
    }
}

impl KeyboardLayouts {
    /// Fetch the layouts from the layout list.
    pub fn layouts(&self) -> (r: &[KeyboardLayout])
        ensures
            r@ == self@,
    {
        self.layout_list.layout.as_slice()
    }

    /// Fetch the layouts from the layout list, for editing in place.
    pub fn layouts_mut(&mut self) -> (r: &mut [KeyboardLayout])
        ensures
            r@ == old(self)@,
            final(self)@ == final(r)@,
    {
        self.layout_list.layout.as_mut_slice()
    }
}

/// The variants of a layout: present only where the layout has a variant
/// list and that list holds variants.
pub open spec fn spec_variants(layout: KeyboardLayout) -> Option<Vec<KeyboardVariant>> {
    match layout.variant_list {
        Some(list) => list.variant,
        None => None,
    }
}

impl KeyboardLayout {
    /// Fetches the name of the keyboard layout.
    pub fn name(&self) -> (r: &str)
        ensures
            r@ == self.config_item.name@,
    {
        self.config_item.name.as_str()
    }

    /// Fetches a description of the layout.
    pub fn description(&self) -> (r: &str)
        ensures
            r@ == self.config_item.description@,
    {
        self.config_item.description.as_str()
    }

    /// Fetches a list of possible layout variants.
    pub fn variants(&self) -> (r: Option<&Vec<KeyboardVariant>>)
        ensures
            r is Some <==> spec_variants(*self) is Some,
            r is Some ==> *r->0 == spec_variants(*self)->0,
            (self.variant_list is Some && self.variant_list->0.variant is Some) ==> (r is Some
                && *r->0 == self.variant_list->0.variant->0),
            (self.variant_list is None || self.variant_list->0.variant is None) ==> r is None,
    {
        match &self.variant_list {
            Some(list) => match &list.variant {
                Some(v) => Some(v),
                None => None,
            },
            None => None,
        }
    }
}

impl KeyboardVariant {
    /// The name of this variant of a keyboard layout.
    pub fn name(&self) -> (r: &str)
        ensures
            r@ == self.config_item.name@,
    {
        self.config_item.name.as_str()
    }

    /// A description of this variant of a keyboard layout.
    pub fn description(&self) -> (r: &str)
        ensures
            r@ == self.config_item.description@,
    {
        self.config_item.description.as_str()
    }
}

/// A layout whose variant list holds variants has exactly those variants,
/// however many there are.
pub proof fn law_variants_are_the_listed_ones(layout: KeyboardLayout, v: Vec<KeyboardVariant>)
    requires
        layout.variant_list == Some(VariantList { variant: Some(v) }),
    ensures
        spec_variants(layout) == Some(v),
        spec_variants(layout)->0@.len() == v@.len(),
{
}

/// A layout has no variants exactly when it has no variant list, or its
/// variant list holds none.
pub proof fn law_no_variants(layout: KeyboardLayout)
    ensures
        spec_variants(layout) is None <==> (layout.variant_list is None
            || layout.variant_list->0.variant is None),
{
}

/// Uniform access to the list that a section of a rules file embeds
/// (layouts, models or option groups).
pub trait AccessList: Sized {
    /// The type that is stored in the list.
    type InnerType;

    /// The embedded list.
    spec fn list_view(&self) -> Seq<Self::InnerType>;

    /// Read-only access to the embedded list.
    fn get_list(&self) -> (r: &[Self::InnerType])
        ensures
            r@ == self.list_view(),
    ;

    /// Read-write access to the embedded list: the list afterwards is what
    /// the returned slice holds when it is released.
    fn get_mut_list(&mut self) -> (r: &mut [Self::InnerType])
        ensures
            r@ == old(self).list_view(),
            final(self).list_view() == final(r)@,
    ;

    /// Replace the embedded list.
    fn set_list(&mut self, list: Vec<Self::InnerType>)
        ensures
            final(self).list_view() == list@,
    ;

    /// Create a new section that holds `list`.
    fn new(list: Vec<Self::InnerType>) -> (r: Self)
        ensures
            r.list_view() == list@,
    ;

    /// Take ownership of the embedded list.
    fn take_list(self) -> (r: Vec<Self::InnerType>)
        ensures
            r@ == self.list_view(),
    ;
}

impl AccessList for KeyboardLayouts {
    type InnerType = KeyboardLayout;

    open spec fn list_view(&self) -> Seq<KeyboardLayout> {
        self@
    }

    fn get_list(&self) -> (r: &[KeyboardLayout]) {
        self.layouts()
    }

    fn get_mut_list(&mut self) -> (r: &mut [KeyboardLayout]) {
        self.layouts_mut()
    }

    fn set_list(&mut self, list: Vec<KeyboardLayout>) {
        self.layout_list.layout = list;
    }

    fn take_list(self) -> (r: Vec<KeyboardLayout>) {
        self.layout_list.layout
    }

    fn new(values: Vec<KeyboardLayout>) -> (r: Self) {
        KeyboardLayouts { layout_list: LayoutList { layout: values } }
    }
}

/// Fetches the keyboard layouts of the system's base rules file, its
/// extras rules file and the user's rules files (each as it was read),
/// merging them together in that order. A source that could not be read
/// contributes nothing; this never fails.
pub fn all_keyboard_layouts(
    base: Result<KeyboardLayouts, RulesError>,
    extras: Result<KeyboardLayouts, RulesError>,
    user: Result<KeyboardLayouts, RulesError>,
) -> (r: Result<KeyboardLayouts, RulesError>)
    ensures
        r is Ok,
        r->Ok_0@ == list_or_empty(base) + list_or_empty(extras) + list_or_empty(user),
{
    all_sections(base, extras, user)
}

/// Fetches the user-specific keyboard layouts from the sections read from
/// the user's rules files, given in order of priority: the layouts of those
/// that could be read, in that order, and none where no file was found.
pub fn user_keyboard_layouts(found: Vec<Result<KeyboardLayouts, RulesError>>) -> (r: Result<
    KeyboardLayouts,
    RulesError,
>)
    ensures
        r is Ok,
        r->Ok_0@ == found_lists(found@),
{
    fetch_user_section(found)
}

/// The list of a layouts section is the whole vector of its layout list,
/// element for element.
pub proof fn law_layouts_list_is_the_vector(layouts: KeyboardLayouts)
    ensures
        layouts.list_view() == layouts.layout_list.layout@,
        layouts@ == layouts.layout_list.layout@,
        layouts.list_view().len() == layouts.layout_list.layout.len(),
{
}

} // verus!
