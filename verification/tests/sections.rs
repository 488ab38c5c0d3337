use xkb_data::layout::{all_keyboard_layouts as all_base_and_extras, concat_layout_lists, merge_rules};
use xkb_data::models::{KeyboardModel, KeyboardModelList, KeyboardModels};
use xkb_data::options::{
    all_xkb_options, concat_group_lists, merge_options, user_xkb_options, XkbOption, XkbOptionGroup,
    XkbOptionGroupList, XkbOptions,
};
use xkb_data::registry::ConfigRegistry;
use xkb_data::section::{all_sections, fetch_user_section, RulesError, RulesErrorKind};
use xkb_data::{
    all_keyboard_layouts, user_keyboard_layouts, AccessList, ConfigItem, KeyboardLayout,
    KeyboardLayouts, KeyboardVariant, LayoutList, VariantList,
};

fn item(name: &str, description: &str) -> ConfigItem {
    ConfigItem {
        name: name.to_string(),
        short_description: None,
        description: description.to_string(),
        vendor: None,
    }
}

fn layout(name: &str) -> KeyboardLayout {
    KeyboardLayout { config_item: item(name, &format!("{} layout", name)), variant_list: None }
}

fn layouts(names: &[&str]) -> KeyboardLayouts {
    KeyboardLayouts::new(names.iter().map(|n| layout(n)).collect())
}

fn layout_names(l: &KeyboardLayouts) -> Vec<String> {
    l.layouts().iter().map(|x| x.name().to_string()).collect()
}

fn group(name: &str, multiple: bool, options: &[&str]) -> XkbOptionGroup {
    XkbOptionGroup {
        allow_multiple_selection: multiple,
        config_item: item(name, &format!("{} group", name)),
        xkb_option: options.iter().map(|o| XkbOption { config_item: item(o, &format!("{} option", o)) }).collect(),
    }
}

fn options(names: &[&str]) -> XkbOptions {
    XkbOptions::new(names.iter().map(|n| group(n, false, &[])).collect())
}

fn group_names(o: &XkbOptions) -> Vec<String> {
    o.get_list().iter().map(|g| g.name().to_string()).collect()
}

fn err(kind: RulesErrorKind, message: &str) -> RulesError {
    RulesError { kind, message: message.to_string() }
}

#[test]
fn layout_getters() {
    let l = KeyboardLayout {
        config_item: item("us", "English (US)"),
        variant_list: Some(VariantList {
            variant: Some(vec![KeyboardVariant { config_item: item("intl", "English (US, intl.)") }]),
        }),
    };
    assert_eq!(l.name(), "us");
    assert_eq!(l.description(), "English (US)");
    let variants = l.variants().unwrap();
    assert_eq!(variants.len(), 1);
    assert_eq!(variants[0].name(), "intl");
    assert_eq!(variants[0].description(), "English (US, intl.)");
}

#[test]
fn layout_without_variants() {
    let none = KeyboardLayout { config_item: item("de", "German"), variant_list: None };
    assert!(none.variants().is_none());
    let empty_list =
        KeyboardLayout { config_item: item("de", "German"), variant_list: Some(VariantList { variant: None }) };
    assert!(empty_list.variants().is_none());
    let empty_vec = KeyboardLayout {
        config_item: item("de", "German"),
        variant_list: Some(VariantList { variant: Some(vec![]) }),
    };
    assert_eq!(empty_vec.variants().unwrap().len(), 0);
}

#[test]
fn layouts_mut_edits_in_place() {
    let mut l = layouts(&["us", "de"]);
    l.layouts_mut()[1] = layout("fr");
    assert_eq!(layout_names(&l), vec!["us", "fr"]);
    let s = l.get_mut_list();
    s[0] = layout("gb");
    assert_eq!(layout_names(&l), vec!["gb", "fr"]);
}

#[test]
fn access_list_round_trips() {
    let l = layouts(&["us", "de"]);
    assert_eq!(layout_names(&l), vec!["us", "de"]);
    assert_eq!(l.get_list().len(), 2);
    let taken = l.take_list();
    assert_eq!(taken.len(), 2);
    assert_eq!(taken[1].name(), "de");

    let mut m = KeyboardModels::new(vec![KeyboardModel { config_item: item("pc105", "Generic 105-key PC") }]);
    assert_eq!(m.get_list()[0].name(), "pc105");
    assert_eq!(m.get_list()[0].description(), "Generic 105-key PC");
    m.set_list(vec![]);
    assert_eq!(m.get_list().len(), 0);
    m.set_list(vec![
        KeyboardModel { config_item: item("a", "A") },
        KeyboardModel { config_item: item("b", "B") },
    ]);
    m.get_mut_list()[0] = KeyboardModel { config_item: item("c", "C") };
    let names: Vec<String> = m.take_list().iter().map(|x| x.name().to_string()).collect();
    assert_eq!(names, vec!["c", "b"]);

    let mut o = options(&["grp"]);
    o.set_list(vec![group("ctrl", true, &["ctrl:nocaps"])]);
    assert_eq!(group_names(&o), vec!["ctrl"]);
    o.get_mut_list()[0] = group("caps", false, &[]);
    assert_eq!(o.take_list()[0].name(), "caps");
}

#[test]
fn option_group_getters() {
    let g = group("grp", true, &["grp:alt_shift_toggle", "grp:win_space_toggle"]);
    assert_eq!(g.name(), "grp");
    assert_eq!(g.description(), "grp group");
    assert!(g.multiple_options_allowed());
    assert_eq!(g.options().len(), 2);
    assert_eq!(g.options()[1].name(), "grp:win_space_toggle");
    assert_eq!(g.options()[1].description(), "grp:win_space_toggle option");
    assert!(!group("x", false, &[]).multiple_options_allowed());
}

#[test]
fn merge_rules_keeps_order() {
    let merged = merge_rules(layouts(&["us", "de"]), layouts(&["apl", "brai"]));
    assert_eq!(layout_names(&merged), vec!["us", "de", "apl", "brai"]);
    let empty = merge_rules(layouts(&[]), layouts(&[]));
    assert_eq!(layout_names(&empty).len(), 0);
}

#[test]
fn concat_layout_lists_flattens() {
    let lists = vec![
        layouts(&["a"]).layout_list,
        LayoutList { layout: vec![] },
        layouts(&["b", "c"]).layout_list,
    ];
    let all = concat_layout_lists(lists);
    let names: Vec<&str> = all.layout.iter().map(|l| l.name()).collect();
    assert_eq!(names, vec!["a", "b", "c"]);
    assert_eq!(concat_layout_lists(vec![]).layout.len(), 0);
}

#[test]
fn concat_layout_lists_split_law() {
    let one_run = concat_layout_lists(vec![
        layouts(&["a"]).layout_list,
        layouts(&["b"]).layout_list,
        layouts(&["c", "d"]).layout_list,
    ]);
    let first = concat_layout_lists(vec![layouts(&["a"]).layout_list]);
    let second = concat_layout_lists(vec![layouts(&["b"]).layout_list, layouts(&["c", "d"]).layout_list]);
    let two_runs = concat_layout_lists(vec![first, second]);
    let n1: Vec<&str> = one_run.layout.iter().map(|l| l.name()).collect();
    let n2: Vec<&str> = two_runs.layout.iter().map(|l| l.name()).collect();
    assert_eq!(n1, n2);
}

#[test]
fn base_and_extras_layouts() {
    let ok = all_base_and_extras(Ok(layouts(&["us"])), Ok(layouts(&["apl"]))).unwrap();
    assert_eq!(layout_names(&ok), vec!["us", "apl"]);

    let e = all_base_and_extras(Err(err(RulesErrorKind::NotFound, "no base")), Ok(layouts(&["apl"])))
        .err()
        .unwrap();
    assert_eq!(e.kind, RulesErrorKind::InvalidData);
    assert_eq!(e.message, "no base");

    let e = all_base_and_extras(Ok(layouts(&["us"])), Err(err(RulesErrorKind::Other, "bad extras")))
        .err()
        .unwrap();
    assert_eq!(e.kind, RulesErrorKind::InvalidData);
    assert_eq!(e.message, "bad extras");

    let e = all_base_and_extras(
        Err(err(RulesErrorKind::PermissionDenied, "first")),
        Err(err(RulesErrorKind::NotFound, "second")),
    )
    .err()
    .unwrap();
    assert_eq!(e.message, "first");
}

#[test]
fn all_options_merge_or_fail() {
    let ok = all_xkb_options(Ok(options(&["grp", "lv3"])), Ok(options(&["custom"]))).unwrap();
    assert_eq!(group_names(&ok), vec!["grp", "lv3", "custom"]);

    let e = all_xkb_options(Err(err(RulesErrorKind::NotFound, "missing")), Ok(options(&[]))).err().unwrap();
    assert_eq!(e.kind, RulesErrorKind::InvalidData);
    assert_eq!(e.message, "missing");

    let e = all_xkb_options(Ok(options(&["grp"])), Err(err(RulesErrorKind::InvalidData, "syntax"))).err().unwrap();
    assert_eq!(e.kind, RulesErrorKind::InvalidData);
    assert_eq!(e.message, "syntax");

    let e = all_xkb_options(Err(err(RulesErrorKind::Other, "a")), Err(err(RulesErrorKind::Other, "b")))
        .err()
        .unwrap();
    assert_eq!(e.message, "a");
}

#[test]
fn merge_options_and_concat_groups() {
    let merged = merge_options(options(&["a"]), options(&["b", "c"]));
    assert_eq!(group_names(&merged), vec!["a", "b", "c"]);
    let list = concat_group_lists(vec![
        XkbOptionGroupList { group: vec![group("x", true, &[])] },
        XkbOptionGroupList { group: vec![] },
        XkbOptionGroupList { group: vec![group("y", false, &[]), group("z", false, &[])] },
    ]);
    let names: Vec<&str> = list.group.iter().map(|g| g.name()).collect();
    assert_eq!(names, vec!["x", "y", "z"]);
}

#[test]
fn merge_options_associative_law() {
    let left = merge_options(merge_options(options(&["a"]), options(&["b"])), options(&["c", "d"]));
    let right = merge_options(options(&["a"]), merge_options(options(&["b"]), options(&["c", "d"])));
    assert_eq!(group_names(&left), group_names(&right));
}

#[test]
fn all_layouts_merges_every_source() {
    let r = all_keyboard_layouts(Ok(layouts(&["us"])), Ok(layouts(&["apl"])), Ok(layouts(&["custom"]))).unwrap();
    assert_eq!(layout_names(&r), vec!["us", "apl", "custom"]);
}

#[test]
fn all_layouts_failed_sources_add_nothing() {
    let r = all_keyboard_layouts(
        Ok(layouts(&["us", "de"])),
        Err(err(RulesErrorKind::NotFound, "x")),
        Err(err(RulesErrorKind::NotFound, "y")),
    )
    .unwrap();
    assert_eq!(layout_names(&r), vec!["us", "de"]);

    let r = all_keyboard_layouts(
        Err(err(RulesErrorKind::NotFound, "x")),
        Ok(layouts(&["apl"])),
        Err(err(RulesErrorKind::InvalidData, "y")),
    )
    .unwrap();
    assert_eq!(layout_names(&r), vec!["apl"]);

    let r = all_keyboard_layouts(
        Err(err(RulesErrorKind::NotFound, "x")),
        Err(err(RulesErrorKind::NotFound, "y")),
        Err(err(RulesErrorKind::NotFound, "z")),
    )
    .unwrap();
    assert_eq!(layout_names(&r).len(), 0);
}

#[test]
fn all_sections_generic_models() {
    let m = |n: &str| KeyboardModel { config_item: item(n, n) };
    let r: KeyboardModels = all_sections(
        Ok(KeyboardModels::new(vec![m("pc104")])),
        Err(err(RulesErrorKind::NotFound, "no extras")),
        Ok(KeyboardModels::new(vec![m("mine")])),
    )
    .unwrap();
    let names: Vec<&str> = r.get_list().iter().map(|x| x.name()).collect();
    assert_eq!(names, vec!["pc104", "mine"]);
}

#[test]
fn user_layouts_skip_unreadable_files() {
    let r = user_keyboard_layouts(vec![
        Err(err(RulesErrorKind::InvalidData, "broken")),
        Ok(layouts(&["mine"])),
        Ok(layouts(&["other", "third"])),
    ])
    .unwrap();
    assert_eq!(layout_names(&r), vec!["mine", "other", "third"]);
}

#[test]
fn user_layouts_empty_without_files() {
    let r = user_keyboard_layouts(vec![]).unwrap();
    assert_eq!(layout_names(&r).len(), 0);
    let r = user_keyboard_layouts(vec![Err(err(RulesErrorKind::NotFound, "a"))]).unwrap();
    assert_eq!(layout_names(&r).len(), 0);
}

#[test]
fn user_sections_split_law() {
    let one = fetch_user_section(vec![Ok(layouts(&["a"])), Err(err(RulesErrorKind::Other, "x")), Ok(layouts(&["b"]))])
        .unwrap();
    let first = fetch_user_section(vec![Ok(layouts(&["a"]))]).unwrap();
    let second = fetch_user_section(vec![Err(err(RulesErrorKind::Other, "x")), Ok(layouts(&["b"]))]).unwrap();
    let joined = merge_rules(first, second);
    assert_eq!(layout_names(&one), layout_names(&joined));
}

#[test]
fn user_options_in_order() {
    let r = user_xkb_options(vec![Ok(options(&["mine"])), Ok(options(&["yours"]))]).unwrap();
    assert_eq!(group_names(&r), vec!["mine", "yours"]);
}

#[test]
fn registry_holds_all_sections() {
    let reg = ConfigRegistry {
        models: KeyboardModelList { model: vec![KeyboardModel { config_item: item("pc105", "PC") }] },
        layouts: layouts(&["us"]).layout_list,
        options: XkbOptionGroupList { group: vec![group("grp", true, &[])] },
    };
    let models = KeyboardModels::new(reg.models.model);
    assert_eq!(models.get_list()[0].name(), "pc105");
    assert_eq!(reg.layouts.layout[0].name(), "us");
    assert_eq!(reg.options.group[0].name(), "grp");
}
