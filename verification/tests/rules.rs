use xkb_data::rules::{
    candidate_user_rules_paths, path_join, rules_path, RulesSet, BASE_RULES_VAR, EXTRA_RULES_VAR, HOME_VAR,
    XDG_CONFIG_HOME_VAR,
};

#[test]
fn rules_set_paths() {
    assert_eq!(RulesSet::Evdev.rules_file(), "evdev.xml");
    assert_eq!(RulesSet::Base.rules_file(), "base.xml");
    assert_eq!(RulesSet::Evdev.base_rules(), "/usr/share/X11/xkb/rules/evdev.xml");
    assert_eq!(RulesSet::Evdev.extras_rules(), "/usr/share/X11/xkb/rules/evdev.extras.xml");
    assert_eq!(RulesSet::Base.base_rules(), "/usr/share/X11/xkb/rules/base.xml");
    assert_eq!(RulesSet::Base.extras_rules(), "/usr/share/X11/xkb/rules/base.extras.xml");
}

#[test]
fn variable_names() {
    assert_eq!(BASE_RULES_VAR, "X11_BASE_RULES_XML");
    assert_eq!(EXTRA_RULES_VAR, "X11_EXTRA_RULES_XML");
    assert_eq!(XDG_CONFIG_HOME_VAR, "XDG_CONFIG_HOME");
    assert_eq!(HOME_VAR, "HOME");
}

#[test]
fn environment_overrides_default_path() {
    assert_eq!(rules_path(Some("/tmp/my.xml"), RulesSet::Evdev.base_rules()), "/tmp/my.xml");
    assert_eq!(rules_path(None, RulesSet::Evdev.base_rules()), "/usr/share/X11/xkb/rules/evdev.xml");
    assert_eq!(rules_path(Some(""), "/default.xml"), "");
}

#[test]
fn join_paths() {
    assert_eq!(path_join("/home/u", "xkb/rules"), "/home/u/xkb/rules");
    assert_eq!(path_join("/home/u/", "xkb/rules"), "/home/u/xkb/rules");
    assert_eq!(path_join("", "xkb/rules"), "xkb/rules");
    assert_eq!(path_join("/home/u", "/etc/x.xml"), "/etc/x.xml");
    assert_eq!(path_join("/", "a"), "/a");
    assert_eq!(path_join("héllo", "wörld"), "héllo/wörld");
}

#[test]
fn user_paths_with_xdg_and_home() {
    let p = candidate_user_rules_paths(Some("/cfg"), Some("/home/u"), RulesSet::Evdev);
    assert_eq!(p, vec!["/cfg/xkb/rules/evdev.xml", "/home/u/.xkb/rules/evdev.xml"]);
}

#[test]
fn user_paths_fall_back_to_home_config() {
    let p = candidate_user_rules_paths(None, Some("/home/u"), RulesSet::Base);
    assert_eq!(p, vec!["/home/u/.config/xkb/rules/base.xml", "/home/u/.xkb/rules/base.xml"]);
}

#[test]
fn user_paths_partial_environment() {
    let p = candidate_user_rules_paths(Some("/cfg/"), None, RulesSet::Evdev);
    assert_eq!(p, vec!["/cfg/xkb/rules/evdev.xml"]);
    let p = candidate_user_rules_paths(None, None, RulesSet::Evdev);
    assert!(p.is_empty());
}
