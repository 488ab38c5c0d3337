//! Where the rules files are: the system files, the variables of the
//! environment that override them, and the files in the user's
//! configuration directories.
//!
//! Paths are joined as on Unix, where `/` separates their components.

use vstd::prelude::*;

verus! {

/// The environment variable whose value, where it is set, replaces the
/// path of the base rules file.
pub const BASE_RULES_VAR: &'static str = "X11_BASE_RULES_XML";

/// The environment variable whose value, where it is set, replaces the
/// path of the extras rules file.
pub const EXTRA_RULES_VAR: &'static str = "X11_EXTRA_RULES_XML";

/// The environment variable that names the user's configuration directory.
pub const XDG_CONFIG_HOME_VAR: &'static str = "XDG_CONFIG_HOME";

/// The environment variable that names the user's home directory.
pub const HOME_VAR: &'static str = "HOME";

/// Which set of rules the system uses: `evdev` on Linux, as the XKB
/// configuration guide asks, and `base` elsewhere.
#[derive(Debug, Clone, Copy, PartialEq, Eq)]
pub enum RulesSet {
    Evdev,
    Base,
}

impl RulesSet {
    pub open spec fn spec_rules_file(self) -> Seq<char> {
        match self {
            RulesSet::Evdev => "evdev.xml"@,
            RulesSet::Base => "base.xml"@,
        }
    }

    pub open spec fn spec_base_rules(self) -> Seq<char> {
        match self {
            RulesSet::Evdev => "/usr/share/X11/xkb/rules/evdev.xml"@,
            RulesSet::Base => "/usr/share/X11/xkb/rules/base.xml"@,
        }
    }

    pub open spec fn spec_extras_rules(self) -> Seq<char> {
        match self {
            RulesSet::Evdev => "/usr/share/X11/xkb/rules/evdev.extras.xml"@,
            RulesSet::Base => "/usr/share/X11/xkb/rules/base.extras.xml"@,
        }
    }

    /// The file name of the rules file, as it is looked for in the user's
    /// directories.
    pub fn rules_file(self) -> (r: &'static str)
        ensures
            r@ == self.spec_rules_file(),
    {
        match self {
            RulesSet::Evdev => "evdev.xml",
            RulesSet::Base => "base.xml",
        }
    }

    /// The path of the system's base rules file.
    pub fn base_rules(self) -> (r: &'static str)
        ensures
            r@ == self.spec_base_rules(),
    {
        match self {
            RulesSet::Evdev => "/usr/share/X11/xkb/rules/evdev.xml",
            RulesSet::Base => "/usr/share/X11/xkb/rules/base.xml",
        }
    }

    /// The path of the system's extras rules file.
    pub fn extras_rules(self) -> (r: &'static str)
        ensures
            r@ == self.spec_extras_rules(),
    {
        match self {
            RulesSet::Evdev => "/usr/share/X11/xkb/rules/evdev.extras.xml",
            RulesSet::Base => "/usr/share/X11/xkb/rules/base.extras.xml",
        }
    }
}

/// The path that a rules file is read from: the value of its environment
/// variable where that is set, else the system's default path.
pub open spec fn spec_rules_path(env_override: Option<Seq<char>>, default: Seq<char>) -> Seq<char> {
    match env_override {
        Some(path) => path,
        None => default,
    }
}

/// Chooses the path that a rules file is read from: `env_override` is the
/// value of the variable that overrides it (`None` where it is not set).
pub fn rules_path(env_override: Option<&str>, default: &str) -> (r: String)
    ensures
        r@ == spec_rules_path(opt_view(env_override), default@),
        env_override is Some ==> r@ == env_override->0@,
        env_override is None ==> r@ == default@,
{
    match env_override {
        Some(path) => String::from_str(path),
        None => String::from_str(default),
    }
}

/// The path `rel` appended to `base`: an absolute `rel` replaces `base`;
/// else a separator stands between the two unless `base` is empty or
/// already ends with one.
pub open spec fn spec_path_join(base: Seq<char>, rel: Seq<char>) -> Seq<char> {
    if rel.len() > 0 && rel[0] == '/' {
        rel
    } else if base.len() == 0 || base.last() == '/' {
        base + rel
    } else {
        base + seq!['/'] + rel
    }
}

/// Appends the path `rel` to the path `base`.
pub fn path_join(base: &str, rel: &str) -> (r: String)
    ensures
        r@ == spec_path_join(base@, rel@),
        (base@.len() > 0 && base@.last() != '/' && !(rel@.len() > 0 && rel@[0] == '/')) ==> r@
            == base@ + seq!['/'] + rel@,
{
    let rel_len = rel.unicode_len();
    if rel_len > 0 && rel.get_char(0) == '/' {
        return String::from_str(rel);
    }
    let base_len = base.unicode_len();
    let mut out = String::from_str(base);
    if base_len > 0 && base.get_char(base_len - 1) != '/' {
        proof {
            reveal_strlit("/");
        }
        out.append("/");
    }
    out.append(rel);
    out
}

/// The user's rules files that are looked for, in order of priority:
/// first `$XDG_CONFIG_HOME/xkb/rules/<file>`, or, where that variable is
/// not set, `$HOME/.config/xkb/rules/<file>`; then `$HOME/.xkb/rules/<file>`.
/// A path whose variable is not set is left out.
pub open spec fn spec_user_rules_candidates(
    xdg_config_home: Option<Seq<char>>,
    home: Option<Seq<char>>,
    rules_file: Seq<char>,
) -> Seq<Seq<char>> {
    let first: Seq<Seq<char>> = match xdg_config_home {
        Some(dir) => seq![spec_path_join(spec_path_join(dir, "xkb/rules"@), rules_file)],
        None => match home {
            Some(dir) => seq![spec_path_join(spec_path_join(dir, ".config/xkb/rules"@), rules_file)],
            None => Seq::empty(),
        },
    };
    let second: Seq<Seq<char>> = match home {
        Some(dir) => seq![spec_path_join(spec_path_join(dir, ".xkb/rules"@), rules_file)],
        None => Seq::empty(),
    };
    first + second
}

pub open spec fn opt_view(s: Option<&str>) -> Option<Seq<char>> {
    match s {
        Some(v) => Some(v@),
        None => None,
    }
}

/// The paths of the user's rules files, in order of priority, given the
/// values of `XDG_CONFIG_HOME` and `HOME` (`None` where not set). Only
/// those of them that exist are to be read.
pub fn candidate_user_rules_paths(
    xdg_config_home: Option<&str>,
    home: Option<&str>,
    rules: RulesSet,
) -> (r: Vec<String>)
    ensures
        r@.map_values(|p: String| p@) == spec_user_rules_candidates(
            opt_view(xdg_config_home),
            opt_view(home),
            rules.spec_rules_file(),
        ),
{
    let file = rules.rules_file();
    let mut paths: Vec<String> = Vec::new();
    match xdg_config_home {
        Some(dir) => {
            let d = path_join(dir, "xkb/rules");
            paths.push(path_join(d.as_str(), file));
        },
        None => match home {
            Some(dir) => {
                let d = path_join(dir, ".config/xkb/rules");
                paths.push(path_join(d.as_str(), file));
            },
            None => {},
        },
    }
    match home {
        Some(dir) => {
            let d = path_join(dir, ".xkb/rules");
            paths.push(path_join(d.as_str(), file));
        },
        None => {},
    }
    proof {
        assert(paths@.map_values(|p: String| p@) =~= spec_user_rules_candidates(
            opt_view(xdg_config_home),
            opt_view(home),
            rules.spec_rules_file(),
        ));
    }
    paths
}

/// An override of a rules file, wherever it points (a relative or an
/// absolute path, even an empty one), is the path that is read, whatever
/// the default is.
pub proof fn law_override_wins(path: Seq<char>, default: Seq<char>)
    ensures
        spec_rules_path(Some(path), default) == path,
{
}

/// Without an override, the default path is read.
pub proof fn law_default_without_override(default: Seq<char>)
    ensures
        spec_rules_path(None, default) == default,
{
}

/// The system's rules files are in `/usr/share/X11/xkb/rules/`: the base
/// file is named after the rules set (`<set>.xml`, the name looked for in
/// the user's directories) and the extras file `<set>.extras.xml`.
pub proof fn law_system_rules_files(rules: RulesSet)
    ensures
        rules.spec_base_rules() == "/usr/share/X11/xkb/rules/"@ + rules.spec_rules_file(),
        rules.spec_extras_rules() == "/usr/share/X11/xkb/rules/"@ + rules.spec_rules_file().subrange(
            0,
            rules.spec_rules_file().len() - 4,
        ) + ".extras.xml"@,
        rules.spec_rules_file().len() > 4,
        rules.spec_rules_file().subrange(rules.spec_rules_file().len() - 4, rules.spec_rules_file().len() as int)
            == ".xml"@,
{
    reveal_strlit("/usr/share/X11/xkb/rules/");
    reveal_strlit(".extras.xml");
    reveal_strlit(".xml");
    reveal_strlit("evdev.xml");
    reveal_strlit("base.xml");
    reveal_strlit("/usr/share/X11/xkb/rules/evdev.xml");
    reveal_strlit("/usr/share/X11/xkb/rules/base.xml");
    reveal_strlit("/usr/share/X11/xkb/rules/evdev.extras.xml");
    reveal_strlit("/usr/share/X11/xkb/rules/base.extras.xml");
    match rules {
        RulesSet::Evdev => {
            assert(rules.spec_base_rules() =~= "/usr/share/X11/xkb/rules/"@ + rules.spec_rules_file());
            assert(rules.spec_extras_rules() =~= "/usr/share/X11/xkb/rules/"@
                + rules.spec_rules_file().subrange(0, rules.spec_rules_file().len() - 4)
                + ".extras.xml"@);
            assert(rules.spec_rules_file().subrange(
                rules.spec_rules_file().len() - 4,
                rules.spec_rules_file().len() as int,
            ) =~= ".xml"@);
        },
        RulesSet::Base => {
            assert(rules.spec_base_rules() =~= "/usr/share/X11/xkb/rules/"@ + rules.spec_rules_file());
            assert(rules.spec_extras_rules() =~= "/usr/share/X11/xkb/rules/"@
                + rules.spec_rules_file().subrange(0, rules.spec_rules_file().len() - 4)
                + ".extras.xml"@);
            assert(rules.spec_rules_file().subrange(
                rules.spec_rules_file().len() - 4,
                rules.spec_rules_file().len() as int,
            ) =~= ".xml"@);
        },
    }
}

/// A relative path is appended to a non-empty base that does not end with
/// a separator after one separator.
pub proof fn law_join_relative(base: Seq<char>, rel: Seq<char>)
    requires
        base.len() > 0,
        base.last() != '/',
        !(rel.len() > 0 && rel[0] == '/'),
    ensures
        spec_path_join(base, rel) == base + seq!['/'] + rel,
{
}

/// A relative path is appended to a base that ends with a separator, or to
/// an empty base, as it is.
pub proof fn law_join_after_separator(base: Seq<char>, rel: Seq<char>)
    requires
        base.len() == 0 || base.last() == '/',
        !(rel.len() > 0 && rel[0] == '/'),
    ensures
        spec_path_join(base, rel) == base + rel,
{
}

/// An absolute path replaces the base.
pub proof fn law_join_absolute(base: Seq<char>, rel: Seq<char>)
    requires
        rel.len() > 0,
        rel[0] == '/',
    ensures
        spec_path_join(base, rel) == rel,
{
}

/// Joining a non-empty relative path that does not end with a separator
/// gives a non-empty path that ends as that path does.
proof fn lemma_join_keeps_last(base: Seq<char>, rel: Seq<char>)
    requires
        rel.len() > 0,
        rel[0] != '/',
        rel.last() != '/',
    ensures
        spec_path_join(base, rel).len() > 0,
        spec_path_join(base, rel).last() == rel.last(),
{
}

proof fn lemma_rules_file_shape(rules: RulesSet)
    ensures
        rules.spec_rules_file().len() > 0,
        rules.spec_rules_file()[0] != '/',
{
    reveal_strlit("evdev.xml");
    reveal_strlit("base.xml");
}

/// `dir` joined with `sub`, then with the rules file, ends with a separator
/// followed by the rules file.
proof fn lemma_candidate_suffix(dir: Seq<char>, sub: Seq<char>, rules: RulesSet)
    requires
        sub.len() > 0,
        sub[0] != '/',
        sub.last() != '/',
    ensures
        ({
            let c = spec_path_join(spec_path_join(dir, sub), rules.spec_rules_file());
            let f = rules.spec_rules_file();
            &&& c.len() > f.len()
            &&& c.subrange(c.len() - f.len() - 1, c.len() as int) == seq!['/'] + f
        }),
{
    lemma_join_keeps_last(dir, sub);
    lemma_rules_file_shape(rules);
    let d = spec_path_join(dir, sub);
    let f = rules.spec_rules_file();
    let c = spec_path_join(d, f);
    assert(c == d + seq!['/'] + f);
    assert(c.subrange(c.len() - f.len() - 1, c.len() as int) =~= seq!['/'] + f);
}

/// Every candidate user rules file is named after the rules set: each path
/// ends with a separator and the rules set's own file name.
pub proof fn law_user_candidates_name_the_rules_file(
    xdg_config_home: Option<Seq<char>>,
    home: Option<Seq<char>>,
    rules: RulesSet,
)
    ensures
        forall|i: int|
            #![trigger spec_user_rules_candidates(xdg_config_home, home, rules.spec_rules_file())[i]]
            0 <= i < spec_user_rules_candidates(xdg_config_home, home, rules.spec_rules_file()).len()
                ==> {
                let c = spec_user_rules_candidates(xdg_config_home, home, rules.spec_rules_file())[i];
                let f = rules.spec_rules_file();
                &&& c.len() > f.len()
                &&& c.subrange(c.len() - f.len() - 1, c.len() as int) == seq!['/'] + f
            },
{
    reveal_strlit("xkb/rules");
    reveal_strlit(".config/xkb/rules");
    reveal_strlit(".xkb/rules");
    match xdg_config_home {
        Some(dir) => lemma_candidate_suffix(dir, "xkb/rules"@, rules),
        None => match home {
            Some(dir) => lemma_candidate_suffix(dir, ".config/xkb/rules"@, rules),
            None => {},
        },
    }
    match home {
        Some(dir) => lemma_candidate_suffix(dir, ".xkb/rules"@, rules),
        None => {},
    }
}

/// There is one candidate from the configuration directory (where either
/// variable is set) and one from the home directory (where `HOME` is set).
pub proof fn law_user_candidates_count(
    xdg_config_home: Option<Seq<char>>,
    home: Option<Seq<char>>,
    rules_file: Seq<char>,
)
    ensures
        spec_user_rules_candidates(xdg_config_home, home, rules_file).len() == (if xdg_config_home
            is Some || home is Some {
            1int
        } else {
            0int
        }) + (if home is Some {
            1int
        } else {
            0int
        }),
{
}

/// A directory with a separator at its end: as it is where it is empty or
/// already ends with one.
pub open spec fn as_dir(dir: Seq<char>) -> Seq<char> {
    if dir.len() > 0 && dir.last() != '/' {
        dir + seq!['/']
    } else {
        dir
    }
}

proof fn lemma_candidate_path(dir: Seq<char>, sub: Seq<char>, rules: RulesSet)
    requires
        sub.len() > 0,
        sub[0] != '/',
        sub.last() != '/',
    ensures
        spec_path_join(spec_path_join(dir, sub), rules.spec_rules_file()) == as_dir(dir) + sub
            + seq!['/'] + rules.spec_rules_file(),
{
    lemma_rules_file_shape(rules);
    let f = rules.spec_rules_file();
    let d = as_dir(dir) + sub;
    assert(spec_path_join(dir, sub) == d);
    assert(d.last() == sub.last());
    assert(spec_path_join(d, f) == d + seq!['/'] + f);
}

/// With `XDG_CONFIG_HOME` set to `x`, the first candidate is
/// `x/xkb/rules/<file>`, and with `HOME` set to `h` as well the second is
/// `h/.xkb/rules/<file>`, `<file>` being the rules set's own file name.
pub proof fn law_user_candidates_with_xdg(x: Seq<char>, home: Option<Seq<char>>, rules: RulesSet)
    ensures
        spec_user_rules_candidates(Some(x), home, rules.spec_rules_file())[0] == as_dir(x)
            + "xkb/rules"@ + seq!['/'] + rules.spec_rules_file(),
        home is Some ==> spec_user_rules_candidates(Some(x), home, rules.spec_rules_file())[1]
            == as_dir(home->0) + ".xkb/rules"@ + seq!['/'] + rules.spec_rules_file(),
{
    reveal_strlit("xkb/rules");
    reveal_strlit(".xkb/rules");
    lemma_candidate_path(x, "xkb/rules"@, rules);
    match home {
        Some(h) => lemma_candidate_path(h, ".xkb/rules"@, rules),
        None => {},
    }
}

/// With `XDG_CONFIG_HOME` unset and `HOME` set to `h`, the candidates are
/// `h/.config/xkb/rules/<file>` and then `h/.xkb/rules/<file>`, `<file>`
/// being the rules set's own file name.
pub proof fn law_user_candidates_from_home(h: Seq<char>, rules: RulesSet)
    ensures
        spec_user_rules_candidates(None, Some(h), rules.spec_rules_file()) == seq![
            as_dir(h) + ".config/xkb/rules"@ + seq!['/'] + rules.spec_rules_file(),
            as_dir(h) + ".xkb/rules"@ + seq!['/'] + rules.spec_rules_file(),
        ],
{
    reveal_strlit(".config/xkb/rules");
    reveal_strlit(".xkb/rules");
    lemma_candidate_path(h, ".config/xkb/rules"@, rules);
    lemma_candidate_path(h, ".xkb/rules"@, rules);
    let f = rules.spec_rules_file();
    assert(spec_user_rules_candidates(None, Some(h), f) =~= seq![
        as_dir(h) + ".config/xkb/rules"@ + seq!['/'] + f,
        as_dir(h) + ".xkb/rules"@ + seq!['/'] + f,
    ]);
}

/// The rules set `evdev` names its files `evdev.xml`, the rules set `base`
/// names them `base.xml`.
pub proof fn law_rules_file_names()
    ensures
        RulesSet::Evdev.spec_rules_file() == "evdev.xml"@,
        RulesSet::Base.spec_rules_file() == "base.xml"@,
        RulesSet::Evdev.spec_rules_file() != RulesSet::Base.spec_rules_file(),
{
    reveal_strlit("evdev.xml");
    reveal_strlit("base.xml");
    assert(RulesSet::Evdev.spec_rules_file()[0] != RulesSet::Base.spec_rules_file()[0]);
}

} // verus!
