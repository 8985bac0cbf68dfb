//! The settings of the front-end, and the rules of the configuration store
//! that need no file system: which names are configuration files, in which
//! order they are listed, and what a missing store means.

use vstd::prelude::*;
use vstd::relations::{sorted_by, total_ordering};
use vstd::seq_lib::{lemma_sorted_unique, to_multiset_insert};
use crate::model::ModelType;
use crate::scan::{matches_at, occurs_at};
use crate::text::chars_of;

verus! {

/// The colour theme.
#[derive(Debug, Clone, Copy, PartialEq, Eq, Structural)]
pub enum Theme {
    Dark,
    Light,
    HighContrast,
}

impl Default for Theme {
    fn default() -> (theme: Theme)
        ensures
            theme == Theme::Dark,
    {
        Theme::Dark
    }
}

/// The settings that outlive a session.
#[derive(Debug, Clone)]
pub struct AppConfig {
    pub selected_model: Option<ModelType>,
    pub recent_configs: Vec<String>,
    pub theme: Theme,
}

/// The mathematical value of an `AppConfig`.
pub struct AppConfigView {
    pub selected_model: Option<ModelType>,
    pub recent_configs: Seq<Seq<char>>,
    pub theme: Theme,
}

impl View for AppConfig {
    type V = AppConfigView;

    open spec fn view(&self) -> AppConfigView {
        AppConfigView {
            selected_model: self.selected_model,
            recent_configs: self.recent_configs.deep_view(),
            theme: self.theme,
        }
    }
}

impl AppConfigView {
    /// The settings of a first launch: no model, no history, the dark theme.
    pub open spec fn initial() -> AppConfigView {
        AppConfigView { selected_model: None, recent_configs: Seq::empty(), theme: Theme::Dark }
    }
}

impl Default for AppConfig {
    fn default() -> (config: AppConfig)
        ensures
            config@ == AppConfigView::initial(),
    {
        let config = AppConfig {
            selected_model: None,
            recent_configs: Vec::new(),
            theme: Theme::Dark,
        };
        assert(config.recent_configs.deep_view() =~= Seq::empty());
        config
    }
}

/// Whether `text` ends with `suffix`.
pub open spec fn ends_with(text: Seq<char>, suffix: Seq<char>) -> bool {
    occurs_at(text, suffix, text.len() - suffix.len())
}

/// Whether `name` is the name of a configuration file: it has the extension
/// `yaml` or `yml`, that is, it ends with a point and one of the two and
/// has something before the point.
pub open spec fn is_config_name(name: Seq<char>) -> bool {
    ||| (name.len() > ".yaml"@.len() && ends_with(name, ".yaml"@))
    ||| (name.len() > ".yml"@.len() && ends_with(name, ".yml"@))
}

/// The configuration files among `names`, in the order of `names`.
pub open spec fn config_names(names: Seq<Seq<char>>) -> Seq<Seq<char>>
    decreases names.len(),
{
    if names.len() == 0 {
        Seq::empty()
    } else if is_config_name(names.last()) {
        config_names(names.drop_last()).push(names.last())
    } else {
        config_names(names.drop_last())
    }
}

/// Whether `a` comes before `b` or equals it, character by character; a
/// text comes before those that it starts.
pub open spec fn text_le(a: Seq<char>, b: Seq<char>) -> bool
    decreases a.len(),
{
    if a.len() == 0 {
        true
    } else if b.len() == 0 {
        false
    } else if a[0] != b[0] {
        a[0] < b[0]
    } else {
        text_le(a.drop_first(), b.drop_first())
    }
}

/// Whether `names` stands in ascending order.
pub open spec fn ascending(names: Seq<Seq<char>>) -> bool {
    forall|i: int, j: int| 0 <= i <= j < names.len() ==> text_le(names[i], names[j])
}

/// Of two texts one comes before the other or equals it.
pub proof fn lemma_text_le_total(a: Seq<char>, b: Seq<char>)
    ensures
        text_le(a, b) || text_le(b, a),
    decreases a.len(),
{
    if a.len() > 0 && b.len() > 0 && a[0] == b[0] {
        lemma_text_le_total(a.drop_first(), b.drop_first());
    }
}

/// Every text comes before itself or equals it.
pub proof fn lemma_text_le_reflexive(a: Seq<char>)
    ensures
        text_le(a, a),
    decreases a.len(),
{
    if a.len() > 0 {
        lemma_text_le_reflexive(a.drop_first());
    }
}

/// The order of texts is transitive.
pub proof fn lemma_text_le_transitive(a: Seq<char>, b: Seq<char>, c: Seq<char>)
    requires
        text_le(a, b),
        text_le(b, c),
    ensures
        text_le(a, c),
    decreases a.len(),
{
    if a.len() > 0 && b.len() > 0 && c.len() > 0 && a[0] == b[0] && b[0] == c[0] {
        lemma_text_le_transitive(a.drop_first(), b.drop_first(), c.drop_first());
    }
}

/// Two texts that come before each other are the same text.
pub proof fn lemma_text_le_antisymmetric(a: Seq<char>, b: Seq<char>)
    requires
        text_le(a, b),
        text_le(b, a),
    ensures
        a == b,
    decreases a.len(),
{
    if a.len() > 0 && b.len() > 0 {
        lemma_text_le_antisymmetric(a.drop_first(), b.drop_first());
        assert(a =~= seq![a[0]] + a.drop_first());
        assert(b =~= seq![b[0]] + b.drop_first());
    } else {
        assert(a =~= b);
    }
}

/// An ascending listing is determined by the names it holds: two ascending
/// listings of the same names, each as often, are the same listing.
pub proof fn lemma_listing_is_unique(a: Seq<Seq<char>>, b: Seq<Seq<char>>)
    requires
        ascending(a),
        ascending(b),
        a.to_multiset() == b.to_multiset(),
    ensures
        a == b,
{
    let le = |x: Seq<char>, y: Seq<char>| text_le(x, y);
    assert(total_ordering(le)) by {
        assert forall|x: Seq<char>| #[trigger] le(x, x) by {
            lemma_text_le_reflexive(x);
        }
        assert forall|x: Seq<char>, y: Seq<char>| #[trigger] le(x, y) && #[trigger] le(y, x)
            implies x == y by {
            lemma_text_le_antisymmetric(x, y);
        }
        assert forall|x: Seq<char>, y: Seq<char>, z: Seq<char>| #[trigger]
            le(x, y) && #[trigger] le(y, z) implies le(x, z) by {
            lemma_text_le_transitive(x, y, z);
        }
        assert forall|x: Seq<char>, y: Seq<char>| #[trigger] le(x, y) || #[trigger] le(y, x) by {
            lemma_text_le_total(x, y);
        }
    }
    assert(sorted_by(a, le));
    assert(sorted_by(b, le));
    lemma_sorted_unique(a, b, le);
}

/// Whether `name` is the name of a configuration file.
pub fn is_config_file(name: &str) -> (config: bool)
    ensures
        config == is_config_name(name@),
{
    let chars = chars_of(name);
    let yaml = chars_of(".yaml");
    let yml = chars_of(".yml");
    (chars.len() > yaml.len() && matches_at(&chars, &yaml, chars.len() - yaml.len())) || (
    chars.len() > yml.len() && matches_at(&chars, &yml, chars.len() - yml.len()))
}

/// Whether `a` comes before `b` or equals it.
pub fn compare_text(a: &Vec<char>, b: &Vec<char>) -> (le: bool)
    ensures
        le == text_le(a@, b@),
{
    let mut i: usize = 0;
    assert(a@.skip(0) =~= a@ && b@.skip(0) =~= b@);
    loop
        invariant
            i <= a.len(),
            i <= b.len(),
            text_le(a@, b@) == text_le(a@.skip(i as int), b@.skip(i as int)),
        decreases a.len() - i,
    {
        if i == a.len() {
            return true;
        }
        if i == b.len() {
            return false;
        }
        assert(a@.skip(i as int)[0] == a@[i as int]);
        assert(b@.skip(i as int)[0] == b@[i as int]);
        if a[i] != b[i] {
            return a[i] < b[i];
        }
        assert(a@.skip(i as int).drop_first() =~= a@.skip(i + 1));
        assert(b@.skip(i as int).drop_first() =~= b@.skip(i + 1));
        i += 1;
    }
}

/// Puts `name` into the ascending `names`, after the names that equal it.
fn insert_ascending(names: &mut Vec<String>, name: String)
    requires
        ascending(old(names).deep_view()),
    ensures
        ascending(final(names).deep_view()),
        final(names).deep_view().to_multiset() == old(names).deep_view().to_multiset().insert(
            name@,
        ),
{
    let chars = chars_of(name.as_str());
    let mut at: usize = 0;
    let mut found = false;
    while at < names.len() && !found
        invariant
            at <= names.len(),
            *names == *old(names),
            chars@ == name@,
            forall|k: int| 0 <= k < at ==> text_le(#[trigger] names.deep_view()[k], name@),
            found ==> at < names.len() && !text_le(names.deep_view()[at as int], name@),
        decreases names.len() - at + if found { 0int } else { 1int },
    {
        let other = chars_of(names[at].as_str());
        assert(names.deep_view()[at as int] == other@);
        if compare_text(&other, &chars) {
            at += 1;
        } else {
            found = true;
        }
    }
    let ghost before = names.deep_view();
    names.insert(at, name);
    proof {
        let after = names.deep_view();
        assert(after =~= before.insert(at as int, name@));
        to_multiset_insert(before, at as int, name@);
        assert forall|i: int, j: int| 0 <= i <= j < after.len() implies text_le(
            after[i],
            after[j],
        ) by {
            lemma_text_le_reflexive(name@);
            if at < before.len() {
                lemma_text_le_total(before[at as int], name@);
            }
            if i < at && j == at {
                assert(text_le(before[i], name@));
            } else if i == at && j > at {
                assert(text_le(before[at as int], before[j - 1]));
                lemma_text_le_transitive(name@, before[at as int], before[j - 1]);
            } else if i < at && j > at {
                assert(text_le(before[i], before[j - 1]));
            } else if i > at {
                assert(text_le(before[i - 1], before[j - 1]));
            } else if j < at {
                assert(text_le(before[i], before[j]));
            }
        }
    }
}

/// The store of settings behind one path.
pub struct ConfigManager {
    config_path: String,
}

impl View for ConfigManager {
    type V = Seq<char>;

    closed spec fn view(&self) -> Seq<char> {
        self.config_path@
    }
}

impl ConfigManager {
    pub fn new(config_path: &str) -> (manager: ConfigManager)
        ensures
            manager@ == config_path@,
    {
        ConfigManager { config_path: config_path.to_owned() }
    }

    /// The path of the store.
    pub fn config_path(&self) -> (path: &str)
        ensures
            path@ == self@,
    {
        self.config_path.as_str()
    }

    /// The settings to start with: those found in the store, or those of a
    /// first launch where the store does not exist.
    pub fn load_config(&self, stored: Option<AppConfig>) -> (config: AppConfig)
        ensures
            stored matches Some(found) ==> config == found,
            stored is None ==> config@ == AppConfigView::initial(),
    {
        match stored {
            Some(found) => found,
            None => AppConfig::default(),
        }
    }

    /// The configuration files among the entries of a directory, in
    /// ascending order. `entries` are the file names of the directory; for
    /// a directory that does not exist, none.
    pub fn list_configs(&self, entries: &Vec<String>) -> (configs: Vec<String>)
        ensures
            ascending(configs.deep_view()),
            configs.deep_view().to_multiset() == config_names(
                entries.deep_view(),
            ).to_multiset(),
    {
        let mut configs: Vec<String> = Vec::new();
        let mut i: usize = 0;
        assert(entries.deep_view().take(0) =~= Seq::empty());
        assert(configs.deep_view() =~= Seq::empty());
        while i < entries.len()
            invariant
                i <= entries.len(),
                ascending(configs.deep_view()),
                configs.deep_view().to_multiset() == config_names(
                    entries.deep_view().take(i as int),
                ).to_multiset(),
            decreases entries.len() - i,
        {
            let ghost seen = entries.deep_view().take(i + 1);
            proof {
                assert(seen.drop_last() =~= entries.deep_view().take(i as int));
                assert(seen.last() == entries@[i as int]@);
            }
            if is_config_file(entries[i].as_str()) {
                proof {
                    vstd::seq_lib::to_multiset_build(
                        config_names(seen.drop_last()),
                        seen.last(),
                    );
                }
                insert_ascending(&mut configs, entries[i].clone());
            }
            i += 1;
        }
        assert(entries.deep_view().take(i as int) =~= entries.deep_view());
        configs
    }
}

} // verus!
