//! The configuration: the workspace, and the applications whose data is moved.
//!
//! Applications are kept in the order in which they were read, keyed by their
//! identifier. A lookup finds the first application with the identifier; in a
//! configuration read from a file no identifier occurs twice
//! (`keys_distinct`), and then the lookup finds the one application with it.
use vstd::prelude::*;

use crate::text::str_eq;

verus! {

/// The whole configuration.
pub struct Config {
    /// Where moved data is kept.
    pub workspace: Workspace,
    /// The applications, each with its identifier.
    pub apps: Vec<(String, AppConfig)>,
}

/// The workspace section.
pub struct Workspace {
    /// The root directory of the workspace.
    pub path: String,
}

/// One application.
pub struct AppConfig {
    /// The name shown to the user; target paths start with it.
    pub name: String,
    /// Whether the application takes part when all applications are processed.
    pub enabled: bool,
    /// What to do when a target already exists; `skip` when not given.
    pub on_exists: Option<String>,
    /// The paths to move.
    pub sources: Vec<Source>,
}

/// One path of an application.
pub struct Source {
    /// The original location; may hold placeholders.
    pub source: String,
    /// The location below `<workspace>/<app name>/`.
    pub target: String,
    /// `symlink` or `hardlink`.
    pub link_type: String,
    /// Kind of source, `dir` by default; kept as read.
    pub _source_type: String,
}

/// Applications are enabled unless the configuration says otherwise.
pub fn default_enabled() -> (res: bool)
    ensures
        res,
{
    true
}

/// The link type used when a source names none.
pub fn default_link_type() -> (res: String)
    ensures
        res@ == "symlink"@,
{
    String::from_str("symlink")
}

/// The source kind used when a source names none.
pub fn default_source_type() -> (res: String)
    ensures
        res@ == "dir"@,
{
    String::from_str("dir")
}

/// The index of the first entry whose identifier is `name`, if any.
pub open spec fn first_index_of(apps: Seq<(String, AppConfig)>, name: Seq<char>) -> Option<int>
    decreases apps.len(),
{
    if apps.len() == 0 {
        None
    } else {
        match first_index_of(apps.drop_last(), name) {
            Some(i) => Some(i),
            None => if apps.last().0@ == name {
                Some(apps.len() - 1)
            } else {
                None
            },
        }
    }
}

/// The identifiers and configurations of the enabled applications, in order.
pub open spec fn enabled_entries(apps: Seq<(String, AppConfig)>) -> Seq<(String, AppConfig)>
    decreases apps.len(),
{
    if apps.len() == 0 {
        Seq::empty()
    } else {
        let rest = enabled_entries(apps.drop_last());
        if apps.last().1.enabled {
            rest.push(apps.last())
        } else {
            rest
        }
    }
}

/// `first_index_of` finds the first entry with the identifier.
pub proof fn lemma_first_index_of(apps: Seq<(String, AppConfig)>, name: Seq<char>)
    ensures
        match first_index_of(apps, name) {
            Some(i) => 0 <= i < apps.len() && apps[i].0@ == name && forall|j: int|
                0 <= j < i ==> apps[j].0@ != name,
            None => forall|j: int| 0 <= j < apps.len() ==> apps[j].0@ != name,
        },
    decreases apps.len(),
{
    if apps.len() > 0 {
        lemma_first_index_of(apps.drop_last(), name);
        assert(forall|j: int| 0 <= j < apps.len() - 1 ==> apps.drop_last()[j] == apps[j]);
    }
}

/// No two applications share an identifier, as in the configuration file,
/// where each identifier names one table.
pub open spec fn keys_distinct(apps: Seq<(String, AppConfig)>) -> bool {
    forall|i: int, j: int|
        0 <= i < j < apps.len() ==> (#[trigger] apps[i]).0@ != (#[trigger] apps[j]).0@
}

/// With distinct identifiers a lookup finds each application by its own
/// identifier: the order in which they were read does not matter.
pub proof fn lemma_distinct_keys_lookup(apps: Seq<(String, AppConfig)>, i: int)
    requires
        keys_distinct(apps),
        0 <= i < apps.len(),
    ensures
        first_index_of(apps, apps[i].0@) == Some(i),
{
    lemma_first_index_of(apps, apps[i].0@);
    match first_index_of(apps, apps[i].0@) {
        Some(j) => {
            if j < i {
                assert(apps[j].0@ != apps[i].0@);
            }
        },
        None => {},
    }
}

impl Config {
    /// Whether no two applications share an identifier.
    pub fn has_distinct_keys(&self) -> (res: bool)
        ensures
            res == keys_distinct(self.apps@),
    {
        let n = self.apps.len();
        let mut i: usize = 0;
        while i < n
            invariant
                n == self.apps@.len(),
                i <= n,
                forall|a: int, b: int|
                    0 <= a < b < n && a < i ==> (#[trigger] self.apps@[a]).0@ != (
                    #[trigger] self.apps@[b]).0@,
            decreases n - i,
        {
            let mut j: usize = i + 1;
            while j < n
                invariant
                    n == self.apps@.len(),
                    i < n,
                    i < j <= n,
                    forall|a: int, b: int|
                        0 <= a < b < n && a < i ==> (#[trigger] self.apps@[a]).0@ != (
                        #[trigger] self.apps@[b]).0@,
                    forall|b: int| i < b < j ==> self.apps@[i as int].0@ != (#[trigger] self.apps@[b]).0@,
                decreases n - j,
            {
                if str_eq(self.apps[i].0.as_str(), self.apps[j].0.as_str()) {
                    assert(self.apps@[i as int].0@ == self.apps@[j as int].0@);
                    return false;
                }
                j = j + 1;
            }
            i = i + 1;
        }
        true
    }

    /// The configuration of the application with identifier `name`: the first
    /// one with it.
    pub fn get_app(&self, name: &str) -> (res: Option<&AppConfig>)
        ensures
            match first_index_of(self.apps@, name@) {
                Some(i) => res == Some(&self.apps@[i].1),
                None => res is None,
            },
            keys_distinct(self.apps@) ==> forall|i: int|
                0 <= i < self.apps@.len() && (#[trigger] self.apps@[i]).0@ == name@ ==> res == Some(
                    &self.apps@[i].1,
                ),
    {
        proof {
            if keys_distinct(self.apps@) {
                assert forall|i: int|
                    0 <= i < self.apps@.len() && (#[trigger] self.apps@[i]).0@ == name@ implies first_index_of(
                    self.apps@,
                    name@,
                ) == Some(i) by {
                    lemma_distinct_keys_lookup(self.apps@, i);
                }
            }
        }
        let n = self.apps.len();
        let mut i: usize = 0;
        while i < n
            invariant
                n == self.apps@.len(),
                i <= n,
                first_index_of(self.apps@.take(i as int), name@) is None,
            decreases n - i,
        {
            proof {
                assert(self.apps@.take(i + 1).drop_last() =~= self.apps@.take(i as int));
            }
            if str_eq(self.apps[i].0.as_str(), name) {
                proof {
                    lemma_prefix_first_index(self.apps@, name@, i as int);
                }
                return Some(&self.apps[i].1);
            }
            i = i + 1;
        }
        assert(self.apps@.take(n as int) =~= self.apps@);
        None
    }

    /// The enabled applications with their identifiers, in order.
    pub fn enabled_apps(&self) -> (res: Vec<(&String, &AppConfig)>)
        ensures
            res@.len() == enabled_entries(self.apps@).len(),
            forall|k: int|
                0 <= k < res@.len() ==> *(#[trigger] res@[k]).0 == enabled_entries(self.apps@)[k].0
                    && *res@[k].1 == enabled_entries(self.apps@)[k].1,
    {
        let n = self.apps.len();
        let mut out: Vec<(&String, &AppConfig)> = Vec::new();
        let mut i: usize = 0;
        while i < n
            invariant
                n == self.apps@.len(),
                i <= n,
                out@.len() == enabled_entries(self.apps@.take(i as int)).len(),
                forall|k: int|
                    0 <= k < out@.len() ==> *(#[trigger] out@[k]).0 == enabled_entries(
                        self.apps@.take(i as int),
                    )[k].0 && *out@[k].1 == enabled_entries(self.apps@.take(i as int))[k].1,
            decreases n - i,
        {
            proof {
                assert(self.apps@.take(i + 1).drop_last() =~= self.apps@.take(i as int));
            }
            let entry = &self.apps[i];
            if entry.1.enabled {
                out.push((&entry.0, &entry.1));
            }
            i = i + 1;
        }
        assert(self.apps@.take(n as int) =~= self.apps@);
        out
    }
}

/// When no entry before `i` has the identifier and entry `i` has it, the
/// first entry with it is `i`.
proof fn lemma_prefix_first_index(apps: Seq<(String, AppConfig)>, name: Seq<char>, i: int)
    requires
        0 <= i < apps.len(),
        first_index_of(apps.take(i), name) is None,
        apps[i].0@ == name,
    ensures
        first_index_of(apps, name) == Some(i),
    decreases apps.len(),
{
    if apps.len() == i + 1 {
        assert(apps.drop_last() =~= apps.take(i));
    } else {
        assert(apps.drop_last().take(i) =~= apps.take(i));
        lemma_prefix_first_index(apps.drop_last(), name, i);
    }
}

impl AppConfig {
    /// The configured strategy for existing targets, `skip` when none is given.
    pub fn on_exists_strategy(&self) -> (res: &str)
        ensures
            res@ == (match self.on_exists {
                Some(s) => s@,
                None => "skip"@,
            }),
    {
        match &self.on_exists {
            Some(s) => s.as_str(),
            None => "skip",
        }
    }
}

} // verus!
