//! Shape of the configuration document on disk.
//!
//! These types hold what the TOML document says, before validation.

use vstd::prelude::*;

use crate::text::str_eq;

verus! {

/// Root config document.
#[derive(Debug, Clone, Default)]
pub struct ConfigDoc {
    pub daemon: DaemonSection,
    pub app_aliases: AliasTable,
    pub bindings: Vec<BindingDoc>,
}

/// `[daemon]` section.
#[derive(Debug, Clone)]
pub struct DaemonSection {
    pub log_level: String,
}

impl Default for DaemonSection {
    fn default() -> (r: DaemonSection)
        ensures
            r.log_level@ == "info"@,
    {
        DaemonSection { log_level: default_log_level() }
    }
}

/// The log level used when the document names none: `"info"`.
pub fn default_log_level() -> (r: String)
    ensures
        r@ == "info"@,
{
    String::from_str("info")
}

/// A logical app identifier, resolvable per platform.
#[derive(Debug, Default)]
pub struct AppAlias {
    pub macos: Option<String>,
    pub linux: Option<String>,
    pub windows: Option<String>,
}

/// One entry of the `[[binding]]` array.
#[derive(Debug, Clone)]
pub struct BindingDoc {
    pub when: Option<WhenDoc>,
    pub trigger: TriggerDoc,
    pub action: ActionDoc,
}

/// Scope predicate.
#[derive(Debug, Clone, Default)]
pub struct WhenDoc {
    pub app_in: Vec<String>,
}

/// Trigger: either `{ key, mods }` or `{ tap, count, within_ms }`.
#[derive(Debug, Clone)]
pub enum TriggerDoc {
    Hotkey { key: String, mods: Vec<String> },
    Tap { tap: String, count: u32, within_ms: u32 },
}

/// Action, tagged by `type`.
#[derive(Debug, Clone)]
pub enum ActionDoc {
    SendKey { key: String, mods: Vec<String> },
    SetInputSource { id: String },
}

/// The `[app_aliases]` table: logical app names, each with its
/// per-platform identifiers. Every name occurs once.
#[derive(Debug)]
pub struct AliasTable {
    entries: Vec<(String, AppAlias)>,
}

/// True if no name occurs twice in `entries`.
pub open spec fn names_distinct(entries: Seq<(String, AppAlias)>) -> bool {
    forall|i: int, j: int|
        0 <= i < entries.len() && 0 <= j < entries.len() && i != j ==> (#[trigger] entries[i]).0@
            != (#[trigger] entries[j]).0@
}

/// True if `name` is the name of some entry.
pub open spec fn has_name(entries: Seq<(String, AppAlias)>, name: Seq<char>) -> bool {
    exists|i: int| 0 <= i < entries.len() && (#[trigger] entries[i]).0@ == name
}

/// The table as a map from names to aliases.
pub open spec fn entries_map(entries: Seq<(String, AppAlias)>) -> Map<Seq<char>, AppAlias> {
    Map::new(
        |name: Seq<char>| has_name(entries, name),
        |name: Seq<char>| entries[choose|i: int| 0 <= i < entries.len() && (#[trigger] entries[i]).0@ == name].1,
    )
}

impl AliasTable {
    #[verifier::type_invariant]
    spec fn distinct(self) -> bool {
        names_distinct(self.entries@)
    }

    /// The entries in insertion order.
    pub closed spec fn entry_seq(self) -> Seq<(String, AppAlias)> {
        self.entries@
    }

    /// An empty table.
    pub fn new() -> (r: AliasTable)
        ensures
            r.entry_seq() == Seq::<(String, AppAlias)>::empty(),
            r@ == Map::<Seq<char>, AppAlias>::empty(),
    {
        let r = AliasTable { entries: Vec::new() };
        assert(r@ =~= Map::<Seq<char>, AppAlias>::empty());
        r
    }

    /// Position of the entry named `name`, if any.
    fn position(&self, name: &str) -> (r: Option<usize>)
        ensures
            match r {
                Some(i) => i < self.entries@.len() && self.entries@[i as int].0@ == name@,
                None => !has_name(self.entries@, name@),
            },
    {
        let mut i: usize = 0;
        while i < self.entries.len()
            invariant
                0 <= i <= self.entries@.len(),
                forall|j: int| 0 <= j < i ==> (#[trigger] self.entries@[j]).0@ != name@,
            decreases self.entries@.len() - i,
        {
            if str_eq(self.entries[i].0.as_str(), name) {
                return Some(i);
            }
            i = i + 1;
        }
        None
    }

    /// Add or replace the entry for `name`; returns the alias it replaced.
    pub fn insert(&mut self, name: String, alias: AppAlias) -> (r: Option<AppAlias>)
        ensures
            final(self)@ == old(self)@.insert(name@, alias),
            match r {
                Some(prev) => old(self)@.contains_key(name@) && prev == old(self)@[name@],
                None => !old(self)@.contains_key(name@),
            },
    {
        proof {
            use_type_invariant(&*self);
        }
        let ghost before = self.entries@;
        let found = self.position(name.as_str());
        let mut entries: Vec<(String, AppAlias)> = Vec::new();
        std::mem::swap(&mut entries, &mut self.entries);
        match found {
            Some(i) => {
                let mut entry = (name, alias);
                entries.set_and_swap(i, &mut entry);
                proof {
                    lemma_lookup_at(before, i as int);
                    assert(names_distinct(entries@));
                    lemma_replace_value(before, entries@, i as int);
                }
                self.entries = entries;
                Some(entry.1)
            },
            None => {
                entries.push((name, alias));
                proof {
                    assert(names_distinct(entries@));
                    lemma_push_new(before, entries@);
                }
                self.entries = entries;
                None
            },
        }
    }

    /// True if some entry is named `name`.
    pub fn contains_key(&self, name: &str) -> (r: bool)
        ensures
            r == self@.contains_key(name@),
    {
        self.position(name).is_some()
    }

    /// The alias named `name`, if any.
    pub fn get(&self, name: &str) -> (r: Option<&AppAlias>)
        ensures
            match r {
                Some(a) => self@.contains_key(name@) && *a == self@[name@],
                None => !self@.contains_key(name@),
            },
    {
        proof {
            use_type_invariant(self);
        }
        match self.position(name) {
            Some(i) => {
                proof {
                    lemma_lookup_at(self.entries@, i as int);
                }
                Some(&self.entries[i].1)
            },
            None => None,
        }
    }

    /// Number of entries (distinct names).
    pub fn len(&self) -> (r: usize)
        ensures
            r == self.entry_seq().len(),
    {
        self.entries.len()
    }

    /// The entries, in insertion order.
    pub fn entries(&self) -> (r: &Vec<(String, AppAlias)>)
        ensures
            r@ == self.entry_seq(),
    {
        &self.entries
    }
}

/// In a table with distinct names, the entry at `i` is what its name maps to.
proof fn lemma_lookup_at(entries: Seq<(String, AppAlias)>, i: int)
    requires
        names_distinct(entries),
        0 <= i < entries.len(),
    ensures
        entries_map(entries).contains_key(entries[i].0@),
        entries_map(entries)[entries[i].0@] == entries[i].1,
{
    let name = entries[i].0@;
    assert(has_name(entries, name));
    let j = choose|j: int| 0 <= j < entries.len() && (#[trigger] entries[j]).0@ == name;
    assert(j == i);
}

/// Replacing the value at `i`, keeping the name's characters, updates the map
/// at that name only.
proof fn lemma_replace_value(before: Seq<(String, AppAlias)>, after: Seq<(String, AppAlias)>, i: int)
    requires
        names_distinct(before),
        names_distinct(after),
        0 <= i < before.len(),
        after.len() == before.len(),
        after[i].0@ == before[i].0@,
        forall|j: int| 0 <= j < before.len() && j != i ==> after[j] == before[j],
    ensures
        entries_map(after) == entries_map(before).insert(before[i].0@, after[i].1),
{
    let m1 = entries_map(after);
    let m2 = entries_map(before).insert(before[i].0@, after[i].1);
    assert forall|k: Seq<char>| m1.contains_key(k) <==> m2.contains_key(k) by {
        if has_name(after, k) {
            let j = choose|j: int| 0 <= j < after.len() && (#[trigger] after[j]).0@ == k;
            if j != i {
                assert(before[j].0@ == k);
            }
        }
        if has_name(before, k) {
            let j = choose|j: int| 0 <= j < before.len() && (#[trigger] before[j]).0@ == k;
            if j != i {
                assert(after[j].0@ == k);
            }
        }
    }
    assert forall|k: Seq<char>| m1.contains_key(k) implies m1[k] == m2[k] by {
        let j = choose|j: int| 0 <= j < after.len() && (#[trigger] after[j]).0@ == k;
        lemma_lookup_at(after, j);
        if j != i {
            lemma_lookup_at(before, j);
        }
    }
    assert(m1 =~= m2);
}

/// Appending an entry with a new name adds that name to the map.
proof fn lemma_push_new(before: Seq<(String, AppAlias)>, after: Seq<(String, AppAlias)>)
    requires
        names_distinct(before),
        names_distinct(after),
        after.len() == before.len() + 1,
        forall|j: int| 0 <= j < before.len() ==> after[j] == before[j],
    ensures
        entries_map(after) == entries_map(before).insert(after.last().0@, after.last().1),
{
    let n = before.len() as int;
    let m1 = entries_map(after);
    let m2 = entries_map(before).insert(after[n].0@, after[n].1);
    assert forall|k: Seq<char>| m1.contains_key(k) <==> m2.contains_key(k) by {
        if has_name(after, k) {
            let j = choose|j: int| 0 <= j < after.len() && (#[trigger] after[j]).0@ == k;
            if j != n {
                assert(before[j].0@ == k);
            }
        }
        if has_name(before, k) {
            let j = choose|j: int| 0 <= j < before.len() && (#[trigger] before[j]).0@ == k;
            assert(after[j].0@ == k);
        }
        if k == after[n].0@ {
            assert(after[n].0@ == k);
        }
    }
    assert forall|k: Seq<char>| m1.contains_key(k) implies m1[k] == m2[k] by {
        let j = choose|j: int| 0 <= j < after.len() && (#[trigger] after[j]).0@ == k;
        lemma_lookup_at(after, j);
        if j != n {
            lemma_lookup_at(before, j);
        }
    }
    assert(m1 =~= m2);
}

impl Clone for AppAlias {
    fn clone(&self) -> (r: AppAlias)
        ensures
            r == *self,
    {
        AppAlias { macos: clone_opt(&self.macos), linux: clone_opt(&self.linux), windows: clone_opt(&self.windows) }
    }
}

fn clone_opt(s: &Option<String>) -> (r: Option<String>)
    ensures
        r == *s,
{
    match s {
        Some(x) => Some(x.clone()),
        None => None,
    }
}

impl Clone for AliasTable {
    fn clone(&self) -> (r: AliasTable)
        ensures
            r.entry_seq() == self.entry_seq(),
            r@ == self@,
    {
        proof {
            use_type_invariant(self);
        }
        let mut entries: Vec<(String, AppAlias)> = Vec::new();
        for i in 0..self.entries.len()
            invariant
                entries@ == self.entries@.take(i as int),
                names_distinct(self.entries@),
        {
            entries.push((self.entries[i].0.clone(), self.entries[i].1.clone()));
            assert(entries@ == self.entries@.take(i + 1));
        }
        assert(self.entries@.take(self.entries@.len() as int) == self.entries@);
        AliasTable { entries }
    }
}

impl Default for AliasTable {
    fn default() -> (r: AliasTable)
        ensures
            r@ == Map::<Seq<char>, AppAlias>::empty(),
    {
        AliasTable::new()
    }
}

impl View for AliasTable {
    type V = Map<Seq<char>, AppAlias>;

    closed spec fn view(&self) -> Map<Seq<char>, AppAlias> {
        entries_map(self.entries@)
    }
}

} // verus!
