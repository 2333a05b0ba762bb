//! The per-run generation context.
//!
//! `Config` is the immutable per-run configuration: module name, native
//! artifact name, per-type custom overrides and external-package aliases.
//! It is loaded once before generation and never mutated. The only mutable
//! per-run state is `IncludeOnceNames`, the dedup set that guards one-time
//! emission of helper declarations; recording a name in it is idempotent.

use vstd::pervasive::unreached;
use vstd::prelude::*;

use crate::naming::str_eq;

verus! {

/// A per-type-name override: extra imports plus the two conversion
/// expressions between the custom host representation and the builtin
/// representation of the interface description.
pub struct CustomTypeConfig {
    pub imports: Option<Vec<String>>,
    pub name_override: Option<String>,
    pub into_custom: String,
    pub from_custom: String,
}

/// The immutable per-run configuration.
pub struct Config {
    pub module_name: Option<String>,
    pub cdylib_name: Option<String>,
    pub custom_types: Vec<(String, CustomTypeConfig)>,
    pub external_packages: Vec<(String, String)>,
}

/// The first override recorded for a type name, if any.
pub open spec fn lookup_custom(
    entries: Seq<(String, CustomTypeConfig)>,
    name: Seq<char>,
) -> Option<CustomTypeConfig>
    decreases entries.len(),
{
    if entries.len() == 0 {
        None
    } else if entries[0].0@ == name {
        Some(entries[0].1)
    } else {
        lookup_custom(entries.drop_first(), name)
    }
}

impl Config {
    /// The emitted module label. The generation driver fills the module
    /// name in from the interface namespace before generation starts, so
    /// a missing name here is a driver fault, not an input.
    pub fn module_name(&self) -> (r: String)
        requires
            self.module_name is Some,
        ensures
            r@ == self.module_name.unwrap()@,
    {
        match &self.module_name {
            Some(n) => n.clone(),
            None => unreached(),
        }
    }

    /// Looks up the custom-type override recorded for `name`.
    pub fn find_custom(&self, name: &str) -> (r: Option<&CustomTypeConfig>)
        ensures
            match r {
                Some(c) => lookup_custom(self.custom_types@, name@) == Some(*c),
                None => lookup_custom(self.custom_types@, name@) is None,
            },
    {
        let n = self.custom_types.len();
        proof {
            assert(self.custom_types@.skip(0) =~= self.custom_types@);
        }
        let mut i: usize = 0;
        while i < n
            invariant
                i <= n,
                n == self.custom_types@.len(),
                lookup_custom(self.custom_types@, name@) == lookup_custom(
                    self.custom_types@.skip(i as int),
                    name@,
                ),
            decreases n - i,
        {
            let entry = &self.custom_types[i];
            if str_eq(entry.0.as_str(), name) {
                proof {
                    assert(self.custom_types@.skip(i as int)[0] == self.custom_types@[i as int]);
                }
                return Some(&entry.1);
            }
            proof {
                assert(self.custom_types@.skip(i as int).drop_first() =~= self.custom_types@.skip(
                    i as int + 1,
                ));
            }
            i = i + 1;
        }
        proof {
            assert(self.custom_types@.skip(n as int).len() == 0);
        }
        None
    }
}

/// A contradiction inside the input configuration. Generation does not
/// start on a configuration that carries one.
#[derive(Debug)]
pub enum ConfigError {
    /// A custom-type override names a type the interface description
    /// never declares.
    UnknownCustomType { name: String },
}

/// Whether `name` is among the declared type names.
pub open spec fn name_declared(declared: Seq<String>, name: Seq<char>) -> bool {
    exists|j: int| 0 <= j < declared.len() && declared[j]@ == name
}

/// Whether every custom-type override names a declared type.
pub open spec fn all_customs_declared(
    customs: Seq<(String, CustomTypeConfig)>,
    declared: Seq<String>,
) -> bool {
    forall|i: int| 0 <= i < customs.len() ==> name_declared(declared, customs[i].0@)
}

fn name_declared_exec(declared: &Vec<String>, nm: &str) -> (r: bool)
    ensures
        r == name_declared(declared@, nm@),
{
    let n = declared.len();
    let mut j: usize = 0;
    while j < n
        invariant
            j <= n,
            n == declared@.len(),
            forall|l: int| 0 <= l < j ==> declared@[l]@ != nm@,
        decreases n - j,
    {
        if str_eq(declared[j].as_str(), nm) {
            proof {
                assert(declared@[j as int]@ == nm@);
            }
            return true;
        }
        j = j + 1;
    }
    false
}

impl Config {
    /// Checks that every custom-type override names a declared type.
    /// An override for an absent type is fatal: it can never take
    /// effect, so it signals a configuration written for another
    /// interface.
    pub fn validate_custom_types(&self, declared: &Vec<String>) -> (r: Result<(), ConfigError>)
        ensures
            match r {
                Ok(()) => all_customs_declared(self.custom_types@, declared@),
                Err(e) => {
                    &&& !all_customs_declared(self.custom_types@, declared@)
                    &&& e matches ConfigError::UnknownCustomType { name }
                        && !name_declared(declared@, name@)
                },
            },
    {
        let n = self.custom_types.len();
        let mut i: usize = 0;
        while i < n
            invariant
                i <= n,
                n == self.custom_types@.len(),
                forall|k: int| 0 <= k < i ==> name_declared(declared@, self.custom_types@[k].0@),
            decreases n - i,
        {
            let nm = &self.custom_types[i].0;
            if !name_declared_exec(declared, nm.as_str()) {
                return Err(ConfigError::UnknownCustomType { name: nm.clone() });
            }
            i = i + 1;
        }
        Ok(())
    }
}

/// The set of names a sequence of recorded entries holds.
pub open spec fn names_recorded(entries: Seq<String>) -> Set<Seq<char>>
    decreases entries.len(),
{
    if entries.len() == 0 {
        Set::empty()
    } else {
        names_recorded(entries.drop_last()).insert(entries.last()@)
    }
}

proof fn lemma_names_recorded_contains(entries: Seq<String>, x: Seq<char>)
    ensures
        names_recorded(entries).contains(x) <==> exists|i: int|
            0 <= i < entries.len() && entries[i]@ == x,
    decreases entries.len(),
{
    if entries.len() > 0 {
        lemma_names_recorded_contains(entries.drop_last(), x);
        if names_recorded(entries).contains(x) {
            if entries.last()@ == x {
                assert(entries[entries.len() - 1]@ == x);
            } else {
                let i = choose|i: int|
                    0 <= i < entries.drop_last().len() && entries.drop_last()[i]@ == x;
                assert(entries[i]@ == x);
            }
        }
        if exists|i: int| 0 <= i < entries.len() && entries[i]@ == x {
            let i = choose|i: int| 0 <= i < entries.len() && entries[i]@ == x;
            if i < entries.len() - 1 {
                assert(entries.drop_last()[i]@ == x);
            }
        }
    }
}

/// The per-output-file record of helper and import names already emitted.
pub struct IncludeOnceNames {
    names: Vec<String>,
}

impl View for IncludeOnceNames {
    type V = Set<Seq<char>>;

    closed spec fn view(&self) -> Set<Seq<char>> {
        names_recorded(self.names@)
    }
}

impl IncludeOnceNames {
    /// An empty record: nothing has been emitted yet.
    pub fn new() -> (r: Self)
        ensures
            r@ == Set::<Seq<char>>::empty(),
    {
        IncludeOnceNames { names: Vec::new() }
    }

    /// Whether `name` has been recorded.
    pub fn contains(&self, name: &str) -> (r: bool)
        ensures
            r == self@.contains(name@),
    {
        proof {
            lemma_names_recorded_contains(self.names@, name@);
        }
        let n = self.names.len();
        let mut i: usize = 0;
        while i < n
            invariant
                i <= n,
                n == self.names@.len(),
                forall|k: int| 0 <= k < i ==> self.names@[k]@ != name@,
            decreases n - i,
        {
            if str_eq(self.names[i].as_str(), name) {
                proof {
                    assert(exists|k: int| 0 <= k < self.names@.len() && self.names@[k]@ == name@);
                    lemma_names_recorded_contains(self.names@, name@);
                }
                return true;
            }
            i = i + 1;
        }
        false
    }

    /// Records `name`; reports whether this is its first emission.
    /// A second call for the same name changes nothing and reports false,
    /// so re-emission never happens and never errors.
    pub fn insert(&mut self, name: &str) -> (fresh: bool)
        ensures
            final(self)@ == old(self)@.insert(name@),
            fresh == !old(self)@.contains(name@),
    {
        let had = self.contains(name);
        if had {
            proof {
                assert(self@ =~= self@.insert(name@));
            }
            false
        } else {
            let ghost before = self.names@;
            self.names.push(name.to_owned());
            proof {
                assert(self.names@.drop_last() =~= before);
            }
            true
        }
    }
}

/// Law: the dedup set is idempotent. Once a name is recorded, recording
/// it again leaves the set unchanged, and the set reports it present, so
/// a later `insert` for the same name reports no first emission.
pub proof fn lemma_include_once_idempotent(s: Set<Seq<char>>, name: Seq<char>)
    ensures
        s.insert(name).insert(name) == s.insert(name),
        s.insert(name).contains(name),
{
    assert(s.insert(name).insert(name) =~= s.insert(name));
}

} // verus!
