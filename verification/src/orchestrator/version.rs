//! Workflow versioning for checkpoint compatibility checks.

use vstd::prelude::*;
use crate::text::{str_eq, chars_of, find_char, parse_u32_chars, parse_u32_spec, index_of_char, decimal, is_digit, lemma_decimal_digits, lemma_index_of_char_unique, lemma_parse_decimal};
use super::clock::now_nanos;
use super::keyed::{first_match, lemma_first_match, lemma_first_match_at, lemma_first_match_none, lemma_first_match_push};

verus! {

/// Workflow version information.
///
/// Times are nanoseconds since the Unix epoch (UTC).
#[derive(Debug, Clone)]
pub struct WorkflowVersion {
    pub version: String,
    pub created_at: i128,
    pub definition_hash: String,
    pub compatible_since: i128,
    pub deprecated_at: Option<i128>,
    /// Migration scripts, keyed by the version they migrate from.
    pub migration_path: Vec<(String, String)>,
}

/// The keys of a table of text pairs.
pub open spec fn pair_keys(pairs: Seq<(String, String)>) -> Seq<Seq<char>> {
    pairs.map_values(|p: (String, String)| p.0@)
}

impl WorkflowVersion {
    /// The migration script registered for migrating from `from`.
    pub open spec fn migration_for(self, from: Seq<char>) -> Option<Seq<char>> {
        match first_match(pair_keys(self.migration_path@), from) {
            Some(i) => Some(self.migration_path@[i].1@),
            None => None,
        }
    }

    /// Create a new workflow version, created now and compatible since now.
    pub fn new(version: String, definition_hash: String) -> (r: WorkflowVersion)
        ensures
            r.version@ == version@,
            r.definition_hash@ == definition_hash@,
            r.compatible_since == r.created_at,
            r.deprecated_at is None,
            r.migration_path@.len() == 0,
            forall|q: Seq<char>| r.migration_for(q) is None,
    {
        let now = now_nanos();
        let r = WorkflowVersion {
            version,
            created_at: now,
            definition_hash,
            compatible_since: now,
            deprecated_at: None,
            migration_path: Vec::new(),
        };
        assert forall|q: Seq<char>| r.migration_for(q) is None by {
            lemma_first_match_none(pair_keys(r.migration_path@), q);
        }
        r
    }

    /// Create version 1.0.0 with a hash.
    pub fn v1(hash: String) -> (r: WorkflowVersion)
        ensures
            r.version@ == "1.0.0"@,
            r.definition_hash@ == hash@,
            r.compatible_since == r.created_at,
            r.deprecated_at is None,
            r.migration_path@.len() == 0,
            forall|q: Seq<char>| r.migration_for(q) is None,
    {
        WorkflowVersion::new(String::from_str("1.0.0"), hash)
    }

    /// The position of the first migration registered for `from`.
    fn find_migration(&self, from: &str) -> (r: Option<usize>)
        ensures
            r matches Some(i) ==> first_match(pair_keys(self.migration_path@), from@) == Some(i as int),
            r matches Some(i) ==> i < self.migration_path@.len() && self.migration_path@[i as int].0@ == from@,
            r is None ==> first_match(pair_keys(self.migration_path@), from@) is None,
    {
        let ghost keys = pair_keys(self.migration_path@);
        let mut i: usize = 0;
        while i < self.migration_path.len()
            invariant
                i <= self.migration_path@.len(),
                keys == pair_keys(self.migration_path@),
                forall|j: int| 0 <= j < i ==> keys[j] != from@,
            decreases self.migration_path@.len() - i,
        {
            if str_eq(self.migration_path[i].0.as_str(), from) {
                proof {
                    lemma_first_match_at(keys, from@, i as int);
                }
                return Some(i);
            }
            i = i + 1;
        }
        proof {
            lemma_first_match_none(keys, from@);
        }
        None
    }

    /// Add a migration path from another version; a migration already
    /// registered for that version is replaced.
    pub fn with_migration(self, from: String, script: String) -> (r: WorkflowVersion)
        ensures
            r.version == self.version,
            r.created_at == self.created_at,
            r.definition_hash == self.definition_hash,
            r.compatible_since == self.compatible_since,
            r.deprecated_at == self.deprecated_at,
            forall|q: Seq<char>|
                #[trigger] r.migration_for(q) == if q == from@ {
                    Some(script@)
                } else {
                    self.migration_for(q)
                },
    {
        let mut r = self;
        let ghost old_path = r.migration_path@;
        let ghost old_keys = pair_keys(old_path);
        let ghost key = from@;
        let ghost val = script@;
        match r.find_migration(from.as_str()) {
            Some(i) => {
                r.migration_path.set(i, (from, script));
                proof {
                    let new_keys = pair_keys(r.migration_path@);
                    assert forall|j: int| 0 <= j < new_keys.len() implies new_keys[j] == old_keys[j] by {
                        if j != i {
                            assert(r.migration_path@[j] == old_path[j]);
                        }
                    }
                    assert(new_keys =~= old_keys);
                    assert forall|q: Seq<char>|
                        #[trigger] r.migration_for(q) == if q == key {
                            Some(val)
                        } else {
                            self.migration_for(q)
                        } by {
                        lemma_first_match(old_keys, q);
                    }
                }
            },
            None => {
                r.migration_path.push((from, script));
                proof {
                    let new_keys = pair_keys(r.migration_path@);
                    assert(new_keys =~= old_keys.push(key));
                    assert forall|q: Seq<char>|
                        #[trigger] r.migration_for(q) == if q == key {
                            Some(val)
                        } else {
                            self.migration_for(q)
                        } by {
                        lemma_first_match_push(old_keys, key, q);
                        lemma_first_match(old_keys, q);
                    }
                }
            },
        }
        r
    }

    /// Mark this version as deprecated, now.
    pub fn deprecate(&mut self)
        ensures
            final(self).deprecated_at is Some,
            final(self).version == old(self).version,
            final(self).created_at == old(self).created_at,
            final(self).definition_hash == old(self).definition_hash,
            final(self).compatible_since == old(self).compatible_since,
            final(self).migration_path == old(self).migration_path,
    {
        self.deprecated_at = Some(now_nanos());
    }

    /// Check if this version is deprecated.
    pub fn is_deprecated(&self) -> (r: bool)
        ensures
            r == self.deprecated_at is Some,
    {
        self.deprecated_at.is_some()
    }

    /// Get the migration script for a given source version.
    pub fn get_migration(&self, from_version: &str) -> (r: Option<&String>)
        ensures
            r is Some == self.migration_for(from_version@) is Some,
            r matches Some(s) ==> s@ == self.migration_for(from_version@).unwrap(),
    {
        match self.find_migration(from_version) {
            Some(i) => Some(&self.migration_path[i].1),
            None => None,
        }
    }
}

/// Version compatibility check result.
#[derive(Debug, Clone, PartialEq, Eq)]
pub enum VersionCompatibility {
    /// Versions are identical, fully compatible
    Identical,
    /// Versions are different but compatible
    Compatible,
    /// Versions are incompatible, migration required
    MigrationRequired { from: String, to: String },
    /// Versions are incompatible and no migration available
    Incompatible { from: String, to: String },
}

/// The major version number of a version text: its part before the first
/// `.`, read as a `u32`.
pub open spec fn major_of(version: Seq<char>) -> Option<u32> {
    parse_u32_spec(version.take(index_of_char(version, '.') as int))
}

/// The keys of a sequence of versions.
pub open spec fn version_keys(vs: Seq<WorkflowVersion>) -> Seq<Seq<char>> {
    vs.map_values(|v: WorkflowVersion| v.version@)
}

/// Version registry for managing workflow versions.
#[derive(Debug, Clone)]
pub struct VersionRegistry {
    current_version: String,
    versions: Vec<WorkflowVersion>,
}

impl VersionRegistry {
    /// The registered version with the given version text.
    pub closed spec fn lookup(self, key: Seq<char>) -> Option<WorkflowVersion> {
        match first_match(version_keys(self.versions@), key) {
            Some(i) => Some(self.versions@[i]),
            None => None,
        }
    }

    /// The version text of the current version.
    pub closed spec fn current_key(self) -> Seq<char> {
        self.current_version@
    }

    /// Whether a version with this text is registered.
    pub open spec fn is_registered(self, key: Seq<char>) -> bool {
        self.lookup(key) is Some
    }

    /// Both versions are registered, they differ, and the target version has
    /// a migration from the source version.
    pub open spec fn migration_known(self, from: Seq<char>, to: Seq<char>) -> bool {
        &&& from != to
        &&& self.is_registered(from)
        &&& self.is_registered(to)
        &&& self.lookup(to).unwrap().migration_for(from) is Some
    }

    /// Both versions are registered, they differ, no migration is known, and
    /// their major version numbers agree.
    pub open spec fn same_major(self, from: Seq<char>, to: Seq<char>) -> bool {
        &&& from != to
        &&& self.is_registered(from)
        &&& self.is_registered(to)
        &&& !self.migration_known(from, to)
        &&& major_of(from) == major_of(to)
    }

    /// The versions can be neither used as they are nor migrated.
    pub open spec fn incompatible(self, from: Seq<char>, to: Seq<char>) -> bool {
        &&& from != to
        &&& !self.migration_known(from, to)
        &&& !self.same_major(from, to)
    }

    /// Create a new version registry with nothing registered yet.
    pub fn new(current_version: String) -> (r: VersionRegistry)
        ensures
            r.current_key() == current_version@,
            forall|q: Seq<char>| !r.is_registered(q),
    {
        let r = VersionRegistry { current_version, versions: Vec::new() };
        assert forall|q: Seq<char>| !r.is_registered(q) by {
            lemma_first_match_none(version_keys(r.versions@), q);
        }
        r
    }

    /// The position of the first version registered under `key`.
    fn find(&self, key: &str) -> (r: Option<usize>)
        ensures
            r matches Some(i) ==> first_match(version_keys(self.versions@), key@) == Some(i as int),
            r matches Some(i) ==> i < self.versions@.len() && self.versions@[i as int].version@ == key@,
            r is None ==> first_match(version_keys(self.versions@), key@) is None,
    {
        let ghost keys = version_keys(self.versions@);
        let mut i: usize = 0;
        while i < self.versions.len()
            invariant
                i <= self.versions@.len(),
                keys == version_keys(self.versions@),
                forall|j: int| 0 <= j < i ==> keys[j] != key@,
            decreases self.versions@.len() - i,
        {
            if str_eq(self.versions[i].version.as_str(), key) {
                proof {
                    lemma_first_match_at(keys, key@, i as int);
                }
                return Some(i);
            }
            i = i + 1;
        }
        proof {
            lemma_first_match_none(keys, key@);
        }
        None
    }

    /// Register a workflow version; a version registered under the same
    /// version text is replaced.
    pub fn register(&mut self, version: WorkflowVersion)
        ensures
            final(self).current_key() == old(self).current_key(),
            forall|q: Seq<char>|
                #[trigger] final(self).lookup(q) == if q == version.version@ {
                    Some(version)
                } else {
                    old(self).lookup(q)
                },
    {
        let ghost old_vs = self.versions@;
        let ghost old_keys = version_keys(old_vs);
        let ghost key = version.version@;
        let ghost v = version;
        match self.find(version.version.as_str()) {
            Some(i) => {
                self.versions.set(i, version);
                proof {
                    let new_keys = version_keys(self.versions@);
                    assert forall|j: int| 0 <= j < new_keys.len() implies new_keys[j] == old_keys[j] by {
                        if j != i {
                            assert(self.versions@[j] == old_vs[j]);
                        }
                    }
                    assert(new_keys =~= old_keys);
                    assert forall|q: Seq<char>|
                        #[trigger] self.lookup(q) == if q == key {
                            Some(v)
                        } else {
                            old(self).lookup(q)
                        } by {
                        lemma_first_match(old_keys, q);
                    }
                }
            },
            None => {
                self.versions.push(version);
                proof {
                    let new_keys = version_keys(self.versions@);
                    assert(new_keys =~= old_keys.push(key));
                    assert forall|q: Seq<char>|
                        #[trigger] self.lookup(q) == if q == key {
                            Some(v)
                        } else {
                            old(self).lookup(q)
                        } by {
                        lemma_first_match_push(old_keys, key, q);
                        lemma_first_match(old_keys, q);
                    }
                }
            },
        }
    }

    /// Get a version by its version text.
    pub fn get(&self, version: &str) -> (r: Option<&WorkflowVersion>)
        ensures
            r is Some == self.is_registered(version@),
            r matches Some(v) ==> *v == self.lookup(version@).unwrap() && v.version@ == version@,
    {
        match self.find(version) {
            Some(i) => Some(&self.versions[i]),
            None => None,
        }
    }

    /// Get the current version, which must be registered.
    pub fn current(&self) -> (r: &WorkflowVersion)
        requires
            self.is_registered(self.current_key()),
        ensures
            *r == self.lookup(self.current_key()).unwrap(),
            r.version@ == self.current_key(),
    {
        match self.find(self.current_version.as_str()) {
            Some(i) => &self.versions[i],
            None => {
                proof {
                    assert(false);
                }
                &self.versions[0]
            },
        }
    }

    /// Extract the major version number: the part before the first `.`,
    /// parsed as a `u32`.
    pub fn extract_major(version: &str) -> (r: Option<u32>)
        ensures
            r == major_of(version@),
    {
        let mut cs = chars_of(version);
        let end = find_char(cs.as_slice(), 0, '.');
        assert(cs@.subrange(0, cs@.len() as int) =~= cs@);
        cs.truncate(end);
        parse_u32_chars(cs.as_slice())
    }

    /// Check compatibility between two versions.
    pub fn check_compatibility(&self, from: &str, to: &str) -> (r: VersionCompatibility)
        ensures
            (r is Identical) == (from@ == to@),
            (r is MigrationRequired) == self.migration_known(from@, to@),
            (r is Compatible) == self.same_major(from@, to@),
            (r is Incompatible) == self.incompatible(from@, to@),
            r matches VersionCompatibility::MigrationRequired { from: f, to: t } ==> f@ == from@
                && t@ == to@,
            r matches VersionCompatibility::Incompatible { from: f, to: t } ==> f@ == from@ && t@
                == to@,
    {
        if str_eq(from, to) {
            return VersionCompatibility::Identical;
        }
        if self.get(from).is_none() {
            return VersionCompatibility::Incompatible {
                from: String::from_str(from),
                to: String::from_str(to),
            };
        }
        let to_version = match self.get(to) {
            Some(v) => v,
            None => {
                return VersionCompatibility::Incompatible {
                    from: String::from_str(from),
                    to: String::from_str(to),
                };
            },
        };
        if to_version.get_migration(from).is_some() {
            return VersionCompatibility::MigrationRequired {
                from: String::from_str(from),
                to: String::from_str(to),
            };
        }
        let from_major = Self::extract_major(from);
        let to_major = Self::extract_major(to);
        if from_major == to_major {
            VersionCompatibility::Compatible
        } else {
            VersionCompatibility::Incompatible { from: String::from_str(from), to: String::from_str(to) }
        }
    }

    /// Migrate a checkpoint from one version to another. Migration scripts
    /// are not applied: a checkpoint that may be migrated is returned as it is.
    pub fn migrate_checkpoint(&self, checkpoint_json: &str, from_version: &str, to_version: &str) -> (r:
        Result<String, String>)
        ensures
            r is Ok == !self.incompatible(from_version@, to_version@),
            r matches Ok(s) ==> s@ == checkpoint_json@,
            r matches Err(e) ==> e@ == "Cannot migrate from "@ + from_version@ + " to "@ + to_version@,
    {
        let compatibility = self.check_compatibility(from_version, to_version);
        match compatibility {
            VersionCompatibility::Incompatible { .. } => {
                let mut msg = String::from_str("Cannot migrate from ");
                msg.append(from_version);
                msg.append(" to ");
                msg.append(to_version);
                Err(msg)
            },
            _ => Ok(String::from_str(checkpoint_json)),
        }
    }

    /// Set the current version, which must be registered.
    pub fn set_current(&mut self, version: String)
        requires
            old(self).is_registered(version@),
        ensures
            final(self).current_key() == version@,
            forall|q: Seq<char>| #[trigger] final(self).lookup(q) == old(self).lookup(q),
    {
        self.current_version = version;
    }
}

impl Default for VersionRegistry {
    fn default() -> (r: VersionRegistry)
        ensures
            r.current_key() == "1.0.0"@,
            r.is_registered("1.0.0"@),
            r.lookup("1.0.0"@).unwrap().definition_hash@ == "initial-v1"@,
            r.lookup("1.0.0"@).unwrap().deprecated_at is None,
            forall|q: Seq<char>| q != "1.0.0"@ ==> !(#[trigger] r.is_registered(q)),
    {
        let mut registry = VersionRegistry::new(String::from_str("1.0.0"));
        let v = WorkflowVersion::v1(String::from_str("initial-v1"));
        let ghost before = registry;
        registry.register(v);
        assert forall|q: Seq<char>| q != "1.0.0"@ implies !(#[trigger] registry.is_registered(q)) by {
            assert(registry.lookup(q) == before.lookup(q));
            assert(!before.is_registered(q));
        }
        registry
    }
}

/// The major version number of `{n}.{rest}` is `n`, whatever follows the
/// first dot.
pub proof fn law_major_of_version(n: u32, rest: Seq<char>)
    ensures
        major_of(decimal(n as nat) + seq!['.'] + rest) == Some(n),
        major_of(decimal(n as nat)) == Some(n),
{
    let d = decimal(n as nat);
    let v = d + seq!['.'] + rest;
    lemma_decimal_digits(n as nat);
    assert forall|j: int| 0 <= j < d.len() implies v[j] != '.' by {
        assert(v[j] == d[j]);
        assert(is_digit(d[j]));
    }
    lemma_index_of_char_unique(v, '.', d.len() as int);
    assert(v.take(d.len() as int) =~= d);
    assert forall|j: int| 0 <= j < d.len() implies d[j] != '.' by {
        assert(is_digit(d[j]));
    }
    lemma_index_of_char_unique(d, '.', d.len() as int);
    assert(d.take(d.len() as int) =~= d);
    lemma_parse_decimal(n);
}

/// Two registered versions `{m}.{x}` and `{n}.{y}` that differ and have no
/// migration between them are compatible exactly when their major numbers
/// agree; otherwise they are incompatible.
pub proof fn law_compatibility_by_major(
    registry: VersionRegistry,
    m: u32,
    x: Seq<char>,
    n: u32,
    y: Seq<char>,
)
    requires
        registry.is_registered(decimal(m as nat) + seq!['.'] + x),
        registry.is_registered(decimal(n as nat) + seq!['.'] + y),
        decimal(m as nat) + seq!['.'] + x != decimal(n as nat) + seq!['.'] + y,
        !registry.migration_known(decimal(m as nat) + seq!['.'] + x, decimal(n as nat) + seq!['.'] + y),
    ensures
        registry.same_major(decimal(m as nat) + seq!['.'] + x, decimal(n as nat) + seq!['.'] + y)
            == (m == n),
        registry.incompatible(decimal(m as nat) + seq!['.'] + x, decimal(n as nat) + seq!['.'] + y)
            == (m != n),
{
    law_major_of_version(m, x);
    law_major_of_version(n, y);
}

/// A version is always identical to itself: never incompatible and never in
/// need of migration.
pub proof fn law_version_identical_to_itself(registry: VersionRegistry, v: Seq<char>)
    ensures
        !registry.incompatible(v, v),
        !registry.migration_known(v, v),
        !registry.same_major(v, v),
{
}

/// A version that is not registered cannot be reached from, or moved to,
/// any other version.
pub proof fn law_unregistered_incompatible(registry: VersionRegistry, from: Seq<char>, to: Seq<char>)
    requires
        from != to,
        !registry.is_registered(from) || !registry.is_registered(to),
    ensures
        registry.incompatible(from, to),
{
}

/// A registered version is found under its own version text: after
/// `set_current(v)`, `current()` is the version registered as `v`.
pub proof fn law_lookup_by_version_text(registry: VersionRegistry, key: Seq<char>)
    ensures
        registry.lookup(key) matches Some(v) ==> v.version@ == key,
{
    let keys = version_keys(registry.versions@);
    lemma_first_match(keys, key);
    if let Some(i) = first_match(keys, key) {
        assert(keys[i] == registry.versions@[i].version@);
    }
}

} // verus!
