//! Saved credentials: what is saved, under which key, and a store held in memory.

use vstd::prelude::*;
use crate::error::AdoctlError;

verus! {

/// Organization and profile, the key under which a credential is saved.
#[derive(Debug, Clone, PartialEq, Eq, Hash)]
pub struct CredentialKey {
    organization: String,
    profile: String,
}

impl View for CredentialKey {
    type V = (Seq<char>, Seq<char>);

    closed spec fn view(&self) -> (Seq<char>, Seq<char>) {
        (self.organization@, self.profile@)
    }
}

impl CredentialKey {
    pub fn new(organization: String, profile: String) -> (r: CredentialKey)
        ensures
            r@ == (organization@, profile@),
    {
        CredentialKey { organization, profile }
    }

    /// The key's account name in the operating system's store: `org:profile`.
    pub fn account_name(&self) -> (r: String)
        ensures
            r@ == self@.0 + ":"@ + self@.1,
    {
        let mut name = self.organization.clone();
        name.append(":");
        name.append(self.profile.as_str());
        name
    }

    /// A copy of the key.
    pub fn duplicate(&self) -> (r: CredentialKey)
        ensures
            r@ == self@,
    {
        CredentialKey { organization: self.organization.clone(), profile: self.profile.clone() }
    }

    /// Whether both keys name the same organization and profile.
    pub fn same_key(&self, other: &CredentialKey) -> (r: bool)
        ensures
            r == (self@ == other@),
    {
        self.organization == other.organization && self.profile == other.profile
    }
}

/// A saved login.
#[derive(Debug, Clone, PartialEq, Eq)]
pub enum StoredCredential {
    Pat { token: String },
    AzureCli,
    DeviceCode {
        client_id: String,
        tenant: String,
        refresh_token: String,
        access_token: Option<String>,
        expires_at: Option<u64>,
    },
}

/// A copy of an optional string.
pub fn copy_text(value: &Option<String>) -> (r: Option<String>)
    ensures
        r == *value,
{
    match value {
        Some(v) => Some(v.clone()),
        None => None,
    }
}

impl StoredCredential {
    /// The kind of login, for messages.
    pub open spec fn summary_text(&self) -> Seq<char> {
        match self {
            StoredCredential::Pat { .. } => "PAT"@,
            StoredCredential::AzureCli => "Azure CLI"@,
            StoredCredential::DeviceCode { .. } => "OAuth device code"@,
        }
    }

    pub fn summary(&self) -> (r: &'static str)
        ensures
            r@ == self.summary_text(),
    {
        match self {
            StoredCredential::Pat { .. } => "PAT",
            StoredCredential::AzureCli => "Azure CLI",
            StoredCredential::DeviceCode { .. } => "OAuth device code",
        }
    }

    /// A copy of the credential.
    pub fn duplicate(&self) -> (r: StoredCredential)
        ensures
            r == *self,
    {
        match self {
            StoredCredential::Pat { token } => StoredCredential::Pat { token: token.clone() },
            StoredCredential::AzureCli => StoredCredential::AzureCli,
            StoredCredential::DeviceCode {
                client_id,
                tenant,
                refresh_token,
                access_token,
                expires_at,
            } => StoredCredential::DeviceCode {
                client_id: client_id.clone(),
                tenant: tenant.clone(),
                refresh_token: refresh_token.clone(),
                access_token: copy_text(access_token),
                expires_at: *expires_at,
            },
        }
    }
}

/// Where credentials are saved between runs.
pub trait CredentialStore {
    /// Whether `answer` is what this store may give back for a lookup of the
    /// key `key` (organization and profile). A store that says nothing of what
    /// it keeps may give back any answer.
    open spec fn answers(
        &self,
        key: (Seq<char>, Seq<char>),
        answer: Result<Option<StoredCredential>, AdoctlError>,
    ) -> bool {
        true
    }

    fn save(&mut self, key: &CredentialKey, credential: &StoredCredential) -> Result<(), AdoctlError>;

    /// Looks up what is saved under `key`; the answer is one the store gives
    /// for that key.
    fn load(&self, key: &CredentialKey) -> (r: Result<Option<StoredCredential>, AdoctlError>)
        ensures
            self.answers(key@, r),
    ;

    fn delete(&mut self, key: &CredentialKey) -> Result<(), AdoctlError>;
}

/// The map that a list of saved entries stands for; a later entry for a key
/// wins over an earlier one.
pub open spec fn entries_map(entries: Seq<(CredentialKey, StoredCredential)>) -> Map<
    (Seq<char>, Seq<char>),
    StoredCredential,
>
    decreases entries.len(),
{
    if entries.len() == 0 {
        Map::empty()
    } else {
        entries_map(entries.drop_last()).insert(entries.last().0@, entries.last().1)
    }
}

/// No key occurs twice.
pub open spec fn keys_distinct(entries: Seq<(CredentialKey, StoredCredential)>) -> bool {
    forall|i: int, j: int|
        0 <= i < entries.len() && 0 <= j < entries.len() && i != j ==> #[trigger] entries[i].0@
            != #[trigger] entries[j].0@
}

proof fn lemma_entries_map_domain(entries: Seq<(CredentialKey, StoredCredential)>, k: (Seq<char>, Seq<char>))
    ensures
        entries_map(entries).dom().contains(k) <==> exists|i: int|
            0 <= i < entries.len() && #[trigger] entries[i].0@ == k,
    decreases entries.len(),
{
    if entries.len() > 0 {
        let init = entries.drop_last();
        lemma_entries_map_domain(init, k);
        if entries_map(entries).dom().contains(k) {
            if k != entries.last().0@ {
                let i = choose|i: int| 0 <= i < init.len() && #[trigger] init[i].0@ == k;
                assert(entries[i].0@ == k);
            } else {
                assert(entries[entries.len() - 1].0@ == k);
            }
        }
        if exists|i: int| 0 <= i < entries.len() && #[trigger] entries[i].0@ == k {
            let i = choose|i: int| 0 <= i < entries.len() && #[trigger] entries[i].0@ == k;
            if i < entries.len() - 1 {
                assert(init[i].0@ == k);
            }
        }
    }
}

proof fn lemma_entries_map_at(entries: Seq<(CredentialKey, StoredCredential)>, i: int)
    requires
        keys_distinct(entries),
        0 <= i < entries.len(),
    ensures
        entries_map(entries).dom().contains(entries[i].0@),
        entries_map(entries)[entries[i].0@] == entries[i].1,
    decreases entries.len(),
{
    let init = entries.drop_last();
    if i < entries.len() - 1 {
        assert(keys_distinct(init)) by {
            assert forall|a: int, b: int|
                0 <= a < init.len() && 0 <= b < init.len() && a != b implies #[trigger] init[a].0@
                != #[trigger] init[b].0@ by {
                assert(init[a] == entries[a] && init[b] == entries[b]);
            }
        }
        lemma_entries_map_at(init, i);
        assert(init[i] == entries[i]);
        assert(entries[i].0@ != entries[entries.len() - 1].0@);
    }
}

proof fn lemma_entries_distinct_init(entries: Seq<(CredentialKey, StoredCredential)>)
    requires
        keys_distinct(entries),
        entries.len() > 0,
    ensures
        keys_distinct(entries.drop_last()),
{
    let init = entries.drop_last();
    assert forall|a: int, b: int|
        0 <= a < init.len() && 0 <= b < init.len() && a != b implies #[trigger] init[a].0@
        != #[trigger] init[b].0@ by {
        assert(init[a] == entries[a] && init[b] == entries[b]);
    }
}

proof fn lemma_entries_map_update(
    entries: Seq<(CredentialKey, StoredCredential)>,
    i: int,
    entry: (CredentialKey, StoredCredential),
)
    requires
        keys_distinct(entries),
        0 <= i < entries.len(),
        entry.0@ == entries[i].0@,
    ensures
        entries_map(entries.update(i, entry)) == entries_map(entries).insert(entry.0@, entry.1),
        keys_distinct(entries.update(i, entry)),
    decreases entries.len(),
{
    let updated = entries.update(i, entry);
    assert forall|a: int, b: int|
        0 <= a < updated.len() && 0 <= b < updated.len() && a != b implies #[trigger] updated[a].0@
        != #[trigger] updated[b].0@ by {
        assert(updated[a].0@ == entries[a].0@);
        assert(updated[b].0@ == entries[b].0@);
    }
    let init = entries.drop_last();
    if i == entries.len() - 1 {
        assert(updated.drop_last() =~= init);
        assert(entries_map(updated) == entries_map(init).insert(entry.0@, entry.1));
        assert(entries_map(entries).insert(entry.0@, entry.1) =~= entries_map(init).insert(
            entry.0@,
            entry.1,
        ));
    } else {
        lemma_entries_distinct_init(entries);
        lemma_entries_map_update(init, i, entry);
        assert(updated.drop_last() =~= init.update(i, entry));
        assert(entries.last().0@ != entry.0@) by {
            assert(entries[entries.len() - 1].0@ != entries[i].0@);
        }
        assert(entries_map(updated) =~= entries_map(entries).insert(entry.0@, entry.1));
    }
}

proof fn lemma_entries_map_remove(entries: Seq<(CredentialKey, StoredCredential)>, i: int)
    requires
        keys_distinct(entries),
        0 <= i < entries.len(),
    ensures
        entries_map(entries.remove(i)) == entries_map(entries).remove(entries[i].0@),
        keys_distinct(entries.remove(i)),
    decreases entries.len(),
{
    let removed = entries.remove(i);
    assert forall|a: int, b: int|
        0 <= a < removed.len() && 0 <= b < removed.len() && a != b implies #[trigger] removed[a].0@
        != #[trigger] removed[b].0@ by {
        let a2 = if a < i { a } else { a + 1 };
        let b2 = if b < i { b } else { b + 1 };
        assert(removed[a] == entries[a2]);
        assert(removed[b] == entries[b2]);
    }
    let k = entries[i].0@;
    let init = entries.drop_last();
    lemma_entries_distinct_init(entries);
    if i == entries.len() - 1 {
        assert(removed =~= init);
        assert(!entries_map(init).dom().contains(k)) by {
            lemma_entries_map_domain(init, k);
            if exists|j: int| 0 <= j < init.len() && #[trigger] init[j].0@ == k {
                let j = choose|j: int| 0 <= j < init.len() && #[trigger] init[j].0@ == k;
                assert(entries[j].0@ == entries[i].0@);
            }
        }
        assert(entries_map(entries).remove(k) =~= entries_map(init));
    } else {
        lemma_entries_map_remove(init, i);
        assert(removed.drop_last() =~= init.remove(i));
        assert(removed.last() == entries.last());
        assert(entries.last().0@ != k) by {
            assert(entries[entries.len() - 1].0@ != entries[i].0@);
        }
        assert(entries_map(removed) =~= entries_map(entries).remove(k));
    }
}

/// A credential store that lives as long as the process: saved credentials by key.
#[derive(Debug)]
pub struct MemoryCredentialStore {
    entries: Vec<(CredentialKey, StoredCredential)>,
}

impl View for MemoryCredentialStore {
    type V = Map<(Seq<char>, Seq<char>), StoredCredential>;

    closed spec fn view(&self) -> Map<(Seq<char>, Seq<char>), StoredCredential> {
        entries_map(self.entries@)
    }
}

impl Default for MemoryCredentialStore {
    fn default() -> (r: MemoryCredentialStore)
        ensures
            r.well_formed(),
            r@ == Map::<(Seq<char>, Seq<char>), StoredCredential>::empty(),
    {
        MemoryCredentialStore::new()
    }
}

impl MemoryCredentialStore {
    /// No key is saved twice.
    pub closed spec fn well_formed(&self) -> bool {
        keys_distinct(self.entries@)
    }

    /// An empty store.
    pub fn new() -> (r: MemoryCredentialStore)
        ensures
            r.well_formed(),
            r@ == Map::<(Seq<char>, Seq<char>), StoredCredential>::empty(),
    {
        MemoryCredentialStore { entries: Vec::new() }
    }

    fn position(&self, key: &CredentialKey) -> (r: Option<usize>)
        ensures
            match r {
                Some(i) => i < self.entries@.len() && self.entries@[i as int].0@ == key@,
                None => forall|j: int|
                    0 <= j < self.entries@.len() ==> #[trigger] self.entries@[j].0@ != key@,
            },
    {
        let mut i: usize = 0;
        while i < self.entries.len()
            invariant
                i <= self.entries@.len(),
                forall|j: int| 0 <= j < i ==> #[trigger] self.entries@[j].0@ != key@,
            decreases self.entries@.len() - i,
        {
            if self.entries[i].0.same_key(key) {
                return Some(i);
            }
            i += 1;
        }
        None
    }
}

impl CredentialStore for MemoryCredentialStore {
    /// A well-formed store gives back what it holds under the key, or nothing.
    open spec fn answers(
        &self,
        key: (Seq<char>, Seq<char>),
        answer: Result<Option<StoredCredential>, AdoctlError>,
    ) -> bool {
        self.well_formed() ==> answer == Ok::<Option<StoredCredential>, AdoctlError>(
            if self@.dom().contains(key) {
                Some(self@[key])
            } else {
                None
            },
        )
    }

    /// Saves `credential` under `key`, replacing what was saved there.
    fn save(&mut self, key: &CredentialKey, credential: &StoredCredential) -> (r: Result<(), AdoctlError>)
        ensures
            old(self).well_formed() ==> final(self).well_formed() && r is Ok && final(self)@ == old(
                self,
            )@.insert(key@, *credential),
    {
        let ghost before = self.entries@;
        match self.position(key) {
            Some(i) => {
                let entry = (key.duplicate(), credential.duplicate());
                proof {
                    if keys_distinct(before) {
                        lemma_entries_map_update(before, i as int, entry);
                    }
                }
                self.entries.set(i, entry);
            },
            None => {
                let entry = (key.duplicate(), credential.duplicate());
                self.entries.push(entry);
                proof {
                    assert(self.entries@.drop_last() =~= before);
                    assert forall|a: int, b: int|
                        0 <= a < self.entries@.len() && 0 <= b < self.entries@.len() && a != b
                            && keys_distinct(before) implies #[trigger] self.entries@[a].0@
                        != #[trigger] self.entries@[b].0@ by {
                        if a < before.len() && b < before.len() {
                            assert(self.entries@[a] == before[a] && self.entries@[b] == before[b]);
                        } else if a < before.len() {
                            assert(self.entries@[a] == before[a]);
                        } else {
                            assert(self.entries@[b] == before[b]);
                        }
                    }
                }
            },
        }
        Ok(())
    }

    /// What is saved under `key`, if anything.
    fn load(&self, key: &CredentialKey) -> (r: Result<Option<StoredCredential>, AdoctlError>)
        ensures
            self.well_formed() ==> r == Ok::<Option<StoredCredential>, AdoctlError>(
                if self@.dom().contains(key@) {
                    Some(self@[key@])
                } else {
                    None
                },
            ),
    {
        match self.position(key) {
            Some(i) => {
                proof {
                    if keys_distinct(self.entries@) {
                        lemma_entries_map_at(self.entries@, i as int);
                    }
                }
                Ok(Some(self.entries[i].1.duplicate()))
            },
            None => {
                proof {
                    lemma_entries_map_domain(self.entries@, key@);
                }
                Ok(None)
            },
        }
    }

    /// Forgets what is saved under `key`.
    fn delete(&mut self, key: &CredentialKey) -> (r: Result<(), AdoctlError>)
        ensures
            old(self).well_formed() ==> final(self).well_formed() && r is Ok && final(self)@ == old(
                self,
            )@.remove(key@),
    {
        let ghost before = self.entries@;
        match self.position(key) {
            Some(i) => {
                proof {
                    if keys_distinct(before) {
                        lemma_entries_map_remove(before, i as int);
                    }
                }
                self.entries.remove(i);
            },
            None => {
                proof {
                    lemma_entries_map_domain(before, key@);
                    assert(self@.remove(key@) =~= self@);
                }
            },
        }
        Ok(())
    }
}

/// What a store gives back for a key is what was last saved under it, and
/// nothing once it was deleted; other keys are untouched by both.
pub proof fn lemma_store_read_after_write(
    saved: Map<(Seq<char>, Seq<char>), StoredCredential>,
    key: (Seq<char>, Seq<char>),
    other: (Seq<char>, Seq<char>),
    credential: StoredCredential,
)
    requires
        key != other,
    ensures
        saved.insert(key, credential).dom().contains(key),
        saved.insert(key, credential)[key] == credential,
        !saved.insert(key, credential).remove(key).dom().contains(key),
        saved.insert(key, credential).dom().contains(other) == saved.dom().contains(other),
        saved.dom().contains(other) ==> saved.insert(key, credential)[other] == saved[other],
        saved.remove(key).dom().contains(other) == saved.dom().contains(other),
{
}

} // verus!
