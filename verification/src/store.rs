//! The versioned secret store: the engine behind listing, saving and editing.
//!
//! The store holds a tenant's live secrets and their history as the
//! data-plane tables do. A secret is created at version 1, mutated only by
//! `edit` — which captures the pre-edit state as one history row and
//! increments the version by exactly one, atomically — and never deleted.
//! Edits carry the version the caller observed, and a stale observation
//! fails with `Conflict` rather than losing an update.

use vstd::prelude::*;
use vstd::seq_lib::*;

use crate::error::SecretError;
use crate::models::Secret;
use crate::models::SecretModel;
use crate::models::SecretVersion;
use crate::models::SecretVersionModel;
use crate::pagination::page_window;
use crate::secrets::SavedSecret;
use crate::secrets::SavedSecretModel;

verus! {

/// The mathematical state of a store: live rows, history rows, the next
/// fresh identifier and the latest instant it has seen.
pub struct StoreModel {
    pub secrets: Seq<SecretModel>,
    pub versions: Seq<SecretVersionModel>,
    pub next_id: int,
    pub last_ts: int,
}

/// Well-formedness of a store state: versions start at 1, identifiers are
/// fresh below `next_id` and unique, and rows sit in creation order, no
/// later than `last_ts`.
pub open spec fn model_wf(m: StoreModel) -> bool {
    &&& 0 <= m.next_id <= u128::MAX
    &&& m.last_ts <= i64::MAX
    &&& m.secrets.len() <= i64::MAX
    &&& m.versions.len() <= i64::MAX
    &&& forall|i: int|
        0 <= i < m.secrets.len() ==> (#[trigger] m.secrets[i]).version >= 1
    &&& forall|i: int|
        0 <= i < m.secrets.len() ==> (#[trigger] m.secrets[i]).id < m.next_id
    &&& forall|i: int, j: int|
        0 <= i < j < m.secrets.len() ==> (#[trigger] m.secrets[i]).id != (
        #[trigger] m.secrets[j]).id
    &&& forall|i: int, j: int|
        0 <= i <= j < m.secrets.len() ==> (#[trigger] m.secrets[i]).created_at <= (
        #[trigger] m.secrets[j]).created_at
    &&& forall|i: int|
        0 <= i < m.secrets.len() ==> (#[trigger] m.secrets[i]).created_at <= m.last_ts && (
        m.secrets[i]).updated_at <= m.last_ts
    &&& forall|i: int|
        0 <= i < m.versions.len() ==> (#[trigger] m.versions[i]).version >= 1
    &&& forall|i: int|
        0 <= i < m.versions.len() ==> (#[trigger] m.versions[i]).id < m.next_id
    &&& forall|i: int, j: int|
        0 <= i < j < m.versions.len() ==> (#[trigger] m.versions[i]).id != (
        #[trigger] m.versions[j]).id
    &&& forall|i: int, j: int|
        0 <= i <= j < m.versions.len() ==> (#[trigger] m.versions[i]).created_at <= (
        #[trigger] m.versions[j]).created_at
    &&& forall|i: int|
        0 <= i < m.versions.len() ==> (#[trigger] m.versions[i]).created_at <= m.last_ts && (
        m.versions[i]).updated_at <= m.last_ts
}

/// The index of the live row that carries `id`, if any.
pub open spec fn spec_find(s: Seq<SecretModel>, id: u128) -> Option<int>
    decreases s.len(),
{
    if s.len() == 0 {
        None
    } else if s[0].id == id {
        Some(0)
    } else {
        match spec_find(s.drop_first(), id) {
            None => None,
            Some(i) => Some(i + 1),
        }
    }
}

/// `spec_find` returns the first index carrying the identifier, and `None`
/// exactly when no row carries it.
pub proof fn lemma_spec_find(s: Seq<SecretModel>, id: u128)
    ensures
        match spec_find(s, id) {
            Some(i) => 0 <= i < s.len() && s[i].id == id && forall|j: int|
                0 <= j < i ==> (#[trigger] s[j]).id != id,
            None => forall|j: int| 0 <= j < s.len() ==> (#[trigger] s[j]).id != id,
        },
    decreases s.len(),
{
    if s.len() != 0 && s[0].id != id {
        lemma_spec_find(s.drop_first(), id);
        assert(forall|j: int|
            1 <= j < s.len() ==> #[trigger] s[j] == s.drop_first()[j - 1]);
    }
}

/// `spec_find` looks at identifiers alone.
pub proof fn lemma_spec_find_same_ids(s1: Seq<SecretModel>, s2: Seq<SecretModel>, id: u128)
    requires
        s1.len() == s2.len(),
        forall|i: int| 0 <= i < s1.len() ==> (#[trigger] s1[i]).id == (#[trigger] s2[i]).id,
    ensures
        spec_find(s1, id) == spec_find(s2, id),
    decreases s1.len(),
{
    if s1.len() != 0 {
        assert(forall|i: int|
            0 <= i < s1.drop_first().len() ==> (#[trigger] s1.drop_first()[i]).id == (
            #[trigger] s2.drop_first()[i]).id);
        lemma_spec_find_same_ids(s1.drop_first(), s2.drop_first(), id);
    }
}

/// The live row a batch item becomes.
pub open spec fn saved_as_secret(item: SavedSecretModel, id: int, now: int) -> SecretModel {
    SecretModel {
        id: id as u128,
        name: item.name,
        value: item.value,
        version: item.version,
        created_at: now,
        updated_at: now,
    }
}

/// The state after saving a batch: every item appended as a live row at the
/// version it carries, with a fresh identifier; all or nothing.
pub open spec fn spec_save_batch(m: StoreModel, items: Seq<SavedSecretModel>, now: int) -> StoreModel {
    StoreModel {
        secrets: m.secrets + Seq::new(
            items.len(),
            |i: int| saved_as_secret(items[i], m.next_id + i, now),
        ),
        versions: m.versions,
        next_id: m.next_id + items.len(),
        last_ts: now,
    }
}

/// The state and outcome of an edit that observed `expected_version`:
/// `NotFound` without a row carrying `id`; `Conflict`, changing nothing,
/// where the live version moved past the observation; else one history row
/// appended with the pre-edit state and the live row rewritten at
/// `expected_version + 1`.
pub open spec fn spec_edit(
    m: StoreModel,
    id: u128,
    name: Seq<char>,
    value: Seq<u8>,
    expected_version: int,
    now: int,
) -> (StoreModel, Result<(), SecretError>) {
    match spec_find(m.secrets, id) {
        None => (m, Err(SecretError::NotFound)),
        Some(i) => {
            let cur = m.secrets[i];
            if cur.version != expected_version {
                (m, Err(SecretError::Conflict))
            } else {
                (
                    StoreModel {
                        secrets: m.secrets.update(
                            i,
                            SecretModel {
                                id: id,
                                name: name,
                                value: value,
                                version: expected_version + 1,
                                created_at: cur.created_at,
                                updated_at: now,
                            },
                        ),
                        versions: m.versions.push(
                            SecretVersionModel {
                                id: m.next_id as u128,
                                secret_id: id,
                                name: cur.name,
                                value: cur.value,
                                version: cur.version,
                                created_at: now,
                                updated_at: now,
                            },
                        ),
                        next_id: m.next_id + 1,
                        last_ts: now,
                    },
                    Ok(()),
                )
            }
        },
    }
}

/// The history rows of one secret, oldest first.
pub open spec fn versions_of(vs: Seq<SecretVersionModel>, secret_id: u128) -> Seq<
    SecretVersionModel,
> {
    vs.filter(|v: SecretVersionModel| v.secret_id == secret_id)
}

/// What a page of the listing shows: the full count and the window of the
/// live rows, most recently created first.
pub open spec fn spec_list(m: StoreModel, page: int, limit: int) -> (int, Seq<SecretModel>) {
    (m.secrets.len() as int, page_window(m.secrets.reverse(), page, limit))
}

/// What a page of one secret's history shows: the count of its history rows
/// and their window, most recent first.
pub open spec fn spec_list_versions(m: StoreModel, secret_id: u128, page: int, limit: int) -> (
    int,
    Seq<SecretVersionModel>,
) {
    let hist = versions_of(m.versions, secret_id);
    (hist.len() as int, page_window(hist.reverse(), page, limit))
}

/// An edit that succeeds on a secret at version `n` leaves the live row at
/// version `n + 1` with the new name and value, and appends exactly one
/// history row holding the pre-edit name, value and version `n`; every other
/// row is untouched.
pub proof fn lemma_edit_versioning(
    m: StoreModel,
    id: u128,
    name: Seq<char>,
    value: Seq<u8>,
    expected_version: int,
    now: int,
)
    requires
        spec_edit(m, id, name, value, expected_version, now).1 == Ok::<(), SecretError>(()),
    ensures
        ({
            let m2 = spec_edit(m, id, name, value, expected_version, now).0;
            let i = spec_find(m.secrets, id).unwrap();
            &&& 0 <= i < m.secrets.len()
            &&& m.secrets[i].id == id
            &&& m.secrets[i].version == expected_version
            &&& m2.secrets.len() == m.secrets.len()
            &&& m2.secrets[i].version == expected_version + 1
            &&& m2.secrets[i].name == name
            &&& m2.secrets[i].value == value
            &&& m2.secrets[i].created_at == m.secrets[i].created_at
            &&& m2.secrets[i].updated_at == now
            &&& forall|j: int|
                0 <= j < m.secrets.len() && j != i ==> m2.secrets[j] == (#[trigger] m.secrets[j])
            &&& m2.versions.len() == m.versions.len() + 1
            &&& m2.versions.last().secret_id == id
            &&& m2.versions.last().version == expected_version
            &&& m2.versions.last().name == m.secrets[i].name
            &&& m2.versions.last().value == m.secrets[i].value
            &&& forall|j: int|
                0 <= j < m.versions.len() ==> m2.versions[j] == (#[trigger] m.versions[j])
        }),
{
    lemma_spec_find(m.secrets, id);
}

/// Two edits of one secret that both observed version `n` cannot both
/// succeed: after the first commits, the second fails with `Conflict` and
/// changes nothing, so no history row is duplicated and no update is lost.
pub proof fn lemma_second_edit_conflicts(
    m: StoreModel,
    id: u128,
    name1: Seq<char>,
    value1: Seq<u8>,
    name2: Seq<char>,
    value2: Seq<u8>,
    expected_version: int,
    now1: int,
    now2: int,
)
    requires
        spec_edit(m, id, name1, value1, expected_version, now1).1 == Ok::<(), SecretError>(()),
    ensures
        ({
            let m2 = spec_edit(m, id, name1, value1, expected_version, now1).0;
            &&& spec_edit(m2, id, name2, value2, expected_version, now2).1 == Err::<
                (),
                SecretError,
            >(SecretError::Conflict)
            &&& spec_edit(m2, id, name2, value2, expected_version, now2).0 == m2
        }),
{
    lemma_spec_find(m.secrets, id);
    let i = spec_find(m.secrets, id).unwrap();
    let m2 = spec_edit(m, id, name1, value1, expected_version, now1).0;
    assert(forall|j: int|
        0 <= j < m.secrets.len() ==> (#[trigger] m2.secrets[j]).id == (#[trigger] m.secrets[j]).id);
    lemma_spec_find_same_ids(m.secrets, m2.secrets, id);
}

/// Saving a batch of two items into an empty store and listing the first
/// page shows a count of two and both entries, newest first, at the version
/// they were inserted with.
pub proof fn lemma_save_two_then_list(m: StoreModel, items: Seq<SavedSecretModel>, now: int)
    requires
        m.secrets.len() == 0,
        items.len() == 2,
    ensures
        ({
            let m2 = spec_save_batch(m, items, now);
            let (total, window) = spec_list(m2, 1, 10);
            &&& total == 2
            &&& window.len() == 2
            &&& window[0].name == items[1].name && window[0].value == items[1].value && window[0].version == items[1].version
            &&& window[1].name == items[0].name && window[1].value == items[0].value && window[1].version == items[0].version
        }),
{
    let m2 = spec_save_batch(m, items, now);
    assert(m2.secrets.len() == 2);
    assert(spec_list(m2, 1, 10).1 =~= m2.secrets.reverse());
}

/// With exactly three secrets stored, the second page of size one holds
/// exactly the second-most-recently-created secret, and the count is still
/// three.
pub proof fn lemma_second_page_of_three(m: StoreModel)
    requires
        m.secrets.len() == 3,
    ensures
        spec_list(m, 2, 1).0 == 3,
        spec_list(m, 2, 1).1 =~= seq![m.secrets[1]],
{
    let rev = m.secrets.reverse();
    assert(spec_list(m, 2, 1).1 =~= rev.subrange(1, 2));
    assert(rev[1] == m.secrets[1]);
}

/// A tenant's secret store.
pub struct SecretStore {
    secrets: Vec<Secret>,
    versions: Vec<SecretVersion>,
    next_id: u128,
    last_ts: i64,
}

impl View for SecretStore {
    type V = StoreModel;

    closed spec fn view(&self) -> StoreModel {
        StoreModel {
            secrets: self.secrets.deep_view(),
            versions: self.versions.deep_view(),
            next_id: self.next_id as int,
            last_ts: self.last_ts as int,
        }
    }
}

impl SecretStore {
    /// Well-formedness of the store.
    pub open spec fn wf(&self) -> bool {
        model_wf(self@)
    }

    /// An empty store.
    pub fn new() -> (s: SecretStore)
        ensures
            s.wf(),
            s@.secrets == Seq::<SecretModel>::empty(),
            s@.versions == Seq::<SecretVersionModel>::empty(),
            s@.next_id == 0,
            s@.last_ts == i64::MIN as int,
    {
        let s = SecretStore {
            secrets: Vec::new(),
            versions: Vec::new(),
            next_id: 0,
            last_ts: i64::MIN,
        };
        proof {
            assert(s@.secrets =~= Seq::<SecretModel>::empty());
            assert(s@.versions =~= Seq::<SecretVersionModel>::empty());
        }
        s
    }

    /// Inserts every item of the batch as a new live row with a fresh
    /// identifier; one atomic insertion, so all rows carry the same instant.
    pub fn save_batch(&mut self, items: &Vec<SavedSecret>, now: i64)
        requires
            old(self).wf(),
            now as int >= old(self)@.last_ts,
            old(self)@.next_id + items@.len() <= u128::MAX,
            old(self)@.secrets.len() + items@.len() <= i64::MAX,
            forall|i: int|
                0 <= i < items@.len() ==> (#[trigger] items.deep_view()[i]).version >= 1,
        ensures
            final(self).wf(),
            final(self)@ == spec_save_batch(old(self)@, items.deep_view(), now as int),
    {
        let ghost m0 = self@;
        let ghost its = items.deep_view();
        let n = items.len();
        let mut k: usize = 0;
        self.last_ts = now;
        while k < n
            invariant
                k <= n,
                n == its.len(),
                items.deep_view() == its,
                self.next_id as int == m0.next_id + k,
                self.last_ts == now,
                i64::MIN <= now <= i64::MAX,
                m0.next_id + n <= u128::MAX,
                self@.versions == m0.versions,
                self@.secrets.len() == m0.secrets.len() + k,
                forall|i: int| 0 <= i < m0.secrets.len() ==> self@.secrets[i] == m0.secrets[i],
                forall|i: int|
                    0 <= i < k ==> self@.secrets[m0.secrets.len() + i] == saved_as_secret(
                        its[i],
                        m0.next_id + i,
                        now as int,
                    ),
            decreases n - k,
        {
            let item = &items[k];
            let row = Secret {
                id: self.next_id,
                secret_name: item.secret_name.clone(),
                encrypted_secret_value: vstd::slice::slice_to_vec(
                    item.encrypted_secret_value.as_slice(),
                ),
                version: item.version,
                created_at: now,
                updated_at: now,
            };
            self.secrets.push(row);
            self.next_id = self.next_id + 1;
            k = k + 1;
        }
        proof {
            let m2 = spec_save_batch(m0, its, now as int);
            assert(self@.secrets =~= m2.secrets);
            assert(self@ == m2);
            let old_wf = model_wf(m0);
            assert forall|i: int|
                0 <= i < self@.secrets.len() implies (#[trigger] self@.secrets[i]).created_at
                <= self@.last_ts && self@.secrets[i].updated_at <= self@.last_ts by {
                if i < m0.secrets.len() {
                    assert(m0.secrets[i].created_at <= m0.last_ts);
                    assert(m0.secrets[i].updated_at <= m0.last_ts);
                }
            }
            assert(model_wf(self@));
        }
    }

    /// Looks a live secret up by its identifier.
    #[verifier::loop_isolation(false)]
    pub fn get_by_id(&self, id: u128) -> (r: Result<Secret, SecretError>)
        requires
            self.wf(),
        ensures
            match r {
                Ok(s) => spec_find(self@.secrets, id) matches Some(i) && s@ == self@.secrets[i],
                Err(e) => e == SecretError::NotFound && spec_find(self@.secrets, id) is None,
            },
    {
        proof {
            lemma_spec_find(self@.secrets, id);
        }
        let n = self.secrets.len();
        let mut k: usize = 0;
        while k < n
            invariant
                k <= n,
                n == self@.secrets.len(),
                forall|j: int| 0 <= j < k ==> (#[trigger] self@.secrets[j]).id != id,
            decreases n - k,
        {
            if self.secrets[k].id == id {
                proof {
                    assert(spec_find(self@.secrets, id) == Some(k as int)) by {
                        lemma_spec_find(self@.secrets, id);
                        match spec_find(self@.secrets, id) {
                            Some(i) => {
                                if i < k as int {
                                    assert(self@.secrets[i].id != id);
                                } else if i > k as int {
                                    assert(self@.secrets[k as int].id != id);
                                }
                            },
                            None => {
                                assert(self@.secrets[k as int].id != id);
                            },
                        }
                    }
                }
                return Ok(self.secrets[k].snapshot());
            }
            k = k + 1;
        }
        Err(SecretError::NotFound)
    }

    /// The three-step edit protocol, atomic as a unit: read the live row,
    /// capture it as one history row, and rewrite it with the new name and
    /// value at the next version. The caller passes the version it observed;
    /// a live row already past it is left untouched and the edit fails with
    /// `Conflict`, so no concurrent edit is silently lost.
    #[verifier::loop_isolation(false)]
    pub fn edit(
        &mut self,
        id: u128,
        new_name: &String,
        new_value: &Vec<u8>,
        expected_version: i32,
        now: i64,
    ) -> (r: Result<(), SecretError>)
        requires
            old(self).wf(),
            now as int >= old(self)@.last_ts,
            old(self)@.next_id < u128::MAX,
            old(self)@.versions.len() < i64::MAX,
            expected_version < i32::MAX,
        ensures
            final(self).wf(),
            final(self)@ == spec_edit(
                old(self)@,
                id,
                new_name@,
                new_value@,
                expected_version as int,
                now as int,
            ).0,
            r == spec_edit(
                old(self)@,
                id,
                new_name@,
                new_value@,
                expected_version as int,
                now as int,
            ).1,
    {
        let ghost m0 = self@;
        proof {
            lemma_spec_find(m0.secrets, id);
        }
        let n = self.secrets.len();
        let mut k: usize = 0;
        while k < n
            invariant
                k <= n,
                n == self@.secrets.len(),
                self@ == m0,
                forall|j: int| 0 <= j < k ==> (#[trigger] self@.secrets[j]).id != id,
            decreases n - k,
        {
            if self.secrets[k].id == id {
                proof {
                    assert(spec_find(m0.secrets, id) == Some(k as int)) by {
                        lemma_spec_find(m0.secrets, id);
                        match spec_find(m0.secrets, id) {
                            Some(i) => {
                                if i < k as int {
                                    assert(m0.secrets[i].id != id);
                                } else if i > k as int {
                                    assert(m0.secrets[k as int].id != id);
                                }
                            },
                            None => {
                                assert(m0.secrets[k as int].id != id);
                            },
                        }
                    }
                }
                if self.secrets[k].version != expected_version {
                    return Err(SecretError::Conflict);
                }
                let cur = &self.secrets[k];
                let hist = SecretVersion {
                    id: self.next_id,
                    secret_id: id,
                    secret_name: cur.secret_name.clone(),
                    encrypted_secret_value: vstd::slice::slice_to_vec(
                        cur.encrypted_secret_value.as_slice(),
                    ),
                    version: cur.version,
                    created_at: now,
                    updated_at: now,
                };
                let created_at = cur.created_at;
                self.versions.push(hist);
                let updated = Secret {
                    id: id,
                    secret_name: new_name.clone(),
                    encrypted_secret_value: vstd::slice::slice_to_vec(new_value.as_slice()),
                    version: expected_version + 1,
                    created_at: created_at,
                    updated_at: now,
                };
                self.secrets[k] = updated;
                self.next_id = self.next_id + 1;
                self.last_ts = now;
                proof {
                    let m2 = spec_edit(
                        m0,
                        id,
                        new_name@,
                        new_value@,
                        expected_version as int,
                        now as int,
                    ).0;
                    assert(self@.secrets =~= m2.secrets);
                    assert(self@.versions =~= m2.versions);
                    assert(self@ == m2);
                    assert forall|i: int, j: int|
                        0 <= i <= j < self@.secrets.len() implies (
                    #[trigger] self@.secrets[i]).created_at <= (
                    #[trigger] self@.secrets[j]).created_at by {
                        assert(m0.secrets[i].created_at <= m0.secrets[j].created_at);
                    }
                    assert forall|i: int|
                        0 <= i < self@.secrets.len() implies (#[trigger] self@.secrets[i]).created_at
                        <= self@.last_ts && self@.secrets[i].updated_at <= self@.last_ts by {
                        assert(m0.secrets[i].created_at <= m0.last_ts);
                        if i != k as int {
                            assert(m0.secrets[i].updated_at <= m0.last_ts);
                        }
                    }
                    assert forall|i: int|
                        0 <= i < self@.versions.len() implies (
                    #[trigger] self@.versions[i]).created_at <= self@.last_ts && (
                    self@.versions[i]).updated_at <= self@.last_ts by {
                        if i < m0.versions.len() {
                            assert(m0.versions[i].created_at <= m0.last_ts);
                            assert(m0.versions[i].updated_at <= m0.last_ts);
                        }
                    }
                    assert forall|i: int, j: int|
                        0 <= i <= j < self@.versions.len() implies (
                    #[trigger] self@.versions[i]).created_at <= (
                    #[trigger] self@.versions[j]).created_at by {
                        if j < m0.versions.len() {
                            assert(m0.versions[i].created_at <= m0.versions[j].created_at);
                        } else if i < m0.versions.len() {
                            assert(m0.versions[i].created_at <= m0.last_ts);
                        }
                    }
                    assert(model_wf(self@));
                }
                return Ok(());
            }
            k = k + 1;
        }
        Err(SecretError::NotFound)
    }

    /// One page of the live secrets, most recently created first, with the
    /// full unpaginated count.
    #[verifier::loop_isolation(false)]
    pub fn list(&self, page: usize, limit: usize) -> (r: (usize, Vec<Secret>))
        requires
            self.wf(),
            page >= 1,
            1 <= limit <= 50,
        ensures
            r.0 == self@.secrets.len(),
            r.1.deep_view() == spec_list(self@, page as int, limit as int).1,
    {
        let total = self.secrets.len();
        let ghost rev = self@.secrets.reverse();
        let mut out: Vec<Secret> = Vec::new();
        let off = match (page - 1).checked_mul(limit) {
            Some(o) => o,
            None => {
                proof {
                    assert(out.deep_view() =~= page_window(rev, page as int, limit as int));
                }
                return (total, out);
            },
        };
        if off >= total {
            proof {
                assert(out.deep_view() =~= page_window(rev, page as int, limit as int));
            }
            return (total, out);
        }
        let take = if limit < total - off {
            limit
        } else {
            total - off
        };
        let mut k: usize = 0;
        while k < take
            invariant
                k <= take,
                out@.len() == k,
                forall|j: int|
                    0 <= j < k ==> out.deep_view()[j] == self@.secrets[total - 1 - off - j],
            decreases take - k,
        {
            let ghost dv0 = out.deep_view();
            out.push(self.secrets[total - 1 - off - k].snapshot());
            proof {
                assert forall|j: int|
                    0 <= j < k + 1 implies out.deep_view()[j] == self@.secrets[total - 1 - off
                    - j] by {
                    if j < k {
                        assert(out.deep_view()[j] == dv0[j]);
                    } else {
                        assert(out@[j] == out@.last());
                    }
                }
            }
            k = k + 1;
        }
        proof {
            assert forall|j: int| 0 <= j < take implies out.deep_view()[j] == rev[off + j] by {
                assert(rev[off + j] == self@.secrets[total - 1 - off - j]);
            }
            assert(out.deep_view() =~= page_window(rev, page as int, limit as int));
        }
        (total, out)
    }

    /// One page of one secret's history, most recent first, with the full
    /// count of that secret's history rows.
    #[verifier::loop_isolation(false)]
    pub fn list_versions(&self, secret_id: u128, page: usize, limit: usize) -> (r: (
        usize,
        Vec<SecretVersion>,
    ))
        requires
            self.wf(),
            page >= 1,
            1 <= limit <= 50,
        ensures
            r.0 == versions_of(self@.versions, secret_id).len(),
            r.1.deep_view() == spec_list_versions(self@, secret_id, page as int, limit as int).1,
    {
        let ghost pred = |v: SecretVersionModel| v.secret_id == secret_id;
        let n = self.versions.len();
        let mut hist: Vec<SecretVersion> = Vec::new();
        let mut k: usize = 0;
        proof {
            assert(self@.versions.subrange(0, 0).filter(pred) =~= Seq::<
                SecretVersionModel,
            >::empty()) by {
                reveal_with_fuel(Seq::filter, 1);
            }
            assert(hist.deep_view() =~= self@.versions.subrange(0, 0).filter(pred));
        }
        while k < n
            invariant
                k <= n,
                hist.deep_view() == self@.versions.subrange(0, k as int).filter(pred),
            decreases n - k,
        {
            let ghost prefix = self@.versions.subrange(0, k as int);
            let ghost dv0 = hist.deep_view();
            if self.versions[k].secret_id == secret_id {
                hist.push(self.versions[k].snapshot());
            }
            proof {
                let one = seq![self@.versions[k as int]];
                assert(self@.versions.subrange(0, k + 1) =~= prefix + one);
                Seq::filter_distributes_over_add(prefix, one, pred);
                assert(one.filter(pred) =~= if pred(self@.versions[k as int]) {
                    one
                } else {
                    Seq::<SecretVersionModel>::empty()
                }) by {
                    reveal_with_fuel(Seq::filter, 2);
                    assert(one.drop_last() =~= Seq::<SecretVersionModel>::empty());
                }
                if pred(self@.versions[k as int]) {
                    assert(hist.deep_view() =~= dv0.push(self@.versions[k as int]));
                }
                assert(hist.deep_view() =~= self@.versions.subrange(0, k + 1).filter(pred));
            }
            k = k + 1;
        }
        proof {
            assert(self@.versions.subrange(0, n as int) =~= self@.versions);
            assert(hist.deep_view() =~= versions_of(self@.versions, secret_id));
        }
        let ghost histm = versions_of(self@.versions, secret_id);
        let ghost rev = histm.reverse();
        let total = hist.len();
        let mut out: Vec<SecretVersion> = Vec::new();
        let off = match (page - 1).checked_mul(limit) {
            Some(o) => o,
            None => {
                proof {
                    assert(out.deep_view() =~= page_window(rev, page as int, limit as int));
                }
                return (total, out);
            },
        };
        if off >= total {
            proof {
                assert(out.deep_view() =~= page_window(rev, page as int, limit as int));
            }
            return (total, out);
        }
        let take = if limit < total - off {
            limit
        } else {
            total - off
        };
        let mut k2: usize = 0;
        while k2 < take
            invariant
                k2 <= take,
                out@.len() == k2,
                forall|j: int| 0 <= j < k2 ==> out.deep_view()[j] == histm[total - 1 - off - j],
            decreases take - k2,
        {
            let ghost dv0 = out.deep_view();
            out.push(hist[total - 1 - off - k2].snapshot());
            proof {
                assert forall|j: int|
                    0 <= j < k2 + 1 implies out.deep_view()[j] == histm[total - 1 - off - j] by {
                    if j < k2 {
                        assert(out.deep_view()[j] == dv0[j]);
                    } else {
                        assert(out@[j] == out@.last());
                        assert(hist.deep_view()[total - 1 - off - j] == histm[total - 1 - off - j]);
                    }
                }
            }
            k2 = k2 + 1;
        }
        proof {
            assert forall|j: int| 0 <= j < take implies out.deep_view()[j] == rev[off + j] by {
                assert(rev[off + j] == histm[total - 1 - off - j]);
            }
            assert(out.deep_view() =~= page_window(rev, page as int, limit as int));
        }
        (total, out)
    }
}

} // verus!
