use vstd::prelude::*;
use vstd::string::StringExecFns;

use crate::keyed::{
    has_key, keyed_map, lemma_map_at, lemma_map_push, lemma_map_remove, lemma_map_update,
    unique_keys,
};
use crate::records::{Role, RoleView};
use crate::resolved::{ResolvedPermissions, ResolvedView};

verus! {

/// Seconds that a resolution outcome stays in the cache.
pub const PERMISSION_CACHE_TTL: i64 = 300;

/// Seconds that a role record stays in the cache.
pub const ROLE_CACHE_TTL: i64 = 600;

/// The cache key of a resolution: `permissions:{user}:{project}`, with
/// `global` for the global scope.
pub open spec fn permissions_key_of(user_id: Seq<char>, project_id: Option<Seq<char>>) -> Seq<char> {
    let scope = match project_id {
        Some(p) => p,
        None => "global"@,
    };
    "permissions:"@ + user_id + ":"@ + scope
}

/// The cache key of a role record: `role:{role_id}`.
pub open spec fn role_key_of(role_id: Seq<char>) -> Seq<char> {
    "role:"@ + role_id
}

/// Builds the cache key of a resolution.
pub fn permissions_key(user_id: &str, project_id: Option<&str>) -> (r: String)
    ensures
        r@ == permissions_key_of(
            user_id@,
            match project_id {
                Some(p) => Some(p@),
                None => None,
            },
        ),
{
    let mut k = "permissions:".to_string();
    k.append(user_id);
    k.append(":");
    match project_id {
        Some(p) => k.append(p),
        None => k.append("global"),
    }
    k
}

/// Builds the cache key of a role record.
pub fn role_key(role_id: &str) -> (r: String)
    ensures
        r@ == role_key_of(role_id@),
{
    let mut k = "role:".to_string();
    k.append(role_id);
    k
}

/// The instant `ttl` seconds after `now`, saturating at the largest instant.
pub open spec fn expiry(now: i64, ttl: i64) -> i64 {
    if now <= i64::MAX - ttl {
        (now + ttl) as i64
    } else {
        i64::MAX
    }
}

fn expiry_after(now: i64, ttl: i64) -> (r: i64)
    requires
        ttl >= 0,
    ensures
        r == expiry(now, ttl),
{
    if now <= i64::MAX - ttl {
        now + ttl
    } else {
        i64::MAX
    }
}

/// A cached resolution and the instant it expires.
pub struct CachedPermissions {
    pub key: String,
    pub value: ResolvedPermissions,
    pub expires_at: i64,
}

/// A cached role record and the instant it expires.
pub struct CachedRole {
    pub key: String,
    pub value: Role,
    pub expires_at: i64,
}

/// Key of a cached resolution.
pub open spec fn by_resolved_key() -> spec_fn(CachedPermissions) -> Seq<char> {
    |e: CachedPermissions| e.key@
}

/// Key of a cached role.
pub open spec fn by_role_key() -> spec_fn(CachedRole) -> Seq<char> {
    |e: CachedRole| e.key@
}

/// An in-memory key/value cache with a time to live per entry. Entries live
/// while the time is before their expiry. When it is not reachable, reads
/// miss and writes and deletions do nothing.
pub struct MemoryCache {
    pub resolved: Vec<CachedPermissions>,
    pub roles: Vec<CachedRole>,
    pub reachable: bool,
}

impl MemoryCache {
    /// Cached resolutions by key: the value and its expiry.
    pub open spec fn resolved_map(&self) -> Map<Seq<char>, (ResolvedView, i64)> {
        keyed_map(self.resolved@, by_resolved_key()).map_values(
            |e: CachedPermissions| (e.value@, e.expires_at),
        )
    }

    /// Cached roles by key: the value and its expiry.
    pub open spec fn role_map(&self) -> Map<Seq<char>, (RoleView, i64)> {
        keyed_map(self.roles@, by_role_key()).map_values(|e: CachedRole| (e.value@, e.expires_at))
    }

    /// One entry per key in each family.
    pub open spec fn wf(&self) -> bool {
        &&& unique_keys(self.resolved@, by_resolved_key())
        &&& unique_keys(self.roles@, by_role_key())
    }

    /// The resolution that a read of `key` at `now` returns.
    pub open spec fn live_resolved(&self, key: Seq<char>, now: i64) -> Option<ResolvedView> {
        if self.reachable && self.resolved_map().contains_key(key) && now
            < self.resolved_map()[key].1 {
            Some(self.resolved_map()[key].0)
        } else {
            None
        }
    }

    /// The role that a read of `key` at `now` returns.
    pub open spec fn live_role(&self, key: Seq<char>, now: i64) -> Option<RoleView> {
        if self.reachable && self.role_map().contains_key(key) && now < self.role_map()[key].1 {
            Some(self.role_map()[key].0)
        } else {
            None
        }
    }

    /// An empty, reachable cache.
    pub fn new() -> (r: MemoryCache)
        ensures
            r.wf(),
            r.reachable,
            r.resolved_map().is_empty(),
            r.role_map().is_empty(),
    {
        let r = MemoryCache { resolved: Vec::new(), roles: Vec::new(), reachable: true };
        assert(r.resolved_map() =~= Map::empty());
        assert(r.role_map() =~= Map::empty());
        r
    }

    /// Makes the cache reachable or not; its entries stay.
    pub fn set_reachable(&mut self, reachable: bool)
        ensures
            final(self).reachable == reachable,
            final(self).resolved@ == old(self).resolved@,
            final(self).roles@ == old(self).roles@,
    {
        self.reachable = reachable;
    }

    /// Whether no two cached resolutions share a key.
    fn resolved_unique(&self) -> (r: bool)
        ensures
            r == unique_keys(self.resolved@, by_resolved_key()),
    {
        let ghost s = self.resolved@;
        let ghost key = by_resolved_key();
        let n = self.resolved.len();
        let mut i: usize = 0;
        while i < n
            invariant
                s == self.resolved@,
                key == by_resolved_key(),
                n == s.len(),
                i <= n,
                forall|a: int, b: int| 0 <= a < i && a < b < n ==> key(s[a]) != key(s[b]),
            decreases n - i,
        {
            let mut j: usize = i + 1;
            while j < n
                invariant
                    s == self.resolved@,
                    key == by_resolved_key(),
                    n == s.len(),
                    i < n,
                    i + 1 <= j <= n,
                    forall|a: int, b: int| 0 <= a < i && a < b < n ==> key(s[a]) != key(s[b]),
                    forall|b: int| i < b < j ==> key(s[i as int]) != key(s[b]),
                decreases n - j,
            {
                if self.resolved[i].key == self.resolved[j].key {
                    assert(key(s[i as int]) == key(s[j as int]));
                    return false;
                }
                j = j + 1;
            }
            i = i + 1;
        }
        assert forall|a: int, b: int|
            0 <= a < n && 0 <= b < n && #[trigger] key(s[a]) == #[trigger] key(s[b]) implies a
            == b by {
            if b < a {
                assert(key(s[b]) != key(s[a]));
            }
        }
        true
    }

    /// Whether no two cached roles share a key.
    fn roles_unique(&self) -> (r: bool)
        ensures
            r == unique_keys(self.roles@, by_role_key()),
    {
        let ghost s = self.roles@;
        let ghost key = by_role_key();
        let n = self.roles.len();
        let mut i: usize = 0;
        while i < n
            invariant
                s == self.roles@,
                key == by_role_key(),
                n == s.len(),
                i <= n,
                forall|a: int, b: int| 0 <= a < i && a < b < n ==> key(s[a]) != key(s[b]),
            decreases n - i,
        {
            let mut j: usize = i + 1;
            while j < n
                invariant
                    s == self.roles@,
                    key == by_role_key(),
                    n == s.len(),
                    i < n,
                    i + 1 <= j <= n,
                    forall|a: int, b: int| 0 <= a < i && a < b < n ==> key(s[a]) != key(s[b]),
                    forall|b: int| i < b < j ==> key(s[i as int]) != key(s[b]),
                decreases n - j,
            {
                if self.roles[i].key == self.roles[j].key {
                    assert(key(s[i as int]) == key(s[j as int]));
                    return false;
                }
                j = j + 1;
            }
            i = i + 1;
        }
        assert forall|a: int, b: int|
            0 <= a < n && 0 <= b < n && #[trigger] key(s[a]) == #[trigger] key(s[b]) implies a
            == b by {
            if b < a {
                assert(key(s[b]) != key(s[a]));
            }
        }
        true
    }

    /// Checks the well-formedness that every operation requires.
    pub fn is_well_formed(&self) -> (r: bool)
        ensures
            r == self.wf(),
    {
        self.resolved_unique() && self.roles_unique()
    }

    fn resolved_position(&self, key: &String) -> (r: Option<usize>)
        ensures
            match r {
                Some(i) => i < self.resolved@.len() && self.resolved@[i as int].key@ == key@,
                None => !has_key(self.resolved@, by_resolved_key(), key@),
            },
    {
        let mut i: usize = 0;
        while i < self.resolved.len()
            invariant
                i <= self.resolved@.len(),
                forall|j: int| 0 <= j < i ==> #[trigger] self.resolved@[j].key@ != key@,
            decreases self.resolved.len() - i,
        {
            if self.resolved[i].key == *key {
                return Some(i);
            }
            i = i + 1;
        }
        proof {
            if has_key(self.resolved@, by_resolved_key(), key@) {
                let j = choose|j: int|
                    0 <= j < self.resolved@.len() && #[trigger] by_resolved_key()(self.resolved@[j])
                        == key@;
                assert(self.resolved@[j].key@ != key@);
            }
        }
        None
    }

    fn role_position(&self, key: &String) -> (r: Option<usize>)
        ensures
            match r {
                Some(i) => i < self.roles@.len() && self.roles@[i as int].key@ == key@,
                None => !has_key(self.roles@, by_role_key(), key@),
            },
    {
        let mut i: usize = 0;
        while i < self.roles.len()
            invariant
                i <= self.roles@.len(),
                forall|j: int| 0 <= j < i ==> #[trigger] self.roles@[j].key@ != key@,
            decreases self.roles.len() - i,
        {
            if self.roles[i].key == *key {
                return Some(i);
            }
            i = i + 1;
        }
        proof {
            if has_key(self.roles@, by_role_key(), key@) {
                let j = choose|j: int|
                    0 <= j < self.roles@.len() && #[trigger] by_role_key()(self.roles@[j]) == key@;
                assert(self.roles@[j].key@ != key@);
            }
        }
        None
    }

    /// Reads a cached resolution.
    pub fn get_resolved(&self, key: &String, now: i64) -> (r: Option<ResolvedPermissions>)
        requires
            self.wf(),
        ensures
            match r {
                Some(v) => self.live_resolved(key@, now) == Some(v@),
                None => self.live_resolved(key@, now) is None,
            },
    {
        if !self.reachable {
            return None;
        }
        match self.resolved_position(key) {
            Some(i) => {
                proof {
                    lemma_map_at(self.resolved@, by_resolved_key(), i as int);
                }
                if now < self.resolved[i].expires_at {
                    Some(self.resolved[i].value.duplicate())
                } else {
                    None
                }
            },
            None => None,
        }
    }

    /// Reads a cached role.
    pub fn get_role(&self, key: &String, now: i64) -> (r: Option<Role>)
        requires
            self.wf(),
        ensures
            match r {
                Some(v) => self.live_role(key@, now) == Some(v@),
                None => self.live_role(key@, now) is None,
            },
    {
        if !self.reachable {
            return None;
        }
        match self.role_position(key) {
            Some(i) => {
                proof {
                    lemma_map_at(self.roles@, by_role_key(), i as int);
                }
                if now < self.roles[i].expires_at {
                    Some(self.roles[i].value.duplicate())
                } else {
                    None
                }
            },
            None => None,
        }
    }

    /// Stores a resolution under `key` for `ttl` seconds from `now`.
    pub fn set_resolved(&mut self, key: String, value: ResolvedPermissions, ttl: i64, now: i64)
        requires
            old(self).wf(),
            ttl >= 0,
        ensures
            final(self).wf(),
            final(self).reachable == old(self).reachable,
            final(self).resolved_map() == if old(self).reachable {
                old(self).resolved_map().insert(key@, (value@, expiry(now, ttl)))
            } else {
                old(self).resolved_map()
            },
            final(self).roles@ == old(self).roles@,
    {
        if !self.reachable {
            return;
        }
        let ghost s = self.resolved@;
        let ghost kv = key@;
        let entry = CachedPermissions { key, value, expires_at: expiry_after(now, ttl) };
        let ghost e = entry;
        match self.resolved_position(&entry.key) {
            Some(i) => {
                proof {
                    lemma_map_update(s, by_resolved_key(), i as int, e);
                }
                self.resolved.set(i, entry);
                assert(self.resolved@ == s.update(i as int, e));
            },
            None => {
                proof {
                    lemma_map_push(s, by_resolved_key(), e);
                }
                self.resolved.push(entry);
                assert(self.resolved@ == s.push(e));
            },
        }
        assert(self.resolved_map() =~= keyed_map(s, by_resolved_key()).map_values(
            |e: CachedPermissions| (e.value@, e.expires_at),
        ).insert(kv, (e.value@, e.expires_at)));
    }

    /// Stores a role under `key` for `ttl` seconds from `now`.
    pub fn set_role(&mut self, key: String, value: Role, ttl: i64, now: i64)
        requires
            old(self).wf(),
            ttl >= 0,
        ensures
            final(self).wf(),
            final(self).reachable == old(self).reachable,
            final(self).role_map() == if old(self).reachable {
                old(self).role_map().insert(key@, (value@, expiry(now, ttl)))
            } else {
                old(self).role_map()
            },
            final(self).resolved@ == old(self).resolved@,
    {
        if !self.reachable {
            return;
        }
        let ghost s = self.roles@;
        let ghost kv = key@;
        let entry = CachedRole { key, value, expires_at: expiry_after(now, ttl) };
        let ghost e = entry;
        match self.role_position(&entry.key) {
            Some(i) => {
                proof {
                    lemma_map_update(s, by_role_key(), i as int, e);
                }
                self.roles.set(i, entry);
                assert(self.roles@ == s.update(i as int, e));
            },
            None => {
                proof {
                    lemma_map_push(s, by_role_key(), e);
                }
                self.roles.push(entry);
                assert(self.roles@ == s.push(e));
            },
        }
        assert(self.role_map() =~= keyed_map(s, by_role_key()).map_values(
            |e: CachedRole| (e.value@, e.expires_at),
        ).insert(kv, (e.value@, e.expires_at)));
    }

    /// Drops every entry of both families.
    pub fn clear(&mut self)
        requires
            old(self).wf(),
        ensures
            final(self).wf(),
            final(self).reachable == old(self).reachable,
            old(self).reachable ==> final(self).resolved_map().is_empty()
                && final(self).role_map().is_empty(),
            !old(self).reachable ==> *final(self) == *old(self),
    {
        if !self.reachable {
            return;
        }
        self.resolved = Vec::new();
        self.roles = Vec::new();
        assert(self.resolved_map() =~= Map::empty());
        assert(self.role_map() =~= Map::empty());
    }

    /// Deletes the cached resolution stored under `key`.
    pub fn delete_resolved(&mut self, key: &String)
        requires
            old(self).wf(),
        ensures
            final(self).wf(),
            final(self).reachable == old(self).reachable,
            final(self).resolved_map() == if old(self).reachable {
                old(self).resolved_map().remove(key@)
            } else {
                old(self).resolved_map()
            },
            final(self).roles@ == old(self).roles@,
    {
        if !self.reachable {
            return;
        }
        let ghost s = self.resolved@;
        match self.resolved_position(key) {
            Some(i) => {
                proof {
                    lemma_map_remove(s, by_resolved_key(), i as int);
                }
                self.resolved.remove(i);
                assert(self.resolved_map() =~= keyed_map(s, by_resolved_key()).remove(key@).map_values(
                    |e: CachedPermissions| (e.value@, e.expires_at),
                ));
            },
            None => {},
        }
        assert(self.resolved_map() =~= old(self).resolved_map().remove(key@));
    }

    /// Deletes the cached role stored under `key`.
    pub fn delete_role(&mut self, key: &String)
        requires
            old(self).wf(),
        ensures
            final(self).wf(),
            final(self).reachable == old(self).reachable,
            final(self).role_map() == if old(self).reachable {
                old(self).role_map().remove(key@)
            } else {
                old(self).role_map()
            },
            final(self).resolved@ == old(self).resolved@,
    {
        if !self.reachable {
            return;
        }
        let ghost t = self.roles@;
        match self.role_position(key) {
            Some(i) => {
                proof {
                    lemma_map_remove(t, by_role_key(), i as int);
                }
                self.roles.remove(i);
                assert(self.role_map() =~= keyed_map(t, by_role_key()).remove(key@).map_values(
                    |e: CachedRole| (e.value@, e.expires_at),
                ));
            },
            None => {},
        }
        assert(self.role_map() =~= old(self).role_map().remove(key@));
    }
}

} // verus!
