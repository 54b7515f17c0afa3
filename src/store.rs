use vstd::prelude::*;

use crate::keyed::{
    find_by, has_key, keyed_map, lemma_map_at, lemma_map_push, lemma_map_remove, lemma_map_update,
    unique_keys,
};
use crate::records::{
    MembershipView, ProjectEntry, ProjectMembership, ProjectView, Role, RoleView, UserEntry, UserView,
};

verus! {

/// The store could not be reached.
#[derive(Clone, Copy, Debug, PartialEq, Eq, Structural)]
pub enum StoreError {
    Unavailable,
}

/// Key of a directory user.
pub open spec fn by_user_id() -> spec_fn(UserView) -> Seq<char> {
    |u: UserView| u.user_id
}

/// Key of a directory project.
pub open spec fn by_project_id() -> spec_fn(ProjectView) -> Seq<char> {
    |p: ProjectView| p.project_id
}

/// Key of a role.
pub open spec fn by_role_id() -> spec_fn(RoleView) -> Seq<char> {
    |r: RoleView| r.role_id
}

/// Key of a membership: the (user, project) pair.
pub open spec fn by_member_pair() -> spec_fn(MembershipView) -> (Seq<char>, Seq<char>) {
    |m: MembershipView| (m.user_id, m.project_id)
}


/// A role of tenant `t`.
pub open spec fn in_tenant(t: Seq<char>) -> spec_fn(RoleView) -> bool {
    |r: RoleView| r.tenant_id == t
}

/// A membership that references role `rid`.
pub open spec fn holds_role(rid: Seq<char>) -> spec_fn(MembershipView) -> bool {
    |m: MembershipView| m.role_id == rid
}

/// A membership in project `p`.
pub open spec fn in_project(p: Seq<char>) -> spec_fn(MembershipView) -> bool {
    |m: MembershipView| m.project_id == p
}

/// A membership of user `u`.
pub open spec fn of_user(u: Seq<char>) -> spec_fn(MembershipView) -> bool {
    |m: MembershipView| m.user_id == u
}

/// An in-memory document store holding the user and project directories,
/// the roles and the memberships. When it is not reachable every operation
/// fails and changes nothing.
pub struct MemoryStore {
    pub users: Vec<UserEntry>,
    pub projects: Vec<ProjectEntry>,
    pub roles: Vec<Role>,
    pub memberships: Vec<ProjectMembership>,
    pub reachable: bool,
}

impl MemoryStore {
    pub open spec fn user_views(&self) -> Seq<UserView> {
        self.users@.map_values(|u: UserEntry| u@)
    }

    pub open spec fn project_views(&self) -> Seq<ProjectView> {
        self.projects@.map_values(|p: ProjectEntry| p@)
    }

    pub open spec fn role_views(&self) -> Seq<RoleView> {
        self.roles@.map_values(|r: Role| r@)
    }

    pub open spec fn membership_views(&self) -> Seq<MembershipView> {
        self.memberships@.map_values(|m: ProjectMembership| m@)
    }

    /// Users by id.
    pub open spec fn user_map(&self) -> Map<Seq<char>, UserView> {
        keyed_map(self.user_views(), by_user_id())
    }

    /// Projects by id.
    pub open spec fn project_map(&self) -> Map<Seq<char>, ProjectView> {
        keyed_map(self.project_views(), by_project_id())
    }

    /// Roles by id.
    pub open spec fn role_map(&self) -> Map<Seq<char>, RoleView> {
        keyed_map(self.role_views(), by_role_id())
    }

    /// Memberships by (user, project).
    pub open spec fn membership_map(&self) -> Map<(Seq<char>, Seq<char>), MembershipView> {
        keyed_map(self.membership_views(), by_member_pair())
    }

    /// Every collection is keyed uniquely: one user per id, one project per
    /// id, one role per id and one membership per (user, project).
    pub open spec fn wf(&self) -> bool {
        &&& unique_keys(self.user_views(), by_user_id())
        &&& unique_keys(self.project_views(), by_project_id())
        &&& unique_keys(self.role_views(), by_role_id())
        &&& unique_keys(self.membership_views(), by_member_pair())
    }

    /// An empty, reachable store.
    pub fn new() -> (r: MemoryStore)
        ensures
            r.wf(),
            r.reachable,
            r.user_map().is_empty(),
            r.project_map().is_empty(),
            r.role_map().is_empty(),
            r.membership_map().is_empty(),
    {
        let r = MemoryStore {
            users: Vec::new(),
            projects: Vec::new(),
            roles: Vec::new(),
            memberships: Vec::new(),
            reachable: true,
        };
        assert(r.user_map() =~= Map::empty());
        assert(r.project_map() =~= Map::empty());
        assert(r.role_map() =~= Map::empty());
        assert(r.membership_map() =~= Map::empty());
        r
    }

    /// Makes the store reachable or not.
    pub fn set_reachable(&mut self, reachable: bool)
        ensures
            final(self).reachable == reachable,
            final(self).users@ == old(self).users@,
            final(self).projects@ == old(self).projects@,
            final(self).roles@ == old(self).roles@,
            final(self).memberships@ == old(self).memberships@,
    {
        self.reachable = reachable;
    }

    /// Adds a user to the directory, or replaces the user with the same id.
    /// The directories are the store's own collaborators: seeding them does
    /// not depend on reachability.
    pub fn put_user(&mut self, user: UserEntry)
        requires
            old(self).wf(),
        ensures
            final(self).wf(),
            final(self).reachable == old(self).reachable,
            final(self).user_map() == old(self).user_map().insert(user@.user_id, user@),
            final(self).projects@ == old(self).projects@,
            final(self).roles@ == old(self).roles@,
            final(self).memberships@ == old(self).memberships@,
    {
        let ghost views = self.user_views();
        match self.user_position(&user.user_id) {
            Some(i) => {
                proof {
                    lemma_map_update(views, by_user_id(), i as int, user@);
                }
                self.users.set(i, user);
                assert(self.user_views() =~= views.update(i as int, user@));
            },
            None => {
                proof {
                    lemma_map_push(views, by_user_id(), user@);
                }
                self.users.push(user);
                assert(self.user_views() =~= views.push(user@));
            },
        }
    }

    /// Adds a project to the directory, or replaces the project with the same
    /// id; like `put_user`, regardless of reachability.
    pub fn put_project(&mut self, project: ProjectEntry)
        requires
            old(self).wf(),
        ensures
            final(self).wf(),
            final(self).reachable == old(self).reachable,
            final(self).project_map() == old(self).project_map().insert(
                project@.project_id,
                project@,
            ),
            final(self).users@ == old(self).users@,
            final(self).roles@ == old(self).roles@,
            final(self).memberships@ == old(self).memberships@,
    {
        let ghost views = self.project_views();
        match self.project_position(&project.project_id) {
            Some(i) => {
                proof {
                    lemma_map_update(views, by_project_id(), i as int, project@);
                }
                self.projects.set(i, project);
                assert(self.project_views() =~= views.update(i as int, project@));
            },
            None => {
                proof {
                    lemma_map_push(views, by_project_id(), project@);
                }
                self.projects.push(project);
                assert(self.project_views() =~= views.push(project@));
            },
        }
    }

    /// The directory entry of a user.
    pub fn find_user(&self, user_id: &String) -> (r: Result<Option<UserEntry>, StoreError>)
        requires
            self.wf(),
        ensures
            r is Err <==> !self.reachable,
            r matches Ok(Some(u)) ==> self.user_map().contains_key(user_id@)
                && self.user_map()[user_id@] == u@,
            r matches Ok(None) ==> !self.user_map().contains_key(user_id@),
    {
        if !self.reachable {
            return Err(StoreError::Unavailable);
        }
        match self.user_position(user_id) {
            Some(i) => {
                proof {
                    lemma_map_at(self.user_views(), by_user_id(), i as int);
                }
                Ok(Some(self.users[i].duplicate()))
            },
            None => Ok(None),
        }
    }

    /// The directory entry of a project.
    pub fn find_project(&self, project_id: &String) -> (r: Result<Option<ProjectEntry>, StoreError>)
        requires
            self.wf(),
        ensures
            r is Err <==> !self.reachable,
            r matches Ok(Some(p)) ==> self.project_map().contains_key(project_id@)
                && self.project_map()[project_id@] == p@,
            r matches Ok(None) ==> !self.project_map().contains_key(project_id@),
    {
        if !self.reachable {
            return Err(StoreError::Unavailable);
        }
        match self.project_position(project_id) {
            Some(i) => {
                proof {
                    lemma_map_at(self.project_views(), by_project_id(), i as int);
                }
                Ok(Some(self.projects[i].duplicate()))
            },
            None => Ok(None),
        }
    }

    /// The role with the given id.
    pub fn find_role(&self, role_id: &String) -> (r: Result<Option<Role>, StoreError>)
        requires
            self.wf(),
        ensures
            r is Err <==> !self.reachable,
            r matches Ok(Some(x)) ==> self.role_map().contains_key(role_id@)
                && self.role_map()[role_id@] == x@,
            r matches Ok(None) ==> !self.role_map().contains_key(role_id@),
    {
        if !self.reachable {
            return Err(StoreError::Unavailable);
        }
        match self.role_position(role_id) {
            Some(i) => {
                proof {
                    lemma_map_at(self.role_views(), by_role_id(), i as int);
                }
                Ok(Some(self.roles[i].duplicate()))
            },
            None => Ok(None),
        }
    }

    /// The membership of a user in a project.
    pub fn find_membership(&self, user_id: &String, project_id: &String) -> (r: Result<
        Option<ProjectMembership>,
        StoreError,
    >)
        requires
            self.wf(),
        ensures
            r is Err <==> !self.reachable,
            r matches Ok(Some(m)) ==> self.membership_map().contains_key((user_id@, project_id@))
                && self.membership_map()[(user_id@, project_id@)] == m@,
            r matches Ok(None) ==> !self.membership_map().contains_key((user_id@, project_id@)),
    {
        if !self.reachable {
            return Err(StoreError::Unavailable);
        }
        match self.membership_position(user_id, project_id) {
            Some(i) => {
                proof {
                    lemma_map_at(self.membership_views(), by_member_pair(), i as int);
                }
                Ok(Some(self.memberships[i].duplicate()))
            },
            None => Ok(None),
        }
    }

    /// Adds a role whose id is not taken.
    pub fn insert_role(&mut self, role: Role) -> (r: Result<(), StoreError>)
        requires
            old(self).wf(),
            !old(self).role_map().contains_key(role@.role_id),
        ensures
            final(self).wf(),
            r is Err <==> !old(self).reachable,
            final(self).reachable == old(self).reachable,
            final(self).role_map() == if old(self).reachable {
                old(self).role_map().insert(role@.role_id, role@)
            } else {
                old(self).role_map()
            },
            final(self).users@ == old(self).users@,
            final(self).projects@ == old(self).projects@,
            final(self).memberships@ == old(self).memberships@,
    {
        if !self.reachable {
            return Err(StoreError::Unavailable);
        }
        let ghost views = self.role_views();
        proof {
            lemma_map_push(views, by_role_id(), role@);
        }
        self.roles.push(role);
        assert(self.role_views() =~= views.push(role@));
        Ok(())
    }

    /// Replaces the role that has the same id.
    pub fn replace_role(&mut self, role: Role) -> (r: Result<(), StoreError>)
        requires
            old(self).wf(),
            old(self).role_map().contains_key(role@.role_id),
        ensures
            final(self).wf(),
            r is Err <==> !old(self).reachable,
            final(self).reachable == old(self).reachable,
            final(self).role_map() == if old(self).reachable {
                old(self).role_map().insert(role@.role_id, role@)
            } else {
                old(self).role_map()
            },
            final(self).users@ == old(self).users@,
            final(self).projects@ == old(self).projects@,
            final(self).memberships@ == old(self).memberships@,
    {
        if !self.reachable {
            return Err(StoreError::Unavailable);
        }
        let ghost views = self.role_views();
        match self.role_position(&role.role_id) {
            Some(i) => {
                proof {
                    lemma_map_update(views, by_role_id(), i as int, role@);
                }
                self.roles.set(i, role);
                assert(self.role_views() =~= views.update(i as int, role@));
            },
            None => {},
        }
        Ok(())
    }

    /// Removes the role with the given id, if there is one.
    pub fn remove_role(&mut self, role_id: &String) -> (r: Result<(), StoreError>)
        requires
            old(self).wf(),
        ensures
            final(self).wf(),
            r is Err <==> !old(self).reachable,
            final(self).reachable == old(self).reachable,
            final(self).role_map() == if old(self).reachable {
                old(self).role_map().remove(role_id@)
            } else {
                old(self).role_map()
            },
            final(self).users@ == old(self).users@,
            final(self).projects@ == old(self).projects@,
            final(self).memberships@ == old(self).memberships@,
    {
        if !self.reachable {
            return Err(StoreError::Unavailable);
        }
        let ghost views = self.role_views();
        match self.role_position(role_id) {
            Some(i) => {
                proof {
                    lemma_map_remove(views, by_role_id(), i as int);
                }
                self.roles.remove(i);
                assert(self.role_views() =~= views.remove(i as int));
            },
            None => {
                assert(self.role_map().remove(role_id@) =~= self.role_map());
            },
        }
        Ok(())
    }

    /// Adds a membership for a (user, project) pair that has none.
    pub fn insert_membership(&mut self, m: ProjectMembership) -> (r: Result<(), StoreError>)
        requires
            old(self).wf(),
            !old(self).membership_map().contains_key((m@.user_id, m@.project_id)),
        ensures
            final(self).wf(),
            r is Err <==> !old(self).reachable,
            final(self).reachable == old(self).reachable,
            final(self).membership_map() == if old(self).reachable {
                old(self).membership_map().insert((m@.user_id, m@.project_id), m@)
            } else {
                old(self).membership_map()
            },
            final(self).users@ == old(self).users@,
            final(self).projects@ == old(self).projects@,
            final(self).roles@ == old(self).roles@,
    {
        if !self.reachable {
            return Err(StoreError::Unavailable);
        }
        let ghost views = self.membership_views();
        proof {
            lemma_map_push(views, by_member_pair(), m@);
        }
        self.memberships.push(m);
        assert(self.membership_views() =~= views.push(m@));
        Ok(())
    }

    /// Replaces the membership of the same (user, project) pair.
    pub fn replace_membership(&mut self, m: ProjectMembership) -> (r: Result<(), StoreError>)
        requires
            old(self).wf(),
            old(self).membership_map().contains_key((m@.user_id, m@.project_id)),
        ensures
            final(self).wf(),
            r is Err <==> !old(self).reachable,
            final(self).reachable == old(self).reachable,
            final(self).membership_map() == if old(self).reachable {
                old(self).membership_map().insert((m@.user_id, m@.project_id), m@)
            } else {
                old(self).membership_map()
            },
            final(self).users@ == old(self).users@,
            final(self).projects@ == old(self).projects@,
            final(self).roles@ == old(self).roles@,
    {
        if !self.reachable {
            return Err(StoreError::Unavailable);
        }
        let ghost views = self.membership_views();
        match self.membership_position(&m.user_id, &m.project_id) {
            Some(i) => {
                proof {
                    lemma_map_update(views, by_member_pair(), i as int, m@);
                }
                self.memberships.set(i, m);
                assert(self.membership_views() =~= views.update(i as int, m@));
            },
            None => {},
        }
        Ok(())
    }

    /// Removes the membership of a user in a project when it belongs to the
    /// given tenant; says whether one was removed.
    pub fn remove_membership(&mut self, user_id: &String, project_id: &String, tenant_id: &String)
        -> (r: Result<bool, StoreError>)
        requires
            old(self).wf(),
        ensures
            final(self).wf(),
            r is Err <==> !old(self).reachable,
            final(self).reachable == old(self).reachable,
            r matches Ok(removed) ==> removed == (old(self).membership_map().contains_key(
                (user_id@, project_id@),
            ) && old(self).membership_map()[(user_id@, project_id@)].tenant_id == tenant_id@),
            !(r matches Ok(true)) ==> *final(self) == *old(self),
            final(self).membership_map() == if r == Ok::<bool, StoreError>(true) {
                old(self).membership_map().remove((user_id@, project_id@))
            } else {
                old(self).membership_map()
            },
            final(self).users@ == old(self).users@,
            final(self).projects@ == old(self).projects@,
            final(self).roles@ == old(self).roles@,
    {
        if !self.reachable {
            return Err(StoreError::Unavailable);
        }
        let ghost views = self.membership_views();
        match self.membership_position(user_id, project_id) {
            Some(i) => {
                proof {
                    lemma_map_at(views, by_member_pair(), i as int);
                }
                if self.memberships[i].tenant_id == *tenant_id {
                    proof {
                        lemma_map_remove(views, by_member_pair(), i as int);
                    }
                    self.memberships.remove(i);
                    assert(self.membership_views() =~= views.remove(i as int));
                    Ok(true)
                } else {
                    Ok(false)
                }
            },
            None => Ok(false),
        }
    }

    /// The roles of a tenant, in store order.
    pub fn roles_of_tenant(&self, tenant_id: &String) -> (r: Result<Vec<Role>, StoreError>)
        ensures
            r is Err <==> !self.reachable,
            r matches Ok(v) ==> v@.map_values(|x: Role| x@) == self.role_views().filter(
                in_tenant(tenant_id@),
            ),
    {
        if !self.reachable {
            return Err(StoreError::Unavailable);
        }
        let ghost all = self.role_views();
        let mut out: Vec<Role> = Vec::new();
        let mut i: usize = 0;
        while i < self.roles.len()
            invariant
                i <= self.roles@.len(),
                all == self.role_views(),
                out@.map_values(|x: Role| x@) == all.subrange(0, i as int).filter(
                    in_tenant(tenant_id@),
                ),
            decreases self.roles.len() - i,
        {
            let ghost before = out@.map_values(|x: Role| x@);
            proof {
                assert(all.subrange(0, i + 1).drop_last() =~= all.subrange(0, i as int));
                reveal(Seq::filter);
            }
            if self.roles[i].tenant_id == *tenant_id {
                out.push(self.roles[i].duplicate());
                assert(out@.map_values(|x: Role| x@) =~= before.push(all[i as int]));
            }
            i = i + 1;
        }
        assert(all.subrange(0, i as int) =~= all);
        Ok(out)
    }

    /// The memberships that reference a role, in store order.
    pub fn memberships_with_role(&self, role_id: &String) -> (r: Result<
        Vec<ProjectMembership>,
        StoreError,
    >)
        ensures
            r is Err <==> !self.reachable,
            r matches Ok(v) ==> v@.map_values(|m: ProjectMembership| m@)
                == self.membership_views().filter(holds_role(role_id@)),
    {
        if !self.reachable {
            return Err(StoreError::Unavailable);
        }
        let ghost all = self.membership_views();
        let mut out: Vec<ProjectMembership> = Vec::new();
        let mut i: usize = 0;
        while i < self.memberships.len()
            invariant
                i <= self.memberships@.len(),
                all == self.membership_views(),
                out@.map_values(|m: ProjectMembership| m@) == all.subrange(0, i as int).filter(
                    holds_role(role_id@),
                ),
            decreases self.memberships.len() - i,
        {
            let ghost before = out@.map_values(|m: ProjectMembership| m@);
            proof {
                assert(all.subrange(0, i + 1).drop_last() =~= all.subrange(0, i as int));
                reveal(Seq::filter);
            }
            if self.memberships[i].role_id == *role_id {
                out.push(self.memberships[i].duplicate());
                assert(out@.map_values(|m: ProjectMembership| m@) =~= before.push(all[i as int]));
            }
            i = i + 1;
        }
        assert(all.subrange(0, i as int) =~= all);
        Ok(out)
    }

    /// The memberships of a project, in store order.
    pub fn memberships_in_project(&self, project_id: &String) -> (r: Result<
        Vec<ProjectMembership>,
        StoreError,
    >)
        ensures
            r is Err <==> !self.reachable,
            r matches Ok(v) ==> v@.map_values(|m: ProjectMembership| m@)
                == self.membership_views().filter(in_project(project_id@)),
    {
        if !self.reachable {
            return Err(StoreError::Unavailable);
        }
        let ghost all = self.membership_views();
        let mut out: Vec<ProjectMembership> = Vec::new();
        let mut i: usize = 0;
        while i < self.memberships.len()
            invariant
                i <= self.memberships@.len(),
                all == self.membership_views(),
                out@.map_values(|m: ProjectMembership| m@) == all.subrange(0, i as int).filter(
                    in_project(project_id@),
                ),
            decreases self.memberships.len() - i,
        {
            let ghost before = out@.map_values(|m: ProjectMembership| m@);
            proof {
                assert(all.subrange(0, i + 1).drop_last() =~= all.subrange(0, i as int));
                reveal(Seq::filter);
            }
            if self.memberships[i].project_id == *project_id {
                out.push(self.memberships[i].duplicate());
                assert(out@.map_values(|m: ProjectMembership| m@) =~= before.push(all[i as int]));
            }
            i = i + 1;
        }
        assert(all.subrange(0, i as int) =~= all);
        Ok(out)
    }

    /// The memberships of a user, in store order.
    pub fn memberships_of_user(&self, user_id: &String) -> (r: Result<
        Vec<ProjectMembership>,
        StoreError,
    >)
        ensures
            r is Err <==> !self.reachable,
            r matches Ok(v) ==> v@.map_values(|m: ProjectMembership| m@)
                == self.membership_views().filter(of_user(user_id@)),
    {
        if !self.reachable {
            return Err(StoreError::Unavailable);
        }
        let ghost all = self.membership_views();
        let mut out: Vec<ProjectMembership> = Vec::new();
        let mut i: usize = 0;
        while i < self.memberships.len()
            invariant
                i <= self.memberships@.len(),
                all == self.membership_views(),
                out@.map_values(|m: ProjectMembership| m@) == all.subrange(0, i as int).filter(
                    of_user(user_id@),
                ),
            decreases self.memberships.len() - i,
        {
            let ghost before = out@.map_values(|m: ProjectMembership| m@);
            proof {
                assert(all.subrange(0, i + 1).drop_last() =~= all.subrange(0, i as int));
                reveal(Seq::filter);
            }
            if self.memberships[i].user_id == *user_id {
                out.push(self.memberships[i].duplicate());
                assert(out@.map_values(|m: ProjectMembership| m@) =~= before.push(all[i as int]));
            }
            i = i + 1;
        }
        assert(all.subrange(0, i as int) =~= all);
        Ok(out)
    }

    /// Whether no two users share an id.
    fn users_unique(&self) -> (r: bool)
        ensures
            r == unique_keys(self.user_views(), by_user_id()),
    {
        let ghost s = self.user_views();
        let ghost key = by_user_id();
        let n = self.users.len();
        let mut i: usize = 0;
        while i < n
            invariant
                s == self.user_views(),
                key == by_user_id(),
                n == s.len(),
                i <= n,
                forall|a: int, b: int| 0 <= a < i && a < b < n ==> key(s[a]) != key(s[b]),
            decreases n - i,
        {
            let mut j: usize = i + 1;
            while j < n
                invariant
                    s == self.user_views(),
                    key == by_user_id(),
                    n == s.len(),
                    i < n,
                    i + 1 <= j <= n,
                    forall|a: int, b: int| 0 <= a < i && a < b < n ==> key(s[a]) != key(s[b]),
                    forall|b: int| i < b < j ==> key(s[i as int]) != key(s[b]),
                decreases n - j,
            {
                if self.users[i].user_id == self.users[j].user_id {
                    assert(key(s[i as int]) == key(s[j as int]));
                    return false;
                }
                j = j + 1;
            }
            i = i + 1;
        }
        assert forall|a: int, b: int|
            0 <= a < n && 0 <= b < n && #[trigger] key(s[a]) == #[trigger] key(s[b]) implies a
            == b by {
            if b < a {
                assert(key(s[b]) != key(s[a]));
            }
        }
        true
    }

    /// Whether no two projects share an id.
    fn projects_unique(&self) -> (r: bool)
        ensures
            r == unique_keys(self.project_views(), by_project_id()),
    {
        let ghost s = self.project_views();
        let ghost key = by_project_id();
        let n = self.projects.len();
        let mut i: usize = 0;
        while i < n
            invariant
                s == self.project_views(),
                key == by_project_id(),
                n == s.len(),
                i <= n,
                forall|a: int, b: int| 0 <= a < i && a < b < n ==> key(s[a]) != key(s[b]),
            decreases n - i,
        {
            let mut j: usize = i + 1;
            while j < n
                invariant
                    s == self.project_views(),
                    key == by_project_id(),
                    n == s.len(),
                    i < n,
                    i + 1 <= j <= n,
                    forall|a: int, b: int| 0 <= a < i && a < b < n ==> key(s[a]) != key(s[b]),
                    forall|b: int| i < b < j ==> key(s[i as int]) != key(s[b]),
                decreases n - j,
            {
                if self.projects[i].project_id == self.projects[j].project_id {
                    assert(key(s[i as int]) == key(s[j as int]));
                    return false;
                }
                j = j + 1;
            }
            i = i + 1;
        }
        assert forall|a: int, b: int|
            0 <= a < n && 0 <= b < n && #[trigger] key(s[a]) == #[trigger] key(s[b]) implies a
            == b by {
            if b < a {
                assert(key(s[b]) != key(s[a]));
            }
        }
        true
    }

    /// Whether no two roles share an id.
    fn roles_unique(&self) -> (r: bool)
        ensures
            r == unique_keys(self.role_views(), by_role_id()),
    {
        let ghost s = self.role_views();
        let ghost key = by_role_id();
        let n = self.roles.len();
        let mut i: usize = 0;
        while i < n
            invariant
                s == self.role_views(),
                key == by_role_id(),
                n == s.len(),
                i <= n,
                forall|a: int, b: int| 0 <= a < i && a < b < n ==> key(s[a]) != key(s[b]),
            decreases n - i,
        {
            let mut j: usize = i + 1;
            while j < n
                invariant
                    s == self.role_views(),
                    key == by_role_id(),
                    n == s.len(),
                    i < n,
                    i + 1 <= j <= n,
                    forall|a: int, b: int| 0 <= a < i && a < b < n ==> key(s[a]) != key(s[b]),
                    forall|b: int| i < b < j ==> key(s[i as int]) != key(s[b]),
                decreases n - j,
            {
                if self.roles[i].role_id == self.roles[j].role_id {
                    assert(key(s[i as int]) == key(s[j as int]));
                    return false;
                }
                j = j + 1;
            }
            i = i + 1;
        }
        assert forall|a: int, b: int|
            0 <= a < n && 0 <= b < n && #[trigger] key(s[a]) == #[trigger] key(s[b]) implies a
            == b by {
            if b < a {
                assert(key(s[b]) != key(s[a]));
            }
        }
        true
    }

    /// Whether no two memberships share a (user, project) pair.
    fn memberships_unique(&self) -> (r: bool)
        ensures
            r == unique_keys(self.membership_views(), by_member_pair()),
    {
        let ghost s = self.membership_views();
        let ghost key = by_member_pair();
        let n = self.memberships.len();
        let mut i: usize = 0;
        while i < n
            invariant
                s == self.membership_views(),
                key == by_member_pair(),
                n == s.len(),
                i <= n,
                forall|a: int, b: int| 0 <= a < i && a < b < n ==> key(s[a]) != key(s[b]),
            decreases n - i,
        {
            let mut j: usize = i + 1;
            while j < n
                invariant
                    s == self.membership_views(),
                    key == by_member_pair(),
                    n == s.len(),
                    i < n,
                    i + 1 <= j <= n,
                    forall|a: int, b: int| 0 <= a < i && a < b < n ==> key(s[a]) != key(s[b]),
                    forall|b: int| i < b < j ==> key(s[i as int]) != key(s[b]),
                decreases n - j,
            {
                if self.memberships[i].user_id == self.memberships[j].user_id
                    && self.memberships[i].project_id == self.memberships[j].project_id {
                    assert(key(s[i as int]) == key(s[j as int]));
                    return false;
                }
                j = j + 1;
            }
            i = i + 1;
        }
        assert forall|a: int, b: int|
            0 <= a < n && 0 <= b < n && #[trigger] key(s[a]) == #[trigger] key(s[b]) implies a
            == b by {
            if b < a {
                assert(key(s[b]) != key(s[a]));
            }
        }
        true
    }

    /// Checks the well-formedness that every operation requires.
    pub fn is_well_formed(&self) -> (r: bool)
        ensures
            r == self.wf(),
    {
        self.users_unique() && self.projects_unique() && self.roles_unique()
            && self.memberships_unique()
    }

    fn user_position(&self, id: &String) -> (r: Option<usize>)
        ensures
            match r {
                Some(i) => i < self.users@.len() && self.users@[i as int].user_id@ == id@,
                None => !has_key(self.user_views(), by_user_id(), id@),
            },
    {
        let mut i: usize = 0;
        while i < self.users.len()
            invariant
                i <= self.users@.len(),
                forall|j: int| 0 <= j < i ==> #[trigger] self.users@[j].user_id@ != id@,
            decreases self.users.len() - i,
        {
            if self.users[i].user_id == *id {
                return Some(i);
            }
            i = i + 1;
        }
        proof {
            if has_key(self.user_views(), by_user_id(), id@) {
                let j = choose|j: int|
                    0 <= j < self.user_views().len() && #[trigger] by_user_id()(
                        self.user_views()[j],
                    ) == id@;
                assert(self.users@[j].user_id@ != id@);
            }
        }
        None
    }

    fn project_position(&self, id: &String) -> (r: Option<usize>)
        ensures
            match r {
                Some(i) => i < self.projects@.len() && self.projects@[i as int].project_id@ == id@,
                None => !has_key(self.project_views(), by_project_id(), id@),
            },
    {
        let mut i: usize = 0;
        while i < self.projects.len()
            invariant
                i <= self.projects@.len(),
                forall|j: int| 0 <= j < i ==> #[trigger] self.projects@[j].project_id@ != id@,
            decreases self.projects.len() - i,
        {
            if self.projects[i].project_id == *id {
                return Some(i);
            }
            i = i + 1;
        }
        proof {
            if has_key(self.project_views(), by_project_id(), id@) {
                let j = choose|j: int|
                    0 <= j < self.project_views().len() && #[trigger] by_project_id()(
                        self.project_views()[j],
                    ) == id@;
                assert(self.projects@[j].project_id@ != id@);
            }
        }
        None
    }

    fn role_position(&self, id: &String) -> (r: Option<usize>)
        ensures
            match r {
                Some(i) => i < self.roles@.len() && self.roles@[i as int].role_id@ == id@,
                None => !has_key(self.role_views(), by_role_id(), id@),
            },
    {
        let mut i: usize = 0;
        while i < self.roles.len()
            invariant
                i <= self.roles@.len(),
                forall|j: int| 0 <= j < i ==> #[trigger] self.roles@[j].role_id@ != id@,
            decreases self.roles.len() - i,
        {
            if self.roles[i].role_id == *id {
                return Some(i);
            }
            i = i + 1;
        }
        proof {
            if has_key(self.role_views(), by_role_id(), id@) {
                let j = choose|j: int|
                    0 <= j < self.role_views().len() && #[trigger] by_role_id()(
                        self.role_views()[j],
                    ) == id@;
                assert(self.roles@[j].role_id@ != id@);
            }
        }
        None
    }

    fn membership_position(&self, user_id: &String, project_id: &String) -> (r: Option<usize>)
        ensures
            match r {
                Some(i) => i < self.memberships@.len() && self.memberships@[i as int].user_id@
                    == user_id@ && self.memberships@[i as int].project_id@ == project_id@,
                None => !has_key(self.membership_views(), by_member_pair(), (user_id@, project_id@)),
            },
    {
        let mut i: usize = 0;
        while i < self.memberships.len()
            invariant
                i <= self.memberships@.len(),
                forall|j: int|
                    0 <= j < i ==> (#[trigger] self.memberships@[j]).user_id@ != user_id@
                        || self.memberships@[j].project_id@ != project_id@,
            decreases self.memberships.len() - i,
        {
            if self.memberships[i].user_id == *user_id && self.memberships[i].project_id
                == *project_id {
                return Some(i);
            }
            i = i + 1;
        }
        proof {
            if has_key(self.membership_views(), by_member_pair(), (user_id@, project_id@)) {
                let j = choose|j: int|
                    0 <= j < self.membership_views().len() && #[trigger] by_member_pair()(
                        self.membership_views()[j],
                    ) == (user_id@, project_id@);
                assert(self.memberships@[j] == self.memberships@[j]);
            }
        }
        None
    }
}

} // verus!
