//! The user directory: who may log in, found by identity.

use std::collections::HashMap;
use vstd::prelude::*;
use crate::message::{User, UserView};

verus! {

broadcast use vstd::std_specs::hash::group_hash_axioms;

/// A mapping from user identity to profile.
#[derive(Debug)]
pub struct UserDirectory {
    users: HashMap<u128, User>,
}

impl View for UserDirectory {
    type V = Map<u128, UserView>;

    closed spec fn view(&self) -> Map<u128, UserView> {
        self.users@.map_values(|u: User| u@)
    }
}

/// Every profile is filed under its own identity.
pub open spec fn filed_by_identity(users: Map<u128, UserView>) -> bool {
    forall|id: u128| users.contains_key(id) ==> (#[trigger] users[id]).id == id
}

impl UserDirectory {
    /// The invariant of every directory.
    pub open spec fn wf(&self) -> bool {
        filed_by_identity(self@)
    }

    /// A directory that knows nobody.
    pub fn new() -> (d: UserDirectory)
        ensures
            d@ == Map::<u128, UserView>::empty(),
            d.wf(),
    {
        let d = UserDirectory { users: HashMap::new() };
        assert(d@ =~= Map::<u128, UserView>::empty());
        d
    }

    /// How many profiles the directory holds.
    pub fn len(&self) -> (n: usize)
        ensures
            n == self@.len(),
    {
        assert(self@.dom() =~= self.users@.dom());
        self.users.len()
    }

    /// Whether `id` is a known identity.
    pub fn contains(&self, id: u128) -> (r: bool)
        ensures
            r == self@.contains_key(id),
    {
        self.users.contains_key(&id)
    }

    /// Files `user` under its identity. An identity is assigned once: where
    /// it is already taken the directory stays as it is and the answer is `false`.
    pub fn insert(&mut self, user: User) -> (added: bool)
        requires
            old(self).wf(),
        ensures
            final(self).wf(),
            added == !old(self)@.contains_key(user.id),
            final(self)@ == (if added {
                old(self)@.insert(user.id, user@)
            } else {
                old(self)@
            }),
    {
        if self.users.contains_key(&user.id) {
            false
        } else {
            let ghost before = self@;
            let ghost id = user.id;
            let ghost profile = user@;
            self.users.insert(user.id, user);
            assert(self@ =~= before.insert(id, profile));
            true
        }
    }

    /// A copy of the profile filed under `id`, if there is one.
    pub fn find(&self, id: u128) -> (found: Option<User>)
        ensures
            match found {
                Some(user) => self@.contains_key(id) && user@ == self@[id],
                None => !self@.contains_key(id),
            },
    {
        match self.users.get(&id) {
            Some(user) => Some(user.clone()),
            None => None,
        }
    }
}

} // verus!
