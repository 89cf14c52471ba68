use std::collections::HashMap;
use vstd::prelude::*;

verus! {

broadcast use vstd::std_specs::hash::group_hash_axioms;

/// A user record: identifier, display name, and contact address.
#[derive(Debug, Clone)]
pub struct User {
    pub id: u64,
    pub name: String,
    pub email: String,
}

/// A directory of users keyed by id.
///
/// Ids are unique: inserting a record under an id already present replaces
/// the earlier record (last write wins). Lookups never assume presence; a
/// missing id is reported as `None`.
pub struct UserDatabase {
    users: HashMap<u64, User>,
}

impl View for UserDatabase {
    type V = Map<u64, User>;

    closed spec fn view(&self) -> Map<u64, User> {
        self.users@
    }
}

impl UserDatabase {
    /// An empty directory.
    pub fn new() -> (r: Self)
        ensures
            r@ == Map::<u64, User>::empty(),
    {
        UserDatabase { users: HashMap::new() }
    }

    /// Borrow the record stored under `id`, or `None` when no record is.
    pub fn get_user(&self, id: u64) -> (r: Option<&User>)
        ensures
            match r {
                Some(u) => self@.contains_key(id) && *u == self@[id],
                None => !self@.contains_key(id),
            },
    {
        self.users.get(&id)
    }

    /// Store `user` under its own id, replacing any earlier record there.
    pub fn add_user(&mut self, user: User)
        ensures
            final(self)@ == old(self)@.insert(user.id, user),
    {
        self.users.insert(user.id, user);
    }

    /// Borrow the record stored under `id`, or `None` when no record is.
    /// The borrow is lifetime-checked; absence is an explicit result, not a
    /// null address.
    pub fn get_user_ptr(&self, id: u64) -> (r: Option<&User>)
        ensures
            match r {
                Some(u) => self@.contains_key(id) && *u == self@[id],
                None => !self@.contains_key(id),
            },
    {
        self.users.get(&id)
    }
}

} // verus!
