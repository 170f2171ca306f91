//! The keyed user store: what a lookup and an insert report, and an in-memory store that
//! keeps emails unique.
use vstd::prelude::*;
use crate::models::{Timestamp, User};

verus! {

/// What a lookup by email reports.
pub enum Lookup {
    Found(User),
    Absent,
    Failed,
}

/// What an insert reports: the stored record, a rejected duplicate email, or another fault.
pub enum Insertion {
    Inserted(User),
    Duplicate,
    Failed,
}

/// A copy of `u` with every field equal.
pub fn copy_user(u: &User) -> (r: User)
    ensures
        r == *u,
{
    User {
        id: u.id,
        name: u.name.clone(),
        email: u.email.clone(),
        password_hash: u.password_hash.clone(),
        created_at: u.created_at,
        updated_at: u.updated_at,
    }
}

/// A user store held in memory. Emails are unique, and ids are handed out in increasing
/// order, so they are unique too.
pub struct MemoryStore {
    users: Vec<User>,
    next_id: i32,
}

impl MemoryStore {
    /// The stored records, in order of insertion.
    pub closed spec fn users(&self) -> Seq<User> {
        self.users@
    }

    /// The id the next insert gives.
    pub closed spec fn next_id(&self) -> int {
        self.next_id as int
    }

    /// Whether some stored record has this email.
    pub open spec fn has_email(&self, email: Seq<char>) -> bool {
        exists|i: int| 0 <= i < self.users().len() && #[trigger] self.users()[i].email@ == email
    }

    /// The record stored under this email.
    pub open spec fn record_with(&self, email: Seq<char>) -> User
        recommends
            self.has_email(email),
    {
        self.users()[choose|i: int| 0 <= i < self.users().len() && #[trigger] self.users()[i].email@ == email]
    }

    /// What a lookup by this email reports.
    pub open spec fn lookup_of(&self, email: Seq<char>) -> Lookup {
        if self.has_email(email) {
            Lookup::Found(self.record_with(email))
        } else {
            Lookup::Absent
        }
    }

    /// No two records share an email, and every id lies below the next one.
    pub open spec fn wf(&self) -> bool {
        &&& forall|i: int, j: int|
            0 <= i < j < self.users().len() ==> #[trigger] self.users()[i].email@ != #[trigger] self.users()[j].email@
        &&& forall|i: int| 0 <= i < self.users().len() ==> 0 < #[trigger] self.users()[i].id < self.next_id()
        &&& forall|i: int, j: int|
            0 <= i < j < self.users().len() ==> #[trigger] self.users()[i].id < #[trigger] self.users()[j].id
        &&& self.next_id() > 0
    }

    /// An empty store.
    pub fn new() -> (r: MemoryStore)
        ensures
            r.wf(),
            r.users().len() == 0,
    {
        MemoryStore { users: Vec::new(), next_id: 1 }
    }

    /// The number of stored records.
    pub fn len(&self) -> (r: usize)
        ensures
            r == self.users().len(),
    {
        self.users.len()
    }

    /// The record with this email, if any. A store in memory never fails.
    pub fn find_by_email(&self, email: &str) -> (r: Lookup)
        requires
            self.wf(),
        ensures
            r == self.lookup_of(email@),
    {
        let key = String::from_str(email);
        let mut i: usize = 0;
        while i < self.users.len()
            invariant
                key@ == email@,
                self.wf(),
                i <= self.users@.len(),
                forall|k: int| 0 <= k < i ==> #[trigger] self.users@[k].email@ != email@,
            decreases self.users@.len() - i,
        {
            if self.users[i].email == key {
                let u = copy_user(&self.users[i]);
                proof {
                    assert(self.users()[i as int].email@ == email@);
                    assert(self.has_email(email@));
                    let j = choose|j: int| 0 <= j < self.users().len() && #[trigger] self.users()[j].email@ == email@;
                    if j != i {
                        if j < i {
                            assert(self.users()[j].email@ != self.users()[i as int].email@);
                        } else {
                            assert(self.users()[i as int].email@ != self.users()[j].email@);
                        }
                    }
                }
                return Lookup::Found(u);
            }
            i = i + 1;
        }
        Lookup::Absent
    }

    /// Stores a new record. The store's own uniqueness check is the authority on duplicates:
    /// an email already held is rejected, whatever checks came before.
    pub fn insert_user(&mut self, name: String, email: String, password_hash: String, created_at: Timestamp) -> (r: Insertion)
        requires
            old(self).wf(),
        ensures
            final(self).wf(),
            r is Duplicate <==> old(self).has_email(email@),
            !(r is Inserted) ==> final(self).users() == old(self).users(),
            r is Failed <==> !old(self).has_email(email@) && old(self).next_id() == i32::MAX,
            r is Inserted ==> ({
                let u = r->Inserted_0;
                &&& u.id == old(self).next_id()
                &&& u.name == name
                &&& u.email == email
                &&& u.password_hash == password_hash
                &&& u.created_at == created_at
                &&& u.updated_at is None
                &&& final(self).users() == old(self).users().push(u)
            }),
    {
        let found = self.find_by_email(email.as_str());
        match found {
            Lookup::Found(_) => {
                return Insertion::Duplicate;
            },
            _ => {},
        }
        if self.next_id == i32::MAX {
            return Insertion::Failed;
        }
        let u = User {
            id: self.next_id,
            name,
            email,
            password_hash,
            created_at,
            updated_at: None,
        };
        let stored = copy_user(&u);
        self.users.push(stored);
        self.next_id = self.next_id + 1;
        proof {
            assert forall|i: int| 0 <= i < self.users().len() - 1 implies #[trigger] self.users()[i].email@ != u.email@ by {
                if self.users()[i].email@ == u.email@ {
                    assert(old(self).users()[i] == self.users()[i]);
                }
            }
        }
        Insertion::Inserted(u)
    }
}

}
