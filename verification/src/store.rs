//! Records of the document store and an in-memory model of its collections.
//!
//! The store itself is an external collaborator; this module defines the
//! schema the collections must satisfy and the access operations the
//! services are verified against. The one standing invariant is that user
//! names are unique, see [`Store::wf`].

use vstd::prelude::*;

verus! {

/// An identity record. `name` acts as the primary key; `password_hash` is a
/// self-describing digest that embeds algorithm, cost parameters, salt and
/// hash; `icon` is an optional display-image reference, absent by default.
#[derive(Debug, Clone)]
pub struct User {
    pub name: String,
    pub password_hash: String,
    pub icon: Option<String>,
}

/// A short text label, compared case-insensitively by the tag search.
#[derive(Debug, Clone)]
pub struct Tag {
    pub tag: String,
}

/// A content item. `comment` holds (author, text) pairs and is empty at
/// creation; appending comments is outside this core.
#[derive(Debug, Clone)]
pub struct Post {
    pub name: String,
    pub body: String,
    pub tag: Vec<String>,
    pub title: String,
    pub comment: Vec<(String, String)>,
    pub is_advanced: bool,
}

/// The three collections the services read and write.
#[derive(Debug, Clone)]
pub struct Store {
    pub users: Vec<User>,
    pub tags: Vec<Tag>,
    pub posts: Vec<Post>,
}

impl Store {
    /// Some user record carries this name.
    pub open spec fn contains_name(self, name: Seq<char>) -> bool {
        exists|i: int| 0 <= i < self.users@.len() && self.users@[i].name@ == name
    }

    /// The standing invariant: no two user records share a name.
    pub open spec fn wf(self) -> bool {
        forall|i: int, j: int|
            0 <= i < j < self.users@.len() ==> self.users@[i].name@ != self.users@[j].name@
    }

    /// The texts of the tag records, in store order.
    pub open spec fn tag_texts(self) -> Seq<Seq<char>> {
        self.tags@.map(|i: int, t: Tag| t.tag@)
    }

    /// An empty store.
    pub fn new() -> (s: Store)
        ensures
            s.users@ == Seq::<User>::empty(),
            s.tags@ == Seq::<Tag>::empty(),
            s.posts@ == Seq::<Post>::empty(),
            s.wf(),
    {
        Store { users: Vec::new(), tags: Vec::new(), posts: Vec::new() }
    }

    /// Looks a user up by name; returns the index of the first record with
    /// that name, or `None` when no record carries it.
    pub fn find_user(&self, name: &String) -> (r: Option<usize>)
        ensures
            match r {
                Some(i) => i < self.users@.len() && self.users@[i as int].name@ == name@
                    && forall|j: int| 0 <= j < i ==> self.users@[j].name@ != name@,
                None => !self.contains_name(name@),
            },
    {
        let n = self.users.len();
        let mut i: usize = 0;
        while i < n
            invariant
                i <= n,
                n == self.users@.len(),
                forall|j: int| 0 <= j < i ==> self.users@[j].name@ != name@,
            decreases n - i,
        {
            if self.users[i].name == *name {
                return Some(i);
            }
            i = i + 1;
        }
        None
    }
}

} // verus!
