use vstd::prelude::*;

use crate::capabilities::Backend;
use crate::capabilities::CanCreateUserData;
use crate::capabilities::CanDeleteUserData;
use crate::capabilities::CanReadAllUserData;
use crate::capabilities::CanReadUpdateUserData;
use crate::capabilities::CanReadUserData;
use crate::capabilities::CanUpdateUserData;
use crate::capabilities::Capability;
use crate::capabilities::Create;
use crate::capabilities::Delete;
use crate::capabilities::Read;
use crate::capabilities::ReadAll;
use crate::capabilities::Update;
use crate::model::User;
use crate::model::UserView;
use crate::semantics::contains_name;
use crate::semantics::create_post;
use crate::semantics::delete_post;
use crate::semantics::lemma_create_preserves_wf;
use crate::semantics::lemma_delete_preserves_wf;
use crate::semantics::lemma_found_at;
use crate::semantics::lemma_update_preserves_wf;
use crate::semantics::distinct_names;
use crate::semantics::read_all_post;
use crate::semantics::read_post;
use crate::semantics::update_post;

verus! {

/// The single error kind every storage operation reports. Backend
/// implementations map every underlying failure into one of these variants;
/// no backend-specific error type escapes the capability boundary.
#[derive(Clone, Copy, PartialEq, Eq, Structural, Debug)]
pub enum DatabaseError {
    /// The storage handle could not serve the call at all.
    StorageUnavailable,
    /// The storage statement ran and failed, or produced a malformed row.
    StatementFailed,
    /// No stored resource matches the given key.
    NotFound,
    /// A resource with the given key is already stored.
    ConflictOnCreate,
}

/// The external-facing status a caller maps each error kind to.
pub fn http_status(e: &DatabaseError) -> (r: u16)
    ensures
        r == (match *e {
            DatabaseError::NotFound => 404u16,
            DatabaseError::ConflictOnCreate => 409u16,
            DatabaseError::StorageUnavailable => 500u16,
            DatabaseError::StatementFailed => 500u16,
        }),
{
    match e {
        DatabaseError::NotFound => 404,
        DatabaseError::ConflictOnCreate => 409,
        DatabaseError::StorageUnavailable => 500,
        DatabaseError::StatementFailed => 500,
    }
}

/// The resource a fetched row holds. Both columns must be present: a
/// malformed row is reported as a failed statement, never by aborting.
pub fn row_outcome(name: Option<String>, password: Option<String>) -> (r: Result<
    User,
    DatabaseError,
>)
    ensures
        r == (match (name, password) {
            (Some(n), Some(p)) => Ok::<User, DatabaseError>((User { name: n, password: p })),
            _ => Err::<User, DatabaseError>(DatabaseError::StatementFailed),
        }),
{
    match (name, password) {
        (Some(n), Some(p)) => Ok(User { name: n, password: p }),
        _ => Err(DatabaseError::StatementFailed),
    }
}

/// The outcome a keyed mutation owes once the statement reported how many
/// rows it touched: zero rows is `NotFound`, never a silent success.
pub fn rows_affected_outcome(n: u64) -> (r: Result<(), DatabaseError>)
    ensures
        r == (if n == 0 {
            Err::<(), DatabaseError>(DatabaseError::NotFound)
        } else {
            Ok::<(), DatabaseError>(())
        }),
{
    if n == 0 {
        Err(DatabaseError::NotFound)
    } else {
        Ok(())
    }
}

/// The outcome a create owes once the insert finished: success confirms the
/// stored payload, a unique-key violation is a conflict, and any other
/// failure a failed statement.
pub fn insert_outcome(user: User, failed: bool, unique_violation: bool) -> (r: Result<
    User,
    DatabaseError,
>)
    ensures
        r == (if !failed {
            Ok::<User, DatabaseError>(user)
        } else if unique_violation {
            Err::<User, DatabaseError>(DatabaseError::ConflictOnCreate)
        } else {
            Err::<User, DatabaseError>(DatabaseError::StatementFailed)
        }),
{
    if !failed {
        Ok(user)
    } else if unique_violation {
        Err(DatabaseError::ConflictOnCreate)
    } else {
        Err(DatabaseError::StatementFailed)
    }
}

/// The verified backend: it owns the stored resources directly and fulfils
/// every capability contract against them.
pub struct MemoryStore {
    users: Vec<User>,
}

impl MemoryStore {
    /// An empty store.
    pub fn new() -> (r: MemoryStore)
        ensures
            r.wf(),
            r.store() == Seq::<UserView>::empty(),
    {
        MemoryStore { users: Vec::new() }
    }

    /// The position of the resource carrying `name`, if any is stored.
    fn find_index(&self, name: &String) -> (r: Option<usize>)
        ensures
            match r {
                Some(i) => {
                    &&& i < self.store().len()
                    &&& self.store()[i as int].name == name@
                },
                None => !contains_name(self.store(), name@),
            },
    {
        let mut i: usize = 0;
        while i < self.users.len()
            invariant
                i <= self.users@.len(),
                forall|j: int| 0 <= j < i ==> self.users@[j]@.name != name@,
            decreases self.users@.len() - i,
        {
            if self.users[i].name == *name {
                return Some(i);
            }
            i += 1;
        }
        None
    }
}

impl Backend for MemoryStore {
    closed spec fn store(&self) -> Seq<UserView> {
        self.users@.map_values(|u: User| u@)
    }

    closed spec fn wf(&self) -> bool {
        distinct_names(self.store())
    }
}

impl Capability<Read<String>> for MemoryStore {
    type Data = User;

    type Error = DatabaseError;

    open spec fn performs(
        op: Read<String>,
        pre: Seq<UserView>,
        cur: Seq<UserView>,
        r: Result<User, DatabaseError>,
    ) -> bool {
        read_post(
            op.0@,
            pre,
            cur,
            match r {
                Ok(u) => Ok::<UserView, DatabaseError>(u@),
                Err(e) => Err::<UserView, DatabaseError>(e),
            },
        )
    }

    fn perform(&mut self, op: Read<String>) -> (r: Result<User, DatabaseError>) {
        let name = op.0;
        match self.find_index(&name) {
            Some(i) => {
                proof {
                    lemma_found_at(self.store(), name@, i as int);
                }
                Ok(self.users[i].clone())
            },
            None => Err(DatabaseError::NotFound),
        }
    }
}

impl Capability<ReadAll> for MemoryStore {
    type Data = Vec<User>;

    type Error = DatabaseError;

    open spec fn performs(
        op: ReadAll,
        pre: Seq<UserView>,
        cur: Seq<UserView>,
        r: Result<Vec<User>, DatabaseError>,
    ) -> bool {
        read_all_post(
            pre,
            cur,
            match r {
                Ok(v) => Ok::<Seq<UserView>, DatabaseError>(v@.map_values(|u: User| u@)),
                Err(e) => Err::<Seq<UserView>, DatabaseError>(e),
            },
        )
    }

    fn perform(&mut self, _op: ReadAll) -> (r: Result<Vec<User>, DatabaseError>) {
        let mut out: Vec<User> = Vec::new();
        let mut i: usize = 0;
        while i < self.users.len()
            invariant
                i <= self.users@.len(),
                out@.len() == i,
                forall|j: int| 0 <= j < i ==> out@[j]@ == self.users@[j]@,
            decreases self.users@.len() - i,
        {
            let u = self.users[i].clone();
            out.push(u);
            i += 1;
        }
        proof {
            assert(out@.map_values(|u: User| u@) =~= self.store());
        }
        Ok(out)
    }
}

impl Capability<Create<User>> for MemoryStore {
    type Data = User;

    type Error = DatabaseError;

    open spec fn performs(
        op: Create<User>,
        pre: Seq<UserView>,
        cur: Seq<UserView>,
        r: Result<User, DatabaseError>,
    ) -> bool {
        create_post(
            op.0@,
            pre,
            cur,
            match r {
                Ok(u) => Ok::<UserView, DatabaseError>(u@),
                Err(e) => Err::<UserView, DatabaseError>(e),
            },
        )
    }

    fn perform(&mut self, op: Create<User>) -> (r: Result<User, DatabaseError>) {
        let user = op.0;
        match self.find_index(&user.name) {
            Some(i) => {
                proof {
                    lemma_found_at(self.store(), user@.name, i as int);
                }
                Err(DatabaseError::ConflictOnCreate)
            },
            None => {
                let ghost uv = user@;
                let copy = user.clone();
                self.users.push(user);
                proof {
                    assert(self.store() =~= old(self).store().push(uv));
                    lemma_create_preserves_wf(old(self).store(), uv);
                }
                Ok(copy)
            },
        }
    }
}

impl Capability<Update<User>> for MemoryStore {
    type Data = User;

    type Error = DatabaseError;

    open spec fn performs(
        op: Update<User>,
        pre: Seq<UserView>,
        cur: Seq<UserView>,
        r: Result<User, DatabaseError>,
    ) -> bool {
        update_post(
            op.0@,
            pre,
            cur,
            match r {
                Ok(u) => Ok::<UserView, DatabaseError>(u@),
                Err(e) => Err::<UserView, DatabaseError>(e),
            },
        )
    }

    fn perform(&mut self, op: Update<User>) -> (r: Result<User, DatabaseError>) {
        let user = op.0;
        match self.find_index(&user.name) {
            Some(i) => {
                let ghost pre = self.store();
                let ghost uv = user@;
                proof {
                    lemma_found_at(pre, uv.name, i as int);
                }
                let copy = user.clone();
                self.users.remove(i);
                self.users.insert(i, user);
                proof {
                    assert(self.store() =~= pre.update(i as int, uv));
                    lemma_update_preserves_wf(pre, uv);
                }
                Ok(copy)
            },
            None => Err(DatabaseError::NotFound),
        }
    }
}

impl Capability<Delete<User>> for MemoryStore {
    type Data = ();

    type Error = DatabaseError;

    open spec fn performs(
        op: Delete<User>,
        pre: Seq<UserView>,
        cur: Seq<UserView>,
        r: Result<(), DatabaseError>,
    ) -> bool {
        delete_post(op.0@, pre, cur, r)
    }

    fn perform(&mut self, op: Delete<User>) -> (r: Result<(), DatabaseError>) {
        let user = op.0;
        match self.find_index(&user.name) {
            Some(i) => {
                let ghost pre = self.store();
                proof {
                    lemma_found_at(pre, user@.name, i as int);
                }
                self.users.remove(i);
                proof {
                    assert(self.store() =~= pre.remove(i as int));
                    lemma_delete_preserves_wf(pre, user@.name);
                }
                Ok(())
            },
            None => Err(DatabaseError::NotFound),
        }
    }
}

impl CanReadUserData for MemoryStore {

}

impl CanReadAllUserData for MemoryStore {

}

impl CanCreateUserData for MemoryStore {

}

impl CanUpdateUserData for MemoryStore {

}

impl CanDeleteUserData for MemoryStore {

}

impl CanReadUpdateUserData for MemoryStore {

}

} // verus!


