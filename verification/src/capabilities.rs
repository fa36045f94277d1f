use vstd::prelude::*;

use crate::database::DatabaseError;
use crate::model::User;
use crate::model::UserView;

verus! {

/// Operation token: persist the carried resource under its own key.
pub struct Create<T>(pub T);

/// Operation token: fetch the resource identified by the carried key.
pub struct Read<T>(pub T);

/// Operation token: fetch every stored resource.
pub struct ReadAll;

/// Operation token: replace the stored payload of the resource that shares the
/// carried resource's key.
pub struct Update<T>(pub T);

/// Operation token: remove the resource that shares the carried resource's key.
pub struct Delete<T>(pub T);

/// An owner of stored state, modelled as the sequence of stored resources in
/// storage order.
pub trait Backend: Sized {
    /// The stored resources, in storage order.
    spec fn store(&self) -> Seq<UserView>;

    /// Well-formed storage: the natural key is unique.
    spec fn wf(&self) -> bool;
}

/// The capability contract: the one execution binding between a backend type
/// and an operation token type. A backend type satisfies it per operation,
/// and only the operations its type satisfies are callable through it.
pub trait Capability<Operation>: Backend {
    /// What a successful operation hands back.
    type Data;

    /// The single error kind the operation reports.
    type Error;

    /// Everything one `perform` call does: how the store changes and what is
    /// returned. Each implementation fixes this relation.
    spec fn performs(
        op: Operation,
        pre: Seq<UserView>,
        cur: Seq<UserView>,
        r: Result<Self::Data, Self::Error>,
    ) -> bool;

    /// Consumes the token and executes its operation against the backend.
    fn perform(&mut self, op: Operation) -> (r: Result<Self::Data, Self::Error>)
        requires
            old(self).wf(),
        ensures
            final(self).wf(),
            Self::performs(op, old(self).store(), final(self).store(), r),
    ;
}

/// Role: the backend can fetch one resource by key.
pub trait CanReadUserData: Capability<Read<String>, Data = User, Error = DatabaseError> {

}

/// Role: the backend can fetch every stored resource.
pub trait CanReadAllUserData: Capability<ReadAll, Data = Vec<User>, Error = DatabaseError> {

}

/// Role: the backend can persist a fresh resource.
pub trait CanCreateUserData: Capability<Create<User>, Data = User, Error = DatabaseError> {

}

/// Role: the backend can replace a stored resource's payload.
pub trait CanUpdateUserData: Capability<Update<User>, Data = User, Error = DatabaseError> {

}

/// Role: the backend can remove a stored resource.
pub trait CanDeleteUserData: Capability<Delete<User>, Data = (), Error = DatabaseError> {

}

/// Role: the backend can both fetch and replace resources. A backend
/// satisfies it only by satisfying every listed contract, never partially.
pub trait CanReadUpdateUserData: CanReadUserData + CanUpdateUserData {

}

/// Dispatch: fetch the resource named `name` through any backend whose type
/// grants the read role.
pub fn handle_find_user<DB: CanReadUserData>(db: &mut DB, name: String) -> (r: Result<
    User,
    DatabaseError,
>)
    requires
        old(db).wf(),
    ensures
        final(db).wf(),
        <DB as Capability<Read<String>>>::performs(
            Read(name),
            old(db).store(),
            final(db).store(),
            r,
        ),
{
    db.perform(Read(name))
}

/// Dispatch: fetch every stored resource through any backend whose type
/// grants the read-all role.
pub fn handle_find_all_users<DB: CanReadAllUserData>(db: &mut DB) -> (r: Result<
    Vec<User>,
    DatabaseError,
>)
    requires
        old(db).wf(),
    ensures
        final(db).wf(),
        <DB as Capability<ReadAll>>::performs(ReadAll, old(db).store(), final(db).store(), r),
{
    db.perform(ReadAll)
}

/// Dispatch: persist `createuser` through any backend whose type grants the
/// create role.
pub fn handle_create_user<DB: CanCreateUserData>(db: &mut DB, createuser: User) -> (r: Result<
    User,
    DatabaseError,
>)
    requires
        old(db).wf(),
    ensures
        final(db).wf(),
        <DB as Capability<Create<User>>>::performs(
            Create(createuser),
            old(db).store(),
            final(db).store(),
            r,
        ),
{
    db.perform(Create(createuser))
}

/// Dispatch: replace the stored payload under `updateuser`'s key through any
/// backend whose type grants the update role.
pub fn handle_update_user<DB: CanUpdateUserData>(db: &mut DB, updateuser: User) -> (r: Result<
    User,
    DatabaseError,
>)
    requires
        old(db).wf(),
    ensures
        final(db).wf(),
        <DB as Capability<Update<User>>>::performs(
            Update(updateuser),
            old(db).store(),
            final(db).store(),
            r,
        ),
{
    db.perform(Update(updateuser))
}

/// Dispatch: replace the password stored under `name` through any backend
/// whose type grants the combined read-and-mutate role. The stored record is
/// fetched first, then stored again with the new password; a backend type
/// granting only one of the two contracts cannot be handed to this function.
pub fn handle_change_password<DB: CanReadUpdateUserData>(
    db: &mut DB,
    name: String,
    new_password: String,
) -> (r: Result<User, DatabaseError>)
    requires
        old(db).wf(),
    ensures
        final(db).wf(),
        exists|mid: Seq<UserView>, r1: Result<User, DatabaseError>|
            {
                &&& #[trigger] <DB as Capability<Read<String>>>::performs(
                    Read(name),
                    old(db).store(),
                    mid,
                    r1,
                )
                &&& match r1 {
                    Ok(u) => <DB as Capability<Update<User>>>::performs(
                        Update((User { name: u.name, password: new_password })),
                        mid,
                        final(db).store(),
                        r,
                    ),
                    Err(e) => final(db).store() == mid && r == Err::<User, DatabaseError>(e),
                }
            },
{
    match db.perform(Read(name)) {
        Ok(u) => db.perform(Update(User { name: u.name, password: new_password })),
        Err(e) => Err(e),
    }
}

/// Dispatch: remove the resource under `user_to_delete`'s key through any
/// backend whose type grants the delete role.
pub fn handle_delete_user<DB: CanDeleteUserData>(db: &mut DB, user_to_delete: User) -> (r: Result<
    (),
    DatabaseError,
>)
    requires
        old(db).wf(),
    ensures
        final(db).wf(),
        <DB as Capability<Delete<User>>>::performs(
            Delete(user_to_delete),
            old(db).store(),
            final(db).store(),
            r,
        ),
{
    db.perform(Delete(user_to_delete))
}

} // verus!
