use vstd::prelude::*;

use crate::database::DatabaseError;
use crate::model::UserView;

verus! {

// The mathematical model of the store: the stored resources in insertion
// order, each operation described as a function from state to state together
// with the result it owes the caller.

/// Some stored resource carries the given name.
pub open spec fn contains_name(rows: Seq<UserView>, name: Seq<char>) -> bool {
    exists|i: int| 0 <= i < rows.len() && rows[i].name == name
}

/// An index of a stored resource carrying the given name (the index, once the
/// store is well formed and `contains_name` holds).
pub open spec fn idx_of(rows: Seq<UserView>, name: Seq<char>) -> int {
    choose|i: int| 0 <= i < rows.len() && rows[i].name == name
}

/// The stored resource carrying the given name; meaningful only when
/// `contains_name` holds.
pub open spec fn found_user(rows: Seq<UserView>, name: Seq<char>) -> UserView {
    rows[idx_of(rows, name)]
}

/// A well-formed store: the natural key is unique.
pub open spec fn distinct_names(rows: Seq<UserView>) -> bool {
    forall|i: int, j: int| 0 <= i < j < rows.len() ==> rows[i].name != rows[j].name
}

/// The state after a create: the resource is appended when its key is fresh;
/// an occupied key leaves the store unchanged.
pub open spec fn spec_create(rows: Seq<UserView>, u: UserView) -> Seq<UserView> {
    if contains_name(rows, u.name) {
        rows
    } else {
        rows.push(u)
    }
}

/// The state after an update: the resource sharing the payload's key is
/// replaced by the payload; a missing key leaves the store unchanged.
pub open spec fn spec_update(rows: Seq<UserView>, u: UserView) -> Seq<UserView> {
    if contains_name(rows, u.name) {
        rows.update(idx_of(rows, u.name), u)
    } else {
        rows
    }
}

/// The state after a delete: the resource carrying the key is removed; a
/// missing key leaves the store unchanged.
pub open spec fn spec_delete(rows: Seq<UserView>, name: Seq<char>) -> Seq<UserView> {
    if contains_name(rows, name) {
        rows.remove(idx_of(rows, name))
    } else {
        rows
    }
}

/// Everything a create owes: how the state changes and what is returned.
pub open spec fn create_post(
    u: UserView,
    pre: Seq<UserView>,
    cur: Seq<UserView>,
    r: Result<UserView, DatabaseError>,
) -> bool {
    &&& cur == spec_create(pre, u)
    &&& r == (if contains_name(pre, u.name) {
        Err::<UserView, DatabaseError>(DatabaseError::ConflictOnCreate)
    } else {
        Ok::<UserView, DatabaseError>(u)
    })
}

/// Everything a read owes: the state is untouched, the resource carrying the
/// key is returned, and a missing key is reported as `NotFound`.
pub open spec fn read_post(
    name: Seq<char>,
    pre: Seq<UserView>,
    cur: Seq<UserView>,
    r: Result<UserView, DatabaseError>,
) -> bool {
    &&& cur == pre
    &&& r == (if contains_name(pre, name) {
        Ok::<UserView, DatabaseError>(found_user(pre, name))
    } else {
        Err::<UserView, DatabaseError>(DatabaseError::NotFound)
    })
}

/// Everything a read-all owes: the state is untouched and every stored
/// resource is returned, in storage order; an empty store yields an empty
/// sequence, not an error.
pub open spec fn read_all_post(
    pre: Seq<UserView>,
    cur: Seq<UserView>,
    r: Result<Seq<UserView>, DatabaseError>,
) -> bool {
    &&& cur == pre
    &&& r == Ok::<Seq<UserView>, DatabaseError>(pre)
}

/// Everything an update owes: the payload replaces the resource sharing its
/// key and is returned; a missing key is reported as `NotFound`.
pub open spec fn update_post(
    u: UserView,
    pre: Seq<UserView>,
    cur: Seq<UserView>,
    r: Result<UserView, DatabaseError>,
) -> bool {
    &&& cur == spec_update(pre, u)
    &&& r == (if contains_name(pre, u.name) {
        Ok::<UserView, DatabaseError>(u)
    } else {
        Err::<UserView, DatabaseError>(DatabaseError::NotFound)
    })
}

/// Everything a delete owes: the resource carrying the key is removed; a
/// missing key is reported as `NotFound`, never as a silent success.
pub open spec fn delete_post(
    u: UserView,
    pre: Seq<UserView>,
    cur: Seq<UserView>,
    r: Result<(), DatabaseError>,
) -> bool {
    &&& cur == spec_delete(pre, u.name)
    &&& r == (if contains_name(pre, u.name) {
        Ok::<(), DatabaseError>(())
    } else {
        Err::<(), DatabaseError>(DatabaseError::NotFound)
    })
}

/// With unique keys, any index carrying the name is the index the model
/// speaks of.
pub proof fn lemma_found_at(rows: Seq<UserView>, name: Seq<char>, i: int)
    requires
        distinct_names(rows),
        0 <= i < rows.len(),
        rows[i].name == name,
    ensures
        contains_name(rows, name),
        idx_of(rows, name) == i,
        found_user(rows, name) == rows[i],
{
    assert(contains_name(rows, name));
    let k = idx_of(rows, name);
    assert(0 <= k < rows.len() && rows[k].name == name);
    if k < i {
        assert(rows[k].name != rows[i].name);
    } else if i < k {
        assert(rows[i].name != rows[k].name);
    }
}

/// A create keeps the keys unique.
pub proof fn lemma_create_preserves_wf(rows: Seq<UserView>, u: UserView)
    requires
        distinct_names(rows),
    ensures
        distinct_names(spec_create(rows, u)),
{
    if !contains_name(rows, u.name) {
        let cur = rows.push(u);
        assert forall|i: int, j: int| 0 <= i < j < cur.len() implies cur[i].name != cur[j].name by {
            if j == rows.len() {
                if rows[i].name == u.name {
                    assert(contains_name(rows, u.name));
                }
            } else {
                assert(rows[i].name != rows[j].name);
            }
        }
    }
}

/// An update keeps the keys unique.
pub proof fn lemma_update_preserves_wf(rows: Seq<UserView>, u: UserView)
    requires
        distinct_names(rows),
    ensures
        distinct_names(spec_update(rows, u)),
{
    if contains_name(rows, u.name) {
        let k = idx_of(rows, u.name);
        assert(0 <= k < rows.len() && rows[k].name == u.name);
        let cur = rows.update(k, u);
        assert forall|i: int, j: int| 0 <= i < j < cur.len() implies cur[i].name != cur[j].name by {
            assert(rows[i].name != rows[j].name);
            assert(cur[i].name == rows[i].name);
            assert(cur[j].name == rows[j].name);
        }
    }
}

/// A delete keeps the keys unique.
pub proof fn lemma_delete_preserves_wf(rows: Seq<UserView>, name: Seq<char>)
    requires
        distinct_names(rows),
    ensures
        distinct_names(spec_delete(rows, name)),
{
    if contains_name(rows, name) {
        let k = idx_of(rows, name);
        assert(0 <= k < rows.len() && rows[k].name == name);
        let cur = rows.remove(k);
        assert forall|i: int, j: int| 0 <= i < j < cur.len() implies cur[i].name != cur[j].name by {
            let i0: int = if i < k {
                i
            } else {
                i + 1
            };
            let j0: int = if j < k {
                j
            } else {
                j + 1
            };
            assert(cur[i].name == rows[i0].name);
            assert(cur[j].name == rows[j0].name);
            assert(rows[i0].name != rows[j0].name);
        }
    }
}

/// Law: a resource whose key is not yet stored is created successfully, and
/// a subsequent read of its key returns a value equal to it.
pub proof fn lemma_create_then_read(
    rows: Seq<UserView>,
    u: UserView,
    mid: Seq<UserView>,
    r1: Result<UserView, DatabaseError>,
    cur: Seq<UserView>,
    r2: Result<UserView, DatabaseError>,
)
    requires
        distinct_names(rows),
        !contains_name(rows, u.name),
        create_post(u, rows, mid, r1),
        read_post(u.name, mid, cur, r2),
    ensures
        r1 == Ok::<UserView, DatabaseError>(u),
        r2 == Ok::<UserView, DatabaseError>(u),
        cur == mid,
{
    lemma_create_preserves_wf(rows, u);
    assert(mid == rows.push(u));
    assert(mid[rows.len() as int] == u);
    lemma_found_at(mid, u.name, rows.len() as int);
}

/// Law: a stored resource, once deleted, is no longer readable: the read
/// fails with `NotFound`.
pub proof fn lemma_delete_then_read(
    rows: Seq<UserView>,
    u: UserView,
    mid: Seq<UserView>,
    r1: Result<(), DatabaseError>,
    cur: Seq<UserView>,
    r2: Result<UserView, DatabaseError>,
)
    requires
        distinct_names(rows),
        contains_name(rows, u.name),
        delete_post(u, rows, mid, r1),
        read_post(u.name, mid, cur, r2),
    ensures
        r1 == Ok::<(), DatabaseError>(()),
        r2 == Err::<UserView, DatabaseError>(DatabaseError::NotFound),
        cur == mid,
{
    let k = idx_of(rows, u.name);
    assert(0 <= k < rows.len() && rows[k].name == u.name);
    if contains_name(mid, u.name) {
        let j = choose|j: int| 0 <= j < mid.len() && mid[j].name == u.name;
        let j0: int = if j < k {
            j
        } else {
            j + 1
        };
        assert(mid[j] == rows[j0]);
        if j0 < k {
            assert(rows[j0].name != rows[k].name);
        } else {
            assert(rows[k].name != rows[j0].name);
        }
    }
}

/// Law: reading all resources from an empty store yields the empty sequence,
/// not an error.
pub proof fn lemma_read_all_empty(cur: Seq<UserView>, r: Result<Seq<UserView>, DatabaseError>)
    requires
        read_all_post(Seq::<UserView>::empty(), cur, r),
    ensures
        r == Ok::<Seq<UserView>, DatabaseError>(Seq::<UserView>::empty()),
        r->Ok_0.len() == 0,
{
}

/// The store an initial state grows into when each listed resource is
/// created in turn.
pub open spec fn apply_creates(init: Seq<UserView>, users: Seq<UserView>) -> Seq<UserView>
    decreases users.len(),
{
    if users.len() == 0 {
        init
    } else {
        apply_creates(spec_create(init, users[0]), users.drop_first())
    }
}

/// Creating resources whose keys are fresh for the store appends them, in
/// order.
pub proof fn lemma_apply_creates_fresh(init: Seq<UserView>, users: Seq<UserView>)
    requires
        distinct_names(users),
        forall|i: int| 0 <= i < users.len() ==> !contains_name(init, users[i].name),
    ensures
        apply_creates(init, users) == init + users,
    decreases users.len(),
{
    if users.len() == 0 {
        assert(apply_creates(init, users) =~= init + users);
    } else {
        let u0 = users[0];
        assert(!contains_name(init, u0.name));
        let init2 = spec_create(init, u0);
        assert(init2 == init.push(u0));
        let rest = users.drop_first();
        assert forall|i: int, j: int| 0 <= i < j < rest.len() implies rest[i].name
            != rest[j].name by {
            assert(users[i + 1].name != users[j + 1].name);
        }
        assert forall|i: int| 0 <= i < rest.len() implies !contains_name(init2, rest[i].name) by {
            assert(users[0].name != users[i + 1].name);
            if contains_name(init2, rest[i].name) {
                let j = choose|j: int|
                    0 <= j < init2.len() && init2[j].name == rest[i].name;
                if j < init.len() {
                    assert(contains_name(init, users[i + 1].name));
                } else {
                    assert(init2[j] == u0);
                }
            }
        }
        lemma_apply_creates_fresh(init2, rest);
        assert(init.push(u0) + rest =~= init + users);
    }
}

/// Law: creating any number of resources with pairwise distinct keys in an
/// empty store stores exactly those resources, and a read-all then returns
/// exactly as many entries as were created.
pub proof fn lemma_create_distinct_counts(
    users: Seq<UserView>,
    cur: Seq<UserView>,
    r: Result<Seq<UserView>, DatabaseError>,
)
    requires
        distinct_names(users),
        read_all_post(apply_creates(Seq::<UserView>::empty(), users), cur, r),
    ensures
        apply_creates(Seq::<UserView>::empty(), users) == users,
        r == Ok::<Seq<UserView>, DatabaseError>(users),
        r->Ok_0.len() == users.len(),
{
    lemma_apply_creates_fresh(Seq::<UserView>::empty(), users);
    assert(Seq::<UserView>::empty() + users =~= users);
}

/// Law: a create on an occupied key is rejected with `ConflictOnCreate` and
/// leaves the store, and so the row already under that key, unchanged.
pub proof fn lemma_create_conflict(
    rows: Seq<UserView>,
    u: UserView,
    cur: Seq<UserView>,
    r: Result<UserView, DatabaseError>,
)
    requires
        contains_name(rows, u.name),
        create_post(u, rows, cur, r),
    ensures
        r == Err::<UserView, DatabaseError>(DatabaseError::ConflictOnCreate),
        cur == rows,
        found_user(cur, u.name) == found_user(rows, u.name),
{
}

/// Law: an update or a delete on a key that is not stored fails with
/// `NotFound` and leaves the store unchanged.
pub proof fn lemma_mutate_missing_key(
    rows: Seq<UserView>,
    u: UserView,
    cur1: Seq<UserView>,
    r1: Result<UserView, DatabaseError>,
    cur2: Seq<UserView>,
    r2: Result<(), DatabaseError>,
)
    requires
        !contains_name(rows, u.name),
        update_post(u, rows, cur1, r1),
        delete_post(u, rows, cur2, r2),
    ensures
        r1 == Err::<UserView, DatabaseError>(DatabaseError::NotFound),
        cur1 == rows,
        r2 == Err::<(), DatabaseError>(DatabaseError::NotFound),
        cur2 == rows,
{
}

} // verus!
