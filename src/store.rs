use vstd::prelude::*;

use crate::user::{User, UserRow, rows_of};

verus! {

/// Why the store could not carry out an operation.
#[derive(Clone, Copy, Debug, PartialEq, Eq, Structural)]
pub enum StoreError {
    /// The connection to the store is unavailable.
    Unavailable,
    /// The store rejected the statement (a constraint, a bound, malformed input).
    Rejected,
}

/// The largest id that the serial id column can assign.
pub const MAX_ID: i32 = 2147483647;

/// The user table: one row per created user, each with an id drawn from a
/// serial column that starts at 1 and only grows. Rows are never changed or
/// removed.
pub struct UserTable {
    rows: Vec<User>,
    last_id: i32,
}

impl UserTable {
    /// The rows of the table, in the order in which they were inserted.
    pub closed spec fn view(&self) -> Seq<UserRow> {
        rows_of(self.rows@)
    }

    /// The last id that the serial column handed out (0 before the first insert).
    pub closed spec fn last_id(&self) -> int {
        self.last_id as int
    }

    /// Every id lies between 1 and the last id handed out, and ids grow
    /// with the order of insertion, so no two rows share one.
    pub open spec fn wf(&self) -> bool {
        &&& 0 <= self.last_id() <= MAX_ID
        &&& forall|i: int| 0 <= i < self.view().len() ==> 1 <= #[trigger] self.view()[i].0 <= self.last_id()
        &&& forall|i: int, j: int|
            0 <= i < j < self.view().len() ==> #[trigger] self.view()[i].0 < #[trigger] self.view()[j].0
    }

    /// Whether `row` is a row of the table.
    pub open spec fn contains(&self, row: UserRow) -> bool {
        self.view().contains(row)
    }

    /// What a create-user statement does: on a table whose serial column is
    /// not exhausted, one row with the next id and `name` is appended and
    /// returned; otherwise the store rejects it and nothing changes.
    pub open spec fn created(
        before: UserTable,
        after: UserTable,
        name: Seq<char>,
        r: Result<User, StoreError>,
    ) -> bool {
        if before.last_id() < MAX_ID {
            &&& r is Ok
            &&& r->Ok_0.row() == (before.last_id() + 1, name)
            &&& after.view() == before.view().push((before.last_id() + 1, name))
            &&& after.last_id() == before.last_id() + 1
        } else {
            &&& r == Err::<User, StoreError>(StoreError::Rejected)
            &&& after.view() == before.view()
            &&& after.last_id() == before.last_id()
        }
    }

    /// An empty table whose serial column has handed out no id.
    pub fn new() -> (t: UserTable)
        ensures
            t.wf(),
            t.view() == Seq::<UserRow>::empty(),
            t.last_id() == 0,
    {
        let t = UserTable { rows: Vec::new(), last_id: 0 };
        assert(t.view() =~= Seq::<UserRow>::empty());
        t
    }

    /// All users of the table, in the order in which they were inserted.
    pub fn list_users(&self) -> (r: Vec<User>)
        ensures
            rows_of(r@) == self.view(),
    {
        let mut out: Vec<User> = Vec::new();
        let mut i: usize = 0;
        while i < self.rows.len()
            invariant
                0 <= i <= self.rows.len(),
                rows_of(out@) == rows_of(self.rows@).take(i as int),
            decreases self.rows.len() - i,
        {
            let u = &self.rows[i];
            let ghost prev = out@;
            out.push(User { id: u.id, name: u.name.clone() });
            assert(out@ == prev.push(out@.last()));
            assert(out@.last().row() == self.rows@[i as int].row());
            assert(rows_of(out@) =~= rows_of(prev).push(self.rows@[i as int].row()));
            assert(rows_of(out@) =~= rows_of(self.rows@).take(i as int + 1));
            i = i + 1;
        }
        assert(rows_of(self.rows@).take(i as int) =~= rows_of(self.rows@));
        out
    }

    /// Inserts one user named `name` under the next id of the serial column
    /// and returns the stored record.
    pub fn create_user(&mut self, name: String) -> (r: Result<User, StoreError>)
        requires
            old(self).wf(),
        ensures
            final(self).wf(),
            UserTable::created(*old(self), *final(self), name@, r),
    {
        if self.last_id == MAX_ID {
            return Err(StoreError::Rejected);
        }
        let id = self.last_id + 1;
        let stored = User { id, name: name.clone() };
        self.rows.push(User { id, name });
        self.last_id = id;
        assert(rows_of(self.rows@) =~= rows_of(old(self).rows@).push((id as int, stored.name@)));
        proof {
            let v = self.view();
            let w = old(self).view();
            assert forall|i: int| 0 <= i < v.len() implies 1 <= #[trigger] v[i].0 <= self.last_id() by {
                if i < w.len() {
                    assert(v[i] == w[i]);
                }
            }
            assert forall|i: int, j: int| 0 <= i < j < v.len() implies #[trigger] v[i].0 < #[trigger] v[j].0 by {
                assert(v[i] == w[i]);
                if j < w.len() {
                    assert(v[j] == w[j]);
                }
            }
        }
        Ok(stored)
    }
}

/// A user that was just created is among the rows that a listing returns,
/// with a positive id that no other row has.
pub proof fn lemma_created_user_is_listed(
    before: UserTable,
    after: UserTable,
    name: Seq<char>,
    r: Result<User, StoreError>,
    listed: Seq<User>,
)
    requires
        before.wf(),
        before.last_id() < MAX_ID,
        UserTable::created(before, after, name, r),
        rows_of(listed) == after.view(),
    ensures
        r is Ok,
        r->Ok_0.name@ == name,
        r->Ok_0.id > 0,
        rows_of(listed).contains(r->Ok_0.row()),
        forall|i: int|
            0 <= i < listed.len() && #[trigger] listed[i].id == r->Ok_0.id ==> i == listed.len() - 1,
{
    let v = after.view();
    let w = before.view();
    assert(v[v.len() - 1] == r->Ok_0.row());
    assert(rows_of(listed).len() == listed.len());
    assert(v.len() == w.len() + 1);
    assert forall|i: int| 0 <= i < listed.len() && #[trigger] listed[i].id == r->Ok_0.id implies i
        == listed.len() - 1 by {
        assert(rows_of(listed)[i] == listed[i].row());
        if i < w.len() {
            assert(v[i] == w[i]);
            assert(1 <= w[i].0 <= before.last_id());
        }
    }
}

/// Creating two users with the same name makes two records with two
/// different ids.
pub proof fn lemma_create_is_not_idempotent(
    t0: UserTable,
    t1: UserTable,
    t2: UserTable,
    name: Seq<char>,
    r1: Result<User, StoreError>,
    r2: Result<User, StoreError>,
)
    requires
        t0.wf(),
        t1.wf(),
        t0.last_id() < MAX_ID - 1,
        UserTable::created(t0, t1, name, r1),
        UserTable::created(t1, t2, name, r2),
    ensures
        r1 is Ok,
        r2 is Ok,
        r1->Ok_0.id != r2->Ok_0.id,
        t2.view().len() == t0.view().len() + 2,
        t2.contains(r1->Ok_0.row()),
        t2.contains(r2->Ok_0.row()),
{
    assert(t2.view()[t2.view().len() - 1] == r2->Ok_0.row());
    assert(t2.view()[t2.view().len() - 2] == t1.view()[t1.view().len() - 1]);
    assert(t1.view()[t1.view().len() - 1] == r1->Ok_0.row());
}

/// Listing a table that holds no user returns an empty sequence.
pub proof fn lemma_empty_table_lists_nothing(t: UserTable, listed: Seq<User>)
    requires
        t.view() == Seq::<UserRow>::empty(),
        rows_of(listed) == t.view(),
    ensures
        listed.len() == 0,
{
    assert(rows_of(listed).len() == listed.len());
}

} // verus!
