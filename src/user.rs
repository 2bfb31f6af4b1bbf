use vstd::prelude::*;

verus! {

/// A user record: an id assigned by the store and a name chosen by the client.
#[derive(Debug)]
pub struct User {
    pub id: i32,
    pub name: String,
}

/// The body of a create-user request.
#[derive(Debug)]
pub struct NewUser {
    pub name: String,
}

/// A user as the mathematical pair of its id and its name.
pub type UserRow = (int, Seq<char>);

impl User {
    pub open spec fn row(self) -> UserRow {
        (self.id as int, self.name@)
    }
}

/// The rows of a sequence of users, in order.
pub open spec fn rows_of(users: Seq<User>) -> Seq<UserRow> {
    users.map_values(|u: User| u.row())
}

} // verus!
