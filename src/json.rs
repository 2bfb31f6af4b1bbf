use vstd::prelude::*;

use crate::user::{User, UserRow, rows_of};

verus! {

/// The decimal digit `d` as a character.
pub open spec fn digit_char(d: nat) -> char {
    seq!['0', '1', '2', '3', '4', '5', '6', '7', '8', '9'][d as int]
}

/// The decimal text of a natural number, without leading zeros.
pub open spec fn decimal(n: nat) -> Seq<char>
    decreases n,
{
    if n < 10 {
        seq![digit_char(n)]
    } else {
        decimal(n / 10).push(digit_char(n % 10))
    }
}

/// The JSON text of an integer: its decimal text, with a minus sign when negative.
pub open spec fn int_text(n: int) -> Seq<char> {
    if n < 0 {
        seq!['-'] + decimal((-n) as nat)
    } else {
        decimal(n as nat)
    }
}

/// The JSON string literal that serde_json writes for `s`: quoted and escaped.
pub uninterp spec fn json_text_of(s: Seq<char>) -> Seq<char>;

/// Relies on serde_json::to_string on a `str`: the quoted, escaped string literal.
/// Writing into its in-memory buffer cannot fail, so the error arm is never taken.
#[verifier::external_body]
fn json_string(s: &str) -> (r: String)
    ensures
        r@ == json_text_of(s@),
{
    match serde_json::to_string(s) {
        Ok(t) => t,
        Err(_) => String::new(),
    }
}

fn digit_str(d: u32) -> (r: &'static str)
    requires
        d < 10,
    ensures
        r@ == seq![digit_char(d as nat)],
{
    let digits = "0123456789";
    proof {
        reveal_strlit("0123456789");
    }
    let r = digits.substring_char(d as usize, d as usize + 1);
    assert(r@ =~= seq![digit_char(d as nat)]);
    r
}

/// Appends the decimal text of `n` to `out`.
fn push_decimal(out: &mut String, n: u32)
    ensures
        final(out)@ == old(out)@ + decimal(n as nat),
    decreases n,
{
    if n >= 10 {
        push_decimal(out, n / 10);
    }
    out.append(digit_str(n % 10));
    assert(out@ =~= old(out)@ + decimal(n as nat));
}

/// Appends the JSON text of `n` to `out`.
fn push_int(out: &mut String, n: i32)
    ensures
        final(out)@ == old(out)@ + int_text(n as int),
{
    if n < 0 {
        out.append("-");
        proof {
            reveal_strlit("-");
        }
        let magnitude: u32 = (-(n as i64)) as u32;
        push_decimal(out, magnitude);
        assert(out@ =~= old(out)@ + int_text(n as int));
    } else {
        push_decimal(out, n as u32);
    }
}

/// The JSON object text of one user row: `{"id":<id>,"name":<name>}`.
pub open spec fn user_text(row: UserRow) -> Seq<char> {
    "{\"id\":"@ + int_text(row.0) + ",\"name\":"@ + json_text_of(row.1) + "}"@
}

/// The user objects of `rows`, separated by commas.
pub open spec fn items_text(rows: Seq<UserRow>) -> Seq<char>
    decreases rows.len(),
{
    if rows.len() == 0 {
        Seq::empty()
    } else if rows.len() == 1 {
        user_text(rows[0])
    } else {
        items_text(rows.drop_last()) + ","@ + user_text(rows.last())
    }
}

/// The JSON array text of `rows`, in order.
pub open spec fn list_text(rows: Seq<UserRow>) -> Seq<char> {
    "["@ + items_text(rows) + "]"@
}

/// Appends the JSON object text of `user` to `out`.
fn push_user(out: &mut String, user: &User)
    ensures
        final(out)@ == old(out)@ + user_text(user.row()),
{
    out.append("{\"id\":");
    push_int(out, user.id);
    out.append(",\"name\":");
    let name = json_string(user.name.as_str());
    out.append(name.as_str());
    out.append("}");
    assert(out@ =~= old(out)@ + user_text(user.row()));
}

/// The JSON object text of one user, as serde_json writes a record with these two fields.
pub fn user_json(user: &User) -> (r: String)
    ensures
        r@ == user_text(user.row()),
{
    let mut out = String::new();
    push_user(&mut out, user);
    assert(out@ =~= user_text(user.row()));
    out
}

/// The JSON array text of `users`, one object per user in order.
pub fn users_json(users: &Vec<User>) -> (r: String)
    ensures
        r@ == list_text(rows_of(users@)),
{
    let mut out = String::from_str("[");
    let mut i: usize = 0;
    while i < users.len()
        invariant
            0 <= i <= users.len(),
            out@ == "["@ + items_text(rows_of(users@).take(i as int)),
        decreases users.len() - i,
    {
        let ghost before = out@;
        let ghost rows = rows_of(users@);
        if i > 0 {
            out.append(",");
        }
        push_user(&mut out, &users[i]);
        proof {
            let t = rows.take(i as int + 1);
            assert(t.drop_last() =~= rows.take(i as int));
            assert(t.last() == users@[i as int].row());
            if i == 0 {
                assert(items_text(rows.take(0)) =~= Seq::<char>::empty());
                assert(out@ =~= "["@ + items_text(t));
            } else {
                assert(out@ =~= "["@ + items_text(t));
            }
        }
        i = i + 1;
    }
    assert(rows_of(users@).take(users@.len() as int) =~= rows_of(users@));
    out.append("]");
    out
}

} // verus!
