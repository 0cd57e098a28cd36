//! The in-memory model of the `users` table that the query layer executes
//! against.
//!
//! A row is a [`UserRecord`]; the table is a [`UserStore`].  The store mirrors
//! the shape of the SQL table the statements address: an integer key column
//! assigned sequentially starting at 1 (like a `SERIAL` primary key), a
//! uniqueness constraint on the email column, and two nullable text columns
//! (`phone_number` and `status`).

use vstd::prelude::*;

verus! {

/// Largest key the sequential id column can reach, like a 32-bit `SERIAL`.
pub const MAX_SERIAL: u64 = 0x7FFF_FFFF;

/// One row of the `users` table.
pub struct UserRecord {
    pub id: u64,
    pub first_name: String,
    pub last_name: String,
    pub email: String,
    pub password: String,
    pub phone_number: Option<String>,
    pub status: Option<String>,
}

/// The single `users` table a live session reads and writes.
pub struct UserStore {
    rows: Vec<UserRecord>,
}

/// The id column is assigned sequentially from 1, every email is unique, and
/// the id sequence has not run past its largest value.
pub open spec fn wf_table(t: Seq<UserRecord>) -> bool {
    &&& t.len() <= MAX_SERIAL
    &&& forall|i: int| 0 <= i < t.len() ==> #[trigger] t[i].id == i + 1
    &&& forall|i: int, j: int|
        0 <= i < j < t.len() ==> t[i].email@ != t[j].email@
}

/// Some row of `t` carries id `id`.
pub open spec fn has_id(t: Seq<UserRecord>, id: u64) -> bool {
    exists|i: int| 0 <= i < t.len() && #[trigger] t[i].id == id
}

/// Some row of `t` carries email `email`.
pub open spec fn has_email(t: Seq<UserRecord>, email: Seq<char>) -> bool {
    exists|i: int| 0 <= i < t.len() && #[trigger] t[i].email@ == email
}

/// The index of the row carrying `id`; meaningful only when `has_id` holds.
pub open spec fn row_by_id(t: Seq<UserRecord>, id: u64) -> int {
    choose|i: int| 0 <= i < t.len() && #[trigger] t[i].id == id
}

/// The index of the row carrying `email`; meaningful only when `has_email`
/// holds.
pub open spec fn row_by_email(t: Seq<UserRecord>, email: Seq<char>) -> int {
    choose|i: int| 0 <= i < t.len() && #[trigger] t[i].email@ == email
}

/// The free text the driver reports when an insert collides with the unique
/// email constraint.
pub open spec fn dup_key_message() -> Seq<char> {
    "duplicate key value violates unique constraint users_email_key"@
}

/// The free text the driver reports when the sequential id column has no key
/// left to assign.
pub open spec fn serial_overflow_message() -> Seq<char> {
    "serial overflow"@
}

impl View for UserStore {
    type V = Seq<UserRecord>;

    closed spec fn view(&self) -> Seq<UserRecord> {
        self.rows@
    }
}

impl UserStore {
    /// Well-formedness of the table held by this store.
    pub open spec fn wf(&self) -> bool {
        wf_table(self@)
    }

    /// An empty table, as a freshly created database presents it.
    pub fn new() -> (s: UserStore)
        ensures
            s.wf(),
            s@.len() == 0,
    {
        UserStore { rows: Vec::new() }
    }

    /// Number of rows in the table.
    pub fn len(&self) -> (n: usize)
        ensures
            n == self@.len(),
    {
        self.rows.len()
    }

    /// Whether some row carries id `id`, as the single-row `EXISTS` statement
    /// on the id column reports it.
    pub fn exists_by_id(&self, id: u64) -> (b: bool)
        ensures
            b == has_id(self@, id),
    {
        let mut i: usize = 0;
        while i < self.rows.len()
            invariant
                i <= self.rows.len(),
                forall|k: int| 0 <= k < i ==> #[trigger] self.rows@[k].id != id,
            decreases self.rows.len() - i,
        {
            if self.rows[i].id == id {
                return true;
            }
            i = i + 1;
        }
        false
    }

    /// Whether some row carries email `email`, as the single-row `EXISTS`
    /// statement on the email column reports it.
    pub fn exists_by_email(&self, email: &String) -> (b: bool)
        ensures
            b == has_email(self@, email@),
    {
        let mut i: usize = 0;
        while i < self.rows.len()
            invariant
                i <= self.rows.len(),
                forall|k: int| 0 <= k < i ==> #[trigger] self.rows@[k].email@ != email@,
            decreases self.rows.len() - i,
        {
            if self.rows[i].email == *email {
                return true;
            }
            i = i + 1;
        }
        false
    }

    /// The id and stored password of the row carrying `email`, as the lookup
    /// statement on the email column answers it; `None` when no row matches.
    pub fn query_login_row(&self, email: &String) -> (r: Option<(u64, String)>)
        requires
            self.wf(),
        ensures
            r is Some <==> has_email(self@, email@),
            r matches Some(p) ==> {
                let row = self@[row_by_email(self@, email@)];
                p.0 == row.id && p.1 == row.password
            },
    {
        let mut i: usize = 0;
        while i < self.rows.len()
            invariant
                self.wf(),
                i <= self.rows.len(),
                forall|k: int| 0 <= k < i ==> #[trigger] self.rows@[k].email@ != email@,
            decreases self.rows.len() - i,
        {
            if self.rows[i].email == *email {
                assert(row_by_email(self@, email@) == i) by {
                    let j = row_by_email(self@, email@);
                    assert(self@[i as int].email@ == email@);
                }
                return Some((self.rows[i].id, self.rows[i].password.clone()));
            }
            i = i + 1;
        }
        None
    }

    /// The full row carrying id `id`, as the single-row lookup statement on
    /// the id column answers it; `None` when no row matches.
    pub fn query_profile_row(&self, id: u64) -> (r: Option<&UserRecord>)
        requires
            self.wf(),
        ensures
            r is Some <==> has_id(self@, id),
            r matches Some(rec) ==> *rec == self@[row_by_id(self@, id)],
    {
        let mut i: usize = 0;
        while i < self.rows.len()
            invariant
                self.wf(),
                i <= self.rows.len(),
                forall|k: int| 0 <= k < i ==> #[trigger] self.rows@[k].id != id,
            decreases self.rows.len() - i,
        {
            if self.rows[i].id == id {
                assert(row_by_id(self@, id) == i) by {
                    let j = row_by_id(self@, id);
                    assert(self@[i as int].id == id);
                }
                return Some(&self.rows[i]);
            }
            i = i + 1;
        }
        None
    }

    /// Run the insert statement: append a fresh row with the next sequential
    /// id, or report the driver's refusal as free text.  The row's `status`
    /// column is whatever the statement supplies; the registration statement
    /// never lists it.
    ///
    /// Returns the number of affected rows on success.
    pub fn insert_row(
        &mut self,
        first_name: &String,
        last_name: &String,
        email: &String,
        password: &String,
        phone_number: &Option<String>,
        status: &Option<String>,
    ) -> (r: Result<u64, String>)
        requires
            old(self).wf(),
        ensures
            final(self).wf(),
            has_email(old(self)@, email@) ==> {
                &&& r matches Err(m) && m@ == dup_key_message()
                &&& final(self)@ == old(self)@
            },
            !has_email(old(self)@, email@) && old(self)@.len() == MAX_SERIAL ==> {
                &&& r matches Err(m) && m@ == serial_overflow_message()
                &&& final(self)@ == old(self)@
            },
            !has_email(old(self)@, email@) && old(self)@.len() < MAX_SERIAL ==> {
                &&& r == Ok::<u64, String>(1u64)
                &&& final(self)@ == old(self)@.push(
                    UserRecord {
                        id: (old(self)@.len() + 1) as u64,
                        first_name: *first_name,
                        last_name: *last_name,
                        email: *email,
                        password: *password,
                        phone_number: *phone_number,
                        status: *status,
                    },
                )
            },
    {
        if self.exists_by_email(email) {
            return Err(
                "duplicate key value violates unique constraint users_email_key".to_owned(),
            );
        }
        let len = self.rows.len();
        if len >= MAX_SERIAL as usize {
            return Err("serial overflow".to_owned());
        }
        let phone_c: Option<String> = match phone_number {
            Some(p) => Some(p.clone()),
            None => None,
        };
        let status_c: Option<String> = match status {
            Some(s) => Some(s.clone()),
            None => None,
        };
        let row = UserRecord {
            id: (len as u64) + 1,
            first_name: first_name.clone(),
            last_name: last_name.clone(),
            email: email.clone(),
            password: password.clone(),
            phone_number: phone_c,
            status: status_c,
        };
        self.rows.push(row);
        Ok(1)
    }
}

} // verus!
