//! The database gateway's semantics: the `users` table and the three
//! mutating statements the tool issues against it.
//!
//! The live store is reached over the wire by the surrounding binary; this
//! module gives each statement its meaning on a model of the table, so that
//! the effect of every mutation is stated and proved. A row holds a unique
//! name, a hashed password, and the `initialized` flag.
use vstd::prelude::*;

verus! {

/// The mathematical value of one row of the `users` table.
pub ghost struct UserModel {
    pub name: Seq<char>,
    pub password: Seq<char>,
    pub initialized: bool,
}

/// One row of the `users` table.
#[derive(Clone, Debug)]
pub struct UserRecord {
    pub name: String,
    pub password: String,
    pub initialized: bool,
}

impl View for UserRecord {
    type V = UserModel;

    open spec fn view(&self) -> UserModel {
        UserModel { name: self.name@, password: self.password@, initialized: self.initialized }
    }
}

/// Whether some row of `rows` carries the name `name`.
pub open spec fn contains_name(rows: Seq<UserModel>, name: Seq<char>) -> bool {
    exists|i: int| 0 <= i < rows.len() && rows[i].name == name
}

/// The index of the row named `name`; meaningful when such a row exists
/// and names are unique.
pub open spec fn index_of_name(rows: Seq<UserModel>, name: Seq<char>) -> int {
    choose|i: int| 0 <= i < rows.len() && rows[i].name == name
}

/// Name uniqueness: the table's one invariant.
pub open spec fn unique_names(rows: Seq<UserModel>) -> bool {
    forall|i: int, j: int| 0 <= i < j < rows.len() ==> rows[i].name != rows[j].name
}

/// In a table with unique names, any matching index is the matching index.
pub proof fn lemma_index_of_name(rows: Seq<UserModel>, name: Seq<char>, i: int)
    requires
        unique_names(rows),
        0 <= i < rows.len(),
        rows[i].name == name,
    ensures
        contains_name(rows, name),
        index_of_name(rows, name) == i,
{
    assert(contains_name(rows, name));
    let j = index_of_name(rows, name);
    if i != j {
        if i < j {
            assert(rows[i].name != rows[j].name);
        } else {
            assert(rows[j].name != rows[i].name);
        }
    }
}

/// After a name not yet present is added, looking that name up lands on the
/// row just pushed: the lookup sees exactly the stored password and the
/// initialized mark that the insertion wrote.
pub proof fn lemma_added_user_visible(rows: Seq<UserModel>, row: UserModel)
    requires
        !contains_name(rows, row.name),
    ensures
        contains_name(rows.push(row), row.name),
        index_of_name(rows.push(row), row.name) == rows.len(),
        rows.push(row)[index_of_name(rows.push(row), row.name)] == row,
{
    let rows2 = rows.push(row);
    assert(rows2[rows.len() as int] == row);
    assert(contains_name(rows2, row.name));
    let i = index_of_name(rows2, row.name);
    if i < rows.len() {
        assert(rows[i] == rows2[i]);
        assert(contains_name(rows, row.name));
    }
}

/// After the row at `i` is replaced by `row`, whose name no other row
/// carries, looking `row.name` up lands on `i`: a reset password or a new
/// name is visible through the lookup, while every other row is what it
/// was.
pub proof fn lemma_updated_user_visible(rows: Seq<UserModel>, i: int, row: UserModel)
    requires
        0 <= i < rows.len(),
        forall|j: int| 0 <= j < rows.len() && j != i ==> rows[j].name != row.name,
    ensures
        contains_name(rows.update(i, row), row.name),
        index_of_name(rows.update(i, row), row.name) == i,
        rows.update(i, row)[index_of_name(rows.update(i, row), row.name)] == row,
{
    let rows2 = rows.update(i, row);
    assert(rows2[i] == row);
    assert(contains_name(rows2, row.name));
    let k = index_of_name(rows2, row.name);
    if k != i {
        assert(rows2[k] == rows[k]);
    }
}

/// How a statement against the `users` table can fail.
#[derive(Clone, Copy, Debug, PartialEq, Eq)]
pub enum DbError {
    /// The name column's unique constraint was violated.
    DuplicateName,
    /// The statement matched no row.
    NoSuchUser,
}

/// The `users` table as the three statements see it.
pub struct UserTable {
    records: Vec<UserRecord>,
}

impl View for UserTable {
    type V = Seq<UserModel>;

    closed spec fn view(&self) -> Seq<UserModel> {
        self.records@.map_values(|r: UserRecord| r@)
    }
}

impl UserTable {
    /// The invariant the store enforces through the unique constraint.
    pub open spec fn wf(self) -> bool {
        unique_names(self@)
    }

    /// An empty table.
    pub fn new() -> (r: UserTable)
        ensures
            r.wf(),
            r@ == Seq::<UserModel>::empty(),
    {
        let t = UserTable { records: Vec::new() };
        proof {
            assert(t@ =~= Seq::<UserModel>::empty());
        }
        t
    }

    /// The index of the row named `name`, if any.
    fn find_index(&self, name: &String) -> (r: Option<usize>)
        ensures
            r is Some <==> contains_name(self@, name@),
            r matches Some(i) ==> 0 <= i < self@.len() && self@[i as int].name == name@,
    {
        let n = self.records.len();
        let mut i: usize = 0;
        while i < n
            invariant
                n == self.records.len(),
                i <= n,
                forall|k: int| 0 <= k < i ==> self@[k].name != name@,
            decreases n - i,
        {
            if self.records[i].name.eq(name) {
                proof {
                    assert(self@[i as int].name == name@);
                }
                return Some(i);
            }
            i += 1;
        }
        None
    }

    /// Insert a new row `(username, encrypted_password, initialized = true)`.
    /// Succeeds exactly when no row already carries `username`; on the
    /// unique-constraint violation the table is left unchanged.
    pub fn add_user(&mut self, username: String, encrypted_password: String) -> (r: Result<
        (),
        DbError,
    >)
        requires
            old(self).wf(),
        ensures
            final(self).wf(),
            r is Ok <==> !contains_name(old(self)@, username@),
            r is Ok ==> final(self)@ == old(self)@.push(
                UserModel { name: username@, password: encrypted_password@, initialized: true },
            ),
            r is Err ==> final(self)@ == old(self)@ && r == Err::<(), DbError>(
                DbError::DuplicateName,
            ),
    {
        if self.find_index(&username).is_some() {
            return Err(DbError::DuplicateName);
        }
        let ghost before = self@;
        let ghost row = UserModel {
            name: username@,
            password: encrypted_password@,
            initialized: true,
        };
        self.records.push(UserRecord { name: username, password: encrypted_password, initialized: true });
        proof {
            assert(self@ =~= before.push(row));
            assert forall|i: int, j: int| 0 <= i < j < self@.len() implies self@[i].name
                != self@[j].name by {
                if j < before.len() {
                    assert(before[i].name != before[j].name);
                } else {
                    assert(!contains_name(before, row.name));
                    assert(before[i].name != row.name);
                }
            }
        }
        Ok(())
    }

    /// Store a fresh `encrypted_password` for the row named `username` and
    /// re-mark it initialized. Succeeds exactly when such a row exists; a
    /// zero-row update is reported as `NoSuchUser` and changes nothing.
    pub fn reinitialize_user(&mut self, username: String, encrypted_password: String) -> (r: Result<
        (),
        DbError,
    >)
        requires
            old(self).wf(),
        ensures
            final(self).wf(),
            r is Ok <==> contains_name(old(self)@, username@),
            r is Ok ==> final(self)@ == old(self)@.update(
                index_of_name(old(self)@, username@),
                UserModel { name: username@, password: encrypted_password@, initialized: true },
            ),
            r is Err ==> final(self)@ == old(self)@ && r == Err::<(), DbError>(DbError::NoSuchUser),
    {
        let i = match self.find_index(&username) {
            None => {
                return Err(DbError::NoSuchUser);
            },
            Some(i) => i,
        };
        let ghost before = self@;
        let old_rec = self.records.remove(i);
        self.records.insert(
            i,
            UserRecord { name: old_rec.name, password: encrypted_password, initialized: true },
        );
        proof {
            lemma_index_of_name(before, username@, i as int);
            assert(self@ =~= before.update(
                i as int,
                UserModel { name: username@, password: encrypted_password@, initialized: true },
            ));
            assert forall|p: int, q: int| 0 <= p < q < self@.len() implies self@[p].name
                != self@[q].name by {
                assert(before[p].name != before[q].name);
            }
        }
        Ok(())
    }

    /// Change the name of the row named `old_name` to `new_name`; every other
    /// column of that row, and every other row, keeps its value. Fails with
    /// `NoSuchUser` when no row carries `old_name`, and with `DuplicateName`
    /// when `new_name` is already taken by another row; either failure leaves
    /// the table unchanged.
    pub fn rename_user(&mut self, old_name: String, new_name: String) -> (r: Result<(), DbError>)
        requires
            old(self).wf(),
        ensures
            final(self).wf(),
            r is Ok <==> contains_name(old(self)@, old_name@) && (new_name@ == old_name@
                || !contains_name(old(self)@, new_name@)),
            r is Ok ==> final(self)@ == old(self)@.update(
                index_of_name(old(self)@, old_name@),
                UserModel {
                    name: new_name@,
                    password: old(self)@[index_of_name(old(self)@, old_name@)].password,
                    initialized: old(self)@[index_of_name(old(self)@, old_name@)].initialized,
                },
            ),
            r is Err ==> final(self)@ == old(self)@,
            !contains_name(old(self)@, old_name@) ==> r == Err::<(), DbError>(DbError::NoSuchUser),
            contains_name(old(self)@, old_name@) && new_name@ != old_name@ && contains_name(
                old(self)@,
                new_name@,
            ) ==> r == Err::<(), DbError>(DbError::DuplicateName),
    {
        let i = match self.find_index(&old_name) {
            None => {
                return Err(DbError::NoSuchUser);
            },
            Some(i) => i,
        };
        proof {
            lemma_index_of_name(self@, old_name@, i as int);
        }
        if let Some(j) = self.find_index(&new_name) {
            if j != i {
                proof {
                    lemma_index_of_name(self@, new_name@, j as int);
                }
                return Err(DbError::DuplicateName);
            }
        }
        let ghost before = self@;
        let old_rec = self.records.remove(i);
        self.records.insert(
            i,
            UserRecord {
                name: new_name,
                password: old_rec.password,
                initialized: old_rec.initialized,
            },
        );
        proof {
            assert(self@ =~= before.update(
                i as int,
                UserModel {
                    name: self@[i as int].name,
                    password: before[i as int].password,
                    initialized: before[i as int].initialized,
                },
            ));
            assert forall|p: int, q: int| 0 <= p < q < self@.len() implies self@[p].name
                != self@[q].name by {
                assert(before[p].name != before[q].name);
                if p == i {
                    assert(before[q].name != self@[p].name);
                } else if q == i {
                    assert(before[p].name != self@[q].name);
                }
            }
        }
        Ok(())
    }

    /// The row named `name`, if any: what `add_user` and its kin leave behind
    /// is observed through this lookup.
    pub fn find_user<'a>(&'a self, name: &String) -> (r: Option<&'a UserRecord>)
        requires
            self.wf(),
        ensures
            r is Some <==> contains_name(self@, name@),
            r matches Some(rec) ==> rec@ == self@[index_of_name(self@, name@)],
    {
        match self.find_index(name) {
            None => None,
            Some(i) => {
                proof {
                    lemma_index_of_name(self@, name@, i as int);
                }
                Some(&self.records[i])
            },
        }
    }

    /// How many rows the table holds.
    pub fn len(&self) -> (r: usize)
        ensures
            r == self@.len(),
    {
        self.records.len()
    }
}

} // verus!
