//! The credential resolver and the three user operations.
//!
//! A plaintext secret is produced by a [`Password`] source, pushed through
//! the slow salted one-way bcrypt hash, and only the digest ever reaches the
//! gateway. The operations state exactly how each call changes the table.
use vstd::prelude::*;

use crate::database::{contains_name, index_of_name, DbError, UserModel, UserTable};

verus! {

// Names the result of bcrypt::verify: whether `hash` is a bcrypt digest that
// accepts `password`. bcrypt::verify recomputes the digest from the cost and
// salt embedded in `hash`, so the outcome depends on the two arguments alone.
pub uninterp spec fn bcrypt_accepts(password: Seq<char>, hash: Seq<char>) -> bool;

/// Declares bcrypt::BcryptError, the error type of bcrypt::hash, so that
/// the hash wrapper can return it; it is mapped to [`UserError`] at once.
#[verifier::external_type_specification]
#[verifier::external_body]
pub struct ExBcryptError(bcrypt::BcryptError);

/// Relies on bcrypt::hash at bcrypt::DEFAULT_COST: the digest is a fresh
/// 60-character string beginning with '$' ("$2b$12$<salt><checksum>") that
/// bcrypt::verify accepts for the same plaintext; it fails only when the
/// operating system's randomness source fails to yield a salt.
#[verifier::external_body]
fn bcrypt_hash_default(plain: &str) -> (r: Result<String, bcrypt::BcryptError>)
    ensures
        r matches Ok(h) ==> h@.len() == 60 && h@[0] == '$' && bcrypt_accepts(plain@, h@),
{
    bcrypt::hash(plain, bcrypt::DEFAULT_COST)
}

/// How an operation on a user can fail.
#[derive(Clone, Copy, Debug, PartialEq, Eq)]
pub enum UserError {
    /// A password was required but no source supplied one.
    MissingSecret,
    /// The one-way hash could not be computed (no salt could be drawn).
    HashFailure,
    /// The gateway refused the statement.
    Db(DbError),
}

/// A capability that produces a plaintext secret on demand.
pub trait Password: Sized {
    fn get(self) -> String;
}

/// A literal secret given on the command line, yielded unchanged.
impl Password for String {
    fn get(self) -> (r: String)
        ensures
            r == self,
    {
        self
    }
}

/// Where the plaintext secret of a command comes from: a literal argument,
/// or the whole of standard input read to end-of-stream.
#[derive(Debug, PartialEq, Eq)]
pub enum PasswordSource {
    Literal(String),
    Stdin,
}

/// The dispatcher's rule for commands that take a password: when both
/// sources are offered, standard input takes precedence and the literal is
/// ignored; when neither is offered, the command fails before any database
/// contact.
pub fn select_password_source(password: Option<String>, password_stdin: bool) -> (r: Result<
    PasswordSource,
    UserError,
>)
    ensures
        password_stdin ==> r == Ok::<PasswordSource, UserError>(PasswordSource::Stdin),
        !password_stdin ==> (password matches Some(p) ==> r == Ok::<PasswordSource, UserError>(
            PasswordSource::Literal(p),
        )),
        !password_stdin && password is None ==> r == Err::<PasswordSource, UserError>(
            UserError::MissingSecret,
        ),
{
    if password_stdin {
        Ok(PasswordSource::Stdin)
    } else {
        match password {
            Some(p) => Ok(PasswordSource::Literal(p)),
            None => Err(UserError::MissingSecret),
        }
    }
}

/// Hash a plaintext secret irreversibly before it may reach the gateway.
/// The digest never equals the plaintext unless the plaintext already has
/// the exact shape of a digest (60 characters beginning with '$').
pub fn hash_secret(plain: &str) -> (r: Result<String, UserError>)
    ensures
        r matches Ok(h) ==> h@.len() == 60 && bcrypt_accepts(plain@, h@),
        r matches Ok(h) ==> ((plain@.len() != 60 || plain@[0] != '$') ==> h@ != plain@),
        r is Err ==> r == Err::<String, UserError>(UserError::HashFailure),
{
    match bcrypt_hash_default(plain) {
        Ok(h) => {
            proof {
                if h@ == plain@ {
                    assert(plain@.len() == 60 && plain@[0] == '$');
                }
            }
            Ok(h)
        },
        Err(_) => Err(UserError::HashFailure),
    }
}

/// Create the account `user` with the bcrypt digest of the plaintext
/// `plain` as its stored password; the new row is marked initialized.
pub fn register_plain(table: &mut UserTable, user: String, plain: &str) -> (r: Result<
    (),
    UserError,
>)
    requires
        old(table).wf(),
    ensures
        final(table).wf(),
        contains_name(old(table)@, user@) ==> r is Err,
        r is Err ==> final(table)@ == old(table)@ && (r == Err::<(), UserError>(
            UserError::HashFailure,
        ) || (r == Err::<(), UserError>(UserError::Db(DbError::DuplicateName)) && contains_name(
            old(table)@,
            user@,
        ))),
        r is Ok ==> {
            &&& !contains_name(old(table)@, user@)
            &&& final(table)@.len() == old(table)@.len() + 1
            &&& final(table)@.drop_last() == old(table)@
            &&& final(table)@.last().name == user@
            &&& final(table)@.last().initialized
            &&& final(table)@.last().password.len() == 60
            &&& bcrypt_accepts(plain@, final(table)@.last().password)
            &&& ((plain@.len() != 60 || plain@[0] != '$') ==> final(table)@.last().password
                != plain@)
        },
{
    let hashed = match hash_secret(plain) {
        Err(e) => {
            return Err(e);
        },
        Ok(h) => h,
    };
    match table.add_user(user, hashed) {
        Ok(unit) => {
            proof {
                assert(final(table)@.drop_last() =~= old(table)@);
            }
            Ok(unit)
        },
        Err(e) => Err(UserError::Db(e)),
    }
}

/// Create the account `user` with the digest of the secret that `password`
/// produces. What the stored digest accepts is stated by `register_plain`,
/// which this hands the produced plaintext.
pub fn register<P: Password>(table: &mut UserTable, user: String, password: P) -> (r: Result<
    (),
    UserError,
>)
    requires
        old(table).wf(),
    ensures
        final(table).wf(),
        contains_name(old(table)@, user@) ==> r is Err,
        r is Err ==> final(table)@ == old(table)@ && (r == Err::<(), UserError>(
            UserError::HashFailure,
        ) || (r == Err::<(), UserError>(UserError::Db(DbError::DuplicateName)) && contains_name(
            old(table)@,
            user@,
        ))),
        r is Ok ==> {
            &&& !contains_name(old(table)@, user@)
            &&& final(table)@.len() == old(table)@.len() + 1
            &&& final(table)@.drop_last() == old(table)@
            &&& final(table)@.last().name == user@
            &&& final(table)@.last().initialized
            &&& final(table)@.last().password.len() == 60
        },
{
    let plain = password.get();
    register_plain(table, user, plain.as_str())
}

/// Store the bcrypt digest of `plain` as the new password of the existing
/// account `user`, re-marking it initialized; every other row is untouched.
pub fn reset_password_plain(table: &mut UserTable, user: String, plain: &str) -> (r: Result<
    (),
    UserError,
>)
    requires
        old(table).wf(),
    ensures
        final(table).wf(),
        !contains_name(old(table)@, user@) ==> r is Err,
        r is Err ==> final(table)@ == old(table)@ && (r == Err::<(), UserError>(
            UserError::HashFailure,
        ) || (r == Err::<(), UserError>(UserError::Db(DbError::NoSuchUser)) && !contains_name(
            old(table)@,
            user@,
        ))),
        r is Ok ==> ({
            let i = index_of_name(old(table)@, user@);
            &&& contains_name(old(table)@, user@)
            &&& final(table)@.len() == old(table)@.len()
            &&& (forall|j: int|
                0 <= j < old(table)@.len() && j != i ==> final(table)@[j] == old(table)@[j])
            &&& final(table)@[i].name == user@
            &&& final(table)@[i].initialized
            &&& final(table)@[i].password.len() == 60
            &&& bcrypt_accepts(plain@, final(table)@[i].password)
        }),
{
    let hashed = match hash_secret(plain) {
        Err(e) => {
            return Err(e);
        },
        Ok(h) => h,
    };
    match table.reinitialize_user(user, hashed) {
        Ok(unit) => Ok(unit),
        Err(e) => Err(UserError::Db(e)),
    }
}

/// Reset the password of the existing account `user` to the digest of the
/// secret that `password` produces.
pub fn reset_password<P: Password>(table: &mut UserTable, user: String, password: P) -> (r: Result<
    (),
    UserError,
>)
    requires
        old(table).wf(),
    ensures
        final(table).wf(),
        !contains_name(old(table)@, user@) ==> r is Err,
        r is Err ==> final(table)@ == old(table)@ && (r == Err::<(), UserError>(
            UserError::HashFailure,
        ) || (r == Err::<(), UserError>(UserError::Db(DbError::NoSuchUser)) && !contains_name(
            old(table)@,
            user@,
        ))),
        r is Ok ==> ({
            let i = index_of_name(old(table)@, user@);
            &&& contains_name(old(table)@, user@)
            &&& final(table)@.len() == old(table)@.len()
            &&& (forall|j: int|
                0 <= j < old(table)@.len() && j != i ==> final(table)@[j] == old(table)@[j])
            &&& final(table)@[i].name == user@
            &&& final(table)@[i].initialized
            &&& final(table)@[i].password.len() == 60
        }),
{
    let plain = password.get();
    reset_password_plain(table, user, plain.as_str())
}

/// Give the existing account `user` the name `new_name`. Only the name
/// column of that one row changes: its password and initialized flag, and
/// every other row, keep their values.
pub fn rename(table: &mut UserTable, user: String, new_name: String) -> (r: Result<(), UserError>)
    requires
        old(table).wf(),
    ensures
        final(table).wf(),
        r is Ok <==> contains_name(old(table)@, user@) && (new_name@ == user@ || !contains_name(
            old(table)@,
            new_name@,
        )),
        r is Ok ==> final(table)@ == old(table)@.update(
            index_of_name(old(table)@, user@),
            UserModel {
                name: new_name@,
                password: old(table)@[index_of_name(old(table)@, user@)].password,
                initialized: old(table)@[index_of_name(old(table)@, user@)].initialized,
            },
        ),
        r is Err ==> final(table)@ == old(table)@,
        !contains_name(old(table)@, user@) ==> r == Err::<(), UserError>(
            UserError::Db(DbError::NoSuchUser),
        ),
        contains_name(old(table)@, user@) && new_name@ != user@ && contains_name(
            old(table)@,
            new_name@,
        ) ==> r == Err::<(), UserError>(UserError::Db(DbError::DuplicateName)),
{
    match table.rename_user(user, new_name) {
        Ok(unit) => Ok(unit),
        Err(e) => Err(UserError::Db(e)),
    }
}

} // verus!
