use vstd::prelude::*;

use crate::error::AppError;

verus! {

/// A registered user; `password` holds a bcrypt hash, never the password.
#[derive(Clone, Debug)]
pub struct User {
    pub email: String,
    pub password: String,
}

#[derive(Clone, Debug)]
pub struct LoginRequest {
    pub email: String,
    pub password: String,
}

#[derive(Clone, Debug)]
pub struct LoginResponse {
    pub token: String,
}

#[derive(Clone, Debug)]
pub struct ChangePasswordRequest {
    pub old_password: String,
    pub new_password: String,
}

/// Mathematical form of a user.
pub struct UserView {
    pub email: Seq<char>,
    pub hash: Seq<char>,
}

impl View for User {
    type V = UserView;

    open spec fn view(&self) -> UserView {
        UserView { email: self.email@, hash: self.password@ }
    }
}

/// The users, in registration order.
#[derive(Debug)]
pub struct UserManager {
    users: Vec<User>,
    file_path: String,
}

/// Whether bcrypt verifies `password` against the stored hash `hash`.
pub uninterp spec fn bcrypt_accepts(password: Seq<char>, hash: Seq<char>) -> bool;

/// Whether bcrypt can read `hash` as a hash (format, version, cost, salt).
pub uninterp spec fn bcrypt_reads(hash: Seq<char>) -> bool;

/// The start of every hash made here: bcrypt version 2b at cost 12.
pub open spec fn hash_prefix() -> Seq<char> {
    seq!['$', '2', 'b', '$', '1', '2', '$']
}

#[verifier::external_type_specification]
#[verifier::external_body]
pub struct ExBcryptError(bcrypt::BcryptError);

/// Relies on bcrypt::verify: whether it fails depends on the hash alone (it
/// fails where the hash cannot be split into version, cost, salt and digest,
/// or the cost is out of range); otherwise the flag says whether the password
/// matches, and depends on the two alone.
#[verifier::external_body]
fn check_password(password: &str, hash: &str) -> (r: Result<bool, bcrypt::BcryptError>)
    ensures
        r matches Ok(b) ==> b == bcrypt_accepts(password@, hash@),
        r is Ok <==> bcrypt_reads(hash@),
        bcrypt_accepts(password@, hash@) ==> r matches Ok(true),
{
    bcrypt::verify(password, hash)
}

/// Relies on bcrypt::hash at bcrypt::DEFAULT_COST (12): a hash under a random
/// salt, formatted as version 2b in 60 ASCII characters starting "$2b$12$",
/// that bcrypt::verify reads and accepts for the same password.
#[verifier::external_body]
fn hash_password(password: &str) -> (r: Result<String, bcrypt::BcryptError>)
    ensures
        r matches Ok(h) ==> bcrypt_accepts(password@, h@) && bcrypt_reads(h@) && h@.len() == 60
            && h@.subrange(0, 7) == hash_prefix(),
{
    bcrypt::hash(password, bcrypt::DEFAULT_COST)
}

/// Relies on the Display of bcrypt::BcryptError, for the error message.
#[verifier::external_body]
fn bcrypt_message(e: &bcrypt::BcryptError) -> String {
    e.to_string()
}

/// `i` is the position of the first user with email `email`.
pub open spec fn first_user(s: Seq<UserView>, email: Seq<char>, i: int) -> bool {
    &&& 0 <= i < s.len()
    &&& s[i].email == email
    &&& forall|j: int| 0 <= j < i ==> s[j].email != email
}

/// Some user has email `email`.
pub open spec fn email_known(s: Seq<UserView>, email: Seq<char>) -> bool {
    exists|i: int| 0 <= i < s.len() && s[i].email == email
}

/// The user with email `email` exists and bcrypt can read that user's
/// stored hash.
pub open spec fn hash_readable(s: Seq<UserView>, email: Seq<char>) -> bool {
    exists|i: int| first_user(s, email, i) && bcrypt_reads(s[i].hash)
}

/// `h` has the form of every hash stored here: readable by bcrypt, 60
/// characters, starting with `hash_prefix()`; so it equals no password of
/// another length.
pub open spec fn stored_form(h: Seq<char>) -> bool {
    &&& bcrypt_reads(h)
    &&& h.len() == 60
    &&& h.subrange(0, 7) == hash_prefix()
}

/// The user with email `email` exists and bcrypt accepts `password` against
/// that user's stored hash.
pub open spec fn password_accepted(s: Seq<UserView>, email: Seq<char>, password: Seq<char>) -> bool {
    exists|i: int| first_user(s, email, i) && bcrypt_accepts(password, s[i].hash)
}

impl View for UserManager {
    type V = Seq<UserView>;

    closed spec fn view(&self) -> Seq<UserView> {
        self.users@.map_values(|u: User| u@)
    }
}

impl UserManager {
    pub closed spec fn path(&self) -> Seq<char> {
        self.file_path@
    }

    /// A store holding `users`, as loaded from the file at `file_path`.
    pub fn new(file_path: &str, users: Vec<User>) -> (r: UserManager)
        ensures
            r@ == users@.map_values(|u: User| u@),
            r.path() == file_path@,
    {
        UserManager { users, file_path: file_path.to_owned() }
    }

    /// The file the store is saved to.
    pub fn file_path(&self) -> (r: &str)
        ensures
            r@ == self.path(),
    {
        self.file_path.as_str()
    }

    /// A copy of every user, in registration order, as it is saved.
    pub fn list_users(&self) -> (r: Vec<User>)
        ensures
            r@.map_values(|u: User| u@) == self@,
    {
        let mut r: Vec<User> = Vec::new();
        let mut i: usize = 0;
        while i < self.users.len()
            invariant
                i <= self.users.len(),
                r@.len() == i,
                forall|j: int| 0 <= j < i ==> r@[j]@ == self.users@[j]@,
            decreases self.users.len() - i,
        {
            let u = &self.users[i];
            r.push(User { email: u.email.clone(), password: u.password.clone() });
            i = i + 1;
        }
        assert(r@.map_values(|u: User| u@) =~= self@);
        r
    }

    /// The position of the first user with email `email`.
    pub fn find_user(&self, email: &str) -> (r: Option<usize>)
        ensures
            match r {
                Some(i) => first_user(self@, email@, i as int),
                None => !email_known(self@, email@),
            },
    {
        let key = email.to_owned();
        let mut i: usize = 0;
        while i < self.users.len()
            invariant
                i <= self.users.len(),
                key@ == email@,
                forall|j: int| 0 <= j < i ==> self@[j].email != email@,
            decreases self.users.len() - i,
        {
            if self.users[i].email == key {
                return Some(i);
            }
            i = i + 1;
        }
        None
    }

    /// Registers `email` with a bcrypt hash of `password`. A known email fails
    /// with `User`, a hashing failure with `Bcrypt`; both change nothing.
    pub fn create_user(&mut self, email: &str, password: &str) -> (r: Result<(), AppError>)
        ensures
            final(self).path() == old(self).path(),
            email_known(old(self)@, email@) ==> (r matches Err(e) && e is User),
            r is Err ==> final(self)@ == old(self)@,
            r is Ok ==> exists|h: Seq<char>|
                bcrypt_accepts(password@, h) && stored_form(h) && final(self)@ == old(self)@.push(
                    UserView { email: email@, hash: h },
                ),
            r is Ok ==> password_accepted(final(self)@, email@, password@),
            r is Ok && password@.len() != 60 ==> final(self)@.last().hash != password@,
            !email_known(old(self)@, email@) ==> (r is Ok || (r matches Err(e) && e is Bcrypt)),
    {
        if self.find_user(email).is_some() {
            return Err(AppError::User("User already exists".to_owned()));
        }
        match hash_password(password) {
            Err(e) => Err(AppError::Bcrypt(bcrypt_message(&e))),
            Ok(h) => {
                let ghost hv = h@;
                let user = User { email: email.to_owned(), password: h };
                self.users.push(user);
                assert(self@ =~= old(self)@.push(UserView { email: email@, hash: hv }));
                assert(first_user(self@, email@, self@.len() - 1));
                assert(bcrypt_accepts(password@, hv) && stored_form(hv) && self@ == old(self)@.push(
                    UserView { email: email@, hash: hv },
                ));
                Ok(())
            },
        }
    }

    /// Whether `password` is the password of `email`. An unknown email gives
    /// `Ok(false)`, as a wrong password does; a stored hash bcrypt cannot read
    /// fails with `Bcrypt`.
    pub fn verify_user(&self, email: &str, password: &str) -> (r: Result<bool, AppError>)
        ensures
            !email_known(self@, email@) ==> (r matches Ok(b) && !b),
            r is Ok <==> (!email_known(self@, email@) || hash_readable(self@, email@)),
            r matches Ok(b) ==> b == password_accepted(self@, email@, password@),
            password_accepted(self@, email@, password@) ==> (r matches Ok(b) && b),
            r matches Err(e) ==> e is Bcrypt,
    {
        match self.find_user(email) {
            None => Ok(false),
            Some(i) => {
                assert(first_user(self@, email@, i as int));
                proof {
                    assert forall|k: int| first_user(self@, email@, k) implies k == i as int by {
                        if k < i {
                        } else if k > i {
                        }
                    }
                }
                match check_password(password, self.users[i].password.as_str()) {
                    Ok(b) => Ok(b),
                    Err(e) => Err(AppError::Bcrypt(bcrypt_message(&e))),
                }
            },
        }
    }

    /// Replaces the stored hash of `email` by a hash of `new_password`, once
    /// `old_password` has been checked against the stored one. An unknown
    /// email fails with `NotFound`, a stored hash bcrypt cannot read with
    /// `Bcrypt`, a wrong old password with `Auth`, a failure to hash the new
    /// one with `Bcrypt`; every failure changes nothing.
    pub fn change_password(&mut self, email: &str, old_password: &str, new_password: &str) -> (r:
        Result<(), AppError>)
        ensures
            final(self).path() == old(self).path(),
            !email_known(old(self)@, email@) ==> (r matches Err(e) && e is NotFound),
            r is Err ==> final(self)@ == old(self)@,
            email_known(old(self)@, email@) && !hash_readable(old(self)@, email@) ==> (r matches Err(
                e,
            ) && e is Bcrypt),
            hash_readable(old(self)@, email@) && !password_accepted(old(self)@, email@, old_password@)
                ==> (r matches Err(e) && e is Auth),
            password_accepted(old(self)@, email@, old_password@) ==> (r is Ok || (r matches Err(e)
                && e is Bcrypt)),
            r is Ok ==> password_accepted(old(self)@, email@, old_password@),
            r is Ok ==> password_accepted(final(self)@, email@, new_password@),
            r is Ok ==> hash_readable(final(self)@, email@),
            r is Ok ==> exists|i: int, h: Seq<char>|
                first_user(old(self)@, email@, i) && bcrypt_accepts(new_password@, h) && stored_form(h)
                    && final(self)@ == old(self)@.update(i, UserView { email: email@, hash: h }),
            r is Ok && new_password@.len() != 60 ==> forall|i: int|
                first_user(final(self)@, email@, i) ==> final(self)@[i].hash != new_password@,
    {
        let i = match self.find_user(email) {
            Some(i) => i,
            None => {
                return Err(AppError::NotFound(email.to_owned()));
            },
        };
        assert(first_user(self@, email@, i as int));
        proof {
            assert forall|k: int| first_user(self@, email@, k) implies k == i as int by {
                if k < i {
                } else if k > i {
                }
            }
        }
        match check_password(old_password, self.users[i].password.as_str()) {
            Err(e) => {
                return Err(AppError::Bcrypt(bcrypt_message(&e)));
            },
            Ok(false) => {
                return Err(AppError::Auth("Invalid old password".to_owned()));
            },
            Ok(true) => {},
        }
        match hash_password(new_password) {
            Err(e) => Err(AppError::Bcrypt(bcrypt_message(&e))),
            Ok(h) => {
                let ghost hv = h@;
                self.users.set(i, User { email: email.to_owned(), password: h });
                assert(self@ =~= old(self)@.update(i as int, UserView { email: email@, hash: hv }));
                assert(first_user(self@, email@, i as int));
                Ok(())
            },
        }
    }
}

} // verus!
