//! The users and their credentials.
//!
//! A password is never stored: what is stored is its Argon2 hash, made with
//! a fresh random salt. The hash and the answer whether a password goes with
//! a stored hash are asked of `argon2` through the two trusted functions at
//! the end of this file.

use crate::table::{ids_in_order, lemma_push_keeps_ids};
use argon2::PasswordHasher;
use argon2::PasswordVerifier;
use password_hash::rand_core::RngCore;
use vstd::prelude::*;

verus! {

/// Whether `password` goes with the stored hash `stored`; `None` where
/// `stored` is not a password hash at all.
pub uninterp spec fn password_check(password: Seq<char>, stored: Seq<char>) -> Option<bool>;

/// The error of the password hashing library.
#[verifier::external_type_specification]
#[verifier::external_body]
pub struct ExPasswordHashError(password_hash::Error);

/// A stored user.
#[derive(Clone, Debug, PartialEq, Eq)]
pub struct User {
    pub id: i32,
    pub username: String,
    pub fullname: String,
    pub email: String,
    /// The hash of the password.
    pub password: String,
}

/// A user to be stored, with the password as it was typed.
#[derive(Clone, Debug, PartialEq, Eq)]
pub struct NewUser {
    pub username: String,
    pub fullname: String,
    pub email: String,
    pub password: String,
}

/// Why the user store did not do what was asked.
#[derive(Clone, Copy, Debug, PartialEq, Eq, Structural)]
pub enum UserError {
    /// The store is not open, or has no id left to give.
    Unavailable,
    /// The password could not be hashed.
    Hashing,
    /// What is stored as the user's credential is not a password hash.
    BadCredential,
    /// No user has the given name.
    UsernameNotFound,
}

/// The words in which an error of the user store is told.
pub open spec fn user_error_text(error: UserError) -> Seq<char> {
    match error {
        UserError::Unavailable => "Pool is not initialised"@,
        UserError::Hashing => "Error hashing password"@,
        UserError::BadCredential => "Stored credential is not a password hash"@,
        UserError::UsernameNotFound => "Username not found"@,
    }
}

impl UserError {
    /// The words in which this error is told.
    pub fn message(&self) -> (r: &'static str)
        ensures
            r@ == user_error_text(*self),
    {
        match self {
            UserError::Unavailable => "Pool is not initialised",
            UserError::Hashing => "Error hashing password",
            UserError::BadCredential => "Stored credential is not a password hash",
            UserError::UsernameNotFound => "Username not found",
        }
    }
}

/// What a [`UserDB`] holds.
pub ghost struct UsersView {
    pub open: bool,
    pub users: Seq<User>,
    pub next_user_id: int,
}

/// Whether a user of `users` has the name `username`.
pub open spec fn has_username(users: Seq<User>, username: Seq<char>) -> bool {
    exists|i: int| 0 <= i < users.len() && (#[trigger] users[i]).username@ == username
}

/// The stored credential of the first user named `username`, if there is one.
pub open spec fn credential_of(users: Seq<User>, username: Seq<char>) -> Option<Seq<char>>
    decreases users.len(),
{
    if users.len() == 0 {
        None
    } else if credential_of(users.drop_last(), username) is Some {
        credential_of(users.drop_last(), username)
    } else if users.last().username@ == username {
        Some(users.last().password@)
    } else {
        None
    }
}

/// The id of the first user named `username`, if there is one.
pub open spec fn user_id_of(users: Seq<User>, username: Seq<char>) -> Option<i32>
    decreases users.len(),
{
    if users.len() == 0 {
        None
    } else if user_id_of(users.drop_last(), username) is Some {
        user_id_of(users.drop_last(), username)
    } else if users.last().username@ == username {
        Some(users.last().id)
    } else {
        None
    }
}

/// Whom a name and a password let in: the user of that name whose stored
/// credential the password goes with.
pub open spec fn admitted(users: Seq<User>, username: Seq<char>, password: Seq<char>) -> Result<
    Option<i32>,
    UserError,
> {
    match credential_of(users, username) {
        None => Ok(None),
        Some(stored) => match password_check(password, stored) {
            Some(true) => Ok(user_id_of(users, username)),
            Some(false) => Ok(None),
            None => Err(UserError::BadCredential),
        },
    }
}

/// What the check of a name and a password comes to: whether the password
/// goes with the credential of the user of that name. It does not where no
/// user has the name; the check fails where the store is not open or what is
/// stored is no password hash.
pub open spec fn verified(users: UsersView, username: Seq<char>, password: Seq<char>) -> Result<
    bool,
    UserError,
> {
    if !users.open {
        Err(UserError::Unavailable)
    } else {
        match credential_of(users.users, username) {
            None => Ok(false),
            Some(stored) => match password_check(password, stored) {
                Some(matches) => Ok(matches),
                None => Err(UserError::BadCredential),
            },
        }
    }
}

/// The users with the credential `hashed` given to every user named
/// `username`.
pub open spec fn with_credential(
    users: Seq<User>,
    username: Seq<char>,
    hashed: String,
) -> Seq<User> {
    users.map_values(
        |user: User|
            if user.username@ == username {
                User {
                    id: user.id,
                    username: user.username,
                    fullname: user.fullname,
                    email: user.email,
                    password: hashed,
                }
            } else {
                user
            },
    )
}

impl UsersView {
    /// The ids count up and no two users have the same name.
    pub open spec fn wf(self) -> bool {
        &&& self.next_user_id <= i32::MAX
        &&& ids_in_order(self.users.map_values(|user: User| user.id as int), self.next_user_id)
        &&& forall|i: int, j: int|
            0 <= i < j < self.users.len() ==> self.users[i].username@ != self.users[j].username@
    }
}

/// A user has a credential exactly where a user has the name.
pub proof fn lemma_credential_of(users: Seq<User>, username: Seq<char>)
    ensures
        credential_of(users, username) is Some <==> has_username(users, username),
    decreases users.len(),
{
    if users.len() > 0 {
        let before = users.drop_last();
        lemma_credential_of(before, username);
        if has_username(before, username) {
            let i = choose|i: int|
                0 <= i < before.len() && (#[trigger] before[i]).username@ == username;
            assert(users[i].username@ == username);
        }
        if users.last().username@ == username {
            assert(users[users.len() - 1].username@ == username);
        }
        if has_username(users, username) {
            let i = choose|i: int|
                0 <= i < users.len() && (#[trigger] users[i]).username@ == username;
            if i < before.len() {
                assert(before[i].username@ == username);
            }
        }
    }
}

/// The user store.
pub struct UserDB {
    open: bool,
    users: Vec<User>,
    next_user_id: i32,
}

impl View for UserDB {
    type V = UsersView;

    closed spec fn view(&self) -> UsersView {
        UsersView { open: self.open, users: self.users@, next_user_id: self.next_user_id as int }
    }
}

impl UserDB {
    /// An empty store that is not yet open.
    pub fn new() -> (r: UserDB)
        ensures
            r@.wf(),
            !r@.open,
            r@.users.len() == 0,
            r@.next_user_id == 1,
    {
        UserDB { open: false, users: Vec::new(), next_user_id: 1 }
    }

    /// Opens the store.
    pub fn init(&mut self) -> (r: Result<(), UserError>)
        ensures
            r is Ok,
            final(self)@ == (UsersView { open: true, ..old(self)@ }),
    {
        self.open = true;
        Ok(())
    }

    /// The place of the first user named `username`.
    fn position(&self, username: &String) -> (r: Option<usize>)
        ensures
            r is Some <==> has_username(self@.users, username@),
            r matches Some(i) ==> i < self@.users.len() && self@.users[i as int].username@
                == username@ && credential_of(self@.users, username@) == Some(
                self@.users[i as int].password@,
            ) && user_id_of(self@.users, username@) == Some(self@.users[i as int].id),
            r is None ==> credential_of(self@.users, username@) is None,
    {
        let mut i: usize = 0;
        proof {
            assert(self.users@.take(0) =~= Seq::<User>::empty());
        }
        while i < self.users.len()
            invariant
                i <= self.users.len(),
                forall|k: int| 0 <= k < i ==> (#[trigger] self.users@[k]).username@ != username@,
                credential_of(self.users@.take(i as int), username@) is None,
                user_id_of(self.users@.take(i as int), username@) is None,
            decreases self.users.len() - i,
        {
            proof {
                assert(self.users@.take(i + 1).drop_last() =~= self.users@.take(i as int));
            }
            if self.users[i].username == *username {
                proof {
                    lemma_credential_prefix(self.users@, username@, i + 1);
                }
                return Some(i);
            }
            i = i + 1;
        }
        proof {
            assert(self.users@.take(i as int) =~= self.users@);
        }
        None
    }

    /// Whether a user has the name `username`.
    pub fn search_username(&self, username: String) -> (r: Result<bool, UserError>)
        ensures
            !self@.open ==> r == Err::<bool, UserError>(UserError::Unavailable),
            self@.open ==> r == Ok::<bool, UserError>(has_username(self@.users, username@)),
    {
        if !self.open {
            return Err(UserError::Unavailable);
        }
        Ok(self.position(&username).is_some())
    }

    /// The stored credential of the user named `username`, if there is one.
    pub fn get_password_by_username(&self, username: String) -> (r: Result<
        Option<String>,
        UserError,
    >)
        ensures
            !self@.open ==> r is Err && r->Err_0 == UserError::Unavailable,
            self@.open ==> r is Ok && match r->Ok_0 {
                Some(stored) => credential_of(self@.users, username@) == Some(stored@),
                None => credential_of(self@.users, username@) is None,
            },
    {
        if !self.open {
            return Err(UserError::Unavailable);
        }
        match self.position(&username) {
            Some(i) => Ok(Some(self.users[i].password.clone())),
            None => Ok(None),
        }
    }

    /// Stores `user` with `hashed` as the credential, unless the name is
    /// taken: `true` where the user was stored, `false` where a user of that
    /// name exists already.
    pub fn insert_user(&mut self, user: NewUser, hashed: String) -> (r: Result<bool, UserError>)
        requires
            old(self)@.wf(),
        ensures
            final(self)@.wf(),
            !old(self)@.open ==> r == Err::<bool, UserError>(UserError::Unavailable) && final(self)@
                == old(self)@,
            old(self)@.open && has_username(old(self)@.users, user.username@) ==> r == Ok::<
                bool,
                UserError,
            >(false) && final(self)@ == old(self)@,
            old(self)@.open && !has_username(old(self)@.users, user.username@) && old(
                self,
            )@.next_user_id == i32::MAX ==> r == Err::<bool, UserError>(UserError::Unavailable)
                && final(self)@ == old(self)@,
            old(self)@.open && !has_username(old(self)@.users, user.username@) && old(
                self,
            )@.next_user_id < i32::MAX ==> r == Ok::<bool, UserError>(true) && final(self)@
                == (UsersView {
                users: old(self)@.users.push(
                    User {
                        id: old(self)@.next_user_id as i32,
                        username: user.username,
                        fullname: user.fullname,
                        email: user.email,
                        password: hashed,
                    },
                ),
                next_user_id: old(self)@.next_user_id + 1,
                ..old(self)@
            }),
    {
        if !self.open {
            return Err(UserError::Unavailable);
        }
        if self.position(&user.username).is_some() {
            return Ok(false);
        }
        if self.next_user_id == i32::MAX {
            return Err(UserError::Unavailable);
        }
        let row = User {
            id: self.next_user_id,
            username: user.username,
            fullname: user.fullname,
            email: user.email,
            password: hashed,
        };
        proof {
            lemma_push_keeps_ids(
                self.users@,
                row,
                |user: User| user.id as int,
                self.next_user_id as int,
            );
            assert forall|i: int| 0 <= i < self.users@.len() implies (#[trigger] self.users@[i]).username@
                != row.username@ by {}
        }
        self.users.push(row);
        self.next_user_id = self.next_user_id + 1;
        Ok(true)
    }

    /// Registers `user`: hashes the password with a fresh salt and stores the
    /// user with the hash, unless the name is taken.
    ///
    /// Where the name is taken the answer is `false` and nothing is hashed.
    /// Otherwise the password is hashed; what is stored is then a user of the
    /// given name, full name and address whose credential is the hash, which
    /// is a credential that the password goes with.
    ///
    /// The store fails the call only where it is not open or has no id left
    /// for a new user; the one other failure is that of the hashing.
    pub fn add_user(&mut self, user: NewUser) -> (r: Result<bool, UserError>)
        requires
            old(self)@.wf(),
        ensures
            final(self)@.wf(),
            !old(self)@.open ==> r == Err::<bool, UserError>(UserError::Unavailable),
            old(self)@.open && has_username(old(self)@.users, user.username@) ==> r == Ok::<
                bool,
                UserError,
            >(false),
            old(self)@.open && !has_username(old(self)@.users, user.username@) && old(
                self,
            )@.next_user_id == i32::MAX ==> r == Err::<bool, UserError>(UserError::Unavailable),
            old(self)@.open && !has_username(old(self)@.users, user.username@) && old(
                self,
            )@.next_user_id < i32::MAX ==> r == Ok::<bool, UserError>(true) || r == Err::<
                bool,
                UserError,
            >(UserError::Hashing),
            r == Err::<bool, UserError>(UserError::Unavailable) ==> !old(self)@.open || (
            !has_username(old(self)@.users, user.username@) && old(self)@.next_user_id
                == i32::MAX),
            r == Ok::<bool, UserError>(false) ==> old(self)@.open && has_username(
                old(self)@.users,
                user.username@,
            ),
            r == Ok::<bool, UserError>(false) || r is Err ==> final(self)@ == old(self)@,
            r == Ok::<bool, UserError>(true) ==> {
                &&& final(self)@.users.len() == old(self)@.users.len() + 1
                &&& final(self)@.users.last().id == old(self)@.next_user_id
                &&& final(self)@.users.last().username == user.username
                &&& final(self)@.users.last().fullname == user.fullname
                &&& final(self)@.users.last().email == user.email
                &&& password_check(user.password@, final(self)@.users.last().password@) == Some(
                    true,
                )
                &&& final(self)@ == (UsersView {
                    users: old(self)@.users.push(final(self)@.users.last()),
                    next_user_id: old(self)@.next_user_id + 1,
                    ..old(self)@
                })
            },
    {
        if !self.open {
            return Err(UserError::Unavailable);
        }
        if self.position(&user.username).is_some() {
            return Ok(false);
        }
        if self.next_user_id == i32::MAX {
            return Err(UserError::Unavailable);
        }
        match new_credential(user.password.as_str()) {
            Ok(hashed) => self.insert_user(user, hashed),
            Err(_) => Err(UserError::Hashing),
        }
    }

    /// The id of the user named `username` whose password `password` is;
    /// `None` where no user has that name or the password is another.
    pub fn authenticate(&self, username: String, password: String) -> (r: Result<
        Option<i32>,
        UserError,
    >)
        ensures
            !self@.open ==> r == Err::<Option<i32>, UserError>(UserError::Unavailable),
            self@.open ==> r == admitted(self@.users, username@, password@),
    {
        if !self.open {
            return Err(UserError::Unavailable);
        }
        let place = match self.position(&username) {
            Some(place) => place,
            None => {
                return Ok(None);
            },
        };
        match check_password(password.as_str(), self.users[place].password.as_str()) {
            Some(true) => Ok(Some(self.users[place].id)),
            Some(false) => Ok(None),
            None => Err(UserError::BadCredential),
        }
    }

    /// Whether `password` is the password of the user named `username`.
    ///
    /// It is not where no user has that name. Where the stored credential is
    /// not a password hash, the check fails with an error.
    pub fn verify_password(&self, username: String, password: String) -> (r: Result<
        bool,
        UserError,
    >)
        ensures
            r == verified(self@, username@, password@),
    {
        let stored = match self.get_password_by_username(username) {
            Ok(Some(stored)) => stored,
            Ok(None) => {
                return Ok(false);
            },
            Err(_) => {
                return Err(UserError::Unavailable);
            },
        };
        credential_outcome(check_password(password.as_str(), stored.as_str()))
    }

    /// Gives the user named `username` the credential `hashed`.
    pub fn set_credential(&mut self, username: String, hashed: String) -> (r: Result<
        (),
        UserError,
    >)
        requires
            old(self)@.wf(),
        ensures
            final(self)@.wf(),
            !old(self)@.open ==> r == Err::<(), UserError>(UserError::Unavailable) && final(self)@
                == old(self)@,
            old(self)@.open && !has_username(old(self)@.users, username@) ==> r == Err::<
                (),
                UserError,
            >(UserError::UsernameNotFound) && final(self)@ == old(self)@,
            old(self)@.open && has_username(old(self)@.users, username@) ==> r == Ok::<
                (),
                UserError,
            >(()) && final(self)@ == (UsersView {
                users: with_credential(old(self)@.users, username@, hashed),
                ..old(self)@
            }),
    {
        if !self.open {
            return Err(UserError::Unavailable);
        }
        let ghost users = self.users@;
        let ghost change = |user: User|
            if user.username@ == username@ {
                User {
                    id: user.id,
                    username: user.username,
                    fullname: user.fullname,
                    email: user.email,
                    password: hashed,
                }
            } else {
                user
            };
        let mut changed: Vec<User> = Vec::new();
        let mut found: bool = false;
        let mut i: usize = 0;
        while i < self.users.len()
            invariant
                i <= self.users.len(),
                self.users@ == users,
                change == |user: User|
                    if user.username@ == username@ {
                        User {
                            id: user.id,
                            username: user.username,
                            fullname: user.fullname,
                            email: user.email,
                            password: hashed,
                        }
                    } else {
                        user
                    },
                changed@ == users.take(i as int).map_values(change),
                found <==> has_username(users.take(i as int), username@),
                !found ==> changed@ == users.take(i as int),
            decreases self.users.len() - i,
        {
            let user = &self.users[i];
            let is_named: bool = user.username == username;
            let password = if is_named {
                hashed.clone()
            } else {
                user.password.clone()
            };
            changed.push(
                User {
                    id: user.id,
                    username: user.username.clone(),
                    fullname: user.fullname.clone(),
                    email: user.email.clone(),
                    password,
                },
            );
            proof {
                assert(users.take(i + 1).map_values(change) =~= users.take(i as int).map_values(
                    change,
                ).push(change(users[i as int])));
                assert(users.take(i + 1) =~= users.take(i as int).push(users[i as int]));
                if has_username(users.take(i as int), username@) {
                    let k = choose|k: int|
                        0 <= k < i && (#[trigger] users.take(i as int)[k]).username@ == username@;
                    assert(users.take(i + 1)[k].username@ == username@);
                }
                if is_named {
                    assert(users.take(i + 1)[i as int].username@ == username@);
                }
                if has_username(users.take(i + 1), username@) && !is_named {
                    let k = choose|k: int|
                        0 <= k < i + 1 && (#[trigger] users.take(i + 1)[k]).username@ == username@;
                    assert(users.take(i as int)[k].username@ == username@);
                }
            }
            found = found || is_named;
            i = i + 1;
        }
        proof {
            assert(users.take(i as int) =~= users);
            assert(changed@.map_values(|user: User| user.id as int) =~= users.map_values(
                |user: User| user.id as int,
            ));
            assert forall|a: int, b: int| 0 <= a < b < changed@.len() implies changed@[a].username@
                != changed@[b].username@ by {
                assert(changed@[a].username == users[a].username);
                assert(changed@[b].username == users[b].username);
            }
        }
        self.users = changed;
        if found {
            Ok(())
        } else {
            Err(UserError::UsernameNotFound)
        }
    }

    /// Gives the user named `username` the new password `password`, hashed
    /// with a fresh salt: the new credential is one that `password` goes
    /// with.
    ///
    /// The password is hashed first. Where that works, the change succeeds
    /// exactly where a user has the name; a name that no user has is told as
    /// such and changes nothing.
    pub fn update_password(&mut self, username: String, password: String) -> (r: Result<
        (),
        UserError,
    >)
        requires
            old(self)@.wf(),
        ensures
            final(self)@.wf(),
            !old(self)@.open ==> r == Err::<(), UserError>(UserError::Unavailable),
            old(self)@.open && has_username(old(self)@.users, username@) ==> r is Ok || r == Err::<
                (),
                UserError,
            >(UserError::Hashing),
            old(self)@.open && !has_username(old(self)@.users, username@) ==> r == Err::<
                (),
                UserError,
            >(UserError::UsernameNotFound) || r == Err::<(), UserError>(UserError::Hashing),
            r == Err::<(), UserError>(UserError::Unavailable) ==> !old(self)@.open,
            r == Err::<(), UserError>(UserError::UsernameNotFound) ==> old(self)@.open
                && !has_username(old(self)@.users, username@),
            r is Err ==> final(self)@ == old(self)@,
            r is Ok ==> exists|hashed: String|
                password_check(password@, hashed@) == Some(true) && final(self)@ == (UsersView {
                    users: #[trigger] with_credential(old(self)@.users, username@, hashed),
                    ..old(self)@
                }),
    {
        if !self.open {
            return Err(UserError::Unavailable);
        }
        match new_credential(password.as_str()) {
            Ok(hashed) => self.set_credential(username, hashed),
            Err(_) => Err(UserError::Hashing),
        }
    }
}

/// The credential to store for `password`: its hash, made with a fresh salt.
/// Two calls for one password give two credentials; each of them is a
/// credential that `password` goes with. The only failure is that of the
/// hashing.
pub fn new_credential(password: &str) -> (r: Result<String, UserError>)
    ensures
        r matches Ok(hashed) ==> password_check(password@, hashed@) == Some(true),
        r matches Err(error) ==> error == UserError::Hashing,
{
    credential_from(hash_password(password))
}

/// What the hashing of a password comes to: the hash as the credential, or
/// the failure of the hashing.
pub fn credential_from(hashed: Result<String, password_hash::Error>) -> (r: Result<
    String,
    UserError,
>)
    ensures
        match hashed {
            Ok(hash) => r == Ok::<String, UserError>(hash),
            Err(_) => r == Err::<String, UserError>(UserError::Hashing),
        },
{
    match hashed {
        Ok(hash) => Ok(hash),
        Err(_) => Err(UserError::Hashing),
    }
}

/// What a check of a password against a stored credential comes to.
pub fn credential_outcome(checked: Option<bool>) -> (r: Result<bool, UserError>)
    ensures
        r == match checked {
            Some(matches) => Ok::<bool, UserError>(matches),
            None => Err::<bool, UserError>(UserError::BadCredential),
        },
{
    match checked {
        Some(matches) => Ok(matches),
        None => Err(UserError::BadCredential),
    }
}

/// Where the `n`th user is the first of the name, the credential and the id
/// of the name are that user's.
proof fn lemma_credential_prefix(users: Seq<User>, username: Seq<char>, n: int)
    requires
        0 < n <= users.len(),
        users[n - 1].username@ == username,
        credential_of(users.take(n - 1), username) is None,
        user_id_of(users.take(n - 1), username) is None,
    ensures
        credential_of(users, username) == Some(users[n - 1].password@),
        user_id_of(users, username) == Some(users[n - 1].id),
{
    assert(users.take(n).drop_last() =~= users.take(n - 1));
    assert(credential_of(users.take(n), username) == Some(users[n - 1].password@));
    assert(user_id_of(users.take(n), username) == Some(users[n - 1].id));
    lemma_credential_grows(users, username, n);
}

/// A credential and an id found among the first `n` users are those found
/// among all.
proof fn lemma_credential_grows(users: Seq<User>, username: Seq<char>, n: int)
    requires
        0 <= n <= users.len(),
        credential_of(users.take(n), username) is Some,
        user_id_of(users.take(n), username) is Some,
    ensures
        credential_of(users, username) == credential_of(users.take(n), username),
        user_id_of(users, username) == user_id_of(users.take(n), username),
    decreases users.len() - n,
{
    if n < users.len() {
        assert(users.take(n + 1).drop_last() =~= users.take(n));
        lemma_credential_grows(users, username, n + 1);
    } else {
        assert(users.take(n) =~= users);
    }
}

/// Whether `password` goes with the stored hash; `None` where the stored
/// text is no password hash.
pub fn check_password(password: &str, stored: &str) -> (r: Option<bool>)
    ensures
        r == password_check(password@, stored@),
{
    match argon2_verify(password, stored) {
        Ok(matches) => Some(matches),
        Err(_) => None,
    }
}

/// `argon2::Argon2::hash_password` with the default parameters and a salt
/// that `password_hash::SaltString::encode_b64` makes of bytes from
/// `rand_core::RngCore::try_fill_bytes` on the system's random source,
/// written out as a PHC string. A random source that fails makes the call
/// fail. The salt is new at every call, so the hash is not named. Whatever
/// the salt, the hash is one that `argon2::Argon2::verify_password` accepts
/// for the same password: the check hashes the password again with the salt
/// and the parameters that the PHC string holds and compares.
#[verifier::external_body]
fn hash_password(password: &str) -> (r: Result<String, password_hash::Error>)
    ensures
        r matches Ok(hashed) ==> password_check(password@, hashed@) == Some(true),
{
    let mut bytes = [0u8; password_hash::Salt::RECOMMENDED_LENGTH];
    if password_hash::rand_core::OsRng.try_fill_bytes(&mut bytes).is_err() {
        return Err(password_hash::Error::Crypto);
    }
    let salt = password_hash::SaltString::encode_b64(&bytes)?;
    argon2::Argon2::default().hash_password(password.as_bytes(), &salt).map(|hash| hash.to_string())
}

/// `password_hash::PasswordHash::new` on the stored text, then
/// `argon2::Argon2::verify_password` with the default parameters: an error
/// where the stored text is not a PHC string, otherwise whether the password
/// hashes to what is stored. Both depend on the two texts alone.
#[verifier::external_body]
fn argon2_verify(password: &str, stored: &str) -> (r: Result<bool, password_hash::Error>)
    ensures
        r is Ok <==> password_check(password@, stored@) is Some,
        r matches Ok(matches) ==> password_check(password@, stored@) == Some(matches),
{
    let parsed = password_hash::PasswordHash::new(stored)?;
    Ok(argon2::Argon2::default().verify_password(password.as_bytes(), &parsed).is_ok())
}

} // verus!
