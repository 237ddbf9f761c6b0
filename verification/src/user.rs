//! The user store: an ordered collection of accounts with
//! registration, authentication and two patch operations. Emails and
//! identifiers are unique within the collection, password digests are
//! never handed out, and every validation runs before any field is
//! mutated, so no error path leaves a half-changed account.

use vstd::prelude::*;
use vstd::pervasive::VecAdditionalExecFns;
use crate::error::StoreError;
use crate::trusted::{
    digest_matches, digest_wf, generate_id, hash_password, now_millis, verify_password,
    within_hash_limit,
};
use crate::validate::{
    blank, is_email_valid, is_not_empty, password_len_ok, valid_email, verify_and_match_password,
};

verus! {

/// One account. `password` holds the digest, never the plaintext the
/// caller registered with. Stamps are milliseconds since the Unix
/// epoch as the store's monotonic clock reports them.
pub struct User {
    pub id: String,
    pub first_name: String,
    pub last_name: String,
    pub email: String,
    pub password: String,
    pub created_at: u64,
    pub update_at: u64,
}

impl Clone for User {
    fn clone(&self) -> (r: Self)
        ensures
            r == *self,
    {
        User {
            id: self.id.clone(),
            first_name: self.first_name.clone(),
            last_name: self.last_name.clone(),
            email: self.email.clone(),
            password: self.password.clone(),
            created_at: self.created_at,
            update_at: self.update_at,
        }
    }
}

/// The payload of a registration request.
pub struct CreateUser {
    pub first_name: String,
    pub last_name: String,
    pub email: String,
    pub password: String,
    pub confirm_password: String,
}

/// The payload of an account-info patch: absent fields are left
/// unchanged.
pub struct UpdateUserInfo {
    pub first_name: Option<String>,
    pub last_name: Option<String>,
    pub email: Option<String>,
}

/// The payload of a password change.
pub struct UpdateUserPassword {
    pub current_password: String,
    pub new_password: String,
    pub confirm_password: String,
}

/// The credentials of a login attempt.
pub struct LogInUser {
    pub email: String,
    pub password: String,
}

/// The projection returned on login and info updates (no digest, no
/// stamps).
pub struct UserLoginResponse {
    pub id: String,
    pub first_name: String,
    pub last_name: String,
    pub email: String,
}

/// The projection returned on registration (no digest).
pub struct CreateUserResponse {
    pub id: String,
    pub first_name: String,
    pub last_name: String,
    pub email: String,
    pub created_at: u64,
}

/// Whether some account carries the email `e`.
pub open spec fn has_email(s: Seq<User>, e: Seq<char>) -> bool {
    exists|i: int| 0 <= i < s.len() && s[i].email@ == e
}

/// Whether some account other than the one at `except` carries `e`.
pub open spec fn email_taken_by_other(s: Seq<User>, e: Seq<char>, except: int) -> bool {
    exists|i: int| 0 <= i < s.len() && i != except && s[i].email@ == e
}

/// Whether some account carries the identifier `id`.
pub open spec fn has_user_id(s: Seq<User>, id: Seq<char>) -> bool {
    exists|i: int| 0 <= i < s.len() && s[i].id@ == id
}

/// The index of the account carrying `e` (unique in a well-formed
/// store).
pub open spec fn first_with_email(s: Seq<User>, e: Seq<char>) -> int {
    choose|i: int| 0 <= i < s.len() && s[i].email@ == e
}

/// The index of the account carrying `id` (unique in a well-formed
/// store).
pub open spec fn first_with_user_id(s: Seq<User>, id: Seq<char>) -> int {
    choose|i: int| 0 <= i < s.len() && s[i].id@ == id
}

/// Identifiers are pairwise distinct.
pub open spec fn distinct_user_ids(s: Seq<User>) -> bool {
    forall|i: int, j: int| 0 <= i < j < s.len() ==> s[i].id@ != s[j].id@
}

/// At most one account per email value at any time.
pub open spec fn distinct_emails(s: Seq<User>) -> bool {
    forall|i: int, j: int| 0 <= i < j < s.len() ==> s[i].email@ != s[j].email@
}

/// Every stamp is consistent and no stamp exceeds the store's clock.
pub open spec fn user_stamps_ok(s: Seq<User>, clock: u64) -> bool {
    forall|i: int|
        0 <= i < s.len() ==> (#[trigger] s[i]).created_at <= s[i].update_at && s[i].update_at
            <= clock
}

/// A registration payload that passes every field-level rule.
pub open spec fn registration_valid(f: &CreateUser) -> bool {
    &&& !blank(f.first_name@)
    &&& !blank(f.last_name@)
    &&& valid_email(f.email@)
    &&& password_len_ok(f.password@)
    &&& f.password@ == f.confirm_password@
}

/// In a collection with distinct identifiers, an account's index is
/// the one `first_with_user_id` picks.
proof fn lemma_uid_index_is_first(s: Seq<User>, id: Seq<char>, i: int)
    requires
        distinct_user_ids(s),
        0 <= i < s.len(),
        s[i].id@ == id,
    ensures
        first_with_user_id(s, id) == i,
{
    let j = first_with_user_id(s, id);
    assert(0 <= j < s.len() && s[j].id@ == id);
    if i < j {
        assert(s[i].id@ != s[j].id@);
    } else if j < i {
        assert(s[j].id@ != s[i].id@);
    }
}

/// In a collection with distinct emails, an account's index is the one
/// `first_with_email` picks.
proof fn lemma_email_index_is_first(s: Seq<User>, e: Seq<char>, i: int)
    requires
        distinct_emails(s),
        0 <= i < s.len(),
        s[i].email@ == e,
    ensures
        first_with_email(s, e) == i,
{
    let j = first_with_email(s, e);
    assert(0 <= j < s.len() && s[j].email@ == e);
    if i < j {
        assert(s[i].email@ != s[j].email@);
    } else if j < i {
        assert(s[j].email@ != s[i].email@);
    }
}

/// The state-free pre-checks of a password change: the new password
/// must differ from the current one and must satisfy the registration
/// policy with its confirmation. `change_password` runs these; a
/// caller splitting the operation around its lock runs them here
/// first.
pub fn check_new_password(
    current_password: &String,
    new_password: &String,
    confirm_password: &String,
) -> (r: Result<(), StoreError>)
    ensures
        r is Ok <==> new_password@ != current_password@ && password_len_ok(new_password@)
            && new_password@ == confirm_password@,
        new_password@ == current_password@ ==> (r matches Err(e) && e matches
            StoreError::Unauthorized(m) && m@ == "Old password and new password cannot be same"@),
        new_password@ != current_password@ && !password_len_ok(new_password@) ==> (r matches Err(e)
            && e matches StoreError::Validation(m) && m@
            == "Password should have characters between 6 to 12"@),
        new_password@ != current_password@ && password_len_ok(new_password@) && new_password@
            != confirm_password@ ==> (r matches Err(e) && e matches StoreError::Validation(m) && m@
            == "Password don't match"@),
{
    if *new_password == *current_password {
        return Err(
            StoreError::Unauthorized("Old password and new password cannot be same".to_owned()),
        );
    }
    match verify_and_match_password(new_password.as_str(), confirm_password.as_str()) {
        Ok(()) => Ok(()),
        Err(m) => Err(StoreError::Validation(m)),
    }
}

/// The user store. All operations are total over its state; a caller
/// sharing it between threads performs each call under one lock.
pub struct UserStore {
    pub users: Vec<User>,
    pub clock: u64,
}

impl UserStore {
    /// The store's invariant: identifiers and emails unique within the
    /// collection, and every account created no later than it was
    /// updated, no later than the store's clock.
    pub open spec fn wf(&self) -> bool {
        &&& distinct_user_ids(self.users@)
        &&& distinct_emails(self.users@)
        &&& user_stamps_ok(self.users@, self.clock)
    }

    /// An empty store.
    pub fn new() -> (r: UserStore)
        ensures
            r.wf(),
            r.users@.len() == 0,
            r.clock == 0,
    {
        UserStore { users: Vec::new(), clock: 0 }
    }

    /// Advances the clock past every stamp handed out so far, to the
    /// current time where the time has moved on. `None` only when the
    /// counter is exhausted, in which case nothing changes.
    fn advance(&mut self) -> (r: Option<u64>)
        ensures
            final(self).users == old(self).users,
            r matches Some(t) ==> t == final(self).clock && old(self).clock < t,
            r is None ==> final(self).clock == old(self).clock,
            r is Some <==> old(self).clock < u64::MAX,
    {
        if self.clock == u64::MAX {
            return None;
        }
        let now_raw = now_millis();
        let now: u64 = if now_raw > 0 {
            now_raw as u64
        } else {
            0
        };
        let t: u64 = if now > self.clock {
            now
        } else {
            self.clock + 1
        };
        self.clock = t;
        Some(t)
    }

    /// The index of the account carrying `email`, if any.
    fn find_email_index(users: &Vec<User>, email: &String) -> (r: Option<usize>)
        ensures
            r matches Some(i) ==> 0 <= i < users@.len() && users@[i as int].email@ == email@,
            r is None ==> !has_email(users@, email@),
    {
        let mut i: usize = 0;
        while i < users.len()
            invariant
                0 <= i <= users@.len(),
                forall|k: int| 0 <= k < i ==> users@[k].email@ != email@,
            decreases users@.len() - i,
        {
            if users[i].email == *email {
                return Some(i);
            }
            i = i + 1;
        }
        None
    }

    /// The index of the account carrying `id`, if any.
    fn find_id_index(users: &Vec<User>, id: &String) -> (r: Option<usize>)
        ensures
            r matches Some(i) ==> 0 <= i < users@.len() && users@[i as int].id@ == id@,
            r is None ==> !has_user_id(users@, id@),
    {
        let mut i: usize = 0;
        while i < users.len()
            invariant
                0 <= i <= users@.len(),
                forall|k: int| 0 <= k < i ==> users@[k].id@ != id@,
            decreases users@.len() - i,
    {
            if users[i].id == *id {
                return Some(i);
            }
            i = i + 1;
        }
        None
    }

    /// Whether an account other than the one at `except` carries
    /// `email`.
    fn email_used_elsewhere(users: &Vec<User>, email: &String, except: usize) -> (r: bool)
        ensures
            r == email_taken_by_other(users@, email@, except as int),
    {
        let mut i: usize = 0;
        while i < users.len()
            invariant
                0 <= i <= users@.len(),
                forall|k: int| 0 <= k < i && k != except ==> users@[k].email@ != email@,
            decreases users@.len() - i,
        {
            if i != except && users[i].email == *email {
                return true;
            }
            i = i + 1;
        }
        false
    }

    /// The account carrying `email`, cloned, if any: the lookup half of
    /// authentication. A caller holding the store behind a lock clones
    /// the match under the lock and verifies the password outside it.
    pub fn find_by_email(&self, email: &String) -> (r: Option<User>)
        requires
            self.wf(),
        ensures
            r is Some <==> has_email(self.users@, email@),
            r matches Some(u) ==> u == self.users@[first_with_email(self.users@, email@)],
    {
        match Self::find_email_index(&self.users, email) {
            Some(i) => {
                proof {
                    lemma_email_index_is_first(self.users@, email@, i as int);
                }
                Some(self.users[i].clone())
            },
            None => None,
        }
    }

    /// The account carrying `id`, cloned, if any: the lookup half of a
    /// password change split around the caller's lock.
    pub fn find_by_id(&self, id: &String) -> (r: Option<User>)
        requires
            self.wf(),
        ensures
            r is Some <==> has_user_id(self.users@, id@),
            r matches Some(u) ==> u == self.users@[first_with_user_id(self.users@, id@)],
    {
        match Self::find_id_index(&self.users, id) {
            Some(i) => {
                proof {
                    lemma_uid_index_is_first(self.users@, id@, i as int);
                }
                Some(self.users[i].clone())
            },
            None => None,
        }
    }

    /// The under-the-lock half of registration: refuses a taken email
    /// (Conflict) before anything else, then appends an account built
    /// from already-validated fields and an already-computed digest.
    /// Succeeds exactly when the email and identifier are fresh and
    /// the clock not exhausted; any failure leaves the store as it
    /// was.
    pub fn insert_user(
        &mut self,
        first_name: String,
        last_name: String,
        email: String,
        digest: String,
        id: String,
    ) -> (r: Result<CreateUserResponse, StoreError>)
        requires
            old(self).wf(),
        ensures
            final(self).wf(),
            r is Ok <==> !has_email(old(self).users@, email@) && !has_user_id(
                old(self).users@,
                id@,
            ) && old(self).clock < u64::MAX,
            has_email(old(self).users@, email@) ==> (r matches Err(e) && e matches
                StoreError::Conflict(m) && m@ == "Email already used"@),
            !has_email(old(self).users@, email@) && !(!has_user_id(old(self).users@, id@) && old(
                self,
            ).clock < u64::MAX) ==> (r matches Err(e) && e matches StoreError::Internal(_)),
            r is Err ==> final(self).users@ == old(self).users@ && final(self).clock == old(
                self,
            ).clock,
            r matches Ok(resp) ==> ({
                let u = final(self).users@.last();
                &&& final(self).users@ == old(self).users@.push(u)
                &&& u.id@ == id@
                &&& u.first_name@ == first_name@
                &&& u.last_name@ == last_name@
                &&& u.email@ == email@
                &&& u.password@ == digest@
                &&& u.created_at == final(self).clock
                &&& u.update_at == final(self).clock
                &&& old(self).clock < final(self).clock
                &&& resp.id@ == id@
                &&& resp.first_name@ == first_name@
                &&& resp.last_name@ == last_name@
                &&& resp.email@ == email@
                &&& resp.created_at == final(self).clock
            }),
    {
        match Self::find_email_index(&self.users, &email) {
            Some(_) => {
                return Err(StoreError::Conflict("Email already used".to_owned()));
            },
            None => {},
        }
        match Self::find_id_index(&self.users, &id) {
            Some(_) => {
                return Err(StoreError::Internal("Duplicate id generated".to_owned()));
            },
            None => {},
        }
        let t = match self.advance() {
            Some(t) => t,
            None => {
                return Err(StoreError::Internal("Stamp counter exhausted".to_owned()));
            },
        };
        let user = User {
            id: id.clone(),
            first_name: first_name.clone(),
            last_name: last_name.clone(),
            email: email.clone(),
            password: digest,
            created_at: t,
            update_at: t,
        };
        self.users.push(user);
        Ok(CreateUserResponse { id, first_name, last_name, email, created_at: t })
    }

    /// Registers an account: validates each field in order (first
    /// name, last name, email shape, password policy), computes the
    /// digest, then checks email uniqueness and appends. A taken email
    /// is a Conflict; digest or identifier trouble is internal. No
    /// failure changes the store, and the stored account carries a
    /// digest of the registered password, never the plaintext.
    pub fn register(&mut self, fields: CreateUser) -> (r: Result<CreateUserResponse, StoreError>)
        requires
            old(self).wf(),
        ensures
            final(self).wf(),
            r is Err ==> final(self).users@ == old(self).users@ && final(self).clock == old(
                self,
            ).clock,
            blank(fields.first_name@) ==> (r matches Err(e) && e matches StoreError::Validation(m)
                && m@ == "Firstname cannot be empty"@),
            !blank(fields.first_name@) && blank(fields.last_name@) ==> (r matches Err(e) && e
                matches StoreError::Validation(m) && m@ == "Lastname cannot be empty"@),
            !blank(fields.first_name@) && !blank(fields.last_name@) && !valid_email(fields.email@)
                ==> (r matches Err(e) && e matches StoreError::Validation(m) && m@
                == "Invalid email format"@),
            !blank(fields.first_name@) && !blank(fields.last_name@) && valid_email(fields.email@)
                && !password_len_ok(fields.password@) ==> (r matches Err(e) && e matches
                StoreError::Validation(m) && m@ == "Password should have characters between 6 to 12"@),
            !blank(fields.first_name@) && !blank(fields.last_name@) && valid_email(fields.email@)
                && password_len_ok(fields.password@) && fields.password@
                != fields.confirm_password@ ==> (r matches Err(e) && e matches
                StoreError::Validation(m) && m@ == "Password don't match"@),
            registration_valid(&fields) && has_email(old(self).users@, fields.email@) ==> (r
                matches Err(e) && (e matches StoreError::Conflict(m) ==> m@
                == "Email already used"@) && (e matches StoreError::Conflict(_) || e matches
                StoreError::Internal(_))),
            registration_valid(&fields) && !has_email(old(self).users@, fields.email@) ==> (r is Ok
                || (r matches Err(e) && e matches StoreError::Internal(_))),
            r matches Ok(resp) ==> ({
                let u = final(self).users@.last();
                &&& registration_valid(&fields)
                &&& !has_email(old(self).users@, fields.email@)
                &&& !has_user_id(old(self).users@, resp.id@)
                &&& final(self).users@ == old(self).users@.push(u)
                &&& u.id@ == resp.id@
                &&& u.first_name@ == fields.first_name@
                &&& u.last_name@ == fields.last_name@
                &&& u.email@ == fields.email@
                &&& digest_matches(fields.password@, u.password@)
                &&& digest_wf(u.password@)
                &&& u.created_at == final(self).clock
                &&& u.update_at == final(self).clock
                &&& old(self).clock < final(self).clock
                &&& resp.first_name@ == fields.first_name@
                &&& resp.last_name@ == fields.last_name@
                &&& resp.email@ == fields.email@
                &&& resp.created_at == final(self).clock
            }),
    {
        let CreateUser { first_name, last_name, email, password, confirm_password } = fields;
        if !is_not_empty(first_name.as_str()) {
            return Err(StoreError::Validation("Firstname cannot be empty".to_owned()));
        }
        if !is_not_empty(last_name.as_str()) {
            return Err(StoreError::Validation("Lastname cannot be empty".to_owned()));
        }
        if !is_email_valid(email.as_str()) {
            return Err(StoreError::Validation("Invalid email format".to_owned()));
        }
        match verify_and_match_password(password.as_str(), confirm_password.as_str()) {
            Ok(()) => {},
            Err(m) => {
                return Err(StoreError::Validation(m));
            },
        }
        let digest = match hash_password(password.as_str()) {
            Ok(d) => d,
            Err(_) => {
                return Err(StoreError::Internal("Password hashing failed".to_owned()));
            },
        };
        let id = generate_id();
        self.insert_user(first_name, last_name, email, digest, id)
    }

    /// Authenticates by email and password. Both rejection paths — an
    /// unknown email and a wrong password — answer Unauthorized with
    /// one and the same message, so the response never reveals which
    /// factor was wrong.
    pub fn login(&self, credentials: LogInUser) -> (r: Result<UserLoginResponse, StoreError>)
        requires
            self.wf(),
        ensures
            r matches Err(e) ==> (e matches StoreError::Unauthorized(m) ==> m@
                == "Invalid email or password"@),
            !has_email(self.users@, credentials.email@) ==> (r matches Err(e) && e matches
                StoreError::Unauthorized(_)),
            r matches Err(e) ==> (e matches StoreError::Unauthorized(_) || e matches
                StoreError::Internal(_)),
            r matches Ok(resp) ==> ({
                let i = first_with_email(self.users@, credentials.email@);
                &&& has_email(self.users@, credentials.email@)
                &&& 0 <= i < self.users@.len()
                &&& digest_matches(credentials.password@, self.users@[i].password@)
                &&& resp.id@ == self.users@[i].id@
                &&& resp.first_name@ == self.users@[i].first_name@
                &&& resp.last_name@ == self.users@[i].last_name@
                &&& resp.email@ == self.users@[i].email@
            }),
            has_email(self.users@, credentials.email@) && (r matches Err(e) && e matches
                StoreError::Unauthorized(_)) ==> !digest_matches(
                credentials.password@,
                self.users@[first_with_email(self.users@, credentials.email@)].password@,
            ),
            ({
                let stored = self.users@[first_with_email(
                    self.users@,
                    credentials.email@,
                )].password@;
                has_email(self.users@, credentials.email@) && digest_wf(stored)
                    && within_hash_limit(credentials.password@) && digest_matches(
                    credentials.password@,
                    stored,
                )
            }) ==> r is Ok,
            ({
                let stored = self.users@[first_with_email(
                    self.users@,
                    credentials.email@,
                )].password@;
                has_email(self.users@, credentials.email@) && digest_wf(stored)
                    && within_hash_limit(credentials.password@) && !digest_matches(
                    credentials.password@,
                    stored,
                )
            }) ==> (r matches Err(e) && e matches StoreError::Unauthorized(_)),
    {
        let i = match Self::find_email_index(&self.users, &credentials.email) {
            Some(i) => i,
            None => {
                return Err(StoreError::Unauthorized("Invalid email or password".to_owned()));
            },
        };
        proof {
            lemma_email_index_is_first(self.users@, credentials.email@, i as int);
        }
        let user = self.users[i].clone();
        let matched = match verify_password(credentials.password.as_str(), user.password.as_str()) {
            Ok(b) => b,
            Err(_) => {
                return Err(StoreError::Internal("Password verification error".to_owned()));
            },
        };
        if matched {
            Ok(UserLoginResponse {
                id: user.id,
                first_name: user.first_name,
                last_name: user.last_name,
                email: user.email,
            })
        } else {
            Err(StoreError::Unauthorized("Invalid email or password".to_owned()))
        }
    }

    /// Applies an info patch to the account carrying `id`: every
    /// present field is validated first (email shape, email uniqueness
    /// against other accounts, names non-blank), and only then are all
    /// present fields applied together with a fresh `update_at`, so no
    /// error path leaves a half-changed account.
    pub fn update_info(&mut self, id: &String, patch: UpdateUserInfo) -> (r: Result<
        UserLoginResponse,
        StoreError,
    >)
        requires
            old(self).wf(),
        ensures
            final(self).wf(),
            r is Err ==> final(self).users@ == old(self).users@ && final(self).clock == old(
                self,
            ).clock,
            !has_user_id(old(self).users@, id@) ==> (r matches Err(e) && e matches
                StoreError::NotFound(m) && m@ == "User not found"@),
            has_user_id(old(self).users@, id@) && (patch.email matches Some(em) && !valid_email(
                em@,
            )) ==> (r matches Err(e) && e matches StoreError::Validation(m) && m@
                == "Invalid email format."@),
            ({
                let i = first_with_user_id(old(self).users@, id@);
                has_user_id(old(self).users@, id@) && (patch.email matches Some(em) && valid_email(
                    em@,
                ) && email_taken_by_other(old(self).users@, em@, i))
            }) ==> (r matches Err(e) && e matches StoreError::Conflict(m) && m@
                == "Email already in use by another user."@),
            ({
                let i = first_with_user_id(old(self).users@, id@);
                &&& has_user_id(old(self).users@, id@)
                &&& (patch.email matches Some(em) ==> valid_email(em@) && !email_taken_by_other(
                    old(self).users@,
                    em@,
                    i,
                ))
                &&& (patch.first_name matches Some(f) && blank(f@))
            }) ==> (r matches Err(e) && e matches StoreError::Validation(m) && m@
                == "First name cannot be empty."@),
            ({
                let i = first_with_user_id(old(self).users@, id@);
                &&& has_user_id(old(self).users@, id@)
                &&& (patch.email matches Some(em) ==> valid_email(em@) && !email_taken_by_other(
                    old(self).users@,
                    em@,
                    i,
                ))
                &&& (patch.first_name matches Some(f) ==> !blank(f@))
                &&& (patch.last_name matches Some(l) && blank(l@))
            }) ==> (r matches Err(e) && e matches StoreError::Validation(m) && m@
                == "Last name cannot be empty."@),
            ({
                let i = first_with_user_id(old(self).users@, id@);
                &&& has_user_id(old(self).users@, id@)
                &&& (patch.email matches Some(e) ==> valid_email(e@) && !email_taken_by_other(
                    old(self).users@,
                    e@,
                    i,
                ))
                &&& (patch.first_name matches Some(f) ==> !blank(f@))
                &&& (patch.last_name matches Some(l) ==> !blank(l@))
                &&& old(self).clock == u64::MAX
            }) ==> (r matches Err(e) && e matches StoreError::Internal(_)),
            r is Ok <==> ({
                let i = first_with_user_id(old(self).users@, id@);
                &&& has_user_id(old(self).users@, id@)
                &&& (patch.email matches Some(e) ==> valid_email(e@) && !email_taken_by_other(
                    old(self).users@,
                    e@,
                    i,
                ))
                &&& (patch.first_name matches Some(f) ==> !blank(f@))
                &&& (patch.last_name matches Some(l) ==> !blank(l@))
                &&& old(self).clock < u64::MAX
            }),
            r matches Ok(resp) ==> ({
                let i = first_with_user_id(old(self).users@, id@);
                let u = final(self).users@[i];
                &&& 0 <= i < old(self).users@.len()
                &&& final(self).users@ == old(self).users@.update(i, u)
                &&& u.id@ == old(self).users@[i].id@
                &&& u.first_name@ == (if patch.first_name is Some {
                    patch.first_name->0@
                } else {
                    old(self).users@[i].first_name@
                })
                &&& u.last_name@ == (if patch.last_name is Some {
                    patch.last_name->0@
                } else {
                    old(self).users@[i].last_name@
                })
                &&& u.email@ == (if patch.email is Some {
                    patch.email->0@
                } else {
                    old(self).users@[i].email@
                })
                &&& u.password@ == old(self).users@[i].password@
                &&& u.created_at == old(self).users@[i].created_at
                &&& u.update_at == final(self).clock
                &&& u.update_at > u.created_at
                &&& old(self).clock < final(self).clock
                &&& resp.id@ == u.id@
                &&& resp.first_name@ == u.first_name@
                &&& resp.last_name@ == u.last_name@
                &&& resp.email@ == u.email@
            }),
    {
        let i = match Self::find_id_index(&self.users, id) {
            Some(i) => i,
            None => {
                return Err(StoreError::NotFound("User not found".to_owned()));
            },
        };
        proof {
            lemma_uid_index_is_first(old(self).users@, id@, i as int);
        }
        match &patch.email {
            Some(e) => {
                if !is_email_valid(e.as_str()) {
                    return Err(StoreError::Validation("Invalid email format.".to_owned()));
                }
                if Self::email_used_elsewhere(&self.users, e, i) {
                    return Err(
                        StoreError::Conflict("Email already in use by another user.".to_owned()),
                    );
                }
            },
            None => {},
        }
        match &patch.first_name {
            Some(f) => {
                if !is_not_empty(f.as_str()) {
                    return Err(StoreError::Validation("First name cannot be empty.".to_owned()));
                }
            },
            None => {},
        }
        match &patch.last_name {
            Some(l) => {
                if !is_not_empty(l.as_str()) {
                    return Err(StoreError::Validation("Last name cannot be empty.".to_owned()));
                }
            },
            None => {},
        }
        let t = match self.advance() {
            Some(t) => t,
            None => {
                return Err(StoreError::Internal("Stamp counter exhausted".to_owned()));
            },
        };
        let mut u = self.users[i].clone();
        match patch.first_name {
            Some(f) => {
                u.first_name = f;
            },
            None => {},
        }
        match patch.last_name {
            Some(l) => {
                u.last_name = l;
            },
            None => {},
        }
        match patch.email {
            Some(e) => {
                u.email = e;
            },
            None => {},
        }
        u.update_at = t;
        self.users.set(i, u.clone());
        Ok(UserLoginResponse {
            id: u.id,
            first_name: u.first_name,
            last_name: u.last_name,
            email: u.email,
        })
    }

    /// The under-the-lock half of a password change: replaces the
    /// digest of the account carrying `id` and stamps `update_at`,
    /// leaving every other field and account untouched. Callers run
    /// the credential checks first, as `change_password` does. An
    /// unknown id is rejected like a bad credential.
    pub fn replace_digest(&mut self, id: &String, digest: String) -> (r: Result<(), StoreError>)
        requires
            old(self).wf(),
        ensures
            final(self).wf(),
            r is Ok <==> has_user_id(old(self).users@, id@) && old(self).clock < u64::MAX,
            !has_user_id(old(self).users@, id@) ==> (r matches Err(e) && e matches
                StoreError::Unauthorized(m) && m@ == "Invalid user ID or old password."@),
            has_user_id(old(self).users@, id@) && old(self).clock == u64::MAX ==> (r matches Err(e)
                && e matches StoreError::Internal(_)),
            r is Err ==> final(self).users@ == old(self).users@ && final(self).clock == old(
                self,
            ).clock,
            r is Ok ==> ({
                let i = first_with_user_id(old(self).users@, id@);
                let u = final(self).users@[i];
                &&& 0 <= i < old(self).users@.len()
                &&& final(self).users@ == old(self).users@.update(i, u)
                &&& u.password@ == digest@
                &&& u.id@ == old(self).users@[i].id@
                &&& u.first_name@ == old(self).users@[i].first_name@
                &&& u.last_name@ == old(self).users@[i].last_name@
                &&& u.email@ == old(self).users@[i].email@
                &&& u.created_at == old(self).users@[i].created_at
                &&& u.update_at == final(self).clock
                &&& u.update_at > u.created_at
                &&& old(self).clock < final(self).clock
            }),
    {
        let i = match Self::find_id_index(&self.users, id) {
            Some(i) => i,
            None => {
                return Err(StoreError::Unauthorized("Invalid user ID or old password.".to_owned()));
            },
        };
        proof {
            lemma_uid_index_is_first(old(self).users@, id@, i as int);
        }
        let t = match self.advance() {
            Some(t) => t,
            None => {
                return Err(StoreError::Internal("Stamp counter exhausted".to_owned()));
            },
        };
        let mut u = self.users[i].clone();
        u.password = digest;
        u.update_at = t;
        self.users.set(i, u);
        Ok(())
    }

    /// Changes the password of the account carrying `id`. An unknown
    /// id and a wrong current password are rejected alike, with one
    /// message, so the caller cannot tell which was wrong; a new
    /// password equal to the current one is rejected outright,
    /// whatever else holds; the policy is the registration policy.
    /// Only then is the digest replaced and `update_at` freshly
    /// stamped; no error path changes the store.
    pub fn change_password(&mut self, id: &String, payload: UpdateUserPassword) -> (r: Result<
        (),
        StoreError,
    >)
        requires
            old(self).wf(),
        ensures
            final(self).wf(),
            r is Err ==> final(self).users@ == old(self).users@ && final(self).clock == old(
                self,
            ).clock,
            !has_user_id(old(self).users@, id@) ==> (r matches Err(e) && e matches
                StoreError::Unauthorized(m) && m@ == "Invalid user ID or old password."@),
            has_user_id(old(self).users@, id@) && payload.new_password@
                == payload.current_password@ ==> (r matches Err(e) && e matches
                StoreError::Unauthorized(m) && m@ == "Old password and new password cannot be same"@),
            has_user_id(old(self).users@, id@) && payload.new_password@
                != payload.current_password@ && !password_len_ok(payload.new_password@) ==> (r
                matches Err(e) && e matches StoreError::Validation(m) && m@
                == "Password should have characters between 6 to 12"@),
            has_user_id(old(self).users@, id@) && payload.new_password@
                != payload.current_password@ && password_len_ok(payload.new_password@)
                && payload.new_password@ != payload.confirm_password@ ==> (r matches Err(e) && e
                matches StoreError::Validation(m) && m@ == "Password don't match"@),
            r matches Err(e) ==> (e matches StoreError::Unauthorized(m) ==> ((has_user_id(
                old(self).users@,
                id@,
            ) && payload.new_password@ != payload.current_password@ && password_len_ok(
                payload.new_password@,
            ) && payload.new_password@ == payload.confirm_password@) ==> m@
                == "Invalid user ID or old password."@ && !digest_matches(
                payload.current_password@,
                old(self).users@[first_with_user_id(old(self).users@, id@)].password@,
            ))),
            has_user_id(old(self).users@, id@) && payload.new_password@
                != payload.current_password@ && password_len_ok(payload.new_password@)
                && payload.new_password@ == payload.confirm_password@ && digest_matches(
                payload.current_password@,
                old(self).users@[first_with_user_id(old(self).users@, id@)].password@,
            ) ==> (r is Ok || (r matches Err(e) && e matches StoreError::Internal(_))),
            ({
                let stored = old(self).users@[first_with_user_id(
                    old(self).users@,
                    id@,
                )].password@;
                has_user_id(old(self).users@, id@) && payload.new_password@
                    != payload.current_password@ && password_len_ok(payload.new_password@)
                    && payload.new_password@ == payload.confirm_password@ && digest_wf(stored)
                    && within_hash_limit(payload.current_password@) && digest_matches(
                    payload.current_password@,
                    stored,
                ) && old(self).clock < u64::MAX
            }) ==> r is Ok,
            ({
                let stored = old(self).users@[first_with_user_id(
                    old(self).users@,
                    id@,
                )].password@;
                has_user_id(old(self).users@, id@) && payload.new_password@
                    != payload.current_password@ && password_len_ok(payload.new_password@)
                    && payload.new_password@ == payload.confirm_password@ && digest_wf(stored)
                    && within_hash_limit(payload.current_password@) && !digest_matches(
                    payload.current_password@,
                    stored,
                )
            }) ==> (r matches Err(e) && e matches StoreError::Unauthorized(_)),
            r is Ok ==> ({
                let i = first_with_user_id(old(self).users@, id@);
                let u = final(self).users@[i];
                &&& has_user_id(old(self).users@, id@)
                &&& 0 <= i < old(self).users@.len()
                &&& payload.new_password@ != payload.current_password@
                &&& password_len_ok(payload.new_password@)
                &&& payload.new_password@ == payload.confirm_password@
                &&& digest_matches(payload.current_password@, old(self).users@[i].password@)
                &&& final(self).users@ == old(self).users@.update(i, u)
                &&& digest_matches(payload.new_password@, u.password@)
                &&& digest_wf(u.password@)
                &&& u.id@ == old(self).users@[i].id@
                &&& u.first_name@ == old(self).users@[i].first_name@
                &&& u.last_name@ == old(self).users@[i].last_name@
                &&& u.email@ == old(self).users@[i].email@
                &&& u.created_at == old(self).users@[i].created_at
                &&& u.update_at == final(self).clock
                &&& u.update_at > u.created_at
                &&& old(self).clock < final(self).clock
            }),
    {
        let i = match Self::find_id_index(&self.users, id) {
            Some(i) => i,
            None => {
                return Err(StoreError::Unauthorized("Invalid user ID or old password.".to_owned()));
            },
        };
        proof {
            lemma_uid_index_is_first(old(self).users@, id@, i as int);
        }
        match check_new_password(
            &payload.current_password,
            &payload.new_password,
            &payload.confirm_password,
        ) {
            Ok(()) => {},
            Err(e) => {
                return Err(e);
            },
        }
        let stored = self.users[i].password.clone();
        let matched = match verify_password(payload.current_password.as_str(), stored.as_str()) {
            Ok(b) => b,
            Err(_) => {
                return Err(StoreError::Internal("Password verification error".to_owned()));
            },
        };
        if !matched {
            return Err(StoreError::Unauthorized("Invalid user ID or old password.".to_owned()));
        }
        let digest = match hash_password(payload.new_password.as_str()) {
            Ok(d) => d,
            Err(_) => {
                return Err(StoreError::Internal("Password hashing failed".to_owned()));
            },
        };
        self.replace_digest(id, digest)
    }
}

/// In a well-formed store no two accounts share an email: a second
/// registration under a taken email can only be refused.
pub proof fn lemma_emails_unique(s: &UserStore, i: int, j: int)
    requires
        s.wf(),
        0 <= i < s.users@.len(),
        0 <= j < s.users@.len(),
        i != j,
    ensures
        s.users@[i].email@ != s.users@[j].email@,
{
}

/// In a well-formed store no two accounts share an identifier.
pub proof fn lemma_user_ids_unique(s: &UserStore, i: int, j: int)
    requires
        s.wf(),
        0 <= i < s.users@.len(),
        0 <= j < s.users@.len(),
        i != j,
    ensures
        s.users@[i].id@ != s.users@[j].id@,
{
}

} // verus!
