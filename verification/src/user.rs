use argon2::password_hash::rand_core::OsRng;
use argon2::password_hash::SaltString;
use argon2::{PasswordHash, PasswordHasher, PasswordVerifier};
use vstd::prelude::*;
use vstd::string::StringExecFns;
use crate::error::{AppError, ErrorKind};
use crate::models::{User, Workspace};

verus! {

/// A request to register a user in a workspace, named by its name.
#[derive(Debug, Clone)]
pub struct CreateUser {
    pub fullname: String,
    pub email: String,
    pub workspace: String,
    pub password: String,
}

/// A request to sign in.
#[derive(Debug, Clone)]
pub struct SignInUser {
    pub email: String,
    pub password: String,
}

/// How a password hash of this service begins: the algorithm, its version
/// and its parameters.
pub open spec fn argon2_prefix() -> Seq<char> {
    "$argon2id$v=19$m=19456,t=2,p=1$"@
}

/// Whether a password is short enough for Argon2: at four bytes a character
/// at most, it stays within `u32::MAX` bytes.
pub open spec fn password_fits(password: Seq<char>) -> bool {
    password.len() <= 0x3FFF_FFFF
}

/// Whether a text reads as a password hash in PHC string format.
pub uninterp spec fn phc_parses(hash: Seq<char>) -> bool;

/// Whether a password is the one whose Argon2 hash is written in `hash`.
pub uninterp spec fn password_matches(password: Seq<char>, hash: Seq<char>) -> bool;

/// Calls `argon2::Argon2::hash_password` with the default parameters and a
/// fresh random salt from `SaltString::generate`, and writes the result in
/// PHC string format. The salt is random, so nothing fixes which hash comes
/// back; what holds of every hash that comes back is that it reads back as a
/// PHC string, that the same password is accepted against it, and its form:
/// Argon2id, version 19, 19456 KiB, two passes, one lane, then a 16-byte
/// salt and a 32-byte output in unpadded B64, 97 characters in all. Argon2
/// refuses only a password longer than `u32::MAX` bytes, so a password that
/// fits (see [`password_fits`]) is always hashed.
#[verifier::external_body]
fn argon2_hash(password: &str) -> (r: Result<String, String>)
    ensures
        r matches Ok(h) ==> phc_parses(h@) && password_matches(password@, h@),
        r matches Ok(h) ==> h@.len() == 97 && argon2_prefix().is_prefix_of(h@),
        password_fits(password@) ==> r is Ok,
{
    let salt = SaltString::generate(&mut OsRng);
    argon2::Argon2::default()
        .hash_password(password.as_bytes(), &salt)
        .map(|h| h.to_string())
        .map_err(|e| e.to_string())
}

/// Calls `argon2::PasswordHash::new` on `hash` and, where it reads, checks
/// `password` against it with `Argon2::verify_password` (default parameters).
/// Whether the hash reads, and whether the password is accepted, are
/// functions of the two texts alone.
#[verifier::external_body]
fn argon2_check(password: &str, hash: &str) -> (r: Result<bool, String>)
    ensures
        r is Ok <==> phc_parses(hash@),
        r matches Ok(b) ==> b == password_matches(password@, hash@),
{
    let parsed = PasswordHash::new(hash).map_err(|e| e.to_string())?;
    Ok(argon2::Argon2::default().verify_password(password.as_bytes(), &parsed).is_ok())
}

/// Hashes a password with Argon2id and a random salt.
pub fn hash_password(password: &str) -> (r: Result<String, AppError>)
    ensures
        r matches Ok(h) ==> phc_parses(h@) && password_matches(password@, h@),
        r matches Ok(h) ==> h@.len() == 97 && argon2_prefix().is_prefix_of(h@),
        password_fits(password@) ==> r is Ok,
        r matches Err(e) ==> e@.0 == ErrorKind::PasswordHashing,
{
    match argon2_hash(password) {
        Ok(h) => Ok(h),
        Err(m) => Err(AppError::PasswordHashing(m)),
    }
}

/// Checks a password against a stored hash; a hash that does not read is an error.
pub fn verify_password(password: &str, password_hash: &str) -> (r: Result<bool, AppError>)
    ensures
        r is Ok <==> phc_parses(password_hash@),
        r matches Ok(b) ==> b == password_matches(password@, password_hash@),
        r matches Err(e) ==> e@.0 == ErrorKind::PasswordHashing,
{
    match argon2_check(password, password_hash) {
        Ok(b) => Ok(b),
        Err(m) => Err(AppError::PasswordHashing(m)),
    }
}

/// The stored hash text of a user (empty when none is stored).
pub open spec fn stored_hash(hash: Option<String>) -> Seq<char> {
    match hash {
        Some(h) => h@,
        None => Seq::<char>::empty(),
    }
}

/// How a sign-in with `password` against a stored hash ends: `Some(true)`
/// accepts, `Some(false)` refuses, `None` fails because the hash does not read.
pub open spec fn sign_in_verdict(password: Seq<char>, hash: Option<String>) -> Option<bool> {
    if !phc_parses(stored_hash(hash)) {
        None
    } else {
        Some(password_matches(password, stored_hash(hash)))
    }
}

/// The user that signs in is the one found, without the stored hash.
pub open spec fn signed_in_as(v: User, u: User) -> bool {
    &&& v.id == u.id
    &&& v.ws_id == u.ws_id
    &&& v.fullname == u.fullname
    &&& v.email == u.email
    &&& v.created_at == u.created_at
    &&& v.password_hash is None
}

impl SignInUser {
    /// A request to sign in with the given email and password.
    pub fn new(email: &str, password: &str) -> (s: SignInUser)
        ensures
            s.email@ == email@,
            s.password@ == password@,
    {
        SignInUser { email: String::from_str(email), password: String::from_str(password) }
    }

    /// Signs in against the user found under the email (if any): no user, or
    /// a wrong password, signs nobody in; a stored hash that does not read is
    /// an error.
    pub fn sign_in(&self, found: Option<User>) -> (r: Result<Option<User>, AppError>)
        ensures
            found is None ==> r matches Ok(None),
            found matches Some(u) ==> match sign_in_verdict(self.password@, u.password_hash) {
                None => r matches Err(e) && e@.0 == ErrorKind::PasswordHashing,
                Some(true) => r matches Ok(Some(v)) && signed_in_as(v, u),
                Some(false) => r matches Ok(None),
            },
            r matches Ok(Some(v)) ==> (found matches Some(u) && v.id == u.id && v.ws_id == u.ws_id
                && v.fullname == u.fullname && v.email == u.email && v.created_at == u.created_at
                && v.password_hash is None),
    {
        match found {
            None => Ok(None),
            Some(u) => {
                let User { id, ws_id, fullname, email, password_hash, created_at } = u;
                let hash = match password_hash {
                    Some(h) => h,
                    None => String::new(),
                };
                let valid = verify_password(self.password.as_str(), hash.as_str())?;
                if valid {
                    Ok(Some(User { id, ws_id, fullname, email, password_hash: None, created_at }))
                } else {
                    Ok(None)
                }
            },
        }
    }
}

/// What is known so far while registering a user; the service fills it in
/// as it carries out the steps.
#[derive(Debug)]
pub struct SignupProgress {
    /// Whether a user with the email exists, once looked up.
    pub email_taken: Option<bool>,
    /// Whether no workspace with the name exists, once looked up.
    pub workspace_missing: Option<bool>,
    /// The workspace found or created.
    pub workspace: Option<Workspace>,
    /// The user inserted.
    pub user: Option<User>,
    /// Whether the new user was made owner of the workspace.
    pub owner_set: bool,
}

/// The next step of registering a user.
#[derive(Debug)]
pub enum SignupStep {
    /// Look up whether a user with the email exists.
    LookUpEmail,
    /// Look up the workspace by its name.
    LookUpWorkspace,
    /// Create the workspace, owned by nobody.
    CreateWorkspace,
    /// Insert the user into the workspace with the given password hash.
    InsertUser { ws_id: i64, password_hash: String },
    /// Make the user owner of the workspace.
    SetOwner { ws_id: i64, user_id: i64 },
    /// The user is registered.
    Done,
    /// Refuse the registration.
    Fail(AppError),
}

impl SignupProgress {
    /// Nothing is known yet.
    pub fn start() -> (p: SignupProgress)
        ensures
            p.email_taken is None,
            p.workspace_missing is None,
            p.workspace is None,
            p.user is None,
            !p.owner_set,
    {
        SignupProgress { email_taken: None, workspace_missing: None, workspace: None, user: None, owner_set: false }
    }
}

impl CreateUser {
    /// A registration request.
    pub fn new(fullname: &str, workspace: &str, email: &str, password: &str) -> (c: CreateUser)
        ensures
            c.fullname@ == fullname@,
            c.workspace@ == workspace@,
            c.email@ == email@,
            c.password@ == password@,
    {
        CreateUser {
            fullname: String::from_str(fullname),
            workspace: String::from_str(workspace),
            email: String::from_str(email),
            password: String::from_str(password),
        }
    }

    /// The next step of registering this user. A taken email is refused;
    /// the workspace is looked up by name and created, owned by nobody, when
    /// missing; the user is inserted with a fresh hash of the password; a
    /// workspace that nobody owns is then given to the new user.
    pub fn next_step(&self, p: &SignupProgress) -> (s: SignupStep)
        ensures
            p.email_taken is None ==> s is LookUpEmail,
            p.email_taken == Some(true) ==> (s matches SignupStep::Fail(e)
                && e@ == (ErrorKind::UserAlreadyExists, self.email@)),
            p.email_taken == Some(false) && p.workspace is None && p.workspace_missing != Some(true)
                ==> s is LookUpWorkspace,
            p.email_taken == Some(false) && p.workspace is None && p.workspace_missing == Some(true)
                ==> s is CreateWorkspace,
            p.email_taken == Some(false) && p.workspace is Some && p.user is None ==> (
                (s matches SignupStep::InsertUser { ws_id, password_hash }
                    && ws_id == p.workspace->0.id
                    && phc_parses(password_hash@)
                    && password_matches(self.password@, password_hash@)
                    && password_hash@.len() == 97
                    && argon2_prefix().is_prefix_of(password_hash@))
                || (s matches SignupStep::Fail(e) && e@.0 == ErrorKind::PasswordHashing
                    && !password_fits(self.password@))),
            p.email_taken == Some(false) && p.workspace is Some && p.user is Some ==> (
                if p.workspace->0.owner_id == 0 && !p.owner_set {
                    s matches SignupStep::SetOwner { ws_id, user_id }
                        && ws_id == p.workspace->0.id
                        && user_id == p.user->0.id
                } else {
                    s is Done
                }),
    {
        match p.email_taken {
            None => { return SignupStep::LookUpEmail; },
            Some(true) => {
                return SignupStep::Fail(AppError::UserAlreadyExists(self.email.clone()));
            },
            Some(false) => {},
        }
        match &p.workspace {
            None => {
                match p.workspace_missing {
                    Some(true) => SignupStep::CreateWorkspace,
                    _ => SignupStep::LookUpWorkspace,
                }
            },
            Some(ws) => {
                match &p.user {
                    None => {
                        match hash_password(self.password.as_str()) {
                            Ok(h) => SignupStep::InsertUser { ws_id: ws.id, password_hash: h },
                            Err(e) => SignupStep::Fail(e),
                        }
                    },
                    Some(u) => {
                        if ws.owner_id == 0 && !p.owner_set {
                            SignupStep::SetOwner { ws_id: ws.id, user_id: u.id }
                        } else {
                            SignupStep::Done
                        }
                    },
                }
            },
        }
    }
}

/// A user registered with a password signs in with that password: the hash
/// stored at registration accepts it.
pub proof fn lemma_registered_password_signs_in(password: Seq<char>, hash: String)
    requires
        phc_parses(hash@),
        password_matches(password, hash@),
    ensures
        sign_in_verdict(password, Some(hash)) == Some(true),
{
}

/// Signing in never changes who the user is: the user signed in has the id,
/// workspace, name, email and creation time of the user found, and carries
/// no password hash.
pub proof fn lemma_sign_in_keeps_identity(v: User, u: User)
    requires
        signed_in_as(v, u),
    ensures
        v.id == u.id,
        v.ws_id == u.ws_id,
        v.fullname == u.fullname,
        v.email == u.email,
        v.created_at == u.created_at,
        v.password_hash is None,
{
}

/// A sign-in goes by the stored hash alone: a hash that does not read is an
/// error, and one that reads accepts exactly the passwords that match it;
/// a user without a stored hash is treated as having an empty one.
pub proof fn lemma_sign_in_verdict(password: Seq<char>, hash: String)
    ensures
        !phc_parses(hash@) ==> sign_in_verdict(password, Some(hash)) is None,
        phc_parses(hash@) ==> sign_in_verdict(password, Some(hash)) == Some(password_matches(password, hash@)),
        sign_in_verdict(password, None) == (if phc_parses(Seq::<char>::empty()) {
            Some(password_matches(password, Seq::<char>::empty()))
        } else {
            None
        }),
{
}

} // verus!
