use vstd::prelude::*;
use crate::error::{AppError, ErrorKind};
use crate::password::{bcrypt_verify, bcrypt_verify_outcome};
use crate::text::{has_prefix, strip_prefix};
use crate::users::User;

verus! {

/// What a signed token says about its holder.
#[derive(Clone, Debug, PartialEq, Eq)]
pub struct Claims {
    /// The user id.
    pub sub: String,
    pub username: String,
    pub roles: Vec<String>,
    pub perms: Vec<String>,
    /// Expiry, in seconds since the Unix epoch.
    pub exp: usize,
    /// Issue time, in seconds since the Unix epoch.
    pub iat: usize,
}

/// The caller of a request, as its bearer token identifies it.
#[derive(Clone, Debug, PartialEq, Eq)]
pub struct AuthenticatedUser(pub Claims);

/// The query of the refresh and logout endpoints.
#[derive(Clone, Debug, PartialEq, Eq)]
pub struct RefreshQuery {
    pub refresh_token: Option<String>,
}

impl Claims {
    /// The claims of a token for the given user, issued at `now` and valid
    /// for `expiration_hours` hours.
    pub fn issue(
        user_id: &str,
        username: &str,
        roles: Vec<String>,
        perms: Vec<String>,
        now: usize,
        expiration_hours: i64,
    ) -> (c: Claims)
        requires
            expiration_hours >= 0,
            now + expiration_hours * 3600 <= usize::MAX,
        ensures
            c.sub@ == user_id@,
            c.username@ == username@,
            c.roles == roles,
            c.perms == perms,
            c.iat == now,
            c.exp == now + expiration_hours * 3600,
    {
        let hours: usize = expiration_hours as usize;
        let exp: usize = now + hours * 3600;
        Claims {
            sub: String::from_str(user_id),
            username: String::from_str(username),
            roles,
            perms,
            exp,
            iat: now,
        }
    }
}

/// The message of a missing `Authorization` header.
pub open spec fn no_token_text() -> Seq<char> {
    "Token otentikasi tidak ditemukan"@
}

/// The message of an `Authorization` header that is not a bearer token.
pub open spec fn bad_header_text() -> Seq<char> {
    "Format header otentikasi tidak valid"@
}

/// The scheme prefix of a bearer `Authorization` header.
pub open spec fn bearer_prefix() -> Seq<char> {
    "Bearer "@
}

/// The token of an `Authorization: Bearer <token>` header. A missing header
/// and one of another form are refused as unauthorized.
pub fn bearer_token(header: Option<&str>) -> (r: Result<String, AppError>)
    ensures
        header is None ==> (r matches Err(e) && e@ == (ErrorKind::Unauthorized, no_token_text())),
        header matches Some(h) ==> {
            if has_prefix(h@, bearer_prefix()) {
                r matches Ok(t) && t@ == h@.subrange(bearer_prefix().len() as int, h@.len() as int)
            } else {
                r matches Err(e) && e@ == (ErrorKind::Unauthorized, bad_header_text())
            }
        },
{
    match header {
        None => Err(AppError::from_text(ErrorKind::Unauthorized, "Token otentikasi tidak ditemukan")),
        Some(h) => match strip_prefix(h, "Bearer ") {
            Some(token) => Ok(token),
            None => Err(
                AppError::from_text(ErrorKind::Unauthorized, "Format header otentikasi tidak valid"),
            ),
        },
    }
}

/// A header built as `Bearer <token>` yields exactly that token back.
pub proof fn law_bearer_roundtrip(token: Seq<char>)
    ensures
        has_prefix(bearer_prefix() + token, bearer_prefix()),
        (bearer_prefix() + token).subrange(bearer_prefix().len() as int, (bearer_prefix() + token).len() as int)
            == token,
{
    let h = bearer_prefix() + token;
    assert(h.subrange(0, bearer_prefix().len() as int) =~= bearer_prefix());
    assert(h.subrange(bearer_prefix().len() as int, h.len() as int) =~= token);
}

/// The message of a failed login.
pub open spec fn bad_login_text() -> Seq<char> {
    "Username atau password salah"@
}

/// What a login decides once the stored user is known and bcrypt has
/// compared the password with its hash: the user when the password matches,
/// unauthorized when it does not, an internal error when bcrypt failed.
pub fn credentials_decision(user: User, verified: Result<bool, String>) -> (r: Result<User, AppError>)
    ensures
        verified == Ok::<bool, String>(true) ==> r == Ok::<User, AppError>(user),
        verified == Ok::<bool, String>(false) ==> (r matches Err(e) && e@ == (
            ErrorKind::Unauthorized,
            bad_login_text(),
        )),
        verified matches Err(m) ==> (r matches Err(e) && e@ == (ErrorKind::Internal, m@)),
{
    match verified {
        Ok(true) => Ok(user),
        Ok(false) => Err(AppError::from_text(ErrorKind::Unauthorized, "Username atau password salah")),
        Err(m) => Err(AppError::Internal(m)),
    }
}

/// A login with `password` is accepted for `user`: the user exists and
/// bcrypt finds that the password matches its stored hash.
pub open spec fn login_accepted(user: Option<User>, password: Seq<char>) -> bool {
    user matches Some(u) && bcrypt_verify_outcome(password, u.password_hash@) == Some(true)
}

/// Checks a login: `user` is the active user with the given username, if
/// any. Succeeds with that user exactly when bcrypt finds that `password`
/// matches the stored hash.
pub fn check_credentials(user: Option<User>, password: &str) -> (r: Result<User, AppError>)
    ensures
        r is Ok <==> login_accepted(user, password@),
        user is None ==> (r matches Err(e) && e@ == (ErrorKind::Unauthorized, bad_login_text())),
        user matches Some(u) ==> match bcrypt_verify_outcome(password@, u.password_hash@) {
            Some(true) => r == Ok::<User, AppError>(u),
            Some(false) => r matches Err(e) && e@ == (ErrorKind::Unauthorized, bad_login_text()),
            None => r matches Err(e) && e@.0 == ErrorKind::Internal,
        },
{
    match user {
        None => Err(AppError::from_text(ErrorKind::Unauthorized, "Username atau password salah")),
        Some(u) => {
            let verified = bcrypt_verify(password, u.password_hash.as_str());
            credentials_decision(u, verified)
        },
    }
}

/// The refresh token a refresh request carries; refused when absent.
pub fn require_refresh_token(query: RefreshQuery) -> (r: Result<String, AppError>)
    ensures
        match query.refresh_token {
            Some(t) => r == Ok::<String, AppError>(t),
            None => r matches Err(e) && e@ == (
                ErrorKind::BadRequest,
                "Parameter refreshToken wajib diisi"@,
            ),
        },
{
    match query.refresh_token {
        Some(t) => Ok(t),
        None => Err(AppError::from_text(ErrorKind::BadRequest, "Parameter refreshToken wajib diisi")),
    }
}

/// The user a refresh token names, which must still exist and be active.
pub fn require_active_user(user: Option<User>) -> (r: Result<User, AppError>)
    ensures
        match user {
            Some(u) => r == Ok::<User, AppError>(u),
            None => r matches Err(e) && e@ == (
                ErrorKind::Unauthorized,
                "Pengguna tidak aktif atau tidak ditemukan"@,
            ),
        },
{
    match user {
        Some(u) => Ok(u),
        None => Err(
            AppError::from_text(ErrorKind::Unauthorized, "Pengguna tidak aktif atau tidak ditemukan"),
        ),
    }
}

/// Whether a caller whose token carries the permissions `perms` holds the
/// permission `slug` (such as `user.store`).
pub open spec fn holds_permission(perms: Seq<String>, slug: Seq<char>) -> bool {
    exists|i: int| 0 <= i < perms.len() && (#[trigger] perms[i])@ == slug
}

/// Role-based access control: refuses a request whose caller's token does
/// not carry the permission `slug`.
pub fn require_permission(perms: &Vec<String>, slug: &str) -> (r: Result<(), AppError>)
    ensures
        r is Ok <==> holds_permission(perms@, slug@),
        r matches Err(e) ==> e@ == (
            ErrorKind::Unauthorized,
            "Anda tidak memiliki izin untuk tindakan ini"@,
        ),
{
    let wanted = String::from_str(slug);
    let mut i: usize = 0;
    while i < perms.len()
        invariant
            i <= perms@.len(),
            wanted@ == slug@,
            forall|j: int| 0 <= j < i ==> (#[trigger] perms@[j])@ != slug@,
        decreases perms@.len() - i,
    {
        if perms[i] == wanted {
            assert(perms@[i as int]@ == slug@);
            return Ok(());
        }
        i = i + 1;
    }
    Err(AppError::from_text(ErrorKind::Unauthorized, "Anda tidak memiliki izin untuk tindakan ini"))
}

} // verus!
