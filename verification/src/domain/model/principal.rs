use vstd::prelude::*;

use crate::domain::dtos::base::claims::Claims;
use crate::domain::error::app_error::AppError;
use crate::usecase::jwt::{hs256_payload, token_outcome, JwtService};

verus! {

/// The authenticated user behind a request.
#[derive(Debug, Clone)]
pub struct UserPrincipal {
    pub user_id: i32,
    pub username: String,
    pub roles: Vec<String>,
}

impl UserPrincipal {
    pub fn new(user_id: i32, username: String, roles: Vec<String>) -> (r: Self)
        ensures
            r.user_id == user_id,
            r.username@ == username@,
            r.roles@ == roles@,
    {
        UserPrincipal { user_id, username, roles }
    }

    /// Whether one of the principal's roles is exactly `role`.
    pub fn has_role(&self, role: &str) -> (r: bool)
        ensures
            r == (exists|i: int| 0 <= i < self.roles@.len() && #[trigger] self.roles@[i]@ == role@),
    {
        let wanted = role.to_owned();
        let mut i: usize = 0;
        while i < self.roles.len()
            invariant
                i <= self.roles@.len(),
                wanted@ == role@,
                forall|j: int| 0 <= j < i ==> #[trigger] self.roles@[j]@ != role@,
            decreases self.roles@.len() - i,
        {
            if self.roles[i] == wanted {
                return true;
            }
            i = i + 1;
        }
        false
    }
}

/// The token of an `Authorization` value of the form `Bearer <token>`.
pub open spec fn bearer_token_spec(header: Seq<char>) -> Option<Seq<char>> {
    let prefix = "Bearer "@;
    if header.len() >= prefix.len() && header.subrange(0, prefix.len() as int) == prefix {
        Some(header.subrange(prefix.len() as int, header.len() as int))
    } else {
        None
    }
}

/// The token after `Bearer ` in an `Authorization` value.
pub fn bearer_token(header: &str) -> (r: Option<&str>)
    ensures
        r matches Some(t) ==> bearer_token_spec(header@) == Some(t@),
        r is None ==> bearer_token_spec(header@) is None,
{
    let prefix = "Bearer ";
    let k = prefix.unicode_len();
    let n = header.unicode_len();
    if n < k {
        return None;
    }
    let head = header.substring_char(0, k).to_owned();
    if head == prefix.to_owned() {
        Some(header.substring_char(k, n))
    } else {
        None
    }
}

/// Why a request gets no principal: the HTTP status and the text of the
/// answer.
pub struct PrincipalRejection {
    pub status: u16,
    pub message: &'static str,
}

/// The answer to a request whose token did not verify.
pub open spec fn bad_token(e: PrincipalRejection) -> bool {
    e.status == 401 && e.message == "Token noto'g'ri yoki muddati o'tgan"
}

/// The answer to a request without a bearer token.
pub open spec fn missing_header(e: PrincipalRejection) -> bool {
    e.status == 401 && e.message == "Authorization: Bearer header yo'q"
}

/// The principal named by verified claims: their subject, user name and
/// roles.
pub open spec fn principal_of(p: UserPrincipal, c: Claims) -> bool {
    p.user_id == c.sub && p.username == c.username && p.roles == c.roles
}

/// The principal for the outcome of checking an access token: the claims'
/// user when it verified, the bad-token answer (401) whatever the error.
pub fn principal_from_verified(v: Result<Claims, AppError>) -> (r: Result<UserPrincipal, PrincipalRejection>)
    ensures
        v matches Ok(c) ==> (r matches Ok(p) && principal_of(p, c)),
        v is Err ==> (r matches Err(e) && bad_token(e)),
{
    match v {
        Ok(claims) => Ok(UserPrincipal { user_id: claims.sub, username: claims.username, roles: claims.roles }),
        Err(_) => Err(PrincipalRejection { status: 401, message: "Token noto'g'ri yoki muddati o'tgan" }),
    }
}

/// The principal behind an `Authorization` value: its bearer token must be
/// a valid access token (see `JwtService::verify_access`), and the principal
/// is then the token's user. Both failures are answered with 401; the text
/// tells a missing header from a bad token.
pub fn principal_from_authorization<F: Fn(&str) -> Option<Claims>>(
    jwt: &JwtService,
    header: Option<&str>,
    parse: &F,
) -> (r: Result<UserPrincipal, PrincipalRejection>)
    requires
        forall|t: &str| #[trigger] parse.requires((t,)),
    ensures
        (header is None || bearer_token_spec(header->0@) is None) ==> (r matches Err(e) && missing_header(e)),
        header matches Some(h) ==> (bearer_token_spec(h@) matches Some(t) ==> (r matches Err(e) ==> bad_token(e))),
        header matches Some(h) ==> (bearer_token_spec(h@) matches Some(t) ==> (hs256_payload(
            t,
            jwt.secret_view(),
        ) is None ==> r is Err)),
        r matches Ok(p) ==> (header matches Some(h) && bearer_token_spec(h@) matches Some(t) && exists|
            c: Claims,
            now: u64,
        |
            #![trigger token_outcome(t, jwt.secret_view(), *parse, "access"@, now, Ok::<Claims, AppError>(c))]
            token_outcome(t, jwt.secret_view(), *parse, "access"@, now, Ok::<Claims, AppError>(c))
                && principal_of(p, c)),
{
    let token = match header {
        Some(h) => bearer_token(h),
        None => None,
    };
    let token = match token {
        Some(t) => t,
        None => return Err(PrincipalRejection { status: 401, message: "Authorization: Bearer header yo'q" }),
    };
    let verified = jwt.verify_access(token, parse);
    principal_from_verified(verified)
}

} // verus!
