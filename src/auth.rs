use vstd::prelude::*;
use vstd::string::StrSliceExecFns;

verus! {

/// What a signed access or refresh token asserts about its holder.
#[derive(Clone, Debug)]
pub struct Claims {
    pub sub: String,
    pub user_id: String,
    pub email: String,
    pub role: String,
    pub tenant_id: String,
    pub exp: i64,
    pub iat: i64,
}

/// Signs and checks tokens with one secret; access and refresh tokens live
/// for different numbers of seconds.
#[derive(Clone, Debug)]
pub struct JwtManager {
    secret: String,
    expiration: i64,
    refresh_expiration: i64,
}

/// The instant at which a token issued at `now` expires, if it fits.
pub open spec fn token_expiry(now: i64, lifetime: i64) -> Option<i64> {
    if i64::MIN <= now + lifetime <= i64::MAX {
        Some((now + lifetime) as i64)
    } else {
        None
    }
}

impl JwtManager {
    pub closed spec fn spec_secret(&self) -> Seq<char> {
        self.secret@
    }

    pub closed spec fn spec_expiration(&self) -> i64 {
        self.expiration
    }

    pub closed spec fn spec_refresh_expiration(&self) -> i64 {
        self.refresh_expiration
    }

    pub fn new(secret: String, expiration: i64, refresh_expiration: i64) -> (r: JwtManager)
        ensures
            r.spec_secret() == secret@,
            r.spec_expiration() == expiration,
            r.spec_refresh_expiration() == refresh_expiration,
    {
        JwtManager { secret, expiration, refresh_expiration }
    }

    /// The signing secret.
    pub fn secret(&self) -> (r: &String)
        ensures
            r@ == self.spec_secret(),
    {
        &self.secret
    }

    /// The claims of a token issued at `now` to the given user; `None` when
    /// its expiry does not fit in an `i64`.
    pub fn claims_for(
        &self,
        user_id: &str,
        email: &str,
        role: &str,
        tenant_id: &str,
        now: i64,
        is_refresh: bool,
    ) -> (r: Option<Claims>)
        ensures
            ({
                let lifetime = if is_refresh {
                    self.spec_refresh_expiration()
                } else {
                    self.spec_expiration()
                };
                match r {
                    Some(c) => token_expiry(now, lifetime) == Some(c.exp) && c.iat == now
                        && c.sub@ == user_id@ && c.user_id@ == user_id@ && c.email@ == email@
                        && c.role@ == role@ && c.tenant_id@ == tenant_id@,
                    None => token_expiry(now, lifetime) is None,
                }
            }),
    {
        let lifetime = if is_refresh {
            self.refresh_expiration
        } else {
            self.expiration
        };
        let exp = match now.checked_add(lifetime) {
            Some(e) => e,
            None => return None,
        };
        Some(
            Claims {
                sub: user_id.to_string(),
                user_id: user_id.to_string(),
                email: email.to_string(),
                role: role.to_string(),
                tenant_id: tenant_id.to_string(),
                exp,
                iat: now,
            },
        )
    }
}

/// The token of an `Authorization` header of the form `Bearer <token>`.
pub open spec fn bearer_token_of(header: Seq<char>) -> Option<Seq<char>> {
    if header.len() >= 7 && header.subrange(0, 7) == "Bearer "@ {
        Some(header.subrange(7, header.len() as int))
    } else {
        None
    }
}

/// Reads the token out of an `Authorization` header value.
pub fn bearer_token(header: &str) -> (r: Option<String>)
    ensures
        match r {
            Some(t) => bearer_token_of(header@) == Some(t@),
            None => bearer_token_of(header@) is None,
        },
{
    let n = header.unicode_len();
    if n < 7 {
        return None;
    }
    let prefix = header.substring_char(0, 7);
    if !crate::catalog::str_equal(prefix, "Bearer ") {
        return None;
    }
    Some(header.substring_char(7, n).to_string())
}

} // verus!
