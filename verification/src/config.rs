//! Settings of the service, read from environment variables.
use vstd::prelude::*;

verus! {

broadcast use vstd::string::group_string_axioms;

/// The service's settings.
pub struct AppConfig {
    pub database_url: String,
    pub http_port: u16,
    pub grpc_port: u16,
    pub cors_origin: String,
    /// Secret that signs JWTs (32 characters or more are advised).
    pub jwt_secret: String,
}

/// A setting the service cannot start without is missing.
#[derive(Debug, Clone, Copy, PartialEq, Eq)]
pub struct MissingVariable {
    pub key: &'static str,
}

/// Value of a run of decimal digits.
pub open spec fn decimal_value(d: Seq<char>) -> int
    decreases d.len(),
{
    if d.len() == 0 {
        0
    } else {
        decimal_value(d.drop_last()) * 10 + (d.last() as int - '0' as int)
    }
}

/// All characters are ASCII digits.
pub open spec fn all_digits(d: Seq<char>) -> bool {
    forall|i: int| 0 <= i < d.len() ==> '0' <= #[trigger] d[i] <= '9'
}

/// What `str::parse::<u16>` gives: an optional `+` followed by at least one
/// decimal digit, whose value fits in 16 bits.
pub open spec fn u16_from_str(s: Seq<char>) -> Option<u16> {
    let d = if s.len() > 0 && s[0] == '+' {
        s.drop_first()
    } else {
        s
    };
    if d.len() > 0 && all_digits(d) && decimal_value(d) <= u16::MAX {
        Some(decimal_value(d) as u16)
    } else {
        None
    }
}

proof fn lemma_decimal_value_nonneg(d: Seq<char>)
    requires
        all_digits(d),
    ensures
        decimal_value(d) >= 0,
    decreases d.len(),
{
    if d.len() > 0 {
        lemma_decimal_value_nonneg(d.drop_last());
    }
}

proof fn lemma_decimal_value_monotone(d: Seq<char>, i: int)
    requires
        all_digits(d),
        0 <= i <= d.len(),
    ensures
        decimal_value(d.take(i)) <= decimal_value(d),
    decreases d.len() - i,
{
    if i < d.len() {
        lemma_decimal_value_monotone(d, i + 1);
        assert(d.take(i + 1).drop_last() =~= d.take(i));
        lemma_decimal_value_nonneg(d.take(i));
    } else {
        assert(d.take(i) =~= d);
    }
}

/// Parses a decimal `u16` as `str::parse::<u16>` does.
pub fn parse_u16(s: &str) -> (r: Option<u16>)
    ensures
        r == u16_from_str(s@),
{
    let n = s.unicode_len();
    let mut i: usize = 0;
    if n > 0 && s.get_char(0) == '+' {
        i = 1;
    }
    let start = i;
    let ghost d = s@.subrange(start as int, n as int);
    proof {
        if start == 1 {
            assert(d =~= s@.drop_first());
        } else {
            assert(d =~= s@);
        }
    }
    if i == n {
        return None;
    }
    let mut value: u32 = 0;
    while i < n
        invariant
            n == s@.len(),
            start <= i <= n,
            d == s@.subrange(start as int, n as int),
            all_digits(d.take(i - start)),
            value as int == decimal_value(d.take(i - start)),
            value <= u16::MAX,
            d.len() > 0,
            u16_from_str(s@) == (if all_digits(d) && decimal_value(d) <= u16::MAX {
                Some(decimal_value(d) as u16)
            } else {
                None
            }),
        decreases n - i,
    {
        let c = s.get_char(i);
        proof {
            assert(d.take(i - start + 1).drop_last() =~= d.take(i - start));
            assert(d.take(i - start + 1).last() == c);
        }
        if c < '0' || c > '9' {
            proof {
                assert(d[i - start] == c);
                assert(!all_digits(d));
            }
            return None;
        }
        let digit = (c as u32) - ('0' as u32);
        let next = value * 10 + digit;
        proof {
            assert(all_digits(d.take(i - start + 1)));
        }
        if next > 65535 {
            proof {
                if all_digits(d) {
                    lemma_decimal_value_monotone(d, i - start + 1);
                }
            }
            return None;
        }
        value = next;
        i = i + 1;
    }
    assert(d.take(n - start) =~= d);
    Some(value as u16)
}

/// The value of an optional setting, or `default` when it is absent or does
/// not parse.
pub fn optional(raw: Option<&str>, default: u16) -> (r: u16)
    ensures
        raw matches Some(v) ==> r == (match u16_from_str(v@) {
            Some(n) => n,
            None => default,
        }),
        raw is None ==> r == default,
{
    match raw {
        Some(v) => match parse_u16(v) {
            Some(n) => n,
            None => default,
        },
        None => default,
    }
}

/// CORS origin used when none is set.
pub const DEFAULT_CORS_ORIGIN: &'static str = "https://oauth.uz";

/// HTTP port used when none is set.
pub const DEFAULT_HTTP_PORT: u16 = 3000;

/// gRPC port used when none is set.
pub const DEFAULT_GRPC_PORT: u16 = 50051;

impl AppConfig {
    /// The settings from the values of `DATABASE_URL`, `HTTP_PORT`,
    /// `GRPC_PORT`, `CORS_ORIGIN` and `JWT_SECRET`. The database URL and the
    /// JWT secret are required (the first one missing is reported); the
    /// ports fall back to 3000 and 50051, the origin to `https://oauth.uz`.
    pub fn from_values(
        database_url: Option<String>,
        http_port: Option<&str>,
        grpc_port: Option<&str>,
        cors_origin: Option<String>,
        jwt_secret: Option<String>,
    ) -> (r: Result<AppConfig, MissingVariable>)
        ensures
            database_url is None ==> r == Err::<AppConfig, MissingVariable>(
                MissingVariable { key: "DATABASE_URL" },
            ),
            database_url is Some && jwt_secret is None ==> r == Err::<AppConfig, MissingVariable>(
                MissingVariable { key: "JWT_SECRET" },
            ),
            r matches Ok(c) ==> {
                &&& database_url matches Some(u) && c.database_url@ == u@
                &&& jwt_secret matches Some(s) && c.jwt_secret@ == s@
                &&& c.http_port == (match http_port {
                    Some(v) => match u16_from_str(v@) {
                        Some(n) => n,
                        None => DEFAULT_HTTP_PORT,
                    },
                    None => DEFAULT_HTTP_PORT,
                })
                &&& c.grpc_port == (match grpc_port {
                    Some(v) => match u16_from_str(v@) {
                        Some(n) => n,
                        None => DEFAULT_GRPC_PORT,
                    },
                    None => DEFAULT_GRPC_PORT,
                })
                &&& c.cors_origin@ == (match cors_origin {
                    Some(o) => o@,
                    None => DEFAULT_CORS_ORIGIN@,
                })
            },
            database_url is Some && jwt_secret is Some ==> r is Ok,
    {
        let database_url = match database_url {
            Some(u) => u,
            None => return Err(MissingVariable { key: "DATABASE_URL" }),
        };
        let jwt_secret = match jwt_secret {
            Some(s) => s,
            None => return Err(MissingVariable { key: "JWT_SECRET" }),
        };
        let cors_origin = match cors_origin {
            Some(o) => o,
            None => DEFAULT_CORS_ORIGIN.to_owned(),
        };
        Ok(AppConfig {
            database_url,
            http_port: optional(http_port, DEFAULT_HTTP_PORT),
            grpc_port: optional(grpc_port, DEFAULT_GRPC_PORT),
            cors_origin,
            jwt_secret,
        })
    }
}

} // verus!
