//! The connection configurator: turning optional command-line overrides and
//! an environment snapshot into a fully resolved set of connection
//! parameters.
//!
//! Every field has a fixed fallback except the password, which must come
//! from somewhere, and the port, whose environment value must be a decimal
//! unsigned 16-bit number; either failure is fatal before any connection is
//! attempted. The surrounding binary reads the environment and opens the
//! connection; the resolution itself is stated and proved here.
use vstd::prelude::*;

verus! {

/// Whether `c` is a decimal digit.
pub open spec fn is_dec_digit(c: char) -> bool {
    48 <= c as int && c as int <= 57
}

/// The numeric value of the digit `c`.
pub open spec fn digit_value(c: char) -> int {
    c as int - 48
}

/// Whether `s` is a non-empty string of decimal digits.
pub open spec fn is_decimal_string(s: Seq<char>) -> bool {
    s.len() > 0 && forall|i: int| 0 <= i < s.len() ==> is_dec_digit(s[i])
}

/// The number that the digit string `s` denotes.
pub open spec fn decimal_value(s: Seq<char>) -> int
    decreases s.len(),
{
    if s.len() == 0 {
        0
    } else {
        decimal_value(s.drop_last()) * 10 + digit_value(s.last())
    }
}

/// A digit string denotes a number that is not negative.
proof fn lemma_decimal_value_nonneg(s: Seq<char>)
    requires
        forall|i: int| 0 <= i < s.len() ==> is_dec_digit(s[i]),
    ensures
        decimal_value(s) >= 0,
    decreases s.len(),
{
    if s.len() > 0 {
        lemma_decimal_value_nonneg(s.drop_last());
    }
}

/// Extending a digit string with further digits never shrinks its value.
proof fn lemma_decimal_value_extend(s: Seq<char>, m: int)
    requires
        0 <= m <= s.len(),
        forall|i: int| 0 <= i < s.len() ==> is_dec_digit(s[i]),
    ensures
        decimal_value(s) >= decimal_value(s.take(m)),
    decreases s.len() - m,
{
    if m == s.len() {
        assert(s.take(m) =~= s);
    } else {
        lemma_decimal_value_extend(s, m + 1);
        let t = s.take(m + 1);
        assert(t.drop_last() =~= s.take(m));
        assert(t.last() == s[m]);
        lemma_decimal_value_nonneg(s.take(m));
    }
}

/// Parse `s` as a port number: accepted exactly when `s` is a non-empty
/// string of decimal digits denoting a number up to 65535.
pub fn parse_port(s: &str) -> (r: Option<u16>)
    ensures
        r is Some <==> is_decimal_string(s@) && decimal_value(s@) <= 65535,
        r matches Some(p) ==> p as int == decimal_value(s@),
{
    let n = s.unicode_len();
    if n == 0 {
        return None;
    }
    let mut i: usize = 0;
    let mut acc: u32 = 0;
    while i < n
        invariant
            n == s@.len(),
            0 < n,
            i <= n,
            forall|k: int| 0 <= k < i ==> is_dec_digit(s@[k]),
            acc as int == decimal_value(s@.take(i as int)),
            acc <= 65535,
        decreases n - i,
    {
        let c = s.get_char(i);
        let v = c as u32;
        if v < 48 || v > 57 {
            return None;
        }
        let acc2 = acc * 10 + (v - 48);
        proof {
            assert(s@.take(i as int + 1).drop_last() =~= s@.take(i as int));
            assert(s@.take(i as int + 1).last() == s@[i as int]);
        }
        if acc2 > 65535 {
            proof {
                if is_decimal_string(s@) {
                    lemma_decimal_value_extend(s@, i as int + 1);
                }
            }
            return None;
        }
        acc = acc2;
        i += 1;
    }
    proof {
        assert(s@.take(n as int) =~= s@);
    }
    Some(acc as u16)
}

/// The environment's values for the five connection parameters, as read
/// once at startup; a missing variable is `None`.
#[derive(Debug)]
pub struct EnvSnapshot {
    pub address: Option<String>,
    pub port: Option<String>,
    pub user: Option<String>,
    pub password: Option<String>,
    pub db_name: Option<String>,
}

/// A fully resolved set of connection parameters, immutable once built.
#[derive(Debug)]
pub struct ConnectionConfig {
    pub address: String,
    pub port: u16,
    pub user: String,
    pub password: String,
    pub db_name: String,
}

/// A fatal configuration error, raised before any database contact.
#[derive(Clone, Copy, Debug, PartialEq, Eq)]
pub enum ConfigError {
    /// The environment's port value is not a decimal 16-bit number.
    InvalidPort,
    /// Neither an override nor the environment supplies a password.
    MissingPassword,
}

/// An override wins over the environment, which wins over the default.
pub open spec fn resolved_string(
    over: Option<String>,
    env: Option<String>,
    default: Seq<char>,
) -> Seq<char> {
    if over is Some {
        over->0@
    } else if env is Some {
        env->0@
    } else {
        default
    }
}

/// Whether the port can be resolved: an override needs no parsing, and a
/// missing environment value falls back to the default.
pub open spec fn port_resolvable(port: Option<u16>, env_port: Option<String>) -> bool {
    port is Some || match env_port {
        Some(ps) => is_decimal_string(ps@) && decimal_value(ps@) <= 65535,
        None => true,
    }
}

/// The resolved port: the override, else the parsed environment value,
/// else 5432.
pub open spec fn resolved_port(port: Option<u16>, env_port: Option<String>) -> int {
    match port {
        Some(p) => p as int,
        None => match env_port {
            Some(ps) => decimal_value(ps@),
            None => 5432,
        },
    }
}

/// Whether some source supplies the password; it has no default.
pub open spec fn password_resolvable(password: Option<String>, env_password: Option<String>) -> bool {
    password is Some || env_password is Some
}

impl ConnectionConfig {
    /// Resolve the five parameters from explicit overrides and the
    /// environment snapshot. Fails exactly when the environment port does
    /// not parse (and no override bypasses it), or when no password can be
    /// found; the port is checked first.
    pub fn resolve(
        address: Option<String>,
        port: Option<u16>,
        user: Option<String>,
        password: Option<String>,
        db_name: Option<String>,
        env: EnvSnapshot,
    ) -> (r: Result<ConnectionConfig, ConfigError>)
        ensures
            r is Ok <==> port_resolvable(port, env.port) && password_resolvable(
                password,
                env.password,
            ),
            r == Err::<ConnectionConfig, ConfigError>(ConfigError::InvalidPort) <==> !port_resolvable(
                port,
                env.port,
            ),
            r == Err::<ConnectionConfig, ConfigError>(ConfigError::MissingPassword)
                <==> port_resolvable(port, env.port) && !password_resolvable(password, env.password),
            r matches Ok(c) ==> {
                &&& c.address@ == resolved_string(address, env.address, "localhost"@)
                &&& c.port as int == resolved_port(port, env.port)
                &&& c.user@ == resolved_string(user, env.user, "premises"@)
                &&& c.password@ == (if password is Some {
                    password->0@
                } else {
                    env.password->0@
                })
                &&& c.db_name@ == resolved_string(db_name, env.db_name, "premises"@)
            },
    {
        let resolved_port_value: u16 = match port {
            Some(p) => p,
            None => match env.port {
                Some(ps) => match parse_port(ps.as_str()) {
                    Some(p) => p,
                    None => {
                        return Err(ConfigError::InvalidPort);
                    },
                },
                None => 5432,
            },
        };
        let resolved_password: String = match password {
            Some(p) => p,
            None => match env.password {
                Some(p) => p,
                None => {
                    return Err(ConfigError::MissingPassword);
                },
            },
        };
        let resolved_address: String = match address {
            Some(a) => a,
            None => match env.address {
                Some(a) => a,
                None => "localhost".to_owned(),
            },
        };
        let resolved_user: String = match user {
            Some(u) => u,
            None => match env.user {
                Some(u) => u,
                None => "premises".to_owned(),
            },
        };
        let resolved_db_name: String = match db_name {
            Some(d) => d,
            None => match env.db_name {
                Some(d) => d,
                None => "premises".to_owned(),
            },
        };
        Ok(
            ConnectionConfig {
                address: resolved_address,
                port: resolved_port_value,
                user: resolved_user,
                password: resolved_password,
                db_name: resolved_db_name,
            },
        )
    }
}

} // verus!
