//! Configuration values and their parsing.
//!
//! The environment variables themselves are read by the process entry
//! point; this module turns their raw strings into a [`Configuration`],
//! rejecting each malformed value with a descriptive error instead of
//! unwinding.

use vstd::prelude::*;
use crate::text::str_eq;

verus! {

/// Which deployment the process runs in.
#[derive(Clone, Copy, Debug, PartialEq, Eq, Structural)]
pub enum Environment {
    Local,
    Production,
}

/// Why a configuration value was rejected.
#[derive(Clone, Copy, Debug, PartialEq, Eq, Structural)]
pub enum ConfigError {
    /// The environment name is neither `Local` nor `Production`.
    InvalidEnvironment,
    /// The port is not a decimal number within `u16`.
    InvalidPort,
    /// The connection cap is not a decimal number within `u8`.
    InvalidMaxConnections,
}

/// The validated configuration of the process.
pub struct Configuration {
    pub environment: Environment,
    pub database_url: String,
    pub app_port: u16,
    pub max_db_connection: u8,
}

impl Environment {
    /// The environment's display name.
    pub fn environment_as_string(&self) -> (r: &'static str)
        ensures
            self is Local ==> r@ == "Local"@,
            self is Production ==> r@ == "Production"@,
    {
        match self {
            Environment::Local => "Local",
            Environment::Production => "Production",
        }
    }

    /// Parse an environment name; exactly `Local` and `Production` are
    /// accepted.
    pub fn from_name(s: &str) -> (r: Result<Environment, ConfigError>)
        ensures
            s@ == "Local"@ ==> r == Ok::<Environment, ConfigError>(Environment::Local),
            s@ == "Production"@ ==> r == Ok::<Environment, ConfigError>(Environment::Production),
            s@ != "Local"@ && s@ != "Production"@ ==> r == Err::<Environment, ConfigError>(
                ConfigError::InvalidEnvironment,
            ),
    {
        proof {
            reveal_strlit("Local");
            reveal_strlit("Production");
            assert(("Local"@).len() == 5);
            assert(("Production"@).len() == 10);
            assert("Local"@ != "Production"@);
        }
        if str_eq(s, "Local") {
            Ok(Environment::Local)
        } else if str_eq(s, "Production") {
            Ok(Environment::Production)
        } else {
            Err(ConfigError::InvalidEnvironment)
        }
    }
}

/// Whether `c` is a decimal digit.
pub open spec fn is_dec_digit(c: char) -> bool {
    48 <= c as int <= 57
}

/// Whether every character of `s` is a decimal digit.
pub open spec fn all_dec_digits(s: Seq<char>) -> bool {
    forall|i: int| 0 <= i < s.len() ==> is_dec_digit(#[trigger] s[i])
}

/// The number that a digit string denotes.
pub open spec fn digits_val(s: Seq<char>) -> nat
    decreases s.len(),
{
    if s.len() == 0 {
        0
    } else {
        (digits_val(s.drop_last()) * 10 + (s.last() as int - 48)) as nat
    }
}

/// A longer digit string never denotes less than its prefix.
proof fn lemma_digits_val_prefix(s: Seq<char>, k: int)
    requires
        0 <= k <= s.len(),
        all_dec_digits(s),
    ensures
        digits_val(s.take(k)) <= digits_val(s),
    decreases s.len() - k,
{
    if k < s.len() {
        lemma_digits_val_prefix(s, k + 1);
        let t = s.take(k + 1);
        assert(t.drop_last() =~= s.take(k));
        assert(t.last() == s[k]);
        assert(digits_val(s.take(k)) <= digits_val(t));
    } else {
        assert(s.take(k) =~= s);
    }
}

/// Parse an unsigned decimal number.  Succeeds exactly on a nonempty,
/// all-digit string whose value fits in `u64`, and then returns that value.
#[verifier::loop_isolation(false)]
pub fn parse_u64(s: &str) -> (r: Option<u64>)
    ensures
        match r {
            Some(v) => s@.len() > 0 && all_dec_digits(s@) && v == digits_val(s@),
            None => s@.len() == 0 || !all_dec_digits(s@) || digits_val(s@) > u64::MAX,
        },
{
    let n: usize = s.unicode_len();
    if n == 0 {
        return None;
    }
    let mut val: u64 = 0;
    let mut i: usize = 0;
    while i < n
        invariant
            i <= n,
            n == s@.len(),
            all_dec_digits(s@.take(i as int)),
            val == digits_val(s@.take(i as int)),
        decreases n - i,
    {
        let c: char = s.get_char(i);
        let u: u32 = c as u32;
        if u < 48 || u > 57 {
            assert(!is_dec_digit(s@[i as int]));
            return None;
        }
        let d: u64 = (u - 48) as u64;
        if val > (u64::MAX - d) / 10 {
            proof {
                let t = s@.take(i + 1);
                assert(t.drop_last() =~= s@.take(i as int));
                assert(t.last() == s@[i as int]);
                assert(all_dec_digits(t)) by {
                    assert forall|k: int| 0 <= k < t.len() implies is_dec_digit(
                        #[trigger] t[k],
                    ) by {
                        if k < i as int {
                            assert(is_dec_digit(s@.take(i as int)[k]));
                        }
                    }
                }
                assert(digits_val(t) == val * 10 + d);
                assert(val * 10 + d > u64::MAX) by (nonlinear_arith)
                    requires
                        val > (u64::MAX - d) / 10,
                        d <= 9,
                {}
            }
            if all_digits_from(s, i + 1) {
                proof {
                    assert forall|k: int| 0 <= k < s@.len() implies is_dec_digit(
                        #[trigger] s@[k],
                    ) by {
                        if k < i as int {
                            assert(is_dec_digit(s@.take(i as int)[k]));
                        }
                    }
                    lemma_digits_val_prefix(s@, i + 1);
                }
            } else {
                proof {
                    let w = choose|k: int|
                        i + 1 <= k < s@.len() && !is_dec_digit(#[trigger] s@[k]);
                    assert(!all_dec_digits(s@));
                }
            }
            return None;
        }
        proof {
            assert(val * 10 + d <= u64::MAX) by (nonlinear_arith)
                requires
                    val <= (u64::MAX - d) / 10,
                    d <= 9,
            {}
        }
        val = val * 10 + d;
        i = i + 1;
        proof {
            let t = s@.take(i as int);
            assert(t.drop_last() =~= s@.take(i - 1));
            assert(t.last() == s@[i - 1]);
            assert(all_dec_digits(t)) by {
                assert forall|k: int| 0 <= k < t.len() implies is_dec_digit(#[trigger] t[k]) by {
                    if k < i - 1 {
                        assert(is_dec_digit(s@.take(i - 1)[k]));
                    }
                }
            }
        }
    }
    proof {
        assert(s@.take(n as int) =~= s@);
    }
    Some(val)
}

/// Whether every character from position `from` on is a decimal digit.
#[verifier::loop_isolation(false)]
fn all_digits_from(s: &str, from: usize) -> (r: bool)
    requires
        from <= s@.len(),
    ensures
        r == forall|k: int| from <= k < s@.len() ==> is_dec_digit(#[trigger] s@[k]),
{
    let n: usize = s.unicode_len();
    let mut i: usize = from;
    while i < n
        invariant
            from <= i <= n,
            n == s@.len(),
            forall|k: int| from <= k < i ==> is_dec_digit(#[trigger] s@[k]),
        decreases n - i,
    {
        let c: char = s.get_char(i);
        let u: u32 = c as u32;
        if u < 48 || u > 57 {
            assert(!is_dec_digit(s@[i as int]));
            return false;
        }
        i = i + 1;
    }
    true
}

/// Parse a TCP port.  Succeeds exactly on a nonempty, all-digit string
/// whose value fits in `u16`.
pub fn parse_port(s: &str) -> (r: Option<u16>)
    ensures
        match r {
            Some(v) => s@.len() > 0 && all_dec_digits(s@) && v == digits_val(s@),
            None => s@.len() == 0 || !all_dec_digits(s@) || digits_val(s@) > u16::MAX,
        },
{
    match parse_u64(s) {
        Some(v) => {
            if v <= 65535 {
                Some(v as u16)
            } else {
                None
            }
        },
        None => None,
    }
}

/// Parse a connection cap.  Succeeds exactly on a nonempty, all-digit
/// string whose value fits in `u8`.
pub fn parse_connection_cap(s: &str) -> (r: Option<u8>)
    ensures
        match r {
            Some(v) => s@.len() > 0 && all_dec_digits(s@) && v == digits_val(s@),
            None => s@.len() == 0 || !all_dec_digits(s@) || digits_val(s@) > u8::MAX,
        },
{
    match parse_u64(s) {
        Some(v) => {
            if v <= 255 {
                Some(v as u8)
            } else {
                None
            }
        },
        None => None,
    }
}

/// A port string that [`parse_port`] accepts.
pub open spec fn valid_port(s: Seq<char>) -> bool {
    s.len() > 0 && all_dec_digits(s) && digits_val(s) <= u16::MAX
}

/// A connection-cap string that [`parse_connection_cap`] accepts.
pub open spec fn valid_connection_cap(s: Seq<char>) -> bool {
    s.len() > 0 && all_dec_digits(s) && digits_val(s) <= u8::MAX
}

impl Configuration {
    /// Validate the raw configuration values, in the order environment,
    /// port, connection cap; the first malformed value names the error.
    /// The database URL is taken as given.
    pub fn from_values(
        environment: &str,
        app_port: &str,
        database_url: &str,
        max_db_connection: &str,
    ) -> (r: Result<Configuration, ConfigError>)
        ensures
            ({
                let env_ok = environment@ == "Local"@ || environment@ == "Production"@;
                match r {
                    Ok(c) => {
                        &&& env_ok
                        &&& valid_port(app_port@)
                        &&& valid_connection_cap(max_db_connection@)
                        &&& c.environment == (if environment@ == "Local"@ {
                            Environment::Local
                        } else {
                            Environment::Production
                        })
                        &&& c.app_port == digits_val(app_port@)
                        &&& c.max_db_connection == digits_val(max_db_connection@)
                        &&& c.database_url@ == database_url@
                    },
                    Err(e) => {
                        &&& (e == ConfigError::InvalidEnvironment <==> !env_ok)
                        &&& (e == ConfigError::InvalidPort <==> env_ok && !valid_port(app_port@))
                        &&& (e == ConfigError::InvalidMaxConnections <==> env_ok && valid_port(
                            app_port@,
                        ) && !valid_connection_cap(max_db_connection@))
                    },
                }
            }),
    {
        let env = match Environment::from_name(environment) {
            Ok(e) => e,
            Err(e) => {
                return Err(e);
            },
        };
        let port = match parse_port(app_port) {
            Some(p) => p,
            None => {
                return Err(ConfigError::InvalidPort);
            },
        };
        let cap = match parse_connection_cap(max_db_connection) {
            Some(m) => m,
            None => {
                return Err(ConfigError::InvalidMaxConnections);
            },
        };
        Ok(
            Configuration {
                environment: env,
                database_url: String::from_str(database_url),
                app_port: port,
                max_db_connection: cap,
            },
        )
    }
}

} // verus!
