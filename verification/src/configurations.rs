//! Application settings: the deployment environment and the database
//! connection parameters derived from the settings.

use vstd::prelude::*;
use crate::logging::LogLevel;
use crate::text::str_eq;

verus! {

/// What `str::to_lowercase` returns for a string: its lowercase equivalent
/// under the Unicode `Lowercase` derived property. Depends on the string
/// alone.
pub uninterp spec fn unicode_lowercase(s: Seq<char>) -> Seq<char>;

/// Lowercase form of one ASCII character: `A`..=`Z` map to `a`..=`z`, every
/// other character is left alone.
pub open spec fn ascii_lower_char(c: char) -> char {
    if 'A' <= c && c <= 'Z' {
        ((c as u32) + 32) as char
    } else {
        c
    }
}

/// Character-wise ASCII lowercasing.
pub open spec fn ascii_lowercase(s: Seq<char>) -> Seq<char> {
    Seq::new(s.len(), |i: int| ascii_lower_char(s[i]))
}

/// Calls `str::to_lowercase`.
///
/// Trusted: the result is `unicode_lowercase(s@)`, and for a string made of
/// ASCII characters only it is the ASCII lowercasing of `s` (the Unicode
/// lowercase mapping of `A`..=`Z` is `a`..=`z`, and it leaves every other ASCII
/// character unchanged). Nothing is stated of non-ASCII input beyond the name.
#[verifier::external_body]
fn to_lowercase(s: &str) -> (r: String)
    ensures
        r@ == unicode_lowercase(s@),
        vstd::utf8::is_ascii_chars(s@) ==> r@ == ascii_lowercase(s@),
{
    s.to_lowercase()
}

/// The deployment environment the application runs in.
#[derive(Debug, Clone, Copy, PartialEq, Eq, Structural)]
pub enum Environment {
    Local,
    Production,
}

/// The name of an environment, as used in configuration file names and in
/// `APP_ENVIRONMENT`.
pub open spec fn environment_name(env: Environment) -> Seq<char> {
    match env {
        Environment::Local => "local"@,
        Environment::Production => "production"@,
    }
}

/// The error text for an environment name that is not supported.
pub open spec fn unsupported_environment_message(name: Seq<char>) -> Seq<char> {
    name + " is not a supported environment Use either 'local' or 'production'"@
}

/// How an already-lowercased environment name is read.
pub open spec fn environment_from_name(lower: Seq<char>) -> Result<Environment, Seq<char>> {
    if lower == "local"@ {
        Ok(Environment::Local)
    } else if lower == "production"@ {
        Ok(Environment::Production)
    } else {
        Err(unsupported_environment_message(lower))
    }
}

/// `r` is the result of reading the already-lowercased name `lower`.
pub open spec fn reads_as(r: Result<Environment, String>, lower: Seq<char>) -> bool {
    match (r, environment_from_name(lower)) {
        (Ok(e), Ok(f)) => e == f,
        (Err(m), Err(n)) => m@ == n,
        _ => false,
    }
}

impl Environment {
    /// The environment's name.
    pub fn as_str(&self) -> (r: &'static str)
        ensures
            r@ == environment_name(*self),
    {
        match self {
            Environment::Local => "local",
            Environment::Production => "production",
        }
    }

    /// Reads an environment from its name once lowercased.
    pub fn from_lowercase(lower: String) -> (r: Result<Environment, String>)
        ensures
            reads_as(r, lower@),
    {
        if str_eq(lower.as_str(), "local") {
            Ok(Environment::Local)
        } else if str_eq(lower.as_str(), "production") {
            Ok(Environment::Production)
        } else {
            Err(lower.concat(" is not a supported environment Use either 'local' or 'production'"))
        }
    }
}

impl TryFrom<String> for Environment {
    type Error = String;

    /// Reads an environment name, ignoring case.
    fn try_from(value: String) -> (r: Result<Environment, String>)
        ensures
            reads_as(r, unicode_lowercase(value@)),
            vstd::utf8::is_ascii_chars(value@) ==> reads_as(r, ascii_lowercase(value@)),
    {
        let lower = to_lowercase(value.as_str());
        Environment::from_lowercase(lower)
    }
}

/// A name that is already in lowercase ASCII is left alone by ASCII
/// lowercasing.
proof fn lemma_lowercase_fixed(s: Seq<char>)
    requires
        forall|i: int| 0 <= i < s.len() ==> 'a' <= #[trigger] s[i] <= 'z',
    ensures
        vstd::utf8::is_ascii_chars(s),
        ascii_lowercase(s) == s,
{
    assert(ascii_lowercase(s) =~= s);
}

/// Every environment reads back from its own name: the name is ASCII, and
/// lowercasing it gives the name again, which names that environment.
pub proof fn lemma_environment_name_round_trip(env: Environment)
    ensures
        vstd::utf8::is_ascii_chars(environment_name(env)),
        ascii_lowercase(environment_name(env)) == environment_name(env),
        environment_from_name(environment_name(env)) == Ok::<Environment, Seq<char>>(env),
{
    reveal_strlit("local");
    reveal_strlit("production");
    lemma_lowercase_fixed(environment_name(env));
    assert("local"@ != "production"@) by {
        assert("local"@.len() != "production"@.len());
    }
}

/// Reads the environment from the value of `APP_ENVIRONMENT`, `local` when
/// the variable is not set.
pub fn environment_from_var(var: Option<String>) -> (r: Result<Environment, String>)
    ensures
        var is None ==> r == Ok::<Environment, String>(Environment::Local),
        var matches Some(v) ==> reads_as(r, unicode_lowercase(v@)),
        var matches Some(v) ==> (vstd::utf8::is_ascii_chars(v@) ==> reads_as(r, ascii_lowercase(v@))),
{
    match var {
        None => Ok(Environment::Local),
        Some(v) => Environment::try_from(v),
    }
}

/// Settings for the connection to the Postgres database.
pub struct DatabaseSettings {
    pub username: String,
    pub password: String,
    pub port: u16,
    pub host: String,
    pub database_name: String,
    pub require_ssl: bool,
}

/// Settings for the HTTP listener.
pub struct ApplicationSettings {
    pub port: u16,
    pub host: String,
}

/// All application settings.
pub struct Settings {
    pub application: ApplicationSettings,
    pub database: DatabaseSettings,
}

/// Whether a database connection must be encrypted.
#[derive(Debug, Clone, Copy, PartialEq, Eq, Structural)]
pub enum SslMode {
    /// Try an encrypted connection first, fall back to a plain one.
    Prefer,
    /// Refuse to connect without encryption.
    Require,
}

/// The parameters of a Postgres connection, as the application hands them to
/// the database driver.
pub struct ConnectOptions {
    pub host: String,
    pub port: u16,
    pub username: String,
    pub password: String,
    pub ssl_mode: SslMode,
    /// The database to open; `None` connects to the server's default one.
    pub database: Option<String>,
    /// The level at which executed statements are logged; `None` keeps the
    /// driver's default.
    pub log_statements: Option<LogLevel>,
}

/// The encryption mode that the settings ask for.
pub open spec fn ssl_mode_for(require_ssl: bool) -> SslMode {
    if require_ssl {
        SslMode::Require
    } else {
        SslMode::Prefer
    }
}

impl DatabaseSettings {
    /// Connection parameters for the server, without selecting a database.
    pub fn without_db(&self) -> (r: ConnectOptions)
        ensures
            r.host@ == self.host@,
            r.port == self.port,
            r.username@ == self.username@,
            r.password@ == self.password@,
            r.ssl_mode == ssl_mode_for(self.require_ssl),
            r.database is None,
            r.log_statements is None,
    {
        let ssl_mode = if self.require_ssl {
            SslMode::Require
        } else {
            SslMode::Prefer
        };
        ConnectOptions {
            host: self.host.clone(),
            port: self.port,
            username: self.username.clone(),
            password: self.password.clone(),
            ssl_mode,
            database: None,
            log_statements: None,
        }
    }

    /// Connection parameters for the application's database, with executed
    /// statements logged at trace level.
    pub fn with_db(&self) -> (r: ConnectOptions)
        ensures
            r.host@ == self.host@,
            r.port == self.port,
            r.username@ == self.username@,
            r.password@ == self.password@,
            r.ssl_mode == ssl_mode_for(self.require_ssl),
            r.database matches Some(d) && d@ == self.database_name@,
            r.log_statements == Some(LogLevel::Trace),
    {
        let mut options = self.without_db();
        options.database = Some(self.database_name.clone());
        options.log_statements = Some(LogLevel::Trace);
        options
    }
}

impl vstd::std_specs::convert::TryFromSpecImpl<String> for Environment {
    open spec fn obeys_try_from_spec() -> bool {
        false
    }

    open spec fn try_from_spec(v: String) -> Result<Environment, String> {
        arbitrary()
    }
}

} // verus!
