use crate::domain::{valid_email, SubscriberEmail};
use crate::secret::Secret;
use vstd::prelude::*;

verus! {

/// The lower-case form of `s`, as Unicode defines it.
pub uninterp spec fn lower_of(s: Seq<char>) -> Seq<char>;

/// Relies on `str::to_lowercase`: the result depends on the characters alone.
#[verifier::external_body]
fn lowercase(s: &str) -> (r: String)
    ensures
        r@ == lower_of(s@),
{
    s.to_lowercase()
}

/// The duration of `ms` milliseconds.
pub uninterp spec fn duration_of_millis(ms: u64) -> core::time::Duration;

/// Relies on `Duration::from_millis`: the duration depends on the count alone.
pub assume_specification[ core::time::Duration::from_millis ](millis: u64) -> (r:
    core::time::Duration)
    ensures
        r == duration_of_millis(millis),
;

/// The runtime environments the application knows.
#[derive(Debug, Clone, Copy, PartialEq, Eq, Structural)]
pub enum Environment {
    Local,
    Ci,
    Production,
}

/// The name of an environment, which is also the stem of its configuration
/// file.
pub open spec fn environment_name(e: Environment) -> Seq<char> {
    match e {
        Environment::Local => "local"@,
        Environment::Ci => "ci"@,
        Environment::Production => "production"@,
    }
}

/// `s` names no environment.
pub open spec fn names_no_environment(s: Seq<char>) -> bool {
    forall|e: Environment| #[trigger] environment_name(e) != s
}

pub open spec fn unsupported_message(s: Seq<char>) -> Seq<char> {
    s + " is not a supported environment. Use either `local`, `ci` or `production`."@
}

impl Environment {
    pub fn as_str(&self) -> (r: &'static str)
        ensures
            r@ == environment_name(*self),
    {
        match self {
            Environment::Local => "local",
            Environment::Ci => "ci",
            Environment::Production => "production",
        }
    }

    /// The environment that `lowered` names exactly; otherwise an error that
    /// names `lowered`.
    pub fn from_lowercase(lowered: String) -> (r: Result<Environment, String>)
        ensures
            r is Ok ==> environment_name(r->Ok_0) == lowered@,
            r is Err <==> names_no_environment(lowered@),
            r is Err ==> r->Err_0@ == unsupported_message(lowered@),
    {
        if lowered == String::from_str("local") {
            assert(environment_name(Environment::Local) == lowered@);
            Ok(Environment::Local)
        } else if lowered == String::from_str("ci") {
            assert(environment_name(Environment::Ci) == lowered@);
            Ok(Environment::Ci)
        } else if lowered == String::from_str("production") {
            assert(environment_name(Environment::Production) == lowered@);
            Ok(Environment::Production)
        } else {
            assert(names_no_environment(lowered@)) by {
                assert forall|e: Environment| #[trigger] environment_name(e) != lowered@ by {
                    match e {
                        Environment::Local => {},
                        Environment::Ci => {},
                        Environment::Production => {},
                    }
                }
            }
            Err(lowered.concat(
                " is not a supported environment. Use either `local`, `ci` or `production`.",
            ))
        }
    }

    /// The environment that `s` names, in any case.
    pub fn try_from(s: String) -> (r: Result<Environment, String>)
        ensures
            r is Ok ==> environment_name(r->Ok_0) == lower_of(s@),
            r is Err <==> names_no_environment(lower_of(s@)),
            r is Err ==> r->Err_0@ == unsupported_message(lower_of(s@)),
    {
        let lowered = lowercase(s.as_str());
        Environment::from_lowercase(lowered)
    }

    /// The name of the environment's configuration file.
    pub fn file_name(&self) -> (r: String)
        ensures
            r@ == environment_name(*self) + ".yaml"@,
    {
        String::from_str(self.as_str()).concat(".yaml")
    }
}

/// The environment that the value of `APP_ENVIRONMENT` selects: `local` where
/// the variable is unset.
pub fn environment_from_var(value: Option<String>) -> (r: Result<Environment, String>)
    ensures
        value is None ==> r == Ok::<Environment, String>(Environment::Local),
        value is Some ==> {
            let s = lower_of(value->Some_0@);
            &&& r is Ok ==> environment_name(r->Ok_0) == s
            &&& r is Err <==> names_no_environment(s)
            &&& r is Err ==> r->Err_0@ == unsupported_message(s)
        },
{
    match value {
        None => Ok(Environment::Local),
        Some(s) => Environment::try_from(s),
    }
}

/// Where the HTTP server listens, and the address it is reached at.
pub struct ApplicationSettings {
    pub port: u16,
    pub host: String,
    pub base_url: String,
}

/// How the server asks for TLS on its database connection.
#[derive(Debug, Clone, Copy, PartialEq, Eq, Structural)]
pub enum SslMode {
    Require,
    Prefer,
}

/// What a Postgres connection is opened with; `database` is `None` to
/// connect to the server alone.
pub struct ConnectOptions<'a> {
    pub host: String,
    pub username: String,
    pub password: &'a Secret,
    pub port: u16,
    pub ssl_mode: SslMode,
    pub database: Option<String>,
}

pub struct DatabaseSettings {
    pub username: String,
    pub password: Secret,
    pub port: u16,
    pub host: String,
    pub database_name: String,
    /// Whether the connection must be encrypted.
    pub require_ssl: bool,
}

pub open spec fn ssl_mode_for(require_ssl: bool) -> SslMode {
    if require_ssl {
        SslMode::Require
    } else {
        SslMode::Prefer
    }
}

/// `o` connects to the server that `d` describes, as its user.
pub open spec fn connects_to_server(o: ConnectOptions, d: DatabaseSettings) -> bool {
    &&& o.host@ == d.host@
    &&& o.username@ == d.username@
    &&& o.password@ == d.password@
    &&& o.port == d.port
    &&& o.ssl_mode == ssl_mode_for(d.require_ssl)
}

impl DatabaseSettings {
    /// Connection options for the server, with no database selected.
    pub fn without_db(&self) -> (r: ConnectOptions<'_>)
        ensures
            connects_to_server(r, *self),
            r.database is None,
    {
        let ssl_mode = if self.require_ssl {
            SslMode::Require
        } else {
            SslMode::Prefer
        };
        ConnectOptions {
            host: self.host.clone(),
            username: self.username.clone(),
            password: &self.password,
            port: self.port,
            ssl_mode,
            database: None,
        }
    }

    /// Connection options for the configured database.
    pub fn with_db(&self) -> (r: ConnectOptions<'_>)
        ensures
            connects_to_server(r, *self),
            r.database is Some,
            r.database->Some_0@ == self.database_name@,
    {
        let mut options = self.without_db();
        options.database = Some(self.database_name.clone());
        options
    }
}

pub struct EmailClientSettings {
    pub base_url: String,
    pub sender_email: String,
    pub authorization_token: Secret,
    pub timeout_milliseconds: u64,
}

impl EmailClientSettings {
    /// The configured sender, checked as any address is.
    pub fn sender(&self) -> (r: Result<SubscriberEmail, String>)
        ensures
            r is Ok <==> valid_email(self.sender_email@),
            r is Ok ==> r->Ok_0@ == self.sender_email@,
            r is Err ==> r->Err_0@ == self.sender_email@ + " is not a valid subscriber email."@,
    {
        SubscriberEmail::parse(self.sender_email.clone())
    }

    /// How long a request to the email provider may take.
    pub fn timeout(&self) -> (r: core::time::Duration)
        ensures
            r == duration_of_millis(self.timeout_milliseconds),
    {
        core::time::Duration::from_millis(self.timeout_milliseconds)
    }
}

/// The whole configuration, read once at start-up.
pub struct Settings {
    pub application: ApplicationSettings,
    pub database: DatabaseSettings,
    pub email_client: EmailClientSettings,
}

} // verus!
