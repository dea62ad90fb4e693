//! The settings of the connection pool.
//!
//! A [`PoolStateBuilder`] collects where the PostgreSQL database is and
//! who connects to it. It starts from defaults or from the values of the
//! environment, takes changes one by one, and at the end writes what it
//! holds into the connect options of `sqlx`.

use vstd::prelude::*;

verus! {

/// `sqlx::postgres::PgConnectOptions`, known to the contracts by what its
/// getters return and by the password that it holds.
#[verifier::external_type_specification]
#[verifier::external_body]
pub struct ExPgConnectOptions(sqlx::postgres::PgConnectOptions);

/// The variable that names the application to the database.
pub const POSTGRES_APPNAME: &'static str = "POSTGRES_APPNAME";

/// The variable that holds the host name of the database.
pub const POSTGRES_HOST: &'static str = "POSTGRES_HOST";

/// The variable that holds the port of the database.
pub const POSTGRES_PORT: &'static str = "POSTGRES_PORT";

/// The variable that holds the user name.
pub const POSTGRES_USER: &'static str = "POSTGRES_USER";

/// The variable that holds the password.
pub const POSTGRES_PASSWORD: &'static str = "POSTGRES_PASSWORD";

/// The variable that holds the name of the database.
pub const POSTGRES_DATABASE: &'static str = "POSTGRES_DATABASE";

/// The port of a PostgreSQL server that was not told otherwise.
pub const DEFAULT_PORT: u16 = 5432;

/// The host of connect options, as `PgConnectOptions::get_host` gives it.
pub uninterp spec fn connect_host(options: sqlx::postgres::PgConnectOptions) -> Seq<char>;

/// The port of connect options, as `PgConnectOptions::get_port` gives it.
pub uninterp spec fn connect_port(options: sqlx::postgres::PgConnectOptions) -> u16;

/// The user name of connect options, as `PgConnectOptions::get_username`
/// gives it.
pub uninterp spec fn connect_username(options: sqlx::postgres::PgConnectOptions) -> Seq<char>;

/// The database of connect options, as `PgConnectOptions::get_database`
/// gives it.
pub uninterp spec fn connect_database(options: sqlx::postgres::PgConnectOptions) -> Option<
    Seq<char>,
>;

/// The application name of connect options, as
/// `PgConnectOptions::get_application_name` gives it.
pub uninterp spec fn connect_application_name(
    options: sqlx::postgres::PgConnectOptions,
) -> Option<Seq<char>>;

/// The password of connect options: what their field `password` holds.
/// `sqlx` has no getter for it; it sends the password when it connects.
pub uninterp spec fn connect_password(options: sqlx::postgres::PgConnectOptions) -> Option<
    Seq<char>,
>;

/// `PgConnectOptions::host` sets the host and leaves the rest as it was.
pub assume_specification[ sqlx::postgres::PgConnectOptions::host ](
    options: sqlx::postgres::PgConnectOptions,
    host: &str,
) -> (changed: sqlx::postgres::PgConnectOptions)
    ensures
        connect_host(changed) == host@,
        connect_port(changed) == connect_port(options),
        connect_username(changed) == connect_username(options),
        connect_database(changed) == connect_database(options),
        connect_application_name(changed) == connect_application_name(options),
        connect_password(changed) == connect_password(options),
;

/// `PgConnectOptions::port` sets the port and leaves the rest as it was.
pub assume_specification[ sqlx::postgres::PgConnectOptions::port ](
    options: sqlx::postgres::PgConnectOptions,
    port: u16,
) -> (changed: sqlx::postgres::PgConnectOptions)
    ensures
        connect_host(changed) == connect_host(options),
        connect_port(changed) == port,
        connect_username(changed) == connect_username(options),
        connect_database(changed) == connect_database(options),
        connect_application_name(changed) == connect_application_name(options),
        connect_password(changed) == connect_password(options),
;

/// `PgConnectOptions::username` sets the user name and leaves the rest as
/// it was.
pub assume_specification[ sqlx::postgres::PgConnectOptions::username ](
    options: sqlx::postgres::PgConnectOptions,
    username: &str,
) -> (changed: sqlx::postgres::PgConnectOptions)
    ensures
        connect_host(changed) == connect_host(options),
        connect_port(changed) == connect_port(options),
        connect_username(changed) == username@,
        connect_database(changed) == connect_database(options),
        connect_application_name(changed) == connect_application_name(options),
        connect_password(changed) == connect_password(options),
;

/// `PgConnectOptions::password` sets the password and leaves the rest as
/// it was.
pub assume_specification[ sqlx::postgres::PgConnectOptions::password ](
    options: sqlx::postgres::PgConnectOptions,
    password: &str,
) -> (changed: sqlx::postgres::PgConnectOptions)
    ensures
        connect_host(changed) == connect_host(options),
        connect_port(changed) == connect_port(options),
        connect_username(changed) == connect_username(options),
        connect_database(changed) == connect_database(options),
        connect_application_name(changed) == connect_application_name(options),
        connect_password(changed) == Some(password@),
;

/// `PgConnectOptions::database` sets the database and leaves the rest as
/// it was.
pub assume_specification[ sqlx::postgres::PgConnectOptions::database ](
    options: sqlx::postgres::PgConnectOptions,
    database: &str,
) -> (changed: sqlx::postgres::PgConnectOptions)
    ensures
        connect_host(changed) == connect_host(options),
        connect_port(changed) == connect_port(options),
        connect_username(changed) == connect_username(options),
        connect_database(changed) == Some(database@),
        connect_application_name(changed) == connect_application_name(options),
        connect_password(changed) == connect_password(options),
;

/// `PgConnectOptions::application_name` sets the application name and
/// leaves the rest as it was.
pub assume_specification[ sqlx::postgres::PgConnectOptions::application_name ](
    options: sqlx::postgres::PgConnectOptions,
    application_name: &str,
) -> (changed: sqlx::postgres::PgConnectOptions)
    ensures
        connect_host(changed) == connect_host(options),
        connect_port(changed) == connect_port(options),
        connect_username(changed) == connect_username(options),
        connect_database(changed) == connect_database(options),
        connect_application_name(changed) == Some(application_name@),
        connect_password(changed) == connect_password(options),
;

/// The number that a text of decimal digits stands for.
pub open spec fn digits_value(digits: Seq<char>) -> nat
    decreases digits.len(),
{
    if digits.len() == 0 {
        0
    } else {
        digits_value(digits.drop_last()) * 10 + (digits.last() as u32 - 48) as nat
    }
}

/// Whether a text is made of the digits `0` to `9` alone.
pub open spec fn all_digits(digits: Seq<char>) -> bool {
    forall|i: int| 0 <= i < digits.len() ==> 48 <= #[trigger] digits[i] as u32 <= 57
}

/// The number that a text stands for as a `u16`: an optional `+`, then at
/// least one decimal digit and nothing else, with a value that fits.
pub open spec fn decimal_u16(text: Seq<char>) -> Option<u16> {
    let digits = if text.len() > 0 && text[0] == '+' {
        text.subrange(1, text.len() as int)
    } else {
        text
    };
    if digits.len() > 0 && all_digits(digits) && digits_value(digits) <= u16::MAX {
        Some(digits_value(digits) as u16)
    } else {
        None
    }
}

/// `str::parse::<u16>`: the number that the text stands for, if it stands
/// for one.
#[verifier::external_body]
pub(crate) fn parse_u16(text: &str) -> (number: Option<u16>)
    ensures
        number == decimal_u16(text@),
{
    text.parse::<u16>().ok()
}

/// What the environment says of the database: the value of each of the
/// six variables, where it is set.
#[derive(Clone, Debug)]
pub struct PostgresEnv {
    /// The value of `POSTGRES_APPNAME`.
    pub application_name: Option<String>,
    /// The value of `POSTGRES_HOST`.
    pub host: Option<String>,
    /// The value of `POSTGRES_PORT`.
    pub port: Option<String>,
    /// The value of `POSTGRES_USER`.
    pub user: Option<String>,
    /// The value of `POSTGRES_PASSWORD`.
    pub password: Option<String>,
    /// The value of `POSTGRES_DATABASE`.
    pub dbname: Option<String>,
}

/// The settings of a pool as mathematical values.
pub struct PoolSettings {
    /// The name of the application, if one is given.
    pub application_name: Option<Seq<char>>,
    /// The host name of the database.
    pub host: Seq<char>,
    /// The port of the database.
    pub port: u16,
    /// The user name.
    pub user: Seq<char>,
    /// The password, if one is given.
    pub password: Option<Seq<char>>,
    /// The name of the database, if one is given.
    pub dbname: Option<Seq<char>>,
}

/// The text of an optional string.
pub open spec fn option_view(text: Option<String>) -> Option<Seq<char>> {
    match text {
        Some(s) => Some(s@),
        None => None,
    }
}

/// The settings without any change: the database on `localhost`, port
/// 5432, user `postgres`, and nothing else.
pub open spec fn default_settings() -> PoolSettings {
    PoolSettings {
        application_name: None,
        host: "localhost"@,
        port: DEFAULT_PORT,
        user: "postgres"@,
        password: None,
        dbname: None,
    }
}

/// The port that the value of `POSTGRES_PORT` stands for: 5432 where the
/// variable is not set or does not hold a port.
pub open spec fn port_from_env(port: Option<Seq<char>>) -> u16 {
    match port {
        Some(text) => match decimal_u16(text) {
            Some(number) => number,
            None => DEFAULT_PORT,
        },
        None => DEFAULT_PORT,
    }
}

/// The settings that the environment asks for: each variable that is set
/// takes the place of the default.
pub open spec fn settings_from_env(env: PostgresEnv) -> PoolSettings {
    PoolSettings {
        application_name: option_view(env.application_name),
        host: match env.host {
            Some(host) => host@,
            None => "localhost"@,
        },
        port: port_from_env(option_view(env.port)),
        user: match env.user {
            Some(user) => user@,
            None => "postgres"@,
        },
        password: option_view(env.password),
        dbname: option_view(env.dbname),
    }
}

/// Where none of the six variables is set, the environment asks for the
/// default settings.
pub proof fn lemma_empty_env_gives_defaults(env: PostgresEnv)
    requires
        env.application_name is None,
        env.host is None,
        env.port is None,
        env.user is None,
        env.password is None,
        env.dbname is None,
    ensures
        settings_from_env(env) == default_settings(),
{
}

/// Collects the settings of a connection pool.
#[derive(Debug)]
pub struct PoolStateBuilder {
    /// The name of the application, if one is given.
    pub application_name: Option<String>,
    /// The host name of the database.
    pub host: String,
    /// The port of the database.
    pub port: u16,
    /// The user name.
    pub user: String,
    /// The password, if one is given.
    pub password: Option<String>,
    /// The name of the database, if one is given.
    pub dbname: Option<String>,
}

impl View for PoolStateBuilder {
    type V = PoolSettings;

    open spec fn view(&self) -> PoolSettings {
        PoolSettings {
            application_name: option_view(self.application_name),
            host: self.host@,
            port: self.port,
            user: self.user@,
            password: option_view(self.password),
            dbname: option_view(self.dbname),
        }
    }
}

impl PoolStateBuilder {
    /// A builder with the default settings.
    pub fn new() -> (builder: Self)
        ensures
            builder@ == default_settings(),
    {
        PoolStateBuilder {
            application_name: None,
            host: String::from_str("localhost"),
            port: DEFAULT_PORT,
            user: String::from_str("postgres"),
            password: None,
            dbname: None,
        }
    }

    /// A builder with the settings that the environment asks for. A port
    /// that is not a number between 0 and 65535 counts as not set.
    pub fn from_env(env: PostgresEnv) -> (builder: Self)
        ensures
            builder@ == settings_from_env(env),
    {
        let host = match env.host {
            Some(host) => host,
            None => String::from_str("localhost"),
        };
        let port: u16 = match &env.port {
            Some(text) => match parse_u16(text.as_str()) {
                Some(number) => number,
                None => DEFAULT_PORT,
            },
            None => DEFAULT_PORT,
        };
        let user = match env.user {
            Some(user) => user,
            None => String::from_str("postgres"),
        };
        PoolStateBuilder {
            application_name: env.application_name,
            host,
            port,
            user,
            password: env.password,
            dbname: env.dbname,
        }
    }

    /// Sets the name under which the application connects.
    pub fn application_name(self, application_name: &str) -> (builder: Self)
        ensures
            builder@ == (PoolSettings { application_name: Some(application_name@), ..self@ }),
    {
        let mut builder = self;
        builder.application_name = Some(application_name.to_owned());
        builder
    }

    /// Sets the host name of the database.
    pub fn host(self, host: &str) -> (builder: Self)
        ensures
            builder@ == (PoolSettings { host: host@, ..self@ }),
    {
        let mut builder = self;
        builder.host = host.to_owned();
        builder
    }

    /// Sets the port of the database.
    pub fn port(self, port: u16) -> (builder: Self)
        ensures
            builder@ == (PoolSettings { port: port, ..self@ }),
    {
        let mut builder = self;
        builder.port = port;
        builder
    }

    /// Sets the user name.
    pub fn user(self, user: &str) -> (builder: Self)
        ensures
            builder@ == (PoolSettings { user: user@, ..self@ }),
    {
        let mut builder = self;
        builder.user = user.to_owned();
        builder
    }

    /// Sets the password.
    pub fn password(self, password: &str) -> (builder: Self)
        ensures
            builder@ == (PoolSettings { password: Some(password@), ..self@ }),
    {
        let mut builder = self;
        builder.password = Some(password.to_owned());
        builder
    }

    /// Sets the name of the database.
    pub fn dbname(self, dbname: &str) -> (builder: Self)
        ensures
            builder@ == (PoolSettings { dbname: Some(dbname@), ..self@ }),
    {
        let mut builder = self;
        builder.dbname = Some(dbname.to_owned());
        builder
    }

    /// Writes the settings into connect options. The host, the port and
    /// the user name are always written; the application name, the
    /// database and the password where the builder holds one, and else
    /// `base` keeps its own.
    pub fn connect_options(self, base: sqlx::postgres::PgConnectOptions) -> (options:
        sqlx::postgres::PgConnectOptions)
        ensures
            connect_host(options) == self@.host,
            connect_port(options) == self@.port,
            connect_username(options) == self@.user,
            connect_application_name(options) == match self@.application_name {
                Some(name) => Some(name),
                None => connect_application_name(base),
            },
            connect_database(options) == match self@.dbname {
                Some(name) => Some(name),
                None => connect_database(base),
            },
            connect_password(options) == match self@.password {
                Some(word) => Some(word),
                None => connect_password(base),
            },
    {
        let mut options = base.host(self.host.as_str()).port(self.port).username(
            self.user.as_str(),
        );
        if let Some(application_name) = self.application_name {
            options = options.application_name(application_name.as_str());
        }
        if let Some(dbname) = self.dbname {
            options = options.database(dbname.as_str());
        }
        if let Some(password) = self.password {
            options = options.password(password.as_str());
        }
        options
    }
}

} // verus!
