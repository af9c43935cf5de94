//! The connection settings of the store.
//!
//! Five named settings describe how the store is reached. The host and the
//! port have defaults; the user, the password and the database name must be
//! given. No value is inspected: a malformed one shows when a connection is
//! attempted.

use vstd::prelude::*;
use vstd::string::*;

verus! {

/// The name of the setting that holds the store's host.
pub const HOST_SETTING: &'static str = "DB_HOST";

/// The name of the setting that holds the store's port.
pub const PORT_SETTING: &'static str = "DB_PORT";

/// The name of the setting that holds the user.
pub const USER_SETTING: &'static str = "DB_USER";

/// The name of the setting that holds the password.
pub const PASSWORD_SETTING: &'static str = "DB_PASS";

/// The name of the setting that holds the database's name.
pub const DATABASE_SETTING: &'static str = "DB_NAME";

/// The host that is used where none is set.
pub const DEFAULT_HOST: &'static str = "localhost";

/// The port that is used where none is set.
pub const DEFAULT_PORT: &'static str = "5432";

/// A mandatory setting that is absent.
#[derive(Debug, Clone, Copy, PartialEq, Eq, Structural)]
pub enum ConfigError {
    MissingUser,
    MissingPassword,
    MissingDatabase,
}

/// How the store is reached.
#[derive(Debug, Clone, PartialEq, Eq)]
pub struct ConnectionDescriptor {
    pub host: String,
    pub port: String,
    pub user: String,
    pub password: String,
    pub database: String,
}

/// A connection descriptor as plain text values.
pub struct DescriptorView {
    pub host: Seq<char>,
    pub port: Seq<char>,
    pub user: Seq<char>,
    pub password: Seq<char>,
    pub database: Seq<char>,
}

impl View for ConnectionDescriptor {
    type V = DescriptorView;

    open spec fn view(&self) -> DescriptorView {
        DescriptorView {
            host: self.host@,
            port: self.port@,
            user: self.user@,
            password: self.password@,
            database: self.database@,
        }
    }
}

/// The text of a setting, where it is set.
pub open spec fn setting_text(setting: Option<String>) -> Option<Seq<char>> {
    match setting {
        Some(value) => Some(value@),
        None => None,
    }
}

/// What five settings resolve to: the first absent mandatory setting, in the
/// order user, password, database; or else the descriptor, with the defaults
/// in place of an absent host or port.
pub open spec fn resolve(
    host: Option<Seq<char>>,
    port: Option<Seq<char>>,
    user: Option<Seq<char>>,
    password: Option<Seq<char>>,
    database: Option<Seq<char>>,
) -> Result<DescriptorView, ConfigError> {
    if user.is_none() {
        Err(ConfigError::MissingUser)
    } else if password.is_none() {
        Err(ConfigError::MissingPassword)
    } else if database.is_none() {
        Err(ConfigError::MissingDatabase)
    } else {
        Ok(
            DescriptorView {
                host: if host.is_some() {
                    host.unwrap()
                } else {
                    DEFAULT_HOST@
                },
                port: if port.is_some() {
                    port.unwrap()
                } else {
                    DEFAULT_PORT@
                },
                user: user.unwrap(),
                password: password.unwrap(),
                database: database.unwrap(),
            },
        )
    }
}

/// The parameter text that opens a connection described by `d`.
pub open spec fn connection_text(d: DescriptorView) -> Seq<char> {
    "host="@ + d.host + " port="@ + d.port + " user="@ + d.user + " password="@ + d.password
        + " dbname="@ + d.database
}

/// The view of a resolved descriptor, or the error.
pub open spec fn resolved_view(r: Result<ConnectionDescriptor, ConfigError>) -> Result<
    DescriptorView,
    ConfigError,
> {
    match r {
        Ok(d) => Ok(d@),
        Err(e) => Err(e),
    }
}

impl ConfigError {
    /// The name of the setting that is absent.
    pub fn setting(&self) -> (name: &'static str)
        ensures
            name@ == (match *self {
                ConfigError::MissingUser => USER_SETTING@,
                ConfigError::MissingPassword => PASSWORD_SETTING@,
                ConfigError::MissingDatabase => DATABASE_SETTING@,
            }),
    {
        match self {
            ConfigError::MissingUser => USER_SETTING,
            ConfigError::MissingPassword => PASSWORD_SETTING,
            ConfigError::MissingDatabase => DATABASE_SETTING,
        }
    }

    /// What to tell the operator: the setting's name, then ` must be set`.
    pub fn message(&self) -> (text: String)
        ensures
            text@ == (match *self {
                ConfigError::MissingUser => USER_SETTING@,
                ConfigError::MissingPassword => PASSWORD_SETTING@,
                ConfigError::MissingDatabase => DATABASE_SETTING@,
            }) + " must be set"@,
    {
        String::from_str(self.setting()).concat(" must be set")
    }
}

impl ConnectionDescriptor {
    /// Resolves the five settings, each given as it was found: `None` where
    /// it is not set.
    pub fn from_settings(
        host: Option<String>,
        port: Option<String>,
        user: Option<String>,
        password: Option<String>,
        database: Option<String>,
    ) -> (resolved: Result<ConnectionDescriptor, ConfigError>)
        ensures
            resolved_view(resolved) == resolve(
                setting_text(host),
                setting_text(port),
                setting_text(user),
                setting_text(password),
                setting_text(database),
            ),
    {
        let user = match user {
            Some(value) => value,
            None => {
                return Err(ConfigError::MissingUser);
            },
        };
        let password = match password {
            Some(value) => value,
            None => {
                return Err(ConfigError::MissingPassword);
            },
        };
        let database = match database {
            Some(value) => value,
            None => {
                return Err(ConfigError::MissingDatabase);
            },
        };
        let host = match host {
            Some(value) => value,
            None => String::from_str(DEFAULT_HOST),
        };
        let port = match port {
            Some(value) => value,
            None => String::from_str(DEFAULT_PORT),
        };
        Ok(ConnectionDescriptor { host, port, user, password, database })
    }

    /// The parameter text that opens a connection to the store.
    pub fn connection_string(&self) -> (params: String)
        ensures
            params@ == connection_text(self@),
    {
        let mut params = String::from_str("host=");
        params.append(self.host.as_str());
        params.append(" port=");
        params.append(self.port.as_str());
        params.append(" user=");
        params.append(self.user.as_str());
        params.append(" password=");
        params.append(self.password.as_str());
        params.append(" dbname=");
        params.append(self.database.as_str());
        params
    }
}

/// The settings resolve to a descriptor exactly when the user, the password
/// and the database name are all set; the host and the port never matter
/// for that.
pub proof fn lemma_mandatory_settings(
    host: Option<Seq<char>>,
    port: Option<Seq<char>>,
    user: Option<Seq<char>>,
    password: Option<Seq<char>>,
    database: Option<Seq<char>>,
)
    ensures
        resolve(host, port, user, password, database).is_ok() <==> (user.is_some()
            && password.is_some() && database.is_some()),
{
}

} // verus!
