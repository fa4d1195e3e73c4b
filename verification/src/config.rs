use vstd::prelude::*;

verus! {

/// How a connector authenticates its caller.
#[derive(Debug)]
pub enum AuthKind {
    NoAuth,
    Token { token_alias: String },
}

/// A named connector profile: where it is and how to authenticate.
#[derive(Debug)]
pub struct ConnectorConfig {
    pub name: String,
    pub address: String,
    pub auth: AuthKind,
}

/// The connector profiles of one installation.
pub struct Config {
    pub connectors: Vec<ConnectorConfig>,
}

impl Default for AuthKind {
    fn default() -> (out: AuthKind)
        ensures
            out == AuthKind::NoAuth,
    {
        AuthKind::NoAuth
    }
}

impl Clone for AuthKind {
    fn clone(&self) -> (out: AuthKind)
        ensures
            out == *self,
    {
        match self {
            AuthKind::NoAuth => AuthKind::NoAuth,
            AuthKind::Token { token_alias } => AuthKind::Token { token_alias: token_alias.clone() },
        }
    }
}

impl AuthKind {
    pub open spec fn kind_spec(self) -> Seq<char> {
        match self {
            AuthKind::NoAuth => "No auth"@,
            AuthKind::Token { .. } => "Token based"@,
        }
    }

    /// The label shown in the connector list.
    pub fn kind(&self) -> (out: &str)
        ensures
            out@ == self.kind_spec(),
    {
        match self {
            AuthKind::NoAuth => "No auth",
            AuthKind::Token { .. } => "Token based",
        }
    }
}

impl Clone for ConnectorConfig {
    fn clone(&self) -> (out: ConnectorConfig)
        ensures
            out == *self,
    {
        ConnectorConfig {
            name: self.name.clone(),
            address: self.address.clone(),
            auth: self.auth.clone(),
        }
    }
}

impl ConnectorConfig {
    pub fn new(name: String, address: String, auth: AuthKind) -> (out: ConnectorConfig)
        ensures
            out == (ConnectorConfig { name, address, auth }),
    {
        ConnectorConfig { name, address, auth }
    }

    pub fn name(&self) -> (out: &str)
        ensures
            out@ == self.name@,
    {
        self.name.as_str()
    }

    pub fn address(&self) -> (out: &str)
        ensures
            out@ == self.address@,
    {
        self.address.as_str()
    }

    pub fn auth(&self) -> (out: &AuthKind)
        ensures
            *out == self.auth,
    {
        &self.auth
    }
}

/// The name of the configuration file inside the configuration directory.
pub open spec fn default_file_name() -> Seq<char> {
    "config.toml"@
}

/// The path of the configuration file inside the directory `config_dir`, which is
/// given without a trailing separator.
pub fn default_file(config_dir: &str) -> (out: String)
    ensures
        out@ == config_dir@ + "/"@ + default_file_name(),
{
    let mut out = config_dir.to_owned();
    out.append("/");
    out.append("config.toml");
    out
}

} // verus!
