use vstd::prelude::*;
use crate::config::ConnectorConfig;

verus! {

/// Whether a connector could be set up, or why not.
#[derive(Debug)]
pub enum ConnectorStatus {
    Connected,
    Custom(String),
}

/// A configured connector and the state of its set-up.
#[derive(Debug)]
pub struct Connector {
    pub config: ConnectorConfig,
    pub status: ConnectorStatus,
}

impl Clone for ConnectorStatus {
    fn clone(&self) -> (out: ConnectorStatus)
        ensures
            out == *self,
    {
        match self {
            ConnectorStatus::Connected => ConnectorStatus::Connected,
            ConnectorStatus::Custom(msg) => ConnectorStatus::Custom(msg.clone()),
        }
    }
}

impl ConnectorStatus {
    pub open spec fn as_str_spec(self) -> Seq<char> {
        match self {
            ConnectorStatus::Connected => "connected"@,
            ConnectorStatus::Custom(msg) => msg@,
        }
    }

    /// The text shown in the status column.
    pub fn as_str(&self) -> (out: &str)
        ensures
            out@ == self.as_str_spec(),
    {
        match self {
            ConnectorStatus::Connected => "connected",
            ConnectorStatus::Custom(msg) => msg.as_str(),
        }
    }

    /// The status of a connector whose token could not be found under `alias`.
    pub fn token_not_found(alias: &str) -> (out: ConnectorStatus)
        ensures
            out is Custom,
            out->Custom_0@ == "Token not found for alias "@ + alias@,
    {
        let mut msg = "Token not found for alias ".to_owned();
        msg.append(alias);
        ConnectorStatus::Custom(msg)
    }
}

impl Clone for Connector {
    fn clone(&self) -> (out: Connector)
        ensures
            out == *self,
    {
        Connector { config: self.config.clone(), status: self.status.clone() }
    }
}

impl Connector {
    pub fn new(config: ConnectorConfig, status: ConnectorStatus) -> (out: Connector)
        ensures
            out == (Connector { config, status }),
    {
        Connector { config, status }
    }

    pub fn config(&self) -> (out: &ConnectorConfig)
        ensures
            *out == self.config,
    {
        &self.config
    }

    pub fn status(&self) -> (out: &ConnectorStatus)
        ensures
            *out == self.status,
    {
        &self.status
    }
}

} // verus!
