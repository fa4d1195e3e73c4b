use vstd::prelude::*;
use crate::client::BuilderError;
use crate::policy::Policy;
use crate::properties::Properties;
use crate::requests::DataAddress;
use crate::text::debug_of;
use crate::text::quoted;

verus! {

/// The protocol that two connectors speak when none is named.
pub open spec fn dataspace_protocol() -> Seq<char> {
    "dataspace-protocol-http"@
}

/// The name space of the connector's own terms.
pub open spec fn edc_namespace() -> Seq<char> {
    "https://w3id.org/edc/v0.0.1/ns/"@
}

/// The name of a protocol.
pub struct Protocol(pub String);

impl Protocol {
    pub fn new(protocol: &str) -> (out: Protocol)
        ensures
            out.0@ == protocol@,
    {
        Protocol(protocol.to_owned())
    }
}

impl Default for Protocol {
    fn default() -> (out: Protocol)
        ensures
            out.0@ == dataspace_protocol(),
    {
        Protocol("dataspace-protocol-http".to_owned())
    }
}

/// How a callback authenticates itself.
pub struct CallbackAddressAuth {
    pub auth_key: String,
    pub auth_code_id: String,
}

/// Where events are to be reported to.
pub struct CallbackAddress {
    pub transactional: bool,
    pub uri: String,
    pub events: Vec<String>,
    pub auth: Option<CallbackAddressAuth>,
}

pub struct CallbackAddressBuilder {
    pub transactional: bool,
    pub uri: Option<String>,
    pub events: Vec<String>,
    pub auth: Option<CallbackAddressAuth>,
}

impl Default for CallbackAddressBuilder {
    fn default() -> (out: Self)
        ensures
            !out.transactional,
            out.uri is None,
            out.events@.len() == 0,
            out.auth is None,
    {
        CallbackAddressBuilder { transactional: false, uri: None, events: Vec::new(), auth: None }
    }
}

impl CallbackAddress {
    pub fn builder() -> (out: CallbackAddressBuilder)
        ensures
            !out.transactional,
            out.uri is None,
            out.events@.len() == 0,
            out.auth is None,
    {
        CallbackAddressBuilder::default()
    }
}

impl CallbackAddressBuilder {
    pub fn transactional(self, transactional: bool) -> (out: Self)
        ensures
            out == (CallbackAddressBuilder { transactional, ..self }),
    {
        let mut out = self;
        out.transactional = transactional;
        out
    }

    pub fn uri(self, uri: &str) -> (out: Self)
        ensures
            out.uri is Some,
            out.uri->Some_0@ == uri@,
            out.transactional == self.transactional,
            out.events == self.events,
            out.auth == self.auth,
    {
        let mut out = self;
        out.uri = Some(uri.to_owned());
        out
    }

    pub fn events(self, events: Vec<String>) -> (out: Self)
        ensures
            out == (CallbackAddressBuilder { events, ..self }),
    {
        let mut out = self;
        out.events = events;
        out
    }

    pub fn auth(self, auth_key: &str, auth_code_id: &str) -> (out: Self)
        ensures
            out.auth is Some,
            out.auth->Some_0.auth_key@ == auth_key@,
            out.auth->Some_0.auth_code_id@ == auth_code_id@,
            out.transactional == self.transactional,
            out.events == self.events,
            out.uri == self.uri,
    {
        let mut out = self;
        out.auth = Some(
            CallbackAddressAuth {
                auth_key: auth_key.to_owned(),
                auth_code_id: auth_code_id.to_owned(),
            },
        );
        out
    }

    /// The callback address, if its address was given.
    pub fn build(self) -> (out: Result<CallbackAddress, BuilderError>)
        ensures
            match self.uri {
                Some(uri) => out == Ok::<CallbackAddress, BuilderError>(
                    CallbackAddress {
                        transactional: self.transactional,
                        uri,
                        events: self.events,
                        auth: self.auth,
                    },
                ),
                None => out is Err && out->Err_0->MissingProperty_0@ == "uri"@,
            },
    {
        match self.uri {
            Some(uri) => Ok(
                CallbackAddress {
                    transactional: self.transactional,
                    uri,
                    events: self.events,
                    auth: self.auth,
                },
            ),
            None => Err(BuilderError::missing_property("uri")),
        }
    }
}

/// A request for one dataset of another connector's catalog.
pub struct DatasetRequest {
    pub id: String,
    pub counter_party_address: String,
    pub protocol: Protocol,
}

pub struct DatasetRequestBuilder {
    pub id: Option<String>,
    pub protocol: Protocol,
    pub counter_party_address: Option<String>,
}

impl Default for DatasetRequestBuilder {
    fn default() -> (out: Self)
        ensures
            out.id is None,
            out.counter_party_address is None,
            out.protocol.0@ == dataspace_protocol(),
    {
        DatasetRequestBuilder { id: None, protocol: Protocol::default(), counter_party_address: None }
    }
}

impl DatasetRequest {
    pub fn builder() -> (out: DatasetRequestBuilder)
        ensures
            out.id is None,
            out.counter_party_address is None,
            out.protocol.0@ == dataspace_protocol(),
    {
        DatasetRequestBuilder::default()
    }
}

impl DatasetRequestBuilder {
    pub fn protocol(self, protocol: &str) -> (out: Self)
        ensures
            out.protocol.0@ == protocol@,
            out.id == self.id,
            out.counter_party_address == self.counter_party_address,
    {
        let mut out = self;
        out.protocol = Protocol::new(protocol);
        out
    }

    pub fn counter_party_address(self, counter_party_address: &str) -> (out: Self)
        ensures
            out.counter_party_address is Some,
            out.counter_party_address->Some_0@ == counter_party_address@,
            out.id == self.id,
            out.protocol == self.protocol,
    {
        let mut out = self;
        out.counter_party_address = Some(counter_party_address.to_owned());
        out
    }

    pub fn id(self, id: &str) -> (out: Self)
        ensures
            out.id is Some,
            out.id->Some_0@ == id@,
            out.counter_party_address == self.counter_party_address,
            out.protocol == self.protocol,
    {
        let mut out = self;
        out.id = Some(id.to_owned());
        out
    }

    /// The request, if both the dataset and the other connector's address were given.
    /// Of two missing properties the dataset is the one reported.
    pub fn build(self) -> (out: Result<DatasetRequest, BuilderError>)
        ensures
            match (self.id, self.counter_party_address) {
                (Some(id), Some(counter_party_address)) => out == Ok::<
                    DatasetRequest,
                    BuilderError,
                >(DatasetRequest { id, counter_party_address, protocol: self.protocol }),
                (None, _) => out is Err && out->Err_0->MissingProperty_0@ == "id"@,
                (Some(_), None) => out is Err && out->Err_0->MissingProperty_0@
                    == "counter_party_address"@,
            },
    {
        let id = match self.id {
            Some(id) => id,
            None => {
                return Err(BuilderError::missing_property("id"));
            },
        };
        let counter_party_address = match self.counter_party_address {
            Some(address) => address,
            None => {
                return Err(BuilderError::missing_property("counter_party_address"));
            },
        };
        Ok(DatasetRequest { id, counter_party_address, protocol: self.protocol })
    }
}

/// Which side of a negotiation a connector is on.
#[derive(Debug, Clone, Copy, PartialEq, Eq, Structural)]
pub enum ContractNegotiationKind {
    Consumer,
    Provider,
}

/// How far a negotiation has come.
#[derive(Debug)]
pub enum ContractNegotiationState {
    Initial,
    Requesting,
    Requested,
    Offering,
    Offered,
    Accepting,
    Accepted,
    Agreeing,
    Agreed,
    Verifying,
    Verified,
    Finalizing,
    Finalized,
    Terminating,
    Terminated,
    Other(String),
}

pub struct NegotiationState {
    pub state: ContractNegotiationState,
}

impl NegotiationState {
    pub fn state(&self) -> (out: &ContractNegotiationState)
        ensures
            *out == self.state,
    {
        &self.state
    }
}

/// The request to end a negotiation, with the reason.
pub struct TerminateNegotiation {
    pub id: String,
    pub reason: String,
}

impl ContractNegotiationKind {
    pub open spec fn label_spec(self) -> Seq<char> {
        match self {
            ContractNegotiationKind::Consumer => "Consumer"@,
            ContractNegotiationKind::Provider => "Provider"@,
        }
    }

    /// The name of the side, as a table shows it.
    pub fn label(&self) -> (out: &'static str)
        ensures
            out@ == self.label_spec(),
    {
        match self {
            ContractNegotiationKind::Consumer => "Consumer",
            ContractNegotiationKind::Provider => "Provider",
        }
    }
}

impl ContractNegotiationState {
    /// Whether the negotiation has come to an end, one way or the other.
    pub fn is_final(&self) -> (out: bool)
        ensures
            out == (*self is Finalized || *self is Terminated),
    {
        match self {
            ContractNegotiationState::Finalized => true,
            ContractNegotiationState::Terminated => true,
            _ => false,
        }
    }
}

/// Whether a data plane can be used.
#[derive(Debug)]
pub enum DataPlaneInstanceState {
    Available,
    Registered,
    Unavailable,
    Unregistered,
    Other(String),
}

/// One entry of the cache of endpoint data references.
pub struct EndpointDataReferenceEntry {
    pub asset_id: String,
    pub agreement_id: String,
    pub transfer_process_id: String,
    pub provider_id: String,
    pub contract_negotiation_id: Option<String>,
    pub created_at: i64,
}

impl EndpointDataReferenceEntry {
    pub fn asset_id(&self) -> (out: &str)
        ensures
            out@ == self.asset_id@,
    {
        self.asset_id.as_str()
    }

    pub fn agreement_id(&self) -> (out: &str)
        ensures
            out@ == self.agreement_id@,
    {
        self.agreement_id.as_str()
    }

    pub fn transfer_process_id(&self) -> (out: &str)
        ensures
            out@ == self.transfer_process_id@,
    {
        self.transfer_process_id.as_str()
    }

    pub fn provider_id(&self) -> (out: &str)
        ensures
            out@ == self.provider_id@,
    {
        self.provider_id.as_str()
    }

    pub fn contract_negotiation_id(&self) -> (out: Option<&String>)
        ensures
            out == match self.contract_negotiation_id {
                Some(id) => Some(&id),
                None => None,
            },
    {
        self.contract_negotiation_id.as_ref()
    }

    pub fn created_at(&self) -> (out: i64)
        ensures
            out == self.created_at,
    {
        self.created_at
    }
}

/// What the management API answers when it has created something.
pub struct IdResponse<T> {
    pub id: T,
    pub created_at: i64,
}

impl<T> IdResponse<T> {
    pub fn id(&self) -> (out: &T)
        ensures
            *out == self.id,
    {
        &self.id
    }

    pub fn created_at(&self) -> (out: i64)
        ensures
            out == self.created_at,
    {
        self.created_at
    }
}

/// How far a transfer has come.
#[derive(Debug)]
pub enum TransferProcessState {
    Initial,
    Provisioning,
    ProvisioningRequested,
    Provisioned,
    Requesting,
    Requested,
    Starting,
    Started,
    Suspending,
    Suspended,
    Resuming,
    Resumed,
    Completing,
    Completed,
    Terminating,
    Terminated,
    Deprovisioning,
    DeprovisioningRequested,
    Deprovisioned,
    Other(String),
}

/// Which side of a transfer a connector is on.
#[derive(Debug, Clone, Copy, PartialEq, Eq, Structural)]
pub enum TransferProcessKind {
    Consumer,
    Provider,
}

impl TransferProcessKind {
    pub open spec fn label_spec(self) -> Seq<char> {
        match self {
            TransferProcessKind::Consumer => "Consumer"@,
            TransferProcessKind::Provider => "Provider"@,
        }
    }

    /// The name of the side, as a table shows it.
    pub fn label(&self) -> (out: &'static str)
        ensures
            out@ == self.label_spec(),
    {
        match self {
            TransferProcessKind::Consumer => "Consumer",
            TransferProcessKind::Provider => "Provider",
        }
    }
}

pub struct TransferState {
    pub state: TransferProcessState,
}

impl TransferState {
    pub fn state(&self) -> (out: &TransferProcessState)
        ensures
            *out == self.state,
    {
        &self.state
    }
}

/// The request to end a transfer, with the reason.
pub struct TerminateTransfer {
    pub id: String,
    pub reason: String,
}

/// The request to suspend a transfer, with the reason.
pub struct SuspendTransfer {
    pub id: String,
    pub reason: String,
}

/// A contract negotiation as the connector reports it.
pub struct ContractNegotiation {
    pub id: String,
    pub private_properties: Properties,
    pub state: ContractNegotiationState,
    pub contract_agreement_id: Option<String>,
    pub counter_party_id: String,
    pub counter_party_address: String,
    pub protocol: String,
    pub created_at: i64,
    pub callback_addresses: Vec<CallbackAddress>,
    pub kind: ContractNegotiationKind,
}

impl ContractNegotiation {
    pub fn id(&self) -> (out: &str)
        ensures
            out@ == self.id@,
    {
        self.id.as_str()
    }

    pub fn state(&self) -> (out: &ContractNegotiationState)
        ensures
            *out == self.state,
    {
        &self.state
    }

    /// The private properties of the negotiation.
    pub fn private_properties(&self) -> (out: &Properties)
        ensures
            *out == self.private_properties,
    {
        &self.private_properties
    }

    pub fn contract_agreement_id(&self) -> (out: Option<&String>)
        ensures
            out == match self.contract_agreement_id {
                Some(id) => Some(&id),
                None => None,
            },
    {
        self.contract_agreement_id.as_ref()
    }

    pub fn counter_party_id(&self) -> (out: &str)
        ensures
            out@ == self.counter_party_id@,
    {
        self.counter_party_id.as_str()
    }

    pub fn counter_party_address(&self) -> (out: &str)
        ensures
            out@ == self.counter_party_address@,
    {
        self.counter_party_address.as_str()
    }

    pub fn kind(&self) -> (out: &ContractNegotiationKind)
        ensures
            *out == self.kind,
    {
        &self.kind
    }

    pub fn created_at(&self) -> (out: i64)
        ensures
            out == self.created_at,
    {
        self.created_at
    }

    pub fn callback_addresses(&self) -> (out: &[CallbackAddress])
        ensures
            out@ == self.callback_addresses@,
    {
        self.callback_addresses.as_slice()
    }

    pub fn protocol(&self) -> (out: &str)
        ensures
            out@ == self.protocol@,
    {
        self.protocol.as_str()
    }
}

impl ContractNegotiationState {
    /// The state as the debug format writes it.
    pub open spec fn label_spec(self) -> Seq<char> {
        match self {
            ContractNegotiationState::Initial => "Initial"@,
            ContractNegotiationState::Requesting => "Requesting"@,
            ContractNegotiationState::Requested => "Requested"@,
            ContractNegotiationState::Offering => "Offering"@,
            ContractNegotiationState::Offered => "Offered"@,
            ContractNegotiationState::Accepting => "Accepting"@,
            ContractNegotiationState::Accepted => "Accepted"@,
            ContractNegotiationState::Agreeing => "Agreeing"@,
            ContractNegotiationState::Agreed => "Agreed"@,
            ContractNegotiationState::Verifying => "Verifying"@,
            ContractNegotiationState::Verified => "Verified"@,
            ContractNegotiationState::Finalizing => "Finalizing"@,
            ContractNegotiationState::Finalized => "Finalized"@,
            ContractNegotiationState::Terminating => "Terminating"@,
            ContractNegotiationState::Terminated => "Terminated"@,
            ContractNegotiationState::Other(name) => "Other("@ + debug_of(name@) + ")"@,
        }
    }

    /// The name of the state, as a table shows it.
    pub fn label(&self) -> (out: String)
        ensures
            out@ == self.label_spec(),
    {
        match self {
            ContractNegotiationState::Initial => "Initial".to_owned(),
            ContractNegotiationState::Requesting => "Requesting".to_owned(),
            ContractNegotiationState::Requested => "Requested".to_owned(),
            ContractNegotiationState::Offering => "Offering".to_owned(),
            ContractNegotiationState::Offered => "Offered".to_owned(),
            ContractNegotiationState::Accepting => "Accepting".to_owned(),
            ContractNegotiationState::Accepted => "Accepted".to_owned(),
            ContractNegotiationState::Agreeing => "Agreeing".to_owned(),
            ContractNegotiationState::Agreed => "Agreed".to_owned(),
            ContractNegotiationState::Verifying => "Verifying".to_owned(),
            ContractNegotiationState::Verified => "Verified".to_owned(),
            ContractNegotiationState::Finalizing => "Finalizing".to_owned(),
            ContractNegotiationState::Finalized => "Finalized".to_owned(),
            ContractNegotiationState::Terminating => "Terminating".to_owned(),
            ContractNegotiationState::Terminated => "Terminated".to_owned(),
            ContractNegotiationState::Other(name) => {
                let mut out = "Other(".to_owned();
                let inner = quoted(name.as_str());
                out.append(inner.as_str());
                out.append(")");
                out
            },
        }
    }
}

/// A transfer as the connector reports it.
pub struct TransferProcess {
    pub id: String,
    pub private_properties: Properties,
    pub state: TransferProcessState,
    pub state_timestamp: i64,
    pub asset_id: String,
    pub contract_id: String,
    pub correlation_id: Option<String>,
    pub data_destination: Option<DataAddress>,
    pub callback_addresses: Vec<CallbackAddress>,
    pub transfer_type: String,
    pub kind: TransferProcessKind,
}

impl TransferProcess {
    pub fn id(&self) -> (out: &str)
        ensures
            out@ == self.id@,
    {
        self.id.as_str()
    }

    pub fn state(&self) -> (out: &TransferProcessState)
        ensures
            *out == self.state,
    {
        &self.state
    }

    /// The private properties of the transfer.
    pub fn private_properties(&self) -> (out: &Properties)
        ensures
            *out == self.private_properties,
    {
        &self.private_properties
    }

    pub fn kind(&self) -> (out: &TransferProcessKind)
        ensures
            *out == self.kind,
    {
        &self.kind
    }

    pub fn asset_id(&self) -> (out: &str)
        ensures
            out@ == self.asset_id@,
    {
        self.asset_id.as_str()
    }

    pub fn contract_id(&self) -> (out: &str)
        ensures
            out@ == self.contract_id@,
    {
        self.contract_id.as_str()
    }

    pub fn correlation_id(&self) -> (out: Option<&String>)
        ensures
            out == match self.correlation_id {
                Some(id) => Some(&id),
                None => None,
            },
    {
        self.correlation_id.as_ref()
    }

    pub fn data_destination(&self) -> (out: Option<&DataAddress>)
        ensures
            out == match self.data_destination {
                Some(address) => Some(&address),
                None => None,
            },
    {
        self.data_destination.as_ref()
    }

    pub fn transfer_type(&self) -> (out: &str)
        ensures
            out@ == self.transfer_type@,
    {
        self.transfer_type.as_str()
    }

    pub fn state_timestamp(&self) -> (out: i64)
        ensures
            out == self.state_timestamp,
    {
        self.state_timestamp
    }

    pub fn callback_addresses(&self) -> (out: &[CallbackAddress])
        ensures
            out@ == self.callback_addresses@,
    {
        self.callback_addresses.as_slice()
    }
}

impl TransferProcessState {
    /// The state as the debug format writes it.
    pub open spec fn label_spec(self) -> Seq<char> {
        match self {
            TransferProcessState::Initial => "Initial"@,
            TransferProcessState::Provisioning => "Provisioning"@,
            TransferProcessState::ProvisioningRequested => "ProvisioningRequested"@,
            TransferProcessState::Provisioned => "Provisioned"@,
            TransferProcessState::Requesting => "Requesting"@,
            TransferProcessState::Requested => "Requested"@,
            TransferProcessState::Starting => "Starting"@,
            TransferProcessState::Started => "Started"@,
            TransferProcessState::Suspending => "Suspending"@,
            TransferProcessState::Suspended => "Suspended"@,
            TransferProcessState::Resuming => "Resuming"@,
            TransferProcessState::Resumed => "Resumed"@,
            TransferProcessState::Completing => "Completing"@,
            TransferProcessState::Completed => "Completed"@,
            TransferProcessState::Terminating => "Terminating"@,
            TransferProcessState::Terminated => "Terminated"@,
            TransferProcessState::Deprovisioning => "Deprovisioning"@,
            TransferProcessState::DeprovisioningRequested => "DeprovisioningRequested"@,
            TransferProcessState::Deprovisioned => "Deprovisioned"@,
            TransferProcessState::Other(name) => "Other("@ + debug_of(name@) + ")"@,
        }
    }

    /// The name of the state, as a table shows it.
    pub fn label(&self) -> (out: String)
        ensures
            out@ == self.label_spec(),
    {
        match self {
            TransferProcessState::Initial => "Initial".to_owned(),
            TransferProcessState::Provisioning => "Provisioning".to_owned(),
            TransferProcessState::ProvisioningRequested => "ProvisioningRequested".to_owned(),
            TransferProcessState::Provisioned => "Provisioned".to_owned(),
            TransferProcessState::Requesting => "Requesting".to_owned(),
            TransferProcessState::Requested => "Requested".to_owned(),
            TransferProcessState::Starting => "Starting".to_owned(),
            TransferProcessState::Started => "Started".to_owned(),
            TransferProcessState::Suspending => "Suspending".to_owned(),
            TransferProcessState::Suspended => "Suspended".to_owned(),
            TransferProcessState::Resuming => "Resuming".to_owned(),
            TransferProcessState::Resumed => "Resumed".to_owned(),
            TransferProcessState::Completing => "Completing".to_owned(),
            TransferProcessState::Completed => "Completed".to_owned(),
            TransferProcessState::Terminating => "Terminating".to_owned(),
            TransferProcessState::Terminated => "Terminated".to_owned(),
            TransferProcessState::Deprovisioning => "Deprovisioning".to_owned(),
            TransferProcessState::DeprovisioningRequested => "DeprovisioningRequested".to_owned(),
            TransferProcessState::Deprovisioned => "Deprovisioned".to_owned(),
            TransferProcessState::Other(name) => {
                let mut out = "Other(".to_owned();
                let inner = quoted(name.as_str());
                out.append(inner.as_str());
                out.append(")");
                out
            },
        }
    }
}

/// A contract agreement as the connector reports it.
pub struct ContractAgreement {
    pub id: String,
    pub contract_signing_date: i64,
    pub asset_id: String,
    pub consumer_id: String,
    pub provider_id: String,
    pub policy: Policy,
}

impl ContractAgreement {
    pub fn id(&self) -> (out: &str)
        ensures
            out@ == self.id@,
    {
        self.id.as_str()
    }

    pub fn contract_signing_date(&self) -> (out: i64)
        ensures
            out == self.contract_signing_date,
    {
        self.contract_signing_date
    }

    pub fn consumer_id(&self) -> (out: &str)
        ensures
            out@ == self.consumer_id@,
    {
        self.consumer_id.as_str()
    }

    pub fn provider_id(&self) -> (out: &str)
        ensures
            out@ == self.provider_id@,
    {
        self.provider_id.as_str()
    }

    pub fn asset_id(&self) -> (out: &str)
        ensures
            out@ == self.asset_id@,
    {
        self.asset_id.as_str()
    }

    pub fn policy(&self) -> (out: &Policy)
        ensures
            *out == self.policy,
    {
        &self.policy
    }
}

/// A data plane as the connector reports it.
pub struct DataPlaneInstance {
    pub id: String,
    pub url: String,
    pub allowed_source_types: Vec<String>,
    pub allowed_dest_types: Vec<String>,
    pub allowed_transfer_types: Vec<String>,
    pub state: DataPlaneInstanceState,
    pub properties: Properties,
}

impl DataPlaneInstance {
    pub fn id(&self) -> (out: &str)
        ensures
            out@ == self.id@,
    {
        self.id.as_str()
    }

    pub fn url(&self) -> (out: &str)
        ensures
            out@ == self.url@,
    {
        self.url.as_str()
    }

    pub fn allowed_source_types(&self) -> (out: &Vec<String>)
        ensures
            *out == self.allowed_source_types,
    {
        &self.allowed_source_types
    }

    pub fn allowed_dest_types(&self) -> (out: &Vec<String>)
        ensures
            *out == self.allowed_dest_types,
    {
        &self.allowed_dest_types
    }

    pub fn allowed_transfer_types(&self) -> (out: &Vec<String>)
        ensures
            *out == self.allowed_transfer_types,
    {
        &self.allowed_transfer_types
    }

    pub fn state(&self) -> (out: &DataPlaneInstanceState)
        ensures
            *out == self.state,
    {
        &self.state
    }

    pub fn properties(&self) -> (out: &Properties)
        ensures
            *out == self.properties,
    {
        &self.properties
    }
}

/// The datasets that another connector offers.
pub struct Catalog {
    pub datasets: Vec<Dataset>,
}

/// One dataset of a catalog, with the policies under which it is offered.
pub struct Dataset {
    pub id: String,
    pub offers: Vec<Policy>,
}

impl Catalog {
    pub fn datasets(&self) -> (out: &[Dataset])
        ensures
            out@ == self.datasets@,
    {
        self.datasets.as_slice()
    }
}

impl Dataset {
    pub fn id(&self) -> (out: &str)
        ensures
            out@ == self.id@,
    {
        self.id.as_str()
    }

    pub fn offers(&self) -> (out: &[Policy])
        ensures
            out@ == self.offers@,
    {
        self.offers.as_slice()
    }
}

} // verus!
