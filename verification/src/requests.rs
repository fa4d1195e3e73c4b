use vstd::prelude::*;
use crate::client::BuilderError;
use crate::properties::Properties;
use crate::properties::ToValue;
use crate::policy::Policy;
use crate::query::Criterion;
use crate::query::PropertyValue;
use crate::query::Query;
use crate::query::ValueModel;
use crate::types::dataspace_protocol;
use crate::types::CallbackAddress;
use crate::types::Protocol;

verus! {

/// Whether a builder refused for want of the property `name`.
pub open spec fn missing<T>(out: Result<T, BuilderError>, name: Seq<char>) -> bool {
    out is Err && out->Err_0 is MissingProperty && out->Err_0->MissingProperty_0@ == name
}

/// Where data lies or is to go: a set of properties, one of which names the type.
pub struct DataAddress(pub Properties);

pub struct DataAddressBuilder(pub Properties);

impl Default for DataAddressBuilder {
    fn default() -> (out: Self)
        ensures
            out.0@ == Map::<Seq<char>, ValueModel>::empty(),
    {
        DataAddressBuilder(Properties::default())
    }
}

impl DataAddress {
    pub fn builder() -> (out: DataAddressBuilder)
        ensures
            out.0@ == Map::<Seq<char>, ValueModel>::empty(),
    {
        DataAddressBuilder::default()
    }

    /// The properties of the address.
    pub fn properties(&self) -> (out: &Properties)
        ensures
            *out == self.0,
    {
        &self.0
    }
}

impl DataAddressBuilder {
    pub fn property<T: ToValue>(self, property: &str, value: T) -> (out: Self)
        ensures
            out.0@ == self.0@.insert(property@, value.value_model()),
    {
        let mut out = self;
        out.0.set(property, value);
        out
    }

    /// Names the type of the address.
    pub fn kind(self, kind: &str) -> (out: Self)
        ensures
            out.0@ == self.0@.insert("type"@, ValueModel::Text(kind@)),
    {
        let mut out = self;
        out.0.set("type", kind);
        out
    }

    /// The address, if its type was named.
    pub fn build(self) -> (out: Result<DataAddress, BuilderError>)
        ensures
            if self.0@.dom().contains("type"@) {
                out == Ok::<DataAddress, BuilderError>(DataAddress(self.0))
            } else {
                missing(out, "type"@)
            },
    {
        if self.0.contains("type") {
            Ok(DataAddress(self.0))
        } else {
            Err(BuilderError::missing_property("type"))
        }
    }
}

/// An asset as the connector holds it.
pub struct Asset {
    pub id: String,
    pub properties: Properties,
    pub private_properties: Properties,
    pub data_address: DataAddress,
}

pub struct AssetBuider {
    pub id: Option<String>,
    pub properties: Properties,
    pub private_properties: Properties,
    pub data_address: Option<DataAddress>,
}

impl Default for AssetBuider {
    fn default() -> (out: Self)
        ensures
            out.id is None,
            out.properties@ == Map::<Seq<char>, ValueModel>::empty(),
            out.private_properties@ == Map::<Seq<char>, ValueModel>::empty(),
            out.data_address is None,
    {
        AssetBuider {
            id: None,
            properties: Properties::default(),
            private_properties: Properties::default(),
            data_address: None,
        }
    }
}

impl Asset {
    pub fn builder() -> (out: AssetBuider)
        ensures
            out.id is None,
            out.properties@ == Map::<Seq<char>, ValueModel>::empty(),
            out.private_properties@ == Map::<Seq<char>, ValueModel>::empty(),
            out.data_address is None,
    {
        AssetBuider::default()
    }
}

impl AssetBuider {
    pub fn id(self, id: &str) -> (out: Self)
        ensures
            out.id is Some,
            out.id->Some_0@ == id@,
            out.properties == self.properties,
            out.private_properties == self.private_properties,
            out.data_address == self.data_address,
    {
        let mut out = self;
        out.id = Some(id.to_owned());
        out
    }

    pub fn property<T: ToValue>(self, property: &str, value: T) -> (out: Self)
        ensures
            out.properties@ == self.properties@.insert(property@, value.value_model()),
            out.id == self.id,
            out.private_properties == self.private_properties,
            out.data_address == self.data_address,
    {
        let mut out = self;
        out.properties.set(property, value);
        out
    }

    pub fn private_property<T: ToValue>(self, property: &str, value: T) -> (out: Self)
        ensures
            out.private_properties@ == self.private_properties@.insert(property@, value.value_model()),
            out.id == self.id,
            out.properties == self.properties,
            out.data_address == self.data_address,
    {
        let mut out = self;
        out.private_properties.set(property, value);
        out
    }

    pub fn data_address(self, data_address: DataAddress) -> (out: Self)
        ensures
            out == (AssetBuider { data_address: Some(data_address), ..self }),
    {
        let mut out = self;
        out.data_address = Some(data_address);
        out
    }

    /// The asset, if its identifier and its data address were given. Of two missing properties the identifier is the one reported.
    pub fn build(self) -> (out: Result<Asset, BuilderError>)
        ensures
            if self.id is None {
                missing(out, "id"@)
            } else if self.data_address is None {
                missing(out, "data_address"@)
            } else {
                &&& out is Ok
                &&& out->Ok_0.id == self.id->Some_0
                &&& out->Ok_0.properties == self.properties
                &&& out->Ok_0.private_properties == self.private_properties
                &&& out->Ok_0.data_address == self.data_address->Some_0
            },
    {
        let id = match self.id {
            Some(value) => value,
            None => {
                return Err(BuilderError::missing_property("id"));
            },
        };
        let data_address = match self.data_address {
            Some(value) => value,
            None => {
                return Err(BuilderError::missing_property("data_address"));
            },
        };
        Ok(
            Asset {
                id,
                properties: self.properties,
                private_properties: self.private_properties,
                data_address,
            },
        )
    }
}

/// An asset that is to be created; the connector gives it an identifier if it has none.
pub struct NewAsset {
    pub id: Option<String>,
    pub properties: Properties,
    pub private_properties: Properties,
    pub data_address: DataAddress,
}

pub struct NewAssetBuilder {
    pub id: Option<String>,
    pub properties: Properties,
    pub private_properties: Properties,
    pub data_address: Option<DataAddress>,
}

impl Default for NewAssetBuilder {
    fn default() -> (out: Self)
        ensures
            out.id is None,
            out.properties@ == Map::<Seq<char>, ValueModel>::empty(),
            out.private_properties@ == Map::<Seq<char>, ValueModel>::empty(),
            out.data_address is None,
    {
        NewAssetBuilder {
            id: None,
            properties: Properties::default(),
            private_properties: Properties::default(),
            data_address: None,
        }
    }
}

impl NewAsset {
    pub fn builder() -> (out: NewAssetBuilder)
        ensures
            out.id is None,
            out.properties@ == Map::<Seq<char>, ValueModel>::empty(),
            out.private_properties@ == Map::<Seq<char>, ValueModel>::empty(),
            out.data_address is None,
    {
        NewAssetBuilder::default()
    }
}

impl NewAssetBuilder {
    pub fn id(self, id: &str) -> (out: Self)
        ensures
            out.id is Some,
            out.id->Some_0@ == id@,
            out.properties == self.properties,
            out.private_properties == self.private_properties,
            out.data_address == self.data_address,
    {
        let mut out = self;
        out.id = Some(id.to_owned());
        out
    }

    pub fn property<T: ToValue>(self, property: &str, value: T) -> (out: Self)
        ensures
            out.properties@ == self.properties@.insert(property@, value.value_model()),
            out.id == self.id,
            out.private_properties == self.private_properties,
            out.data_address == self.data_address,
    {
        let mut out = self;
        out.properties.set(property, value);
        out
    }

    pub fn private_property<T: ToValue>(self, property: &str, value: T) -> (out: Self)
        ensures
            out.private_properties@ == self.private_properties@.insert(property@, value.value_model()),
            out.id == self.id,
            out.properties == self.properties,
            out.data_address == self.data_address,
    {
        let mut out = self;
        out.private_properties.set(property, value);
        out
    }

    pub fn data_address(self, data_address: DataAddress) -> (out: Self)
        ensures
            out == (NewAssetBuilder { data_address: Some(data_address), ..self }),
    {
        let mut out = self;
        out.data_address = Some(data_address);
        out
    }

    /// The asset, if its data address was given.
    pub fn build(self) -> (out: Result<NewAsset, BuilderError>)
        ensures
            if self.data_address is None {
                missing(out, "data_address"@)
            } else {
                &&& out is Ok
                &&& out->Ok_0.id == self.id
                &&& out->Ok_0.properties == self.properties
                &&& out->Ok_0.private_properties == self.private_properties
                &&& out->Ok_0.data_address == self.data_address->Some_0
            },
    {
        let data_address = match self.data_address {
            Some(value) => value,
            None => {
                return Err(BuilderError::missing_property("data_address"));
            },
        };
        Ok(
            NewAsset {
                id: self.id,
                properties: self.properties,
                private_properties: self.private_properties,
                data_address,
            },
        )
    }
}

/// A contract definition as the connector holds it.
pub struct ContractDefinition {
    pub id: String,
    pub access_policy_id: String,
    pub contract_policy_id: String,
    pub assets_selector: Vec<Criterion>,
    pub private_properties: Properties,
}

pub struct ContractDefinitionBuilder {
    pub id: Option<String>,
    pub access_policy_id: Option<String>,
    pub contract_policy_id: Option<String>,
    pub assets_selector: Vec<Criterion>,
    pub private_properties: Properties,
}

impl Default for ContractDefinitionBuilder {
    fn default() -> (out: Self)
        ensures
            out.id is None,
            out.access_policy_id is None,
            out.contract_policy_id is None,
            out.assets_selector@.len() == 0,
            out.private_properties@ == Map::<Seq<char>, ValueModel>::empty(),
    {
        ContractDefinitionBuilder {
            id: None,
            access_policy_id: None,
            contract_policy_id: None,
            assets_selector: Vec::new(),
            private_properties: Properties::default(),
        }
    }
}

impl ContractDefinition {
    pub fn builder() -> (out: ContractDefinitionBuilder)
        ensures
            out.id is None,
            out.access_policy_id is None,
            out.contract_policy_id is None,
            out.assets_selector@.len() == 0,
            out.private_properties@ == Map::<Seq<char>, ValueModel>::empty(),
    {
        ContractDefinitionBuilder::default()
    }
}

impl ContractDefinitionBuilder {
    pub fn id(self, id: &str) -> (out: Self)
        ensures
            out.id is Some,
            out.id->Some_0@ == id@,
            out.access_policy_id == self.access_policy_id,
            out.contract_policy_id == self.contract_policy_id,
            out.assets_selector == self.assets_selector,
            out.private_properties == self.private_properties,
    {
        let mut out = self;
        out.id = Some(id.to_owned());
        out
    }

    pub fn access_policy_id(self, access_policy_id: &str) -> (out: Self)
        ensures
            out.access_policy_id is Some,
            out.access_policy_id->Some_0@ == access_policy_id@,
            out.id == self.id,
            out.contract_policy_id == self.contract_policy_id,
            out.assets_selector == self.assets_selector,
            out.private_properties == self.private_properties,
    {
        let mut out = self;
        out.access_policy_id = Some(access_policy_id.to_owned());
        out
    }

    pub fn contract_policy_id(self, contract_policy_id: &str) -> (out: Self)
        ensures
            out.contract_policy_id is Some,
            out.contract_policy_id->Some_0@ == contract_policy_id@,
            out.id == self.id,
            out.access_policy_id == self.access_policy_id,
            out.assets_selector == self.assets_selector,
            out.private_properties == self.private_properties,
    {
        let mut out = self;
        out.contract_policy_id = Some(contract_policy_id.to_owned());
        out
    }

    pub fn asset_selector(self, selector: Criterion) -> (out: Self)
        ensures
            out.assets_selector@ == self.assets_selector@.push(selector),
            out.id == self.id,
            out.access_policy_id == self.access_policy_id,
            out.contract_policy_id == self.contract_policy_id,
            out.private_properties == self.private_properties,
    {
        let mut out = self;
        out.assets_selector.push(selector);
        out
    }

    pub fn private_property<T: ToValue>(self, property: &str, value: T) -> (out: Self)
        ensures
            out.private_properties@ == self.private_properties@.insert(property@, value.value_model()),
            out.id == self.id,
            out.access_policy_id == self.access_policy_id,
            out.contract_policy_id == self.contract_policy_id,
            out.assets_selector == self.assets_selector,
    {
        let mut out = self;
        out.private_properties.set(property, value);
        out
    }

    /// The definition, if its identifier and both policies were given. The first missing one of them, in that order, is the one reported.
    pub fn build(self) -> (out: Result<ContractDefinition, BuilderError>)
        ensures
            if self.id is None {
                missing(out, "id"@)
            } else if self.access_policy_id is None {
                missing(out, "access_policy_id"@)
            } else if self.contract_policy_id is None {
                missing(out, "contract_policy_id"@)
            } else {
                &&& out is Ok
                &&& out->Ok_0.id == self.id->Some_0
                &&& out->Ok_0.access_policy_id == self.access_policy_id->Some_0
                &&& out->Ok_0.contract_policy_id == self.contract_policy_id->Some_0
                &&& out->Ok_0.assets_selector == self.assets_selector
                &&& out->Ok_0.private_properties == self.private_properties
            },
    {
        let id = match self.id {
            Some(value) => value,
            None => {
                return Err(BuilderError::missing_property("id"));
            },
        };
        let access_policy_id = match self.access_policy_id {
            Some(value) => value,
            None => {
                return Err(BuilderError::missing_property("access_policy_id"));
            },
        };
        let contract_policy_id = match self.contract_policy_id {
            Some(value) => value,
            None => {
                return Err(BuilderError::missing_property("contract_policy_id"));
            },
        };
        Ok(
            ContractDefinition {
                id,
                access_policy_id,
                contract_policy_id,
                assets_selector: self.assets_selector,
                private_properties: self.private_properties,
            },
        )
    }
}

/// A contract definition that is to be created.
pub struct NewContractDefinition {
    pub id: Option<String>,
    pub access_policy_id: String,
    pub contract_policy_id: String,
    pub assets_selector: Vec<Criterion>,
    pub private_properties: Properties,
}

pub struct NewContractDefinitionBuilder {
    pub id: Option<String>,
    pub access_policy_id: Option<String>,
    pub contract_policy_id: Option<String>,
    pub assets_selector: Vec<Criterion>,
    pub private_properties: Properties,
}

impl Default for NewContractDefinitionBuilder {
    fn default() -> (out: Self)
        ensures
            out.id is None,
            out.access_policy_id is None,
            out.contract_policy_id is None,
            out.assets_selector@.len() == 0,
            out.private_properties@ == Map::<Seq<char>, ValueModel>::empty(),
    {
        NewContractDefinitionBuilder {
            id: None,
            access_policy_id: None,
            contract_policy_id: None,
            assets_selector: Vec::new(),
            private_properties: Properties::default(),
        }
    }
}

impl NewContractDefinition {
    pub fn builder() -> (out: NewContractDefinitionBuilder)
        ensures
            out.id is None,
            out.access_policy_id is None,
            out.contract_policy_id is None,
            out.assets_selector@.len() == 0,
            out.private_properties@ == Map::<Seq<char>, ValueModel>::empty(),
    {
        NewContractDefinitionBuilder::default()
    }
}

impl NewContractDefinitionBuilder {
    pub fn id(self, id: &str) -> (out: Self)
        ensures
            out.id is Some,
            out.id->Some_0@ == id@,
            out.access_policy_id == self.access_policy_id,
            out.contract_policy_id == self.contract_policy_id,
            out.assets_selector == self.assets_selector,
            out.private_properties == self.private_properties,
    {
        let mut out = self;
        out.id = Some(id.to_owned());
        out
    }

    pub fn access_policy_id(self, access_policy_id: &str) -> (out: Self)
        ensures
            out.access_policy_id is Some,
            out.access_policy_id->Some_0@ == access_policy_id@,
            out.id == self.id,
            out.contract_policy_id == self.contract_policy_id,
            out.assets_selector == self.assets_selector,
            out.private_properties == self.private_properties,
    {
        let mut out = self;
        out.access_policy_id = Some(access_policy_id.to_owned());
        out
    }

    pub fn contract_policy_id(self, contract_policy_id: &str) -> (out: Self)
        ensures
            out.contract_policy_id is Some,
            out.contract_policy_id->Some_0@ == contract_policy_id@,
            out.id == self.id,
            out.access_policy_id == self.access_policy_id,
            out.assets_selector == self.assets_selector,
            out.private_properties == self.private_properties,
    {
        let mut out = self;
        out.contract_policy_id = Some(contract_policy_id.to_owned());
        out
    }

    pub fn asset_selector(self, selector: Criterion) -> (out: Self)
        ensures
            out.assets_selector@ == self.assets_selector@.push(selector),
            out.id == self.id,
            out.access_policy_id == self.access_policy_id,
            out.contract_policy_id == self.contract_policy_id,
            out.private_properties == self.private_properties,
    {
        let mut out = self;
        out.assets_selector.push(selector);
        out
    }

    pub fn private_property<T: ToValue>(self, property: &str, value: T) -> (out: Self)
        ensures
            out.private_properties@ == self.private_properties@.insert(property@, value.value_model()),
            out.id == self.id,
            out.access_policy_id == self.access_policy_id,
            out.contract_policy_id == self.contract_policy_id,
            out.assets_selector == self.assets_selector,
    {
        let mut out = self;
        out.private_properties.set(property, value);
        out
    }

    /// The definition, if both policies were given. Of two missing policies the access policy is the one reported.
    pub fn build(self) -> (out: Result<NewContractDefinition, BuilderError>)
        ensures
            if self.access_policy_id is None {
                missing(out, "access_policy_id"@)
            } else if self.contract_policy_id is None {
                missing(out, "contract_policy_id"@)
            } else {
                &&& out is Ok
                &&& out->Ok_0.id == self.id
                &&& out->Ok_0.access_policy_id == self.access_policy_id->Some_0
                &&& out->Ok_0.contract_policy_id == self.contract_policy_id->Some_0
                &&& out->Ok_0.assets_selector == self.assets_selector
                &&& out->Ok_0.private_properties == self.private_properties
            },
    {
        let access_policy_id = match self.access_policy_id {
            Some(value) => value,
            None => {
                return Err(BuilderError::missing_property("access_policy_id"));
            },
        };
        let contract_policy_id = match self.contract_policy_id {
            Some(value) => value,
            None => {
                return Err(BuilderError::missing_property("contract_policy_id"));
            },
        };
        Ok(
            NewContractDefinition {
                id: self.id,
                access_policy_id,
                contract_policy_id,
                assets_selector: self.assets_selector,
                private_properties: self.private_properties,
            },
        )
    }
}

/// The request to negotiate a contract with another connector.
pub struct ContractRequest {
    pub protocol: String,
    pub counter_party_address: String,
    pub counter_party_id: String,
    pub policy: Policy,
    pub callback_addresses: Vec<CallbackAddress>,
}

pub struct ContractRequestBuilder {
    pub protocol: Option<String>,
    pub counter_party_address: Option<String>,
    pub counter_party_id: Option<String>,
    pub policy: Option<Policy>,
    pub callback_addresses: Vec<CallbackAddress>,
}

impl Default for ContractRequestBuilder {
    fn default() -> (out: Self)
        ensures
            out.protocol is None,
            out.counter_party_address is None,
            out.counter_party_id is None,
            out.policy is None,
            out.callback_addresses@.len() == 0,
    {
        ContractRequestBuilder {
            protocol: None,
            counter_party_address: None,
            counter_party_id: None,
            policy: None,
            callback_addresses: Vec::new(),
        }
    }
}

impl ContractRequest {
    pub fn builder() -> (out: ContractRequestBuilder)
        ensures
            out.protocol is None,
            out.counter_party_address is None,
            out.counter_party_id is None,
            out.policy is None,
            out.callback_addresses@.len() == 0,
    {
        ContractRequestBuilder::default()
    }
}

impl ContractRequestBuilder {
    pub fn protocol(self, protocol: &str) -> (out: Self)
        ensures
            out.protocol is Some,
            out.protocol->Some_0@ == protocol@,
            out.counter_party_address == self.counter_party_address,
            out.counter_party_id == self.counter_party_id,
            out.policy == self.policy,
            out.callback_addresses == self.callback_addresses,
    {
        let mut out = self;
        out.protocol = Some(protocol.to_owned());
        out
    }

    pub fn counter_party_address(self, counter_party_address: &str) -> (out: Self)
        ensures
            out.counter_party_address is Some,
            out.counter_party_address->Some_0@ == counter_party_address@,
            out.protocol == self.protocol,
            out.counter_party_id == self.counter_party_id,
            out.policy == self.policy,
            out.callback_addresses == self.callback_addresses,
    {
        let mut out = self;
        out.counter_party_address = Some(counter_party_address.to_owned());
        out
    }

    pub fn counter_party_id(self, counter_party_id: &str) -> (out: Self)
        ensures
            out.counter_party_id is Some,
            out.counter_party_id->Some_0@ == counter_party_id@,
            out.protocol == self.protocol,
            out.counter_party_address == self.counter_party_address,
            out.policy == self.policy,
            out.callback_addresses == self.callback_addresses,
    {
        let mut out = self;
        out.counter_party_id = Some(counter_party_id.to_owned());
        out
    }

    pub fn policy(self, policy: Policy) -> (out: Self)
        ensures
            out == (ContractRequestBuilder { policy: Some(policy), ..self }),
    {
        let mut out = self;
        out.policy = Some(policy);
        out
    }

    pub fn callback_address(self, callback_address: CallbackAddress) -> (out: Self)
        ensures
            out.callback_addresses@ == self.callback_addresses@.push(callback_address),
            out.protocol == self.protocol,
            out.counter_party_address == self.counter_party_address,
            out.counter_party_id == self.counter_party_id,
            out.policy == self.policy,
    {
        let mut out = self;
        out.callback_addresses.push(callback_address);
        out
    }

    /// The request, if the address and the identifier of the other connector and the policy were given; the protocol is the dataspace protocol unless another was named.
    pub fn build(self) -> (out: Result<ContractRequest, BuilderError>)
        ensures
            if self.counter_party_address is None {
                missing(out, "counter_party_address"@)
            } else if self.counter_party_id is None {
                missing(out, "counter_party_id"@)
            } else if self.policy is None {
                missing(out, "policy"@)
            } else {
                &&& out is Ok
                &&& match self.protocol {
                    Some(p) => out->Ok_0.protocol == p,
                    None => out->Ok_0.protocol@ == dataspace_protocol(),
                }
                &&& out->Ok_0.counter_party_address == self.counter_party_address->Some_0
                &&& out->Ok_0.counter_party_id == self.counter_party_id->Some_0
                &&& out->Ok_0.policy == self.policy->Some_0
                &&& out->Ok_0.callback_addresses == self.callback_addresses
            },
    {
        let counter_party_address = match self.counter_party_address {
            Some(value) => value,
            None => {
                return Err(BuilderError::missing_property("counter_party_address"));
            },
        };
        let counter_party_id = match self.counter_party_id {
            Some(value) => value,
            None => {
                return Err(BuilderError::missing_property("counter_party_id"));
            },
        };
        let policy = match self.policy {
            Some(value) => value,
            None => {
                return Err(BuilderError::missing_property("policy"));
            },
        };
        let protocol = match self.protocol {
            Some(value) => value,
            None => "dataspace-protocol-http".to_owned(),
        };
        Ok(
            ContractRequest {
                protocol,
                counter_party_address,
                counter_party_id,
                policy,
                callback_addresses: self.callback_addresses,
            },
        )
    }
}

/// The request to transfer an asset under a contract.
pub struct TransferRequest {
    pub protocol: String,
    pub counter_party_address: String,
    pub contract_id: String,
    pub asset_id: String,
    pub transfer_type: String,
    pub data_destination: Option<DataAddress>,
    pub callback_addresses: Vec<CallbackAddress>,
}

pub struct TransferRequestBuilder {
    pub protocol: Option<String>,
    pub counter_party_address: Option<String>,
    pub contract_id: Option<String>,
    pub asset_id: Option<String>,
    pub transfer_type: Option<String>,
    pub data_destination: Option<DataAddress>,
    pub callback_addresses: Vec<CallbackAddress>,
}

impl Default for TransferRequestBuilder {
    fn default() -> (out: Self)
        ensures
            out.protocol is None,
            out.counter_party_address is None,
            out.contract_id is None,
            out.asset_id is None,
            out.transfer_type is None,
            out.data_destination is None,
            out.callback_addresses@.len() == 0,
    {
        TransferRequestBuilder {
            protocol: None,
            counter_party_address: None,
            contract_id: None,
            asset_id: None,
            transfer_type: None,
            data_destination: None,
            callback_addresses: Vec::new(),
        }
    }
}

impl TransferRequest {
    pub fn builder() -> (out: TransferRequestBuilder)
        ensures
            out.protocol is None,
            out.counter_party_address is None,
            out.contract_id is None,
            out.asset_id is None,
            out.transfer_type is None,
            out.data_destination is None,
            out.callback_addresses@.len() == 0,
    {
        TransferRequestBuilder::default()
    }
}

impl TransferRequestBuilder {
    pub fn protocol(self, protocol: &str) -> (out: Self)
        ensures
            out.protocol is Some,
            out.protocol->Some_0@ == protocol@,
            out.counter_party_address == self.counter_party_address,
            out.contract_id == self.contract_id,
            out.asset_id == self.asset_id,
            out.transfer_type == self.transfer_type,
            out.data_destination == self.data_destination,
            out.callback_addresses == self.callback_addresses,
    {
        let mut out = self;
        out.protocol = Some(protocol.to_owned());
        out
    }

    pub fn counter_party_address(self, counter_party_address: &str) -> (out: Self)
        ensures
            out.counter_party_address is Some,
            out.counter_party_address->Some_0@ == counter_party_address@,
            out.protocol == self.protocol,
            out.contract_id == self.contract_id,
            out.asset_id == self.asset_id,
            out.transfer_type == self.transfer_type,
            out.data_destination == self.data_destination,
            out.callback_addresses == self.callback_addresses,
    {
        let mut out = self;
        out.counter_party_address = Some(counter_party_address.to_owned());
        out
    }

    pub fn contract_id(self, contract_id: &str) -> (out: Self)
        ensures
            out.contract_id is Some,
            out.contract_id->Some_0@ == contract_id@,
            out.protocol == self.protocol,
            out.counter_party_address == self.counter_party_address,
            out.asset_id == self.asset_id,
            out.transfer_type == self.transfer_type,
            out.data_destination == self.data_destination,
            out.callback_addresses == self.callback_addresses,
    {
        let mut out = self;
        out.contract_id = Some(contract_id.to_owned());
        out
    }

    pub fn asset_id(self, asset_id: &str) -> (out: Self)
        ensures
            out.asset_id is Some,
            out.asset_id->Some_0@ == asset_id@,
            out.protocol == self.protocol,
            out.counter_party_address == self.counter_party_address,
            out.contract_id == self.contract_id,
            out.transfer_type == self.transfer_type,
            out.data_destination == self.data_destination,
            out.callback_addresses == self.callback_addresses,
    {
        let mut out = self;
        out.asset_id = Some(asset_id.to_owned());
        out
    }

    pub fn transfer_type(self, transfer_type: &str) -> (out: Self)
        ensures
            out.transfer_type is Some,
            out.transfer_type->Some_0@ == transfer_type@,
            out.protocol == self.protocol,
            out.counter_party_address == self.counter_party_address,
            out.contract_id == self.contract_id,
            out.asset_id == self.asset_id,
            out.data_destination == self.data_destination,
            out.callback_addresses == self.callback_addresses,
    {
        let mut out = self;
        out.transfer_type = Some(transfer_type.to_owned());
        out
    }

    pub fn destination(self, data_destination: DataAddress) -> (out: Self)
        ensures
            out == (TransferRequestBuilder { data_destination: Some(data_destination), ..self }),
    {
        let mut out = self;
        out.data_destination = Some(data_destination);
        out
    }

    pub fn callback_address(self, callback_address: CallbackAddress) -> (out: Self)
        ensures
            out.callback_addresses@ == self.callback_addresses@.push(callback_address),
            out.protocol == self.protocol,
            out.counter_party_address == self.counter_party_address,
            out.contract_id == self.contract_id,
            out.asset_id == self.asset_id,
            out.transfer_type == self.transfer_type,
            out.data_destination == self.data_destination,
    {
        let mut out = self;
        out.callback_addresses.push(callback_address);
        out
    }

    /// The request, if the address of the other connector, the contract, the asset and the type of transfer were given, the first missing one of them, in that order, being the one reported; the protocol is the dataspace protocol unless another was named.
    pub fn build(self) -> (out: Result<TransferRequest, BuilderError>)
        ensures
            if self.counter_party_address is None {
                missing(out, "counter_party_address"@)
            } else if self.contract_id is None {
                missing(out, "contract_id"@)
            } else if self.asset_id is None {
                missing(out, "asset_id"@)
            } else if self.transfer_type is None {
                missing(out, "transfer_type"@)
            } else {
                &&& out is Ok
                &&& match self.protocol {
                    Some(p) => out->Ok_0.protocol == p,
                    None => out->Ok_0.protocol@ == dataspace_protocol(),
                }
                &&& out->Ok_0.counter_party_address == self.counter_party_address->Some_0
                &&& out->Ok_0.contract_id == self.contract_id->Some_0
                &&& out->Ok_0.asset_id == self.asset_id->Some_0
                &&& out->Ok_0.transfer_type == self.transfer_type->Some_0
                &&& out->Ok_0.data_destination == self.data_destination
                &&& out->Ok_0.callback_addresses == self.callback_addresses
            },
    {
        let counter_party_address = match self.counter_party_address {
            Some(value) => value,
            None => {
                return Err(BuilderError::missing_property("counter_party_address"));
            },
        };
        let contract_id = match self.contract_id {
            Some(value) => value,
            None => {
                return Err(BuilderError::missing_property("contract_id"));
            },
        };
        let asset_id = match self.asset_id {
            Some(value) => value,
            None => {
                return Err(BuilderError::missing_property("asset_id"));
            },
        };
        let transfer_type = match self.transfer_type {
            Some(value) => value,
            None => {
                return Err(BuilderError::missing_property("transfer_type"));
            },
        };
        let protocol = match self.protocol {
            Some(value) => value,
            None => "dataspace-protocol-http".to_owned(),
        };
        Ok(
            TransferRequest {
                protocol,
                counter_party_address,
                contract_id,
                asset_id,
                transfer_type,
                data_destination: self.data_destination,
                callback_addresses: self.callback_addresses,
            },
        )
    }
}
/// The request for the catalog of another connector.
pub struct CatalogRequest {
    pub counter_party_address: String,
    pub protocol: Protocol,
    pub counter_party_id: Option<String>,
    pub query_spec: Query,
}

pub struct CatalogRequestBuilder {
    pub protocol: Protocol,
    pub counter_party_address: Option<String>,
    pub counter_party_id: Option<String>,
    pub query_spec: Query,
}

impl Default for CatalogRequestBuilder {
    fn default() -> (out: Self)
        ensures
            out.protocol.0@ == dataspace_protocol(),
            out.counter_party_address is None,
            out.counter_party_id is None,
            out.query_spec@ == Query::default_model(),
    {
        CatalogRequestBuilder {
            protocol: Protocol::default(),
            counter_party_address: None,
            counter_party_id: None,
            query_spec: Query::default(),
        }
    }
}

impl CatalogRequest {
    pub fn builder() -> (out: CatalogRequestBuilder)
        ensures
            out.protocol.0@ == dataspace_protocol(),
            out.counter_party_address is None,
            out.counter_party_id is None,
            out.query_spec@ == Query::default_model(),
    {
        CatalogRequestBuilder::default()
    }
}

impl CatalogRequestBuilder {
    pub fn protocol(self, protocol: &str) -> (out: Self)
        ensures
            out.protocol.0@ == protocol@,
            out.counter_party_address == self.counter_party_address,
            out.counter_party_id == self.counter_party_id,
            out.query_spec == self.query_spec,
    {
        let mut out = self;
        out.protocol = Protocol::new(protocol);
        out
    }

    pub fn counter_party_address(self, counter_party_address: &str) -> (out: Self)
        ensures
            out.counter_party_address is Some,
            out.counter_party_address->Some_0@ == counter_party_address@,
            out.protocol == self.protocol,
            out.counter_party_id == self.counter_party_id,
            out.query_spec == self.query_spec,
    {
        let mut out = self;
        out.counter_party_address = Some(counter_party_address.to_owned());
        out
    }

    pub fn counter_party_id(self, counter_party_id: &str) -> (out: Self)
        ensures
            out.counter_party_id is Some,
            out.counter_party_id->Some_0@ == counter_party_id@,
            out.protocol == self.protocol,
            out.counter_party_address == self.counter_party_address,
            out.query_spec == self.query_spec,
    {
        let mut out = self;
        out.counter_party_id = Some(counter_party_id.to_owned());
        out
    }

    pub fn query_spec(self, query_spec: Query) -> (out: Self)
        ensures
            out == (CatalogRequestBuilder { query_spec, ..self }),
    {
        let mut out = self;
        out.query_spec = query_spec;
        out
    }

    /// The request, if the address of the other connector was given.
    pub fn build(self) -> (out: Result<CatalogRequest, BuilderError>)
        ensures
            match self.counter_party_address {
                Some(counter_party_address) => out == Ok::<CatalogRequest, BuilderError>(
                    CatalogRequest {
                        counter_party_address,
                        protocol: self.protocol,
                        counter_party_id: self.counter_party_id,
                        query_spec: self.query_spec,
                    },
                ),
                None => missing(out, "counter_party_address"@),
            },
    {
        match self.counter_party_address {
            Some(counter_party_address) => Ok(
                CatalogRequest {
                    counter_party_address,
                    protocol: self.protocol,
                    counter_party_id: self.counter_party_id,
                    query_spec: self.query_spec,
                },
            ),
            None => Err(BuilderError::missing_property("counter_party_address")),
        }
    }
}

impl Asset {
    pub fn id(&self) -> (out: &str)
        ensures
            out@ == self.id@,
    {
        self.id.as_str()
    }

    /// The properties of the asset.
    pub fn properties(&self) -> (out: &Properties)
        ensures
            *out == self.properties,
    {
        &self.properties
    }

    /// The private properties of the asset.
    pub fn private_properties(&self) -> (out: &Properties)
        ensures
            *out == self.private_properties,
    {
        &self.private_properties
    }

    /// Where the data of the asset lies.
    pub fn data_address(&self) -> (out: &DataAddress)
        ensures
            *out == self.data_address,
    {
        &self.data_address
    }

    /// The value of a property, as it stands.
    pub fn raw_property(&self, property: &str) -> (out: Option<&PropertyValue>)
        ensures
            out is Some <==> self.properties@.dom().contains(property@),
            out is Some ==> out->Some_0.model() == self.properties@[property@],
    {
        self.properties.get_raw(property)
    }
}

impl ContractDefinition {
    pub fn id(&self) -> (out: &str)
        ensures
            out@ == self.id@,
    {
        self.id.as_str()
    }

    pub fn access_policy_id(&self) -> (out: &str)
        ensures
            out@ == self.access_policy_id@,
    {
        self.access_policy_id.as_str()
    }

    pub fn contract_policy_id(&self) -> (out: &str)
        ensures
            out@ == self.contract_policy_id@,
    {
        self.contract_policy_id.as_str()
    }

    pub fn assets_selector(&self) -> (out: &[Criterion])
        ensures
            out@ == self.assets_selector@,
    {
        self.assets_selector.as_slice()
    }

    /// The private properties of the definition.
    pub fn private_properties(&self) -> (out: &Properties)
        ensures
            *out == self.private_properties,
    {
        &self.private_properties
    }
}

} // verus!
