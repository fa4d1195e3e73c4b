use vstd::prelude::*;
use crate::policy::PolicyDefinition;
use crate::record::field_models;
use crate::record::texts;
use crate::record::DrawableResource;
use crate::record::Field;
use crate::record::FieldValue;
use crate::record::Resource;
use crate::record::ResourceKind;
use crate::record::TableEntry;
use crate::requests::Asset;
use crate::requests::ContractDefinition;
use crate::text::decimal;
use crate::text::i64_text;
use crate::types::ContractNegotiation;
use crate::types::TransferProcess;

verus! {

/// A value written down as a document, once on one line and once laid out.
pub struct Rendered {
    pub compact: String,
    pub pretty: String,
}

/// The text of an optional identifier, empty if there is none.
pub open spec fn or_empty(text: Option<String>) -> Seq<char> {
    match text {
        Some(text) => text@,
        None => Seq::empty(),
    }
}

/// The text of an optional identifier, empty if there is none.
pub fn text_or_empty(text: Option<&String>) -> (out: String)
    ensures
        out@ == match text {
            Some(text) => text@,
            None => Seq::<char>::empty(),
        },
{
    match text {
        Some(text) => text.clone(),
        None => String::new(),
    }
}

/// An asset, as its screen lists and shows it.
pub struct AssetEntry {
    pub asset: Asset,
    pub properties: Rendered,
    pub private_properties: Rendered,
    pub data_address: Rendered,
}

impl AssetEntry {
    /// The cells of the row, from the left.
    pub open spec fn row_spec(self) -> Seq<Seq<char>> {
        seq![
            self.asset.id@,
            self.properties.compact@,
            self.private_properties.compact@,
            self.data_address.compact@,
        ]
    }

    /// The fields of the detail screen, from the top: name, whether the value is a
    /// document, and the value.
    pub open spec fn fields_spec(self) -> Seq<(Seq<char>, bool, Seq<char>)> {
        seq![
            ("id"@, false, self.asset.id@),
            ("properties"@, true, self.properties.pretty@),
            ("private_properties"@, true, self.private_properties.pretty@),
            ("data_address"@, true, self.data_address.pretty@),
        ]
    }

    pub fn new(asset: Asset, properties: Rendered, private_properties: Rendered, data_address: Rendered) -> (out: Self)
        ensures
            out == (AssetEntry { asset, properties, private_properties, data_address }),
    {
        AssetEntry { asset, properties, private_properties, data_address }
    }

    /// The record that the table and the detail screen hold.
    pub fn resource(&self) -> (out: Resource)
        ensures
            out.kind == ResourceKind::Assets,
            out.id@ == self.asset.id@,
            texts(out.row@) == self.row_spec(),
            field_models(out.fields@) == self.fields_spec(),
    {
        Resource::new(ResourceKind::Assets, self.asset.id().to_owned(), self.row(), self.fields())
    }
}

impl TableEntry for AssetEntry {
    fn row(&self) -> (out: Vec<String>)
        ensures
            texts(out@) == self.row_spec(),
    {
        let mut out: Vec<String> = Vec::new();
        out.push(self.asset.id().to_owned());
        out.push(self.properties.compact.clone());
        out.push(self.private_properties.compact.clone());
        out.push(self.data_address.compact.clone());
        assert(texts(out@) =~= self.row_spec());
        out
    }

    fn headers(&self) -> (out: Vec<String>)
        ensures
            texts(out@) == ResourceKind::Assets.headers_spec(),
    {
        ResourceKind::Assets.headers()
    }
}

impl DrawableResource for AssetEntry {
    fn id(&self) -> (out: &str)
        ensures
            out@ == self.asset.id@,
    {
        self.asset.id()
    }

    fn title(&self) -> (out: String)
        ensures
            out@ == ResourceKind::Assets.title_spec(),
    {
        ResourceKind::Assets.title().to_owned()
    }

    fn fields(&self) -> (out: Vec<Field>)
        ensures
            field_models(out@) == self.fields_spec(),
    {
        let mut out: Vec<Field> = Vec::new();
        out.push(Field::string("id", self.asset.id()));
        out.push(Field::json("properties", self.properties.pretty.clone()));
        out.push(Field::json("private_properties", self.private_properties.pretty.clone()));
        out.push(Field::json("data_address", self.data_address.pretty.clone()));
        assert(field_models(out@) =~= self.fields_spec());
        out
    }
}

/// A policy definition, as its screen lists and shows it.
pub struct PolicyDefinitionEntry {
    pub definition: PolicyDefinition,
    pub policy: Rendered,
}

impl PolicyDefinitionEntry {
    /// The cells of the row, from the left.
    pub open spec fn row_spec(self) -> Seq<Seq<char>> {
        seq![
            self.definition.id@,
            self.policy.compact@,
        ]
    }

    /// The fields of the detail screen, from the top: name, whether the value is a
    /// document, and the value.
    pub open spec fn fields_spec(self) -> Seq<(Seq<char>, bool, Seq<char>)> {
        seq![
            ("id"@, false, self.definition.id@),
            ("policy"@, true, self.policy.pretty@),
        ]
    }

    pub fn new(definition: PolicyDefinition, policy: Rendered) -> (out: Self)
        ensures
            out == (PolicyDefinitionEntry { definition, policy }),
    {
        PolicyDefinitionEntry { definition, policy }
    }

    /// The record that the table and the detail screen hold.
    pub fn resource(&self) -> (out: Resource)
        ensures
            out.kind == ResourceKind::Policies,
            out.id@ == self.definition.id@,
            texts(out.row@) == self.row_spec(),
            field_models(out.fields@) == self.fields_spec(),
    {
        Resource::new(ResourceKind::Policies, self.definition.id().to_owned(), self.row(), self.fields())
    }
}

impl TableEntry for PolicyDefinitionEntry {
    fn row(&self) -> (out: Vec<String>)
        ensures
            texts(out@) == self.row_spec(),
    {
        let mut out: Vec<String> = Vec::new();
        out.push(self.definition.id().to_owned());
        out.push(self.policy.compact.clone());
        assert(texts(out@) =~= self.row_spec());
        out
    }

    fn headers(&self) -> (out: Vec<String>)
        ensures
            texts(out@) == ResourceKind::Policies.headers_spec(),
    {
        ResourceKind::Policies.headers()
    }
}

impl DrawableResource for PolicyDefinitionEntry {
    fn id(&self) -> (out: &str)
        ensures
            out@ == self.definition.id@,
    {
        self.definition.id()
    }

    fn title(&self) -> (out: String)
        ensures
            out@ == ResourceKind::Policies.title_spec(),
    {
        ResourceKind::Policies.title().to_owned()
    }

    fn fields(&self) -> (out: Vec<Field>)
        ensures
            field_models(out@) == self.fields_spec(),
    {
        let mut out: Vec<Field> = Vec::new();
        out.push(Field::string("id", self.definition.id()));
        out.push(Field::json("policy", self.policy.pretty.clone()));
        assert(field_models(out@) =~= self.fields_spec());
        out
    }
}

/// A contract definition, as its screen lists and shows it.
pub struct ContractDefinitionEntry {
    pub definition: ContractDefinition,
    pub assets_selector: Rendered,
}

impl ContractDefinitionEntry {
    /// The cells of the row, from the left.
    pub open spec fn row_spec(self) -> Seq<Seq<char>> {
        seq![
            self.definition.id@,
            self.definition.access_policy_id@,
            self.definition.contract_policy_id@,
            self.assets_selector.compact@,
        ]
    }

    /// The fields of the detail screen, from the top: name, whether the value is a
    /// document, and the value.
    pub open spec fn fields_spec(self) -> Seq<(Seq<char>, bool, Seq<char>)> {
        seq![
            ("id"@, false, self.definition.id@),
            ("access_policy_id"@, false, self.definition.access_policy_id@),
            ("contract_policy_id"@, false, self.definition.contract_policy_id@),
            ("assets_selector"@, true, self.assets_selector.pretty@),
        ]
    }

    pub fn new(definition: ContractDefinition, assets_selector: Rendered) -> (out: Self)
        ensures
            out == (ContractDefinitionEntry { definition, assets_selector }),
    {
        ContractDefinitionEntry { definition, assets_selector }
    }

    /// The record that the table and the detail screen hold.
    pub fn resource(&self) -> (out: Resource)
        ensures
            out.kind == ResourceKind::ContractDefinitions,
            out.id@ == self.definition.id@,
            texts(out.row@) == self.row_spec(),
            field_models(out.fields@) == self.fields_spec(),
    {
        Resource::new(ResourceKind::ContractDefinitions, self.definition.id().to_owned(), self.row(), self.fields())
    }
}

impl TableEntry for ContractDefinitionEntry {
    fn row(&self) -> (out: Vec<String>)
        ensures
            texts(out@) == self.row_spec(),
    {
        let mut out: Vec<String> = Vec::new();
        out.push(self.definition.id().to_owned());
        out.push(self.definition.access_policy_id().to_owned());
        out.push(self.definition.contract_policy_id().to_owned());
        out.push(self.assets_selector.compact.clone());
        assert(texts(out@) =~= self.row_spec());
        out
    }

    fn headers(&self) -> (out: Vec<String>)
        ensures
            texts(out@) == ResourceKind::ContractDefinitions.headers_spec(),
    {
        ResourceKind::ContractDefinitions.headers()
    }
}

impl DrawableResource for ContractDefinitionEntry {
    fn id(&self) -> (out: &str)
        ensures
            out@ == self.definition.id@,
    {
        self.definition.id()
    }

    fn title(&self) -> (out: String)
        ensures
            out@ == ResourceKind::ContractDefinitions.title_spec(),
    {
        ResourceKind::ContractDefinitions.title().to_owned()
    }

    fn fields(&self) -> (out: Vec<Field>)
        ensures
            field_models(out@) == self.fields_spec(),
    {
        let mut out: Vec<Field> = Vec::new();
        out.push(Field::string("id", self.definition.id()));
        out.push(Field::string("access_policy_id", self.definition.access_policy_id()));
        out.push(Field::string("contract_policy_id", self.definition.contract_policy_id()));
        out.push(Field::json("assets_selector", self.assets_selector.pretty.clone()));
        assert(field_models(out@) =~= self.fields_spec());
        out
    }
}

/// A contract negotiation, as its screen lists and shows it.
pub struct ContractNegotiationEntry {
    pub negotiation: ContractNegotiation,
    pub callback_addresses: Rendered,
    pub private_properties: Rendered,
}

impl ContractNegotiationEntry {
    /// The cells of the row, from the left.
    pub open spec fn row_spec(self) -> Seq<Seq<char>> {
        seq![
            self.negotiation.id@,
            self.negotiation.kind.label_spec(),
            self.negotiation.state.label_spec(),
            self.negotiation.counter_party_id@,
            or_empty(self.negotiation.contract_agreement_id),
            self.private_properties.compact@,
            decimal(self.negotiation.created_at as int),
        ]
    }

    /// The fields of the detail screen, from the top: name, whether the value is a
    /// document, and the value.
    pub open spec fn fields_spec(self) -> Seq<(Seq<char>, bool, Seq<char>)> {
        seq![
            ("id"@, false, self.negotiation.id@),
            ("type"@, false, self.negotiation.kind.label_spec()),
            ("state"@, false, self.negotiation.state.label_spec()),
            ("counter_party_id"@, false, self.negotiation.counter_party_id@),
            ("counter_party_address"@, false, self.negotiation.counter_party_address@),
            ("contract_agreement_id"@, false, or_empty(self.negotiation.contract_agreement_id)),
            ("callback_addresses"@, true, self.callback_addresses.pretty@),
            ("private_properties"@, true, self.private_properties.pretty@),
            ("created_at"@, false, decimal(self.negotiation.created_at as int)),
        ]
    }

    pub fn new(negotiation: ContractNegotiation, callback_addresses: Rendered, private_properties: Rendered) -> (out: Self)
        ensures
            out == (ContractNegotiationEntry { negotiation, callback_addresses, private_properties }),
    {
        ContractNegotiationEntry { negotiation, callback_addresses, private_properties }
    }

    /// The record that the table and the detail screen hold.
    pub fn resource(&self) -> (out: Resource)
        ensures
            out.kind == ResourceKind::ContractNegotiations,
            out.id@ == self.negotiation.id@,
            texts(out.row@) == self.row_spec(),
            field_models(out.fields@) == self.fields_spec(),
    {
        Resource::new(ResourceKind::ContractNegotiations, self.negotiation.id().to_owned(), self.row(), self.fields())
    }
}

impl TableEntry for ContractNegotiationEntry {
    fn row(&self) -> (out: Vec<String>)
        ensures
            texts(out@) == self.row_spec(),
    {
        let mut out: Vec<String> = Vec::new();
        out.push(self.negotiation.id().to_owned());
        out.push(self.negotiation.kind().label().to_owned());
        out.push(self.negotiation.state().label());
        out.push(self.negotiation.counter_party_id().to_owned());
        out.push(text_or_empty(self.negotiation.contract_agreement_id()));
        out.push(self.private_properties.compact.clone());
        out.push(i64_text(self.negotiation.created_at()));
        assert(texts(out@) =~= self.row_spec());
        out
    }

    fn headers(&self) -> (out: Vec<String>)
        ensures
            texts(out@) == ResourceKind::ContractNegotiations.headers_spec(),
    {
        ResourceKind::ContractNegotiations.headers()
    }
}

impl DrawableResource for ContractNegotiationEntry {
    fn id(&self) -> (out: &str)
        ensures
            out@ == self.negotiation.id@,
    {
        self.negotiation.id()
    }

    fn title(&self) -> (out: String)
        ensures
            out@ == ResourceKind::ContractNegotiations.title_spec(),
    {
        ResourceKind::ContractNegotiations.title().to_owned()
    }

    fn fields(&self) -> (out: Vec<Field>)
        ensures
            field_models(out@) == self.fields_spec(),
    {
        let mut out: Vec<Field> = Vec::new();
        out.push(Field::string("id", self.negotiation.id()));
        let value = self.negotiation.kind().label().to_owned();
        out.push(Field::string("type", value.as_str()));
        let value = self.negotiation.state().label();
        out.push(Field::string("state", value.as_str()));
        out.push(Field::string("counter_party_id", self.negotiation.counter_party_id()));
        out.push(Field::string("counter_party_address", self.negotiation.counter_party_address()));
        let value = text_or_empty(self.negotiation.contract_agreement_id());
        out.push(Field::string("contract_agreement_id", value.as_str()));
        out.push(Field::json("callback_addresses", self.callback_addresses.pretty.clone()));
        out.push(Field::json("private_properties", self.private_properties.pretty.clone()));
        let value = i64_text(self.negotiation.created_at());
        out.push(Field::string("created_at", value.as_str()));
        assert(field_models(out@) =~= self.fields_spec());
        out
    }
}

/// A transfer, as its screen lists and shows it.
pub struct TransferProcessEntry {
    pub transfer: TransferProcess,
    pub callback_addresses: Rendered,
    pub private_properties: Rendered,
}

impl TransferProcessEntry {
    /// The cells of the row, from the left.
    pub open spec fn row_spec(self) -> Seq<Seq<char>> {
        seq![
            self.transfer.id@,
            self.transfer.kind.label_spec(),
            self.transfer.state.label_spec(),
            self.transfer.transfer_type@,
            self.transfer.asset_id@,
            self.transfer.contract_id@,
            self.private_properties.compact@,
        ]
    }

    /// The fields of the detail screen, from the top: name, whether the value is a
    /// document, and the value.
    pub open spec fn fields_spec(self) -> Seq<(Seq<char>, bool, Seq<char>)> {
        seq![
            ("id"@, false, self.transfer.id@),
            ("type"@, false, self.transfer.kind.label_spec()),
            ("state"@, false, self.transfer.state.label_spec()),
            ("transferType"@, false, self.transfer.transfer_type@),
            ("asset_id"@, false, self.transfer.asset_id@),
            ("contract_agreement_id"@, false, self.transfer.contract_id@),
            ("correlation_id"@, false, or_empty(self.transfer.correlation_id)),
            ("callback_addresses"@, true, self.callback_addresses.pretty@),
            ("private_properties"@, true, self.private_properties.pretty@),
        ]
    }

    pub fn new(transfer: TransferProcess, callback_addresses: Rendered, private_properties: Rendered) -> (out: Self)
        ensures
            out == (TransferProcessEntry { transfer, callback_addresses, private_properties }),
    {
        TransferProcessEntry { transfer, callback_addresses, private_properties }
    }

    /// The record that the table and the detail screen hold.
    pub fn resource(&self) -> (out: Resource)
        ensures
            out.kind == ResourceKind::TransferProcesses,
            out.id@ == self.transfer.id@,
            texts(out.row@) == self.row_spec(),
            field_models(out.fields@) == self.fields_spec(),
    {
        Resource::new(ResourceKind::TransferProcesses, self.transfer.id().to_owned(), self.row(), self.fields())
    }
}

impl TableEntry for TransferProcessEntry {
    fn row(&self) -> (out: Vec<String>)
        ensures
            texts(out@) == self.row_spec(),
    {
        let mut out: Vec<String> = Vec::new();
        out.push(self.transfer.id().to_owned());
        out.push(self.transfer.kind().label().to_owned());
        out.push(self.transfer.state().label());
        out.push(self.transfer.transfer_type().to_owned());
        out.push(self.transfer.asset_id().to_owned());
        out.push(self.transfer.contract_id().to_owned());
        out.push(self.private_properties.compact.clone());
        assert(texts(out@) =~= self.row_spec());
        out
    }

    fn headers(&self) -> (out: Vec<String>)
        ensures
            texts(out@) == ResourceKind::TransferProcesses.headers_spec(),
    {
        ResourceKind::TransferProcesses.headers()
    }
}

impl DrawableResource for TransferProcessEntry {
    fn id(&self) -> (out: &str)
        ensures
            out@ == self.transfer.id@,
    {
        self.transfer.id()
    }

    fn title(&self) -> (out: String)
        ensures
            out@ == ResourceKind::TransferProcesses.title_spec(),
    {
        ResourceKind::TransferProcesses.title().to_owned()
    }

    fn fields(&self) -> (out: Vec<Field>)
        ensures
            field_models(out@) == self.fields_spec(),
    {
        let mut out: Vec<Field> = Vec::new();
        out.push(Field::string("id", self.transfer.id()));
        let value = self.transfer.kind().label().to_owned();
        out.push(Field::string("type", value.as_str()));
        let value = self.transfer.state().label();
        out.push(Field::string("state", value.as_str()));
        out.push(Field::string("transferType", self.transfer.transfer_type()));
        out.push(Field::string("asset_id", self.transfer.asset_id()));
        out.push(Field::string("contract_agreement_id", self.transfer.contract_id()));
        let value = text_or_empty(self.transfer.correlation_id());
        out.push(Field::string("correlation_id", value.as_str()));
        out.push(Field::json("callback_addresses", self.callback_addresses.pretty.clone()));
        out.push(Field::json("private_properties", self.private_properties.pretty.clone()));
        assert(field_models(out@) =~= self.fields_spec());
        out
    }
}

} // verus!
