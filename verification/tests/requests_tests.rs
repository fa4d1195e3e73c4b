use edc_connector::client::BuilderError;
use edc_connector::entries::text_or_empty;
use edc_connector::entries::AssetEntry;
use edc_connector::entries::ContractDefinitionEntry;
use edc_connector::entries::ContractNegotiationEntry;
use edc_connector::entries::PolicyDefinitionEntry;
use edc_connector::entries::Rendered;
use edc_connector::entries::TransferProcessEntry;
use edc_connector::policy::Action;
use edc_connector::policy::AtomicConstraint;
use edc_connector::policy::Constraint;
use edc_connector::policy::LeftOperand;
use edc_connector::policy::MultiplicityConstraint;
use edc_connector::policy::NewPolicyDefinition;
use edc_connector::policy::Obligation;
use edc_connector::policy::Operator;
use edc_connector::policy::Permission;
use edc_connector::policy::Policy;
use edc_connector::policy::PolicyDefinition;
use edc_connector::policy::PolicyKind;
use edc_connector::policy::Prohibition;
use edc_connector::policy::Target;
use edc_connector::connectors::ConnectorsComponent;
use edc_connector::header::HeaderComponent;
use edc_connector::nav::Menu;
use edc_connector::properties::FromValue;
use edc_connector::properties::Properties;
use edc_connector::properties::ToValue;
use edc_connector::query::Criterion;
use edc_connector::query::PropertyValue;
use edc_connector::query::Query;
use edc_connector::query::SortOrder;
use edc_connector::record::DrawableResource;
use edc_connector::record::FieldValue;
use edc_connector::record::ResourceKind;
use edc_connector::record::TableEntry;
use edc_connector::requests::Asset;
use edc_connector::requests::CatalogRequest;
use edc_connector::requests::ContractDefinition;
use edc_connector::requests::ContractRequest;
use edc_connector::requests::DataAddress;
use edc_connector::requests::NewAsset;
use edc_connector::requests::NewContractDefinition;
use edc_connector::requests::TransferRequest;
use edc_connector::text::i64_text;
use edc_connector::text::join;
use edc_connector::text::quoted;
use edc_connector::text::u32_text;
use edc_connector::types::CallbackAddress;
use edc_connector::types::ContractNegotiation;
use edc_connector::types::ContractNegotiationKind;
use edc_connector::types::ContractNegotiationState;
use edc_connector::types::TransferProcess;
use edc_connector::types::TransferProcessKind;
use edc_connector::types::TransferProcessState;

fn missing<T>(out: Result<T, BuilderError>) -> String {
    match out {
        Ok(_) => panic!("the builder should have refused"),
        Err(BuilderError::MissingProperty(name)) => name,
    }
}

fn address() -> DataAddress {
    DataAddress::builder().kind("HttpData").property("baseUrl", PropertyValue::text("http://d")).build().ok().expect("typed")
}

fn rendered(text: &str) -> Rendered {
    Rendered { compact: text.to_string(), pretty: format!("{}\n", text) }
}

#[test]
fn properties_keep_one_value_per_name() {
    let mut props = Properties::default();
    assert!(!props.contains("a"));
    assert!(props.get_raw("a").is_none());
    assert_eq!(props.get_text("a").ok(), Some(None));
    props.set("a", PropertyValue::text("1"));
    props.set("b", PropertyValue::many(vec!["x".to_string(), "y".to_string()]));
    props.set("c", PropertyValue::Other("{\"n\":1}".to_string()));
    props.set("a", PropertyValue::text("2"));
    assert_eq!(props.0.len(), 3);
    assert!(props.contains("a") && props.contains("b") && props.contains("c"));
    assert_eq!(props.find("b"), Some(1));
    assert_eq!(props.find("z"), None);
    assert_eq!(props.get_text("a").ok(), Some(Some("2".to_string())));
    assert!(props.get_text("b").is_err());
    assert!(props.get_text("c").is_err());
    assert_eq!(props.get_texts("a").ok(), Some(Some(vec!["2".to_string()])));
    assert_eq!(props.get_texts("b").ok(), Some(Some(vec!["x".to_string(), "y".to_string()])));
    assert!(props.get_texts("c").is_err());
    assert_eq!(props.get_texts("z").ok(), Some(None));
    assert!(matches!(props.get_raw("c"), Some(PropertyValue::Other(d)) if d == "{\"n\":1}"));
}

#[test]
fn values_convert_to_texts() {
    assert_eq!(PropertyValue::text("t").try_text().ok(), Some("t".to_string()));
    assert!(PropertyValue::many(vec![]).try_text().is_err());
    assert_eq!(PropertyValue::many(vec![]).try_texts().ok(), Some(vec![]));
    assert!(PropertyValue::Other("1".to_string()).try_texts().is_err());
}

#[test]
fn a_data_address_needs_its_type() {
    let built = address();
    assert!(built.properties().contains("type"));
    assert_eq!(built.properties().get_text("type").ok(), Some(Some("HttpData".to_string())));
    assert_eq!(built.properties().get_text("baseUrl").ok(), Some(Some("http://d".to_string())));
    assert_eq!(missing(DataAddress::builder().property("baseUrl", PropertyValue::text("u")).build()), "type");
    assert!(DataAddress::builder().property("type", PropertyValue::text("X")).build().is_ok());
}

#[test]
fn an_asset_needs_its_id_and_its_data_address() {
    let asset = Asset::builder()
        .id("asset-1")
        .property("name", PropertyValue::text("n"))
        .private_property("secret", PropertyValue::text("s"))
        .data_address(address())
        .build()
        .ok()
        .expect("complete");
    assert_eq!(asset.id(), "asset-1");
    assert!(matches!(asset.raw_property("name"), Some(PropertyValue::Text(t)) if t == "n"));
    assert!(asset.raw_property("secret").is_none());
    assert!(asset.private_properties().contains("secret"));
    assert!(asset.data_address().properties().contains("type"));
    assert_eq!(missing(Asset::builder().data_address(address()).build()), "id");
    assert_eq!(missing(Asset::builder().id("a").build()), "data_address");
    assert_eq!(missing(Asset::builder().build()), "id");
    let new_asset = NewAsset::builder().data_address(address()).build().ok().expect("complete");
    assert!(new_asset.id.is_none());
    let new_asset = NewAsset::builder().id("x").data_address(address()).build().ok().expect("complete");
    assert_eq!(new_asset.id.as_deref(), Some("x"));
    assert_eq!(missing(NewAsset::builder().id("x").build()), "data_address");
}

#[test]
fn a_contract_definition_needs_its_id_and_both_policies() {
    let definition = ContractDefinition::builder()
        .id("d")
        .access_policy_id("ap")
        .contract_policy_id("cp")
        .asset_selector(Criterion::new("id", "=", PropertyValue::text("a")))
        .asset_selector(Criterion::new("id", "=", PropertyValue::text("b")))
        .private_property("k", PropertyValue::text("v"))
        .build()
        .ok()
        .expect("complete");
    assert_eq!(definition.id(), "d");
    assert_eq!(definition.access_policy_id(), "ap");
    assert_eq!(definition.contract_policy_id(), "cp");
    assert_eq!(definition.assets_selector().len(), 2);
    assert!(definition.private_properties().contains("k"));
    assert_eq!(missing(ContractDefinition::builder().build()), "id");
    assert_eq!(missing(ContractDefinition::builder().id("d").contract_policy_id("c").build()), "access_policy_id");
    assert_eq!(missing(ContractDefinition::builder().id("d").access_policy_id("a").build()), "contract_policy_id");
    let fresh = NewContractDefinition::builder()
        .access_policy_id("ap")
        .contract_policy_id("cp")
        .build()
        .ok()
        .expect("complete");
    assert!(fresh.id.is_none());
    assert!(fresh.assets_selector.is_empty());
    assert_eq!(missing(NewContractDefinition::builder().id("d").build()), "access_policy_id");
    assert_eq!(missing(NewContractDefinition::builder().access_policy_id("a").build()), "contract_policy_id");
}

#[test]
fn a_contract_request_needs_the_other_party_and_a_policy() {
    let callback = CallbackAddress::builder().uri("http://cb").build().ok().expect("built");
    let request = ContractRequest::builder()
        .counter_party_address("http://provider")
        .counter_party_id("provider")
        .policy(Policy::builder().id("offer").kind(PolicyKind::Offer).build())
        .callback_address(callback)
        .build()
        .ok()
        .expect("complete");
    assert_eq!(request.protocol, "dataspace-protocol-http");
    assert_eq!(request.counter_party_address, "http://provider");
    assert_eq!(request.counter_party_id, "provider");
    assert_eq!(request.policy.id().map(|s| s.as_str()), Some("offer"));
    assert_eq!(request.callback_addresses.len(), 1);
    let other = ContractRequest::builder()
        .protocol("other")
        .counter_party_address("a")
        .counter_party_id("i")
        .policy(Policy::builder().build())
        .build()
        .ok()
        .expect("complete");
    assert_eq!(other.protocol, "other");
    assert_eq!(missing(ContractRequest::builder().build()), "counter_party_address");
    assert_eq!(missing(ContractRequest::builder().counter_party_address("a").build()), "counter_party_id");
    assert_eq!(
        missing(ContractRequest::builder().counter_party_address("a").counter_party_id("i").build()),
        "policy"
    );
}

#[test]
fn a_transfer_request_needs_four_properties() {
    let request = TransferRequest::builder()
        .counter_party_address("http://provider")
        .contract_id("c")
        .asset_id("a")
        .transfer_type("HttpData-PULL")
        .destination(address())
        .build()
        .ok()
        .expect("complete");
    assert_eq!(request.protocol, "dataspace-protocol-http");
    assert_eq!(request.contract_id, "c");
    assert_eq!(request.asset_id, "a");
    assert_eq!(request.transfer_type, "HttpData-PULL");
    assert!(request.data_destination.is_some());
    assert!(request.callback_addresses.is_empty());
    assert_eq!(missing(TransferRequest::builder().build()), "counter_party_address");
    assert_eq!(missing(TransferRequest::builder().counter_party_address("a").build()), "contract_id");
    assert_eq!(
        missing(TransferRequest::builder().counter_party_address("a").contract_id("c").build()),
        "asset_id"
    );
    assert_eq!(
        missing(TransferRequest::builder().counter_party_address("a").contract_id("c").asset_id("x").build()),
        "transfer_type"
    );
    let other = TransferRequest::builder()
        .protocol("p")
        .counter_party_address("a")
        .contract_id("c")
        .asset_id("x")
        .transfer_type("t")
        .build()
        .ok()
        .expect("complete");
    assert_eq!(other.protocol, "p");
    assert!(other.data_destination.is_none());
}

#[test]
fn a_catalog_request_needs_the_address() {
    let request = CatalogRequest::builder()
        .counter_party_address("http://provider")
        .counter_party_id("provider")
        .query_spec(Query::builder().limit(5).build())
        .build()
        .ok()
        .expect("complete");
    assert_eq!(request.counter_party_address, "http://provider");
    assert_eq!(request.counter_party_id.as_deref(), Some("provider"));
    assert_eq!(request.protocol.0, "dataspace-protocol-http");
    assert_eq!(request.query_spec.limit(), 5);
    assert_eq!(missing(CatalogRequest::builder().protocol("x").build()), "counter_party_address");
}

#[test]
fn policies_are_built_rule_by_rule() {
    let blank = Policy::builder().build();
    assert!(blank.id().is_none());
    assert_eq!(*blank.kind(), PolicyKind::RuleSet);
    assert!(blank.assignee().is_none() && blank.assigner().is_none() && blank.target().is_none());
    assert!(blank.permissions().is_empty() && blank.obligations().is_empty() && blank.prohibitions().is_empty());

    let constraint = Constraint::atomic(AtomicConstraint::new("spatial", "eq", PropertyValue::text("EU")));
    let permission = Permission::builder()
        .action(Action::new("use".to_string()))
        .constraint(constraint)
        .constraint(Constraint::or(vec![]))
        .build();
    assert_eq!(permission.action().id(), "use");
    assert_eq!(permission.constraints().len(), 2);
    match &permission.constraints()[0] {
        Constraint::Atomic(atomic) => {
            assert!(matches!(&atomic.left_operand, LeftOperand::Simple(l) if l == "spatial"));
            assert!(matches!(&atomic.operator, Operator::Simple(o) if o == "eq"));
            assert!(matches!(&atomic.right_operand, PropertyValue::Text(r) if r == "EU"));
        }
        _ => panic!("an atomic constraint was expected"),
    }
    assert!(matches!(
        Constraint::and(vec![]),
        Constraint::MultiplicityConstraint(MultiplicityConstraint::And(_))
    ));
    assert!(matches!(
        Constraint::xone(vec![]),
        Constraint::MultiplicityConstraint(MultiplicityConstraint::Xone(_))
    ));
    assert!(matches!(LeftOperand::from("x"), LeftOperand::Id { id } if id == "x"));
    let with_operator = AtomicConstraint::new_with_operator(
        LeftOperand::id("l"),
        Operator::id("odrl:eq"),
        PropertyValue::text("v"),
    );
    assert!(matches!(&with_operator.operator, Operator::Id { id } if id == "odrl:eq"));

    let policy = Policy::builder()
        .id("policy-1")
        .assigner("provider")
        .target(Target::id("asset-1"))
        .kind(PolicyKind::Offer)
        .permissions(vec![Permission::builder().build()])
        .permission(permission)
        .build();
    assert_eq!(policy.id().map(|s| s.as_str()), Some("policy-1"));
    assert_eq!(policy.assigner().map(|s| s.as_str()), Some("provider"));
    assert_eq!(policy.target().map(|t| t.get_id()), Some("asset-1"));
    assert_eq!(*policy.kind(), PolicyKind::Offer);
    assert_eq!(policy.permissions().len(), 2);
    assert_eq!(policy.permissions()[0].action().id(), "http://www.w3.org/ns/odrl/2/use");
    assert!(policy.permissions()[0].constraints().is_empty());

    let obligation = Obligation::builder().constraints(vec![Constraint::and(vec![])]).build();
    assert_eq!(obligation.constraints().len(), 1);
    assert_eq!(obligation.action().id(), "http://www.w3.org/ns/odrl/2/use");
    let obligation = Obligation::builder().action(Action::Simple("a".to_string())).constraint(Constraint::or(vec![])).build();
    assert_eq!(obligation.action().id(), "a");
    let prohibition = Prohibition::builder()
        .action(Action::new("distribute".to_string()))
        .constraints(vec![])
        .constraint(Constraint::xone(vec![]))
        .build();
    assert_eq!(prohibition.action().id(), "distribute");
    assert_eq!(prohibition.constraints().len(), 1);
    let replaced = Permission::builder().constraint(Constraint::or(vec![])).constraints(vec![]).build();
    assert!(replaced.constraints().is_empty());
}

#[test]
fn a_policy_definition_needs_its_id_and_its_policy() {
    let definition = PolicyDefinition::builder()
        .id("pd")
        .policy(Policy::builder().build())
        .private_property("k", PropertyValue::text("v"))
        .build()
        .ok()
        .expect("complete");
    assert_eq!(definition.id(), "pd");
    assert!(definition.policy().permissions().is_empty());
    assert!(definition.private_properties().contains("k"));
    assert_eq!(missing(PolicyDefinition::builder().policy(Policy::builder().build()).build()), "id");
    assert_eq!(missing(PolicyDefinition::builder().id("pd").build()), "policy");
    assert_eq!(PolicyDefinition::default().id(), "");
    let fresh = NewPolicyDefinition::builder().build();
    assert!(fresh.id.is_none());
    let fresh = NewPolicyDefinition::builder()
        .id("n")
        .policy(Policy::builder().kind(PolicyKind::Agreement).build())
        .private_property("k", PropertyValue::text("v"))
        .build();
    assert_eq!(fresh.id.as_deref(), Some("n"));
    assert_eq!(*fresh.policy.kind(), PolicyKind::Agreement);
    assert!(fresh.private_properties.contains("k"));
}

#[test]
fn numbers_and_texts_are_written_down() {
    assert_eq!(u32_text(0), "0");
    assert_eq!(u32_text(7), "7");
    assert_eq!(u32_text(50), "50");
    assert_eq!(u32_text(u32::MAX), "4294967295");
    assert_eq!(i64_text(-1), "-1");
    assert_eq!(i64_text(1700000000000), "1700000000000");
    assert_eq!(i64_text(i64::MIN), "-9223372036854775808");
    assert_eq!(quoted("a"), "\"a\"");
    assert_eq!(quoted("a\"b"), "\"a\\\"b\"");
    assert_eq!(join(&vec![], ", "), "");
    assert_eq!(join(&vec!["a".to_string()], ", "), "a");
    assert_eq!(join(&vec!["a".to_string(), "b".to_string(), "".to_string()], " , "), "a , b , ");
    assert_eq!(text_or_empty(None), "");
    assert_eq!(text_or_empty(Some(&"x".to_string())), "x");
}

#[test]
fn the_status_line_of_a_query() {
    assert_eq!(Query::default().summary(), "Offset: 0 | Limit: 50 | Sort: None | Filter: []");
    let query = Query::builder()
        .offset(100)
        .limit(25)
        .sort("name", SortOrder::Asc)
        .filter("id", "=", PropertyValue::text("1"))
        .filter("tag", "in", PropertyValue::many(vec!["a".to_string(), "b".to_string()]))
        .build();
    assert_eq!(
        query.summary(),
        "Offset: 100 | Limit: 25 | Sort: name[Asc] | Filter: [id = PropertyValue(String(\"1\")) , tag in PropertyValue(Array [String(\"a\"), String(\"b\")])]"
    );
    assert_eq!(SortOrder::Desc.label(), "Desc");
    assert_eq!(PropertyValue::Other("Number(1)".to_string()).describe(), "PropertyValue(Number(1))");
    assert_eq!(Criterion::new("l", "op", PropertyValue::many(vec![])).describe(), "l op PropertyValue(Array [])");
}

#[test]
fn an_asset_on_its_screen() {
    let asset = Asset::builder().id("asset-1").data_address(address()).build().ok().expect("complete");
    let entry = AssetEntry::new(asset, rendered("{\"name\":\"n\"}"), rendered("{}"), rendered("{\"type\":\"HttpData\"}"));
    assert_eq!(DrawableResource::id(&entry), "asset-1");
    assert_eq!(entry.title(), "Assets");
    assert_eq!(entry.row(), vec!["asset-1", "{\"name\":\"n\"}", "{}", "{\"type\":\"HttpData\"}"]);
    assert_eq!(entry.headers(), vec!["ID", "PROPERTIES", "PRIVATE PROPERTIES", "DATA ADDRESS"]);
    let fields = entry.fields();
    assert_eq!(fields.len(), 4);
    assert_eq!(fields[0].name(), "id");
    assert!(matches!(fields[0].value(), FieldValue::Str(v) if v == "asset-1"));
    assert_eq!(fields[1].name(), "properties");
    assert!(matches!(fields[1].value(), FieldValue::Json(v) if v == "{\"name\":\"n\"}\n"));
    assert_eq!(fields[2].name(), "private_properties");
    assert_eq!(fields[3].name(), "data_address");
    let record = entry.resource();
    assert_eq!(record.kind, ResourceKind::Assets);
    assert_eq!(record.id, "asset-1");
    assert_eq!(record.row.len(), 4);
    assert_eq!(record.fields.len(), 4);
}

#[test]
fn policies_and_contract_definitions_on_their_screens() {
    let definition =
        PolicyDefinition::builder().id("pd").policy(Policy::builder().build()).build().ok().expect("complete");
    let entry = PolicyDefinitionEntry::new(definition, rendered("{\"@type\":\"Set\"}"));
    assert_eq!(entry.row(), vec!["pd", "{\"@type\":\"Set\"}"]);
    assert_eq!(entry.title(), "Policies");
    let fields = entry.fields();
    assert_eq!(fields.len(), 2);
    assert_eq!(fields[1].name(), "policy");
    assert!(matches!(fields[1].value(), FieldValue::Json(_)));
    assert_eq!(entry.resource().kind, ResourceKind::Policies);

    let definition = ContractDefinition::builder()
        .id("cd")
        .access_policy_id("ap")
        .contract_policy_id("cp")
        .build()
        .ok()
        .expect("complete");
    let entry = ContractDefinitionEntry::new(definition, rendered("[]"));
    assert_eq!(entry.row(), vec!["cd", "ap", "cp", "[]"]);
    assert_eq!(entry.title(), "Contract Definitions");
    let names: Vec<String> = entry.fields().iter().map(|f| f.name().to_string()).collect();
    assert_eq!(names, vec!["id", "access_policy_id", "contract_policy_id", "assets_selector"]);
    assert!(matches!(entry.fields()[3].value(), FieldValue::Json(v) if v == "[]\n"));
}

#[test]
fn a_negotiation_on_its_screen() {
    let negotiation = ContractNegotiation {
        id: "n1".to_string(),
        private_properties: Properties::default(),
        state: ContractNegotiationState::Finalized,
        contract_agreement_id: Some("agreement".to_string()),
        counter_party_id: "provider".to_string(),
        counter_party_address: "http://provider".to_string(),
        protocol: "dataspace-protocol-http".to_string(),
        created_at: 1700000000000,
        callback_addresses: vec![],
        kind: ContractNegotiationKind::Consumer,
    };
    assert_eq!(negotiation.protocol(), "dataspace-protocol-http");
    assert!(negotiation.callback_addresses().is_empty());
    let entry = ContractNegotiationEntry::new(negotiation, rendered("[]"), rendered("{}"));
    assert_eq!(
        entry.row(),
        vec!["n1", "Consumer", "Finalized", "provider", "agreement", "{}", "1700000000000"]
    );
    assert_eq!(entry.title(), "Contract Negotiations");
    let fields = entry.fields();
    let names: Vec<String> = fields.iter().map(|f| f.name().to_string()).collect();
    assert_eq!(
        names,
        vec![
            "id",
            "type",
            "state",
            "counter_party_id",
            "counter_party_address",
            "contract_agreement_id",
            "callback_addresses",
            "private_properties",
            "created_at"
        ]
    );
    assert_eq!(fields[1].value().as_str(), "Consumer");
    assert_eq!(fields[2].value().as_str(), "Finalized");
    assert_eq!(fields[4].value().as_str(), "http://provider");
    assert_eq!(fields[5].value().as_str(), "agreement");
    assert!(matches!(fields[6].value(), FieldValue::Json(v) if v == "[]\n"));
    assert!(matches!(fields[7].value(), FieldValue::Json(v) if v == "{}\n"));
    assert_eq!(fields[8].value().as_str(), "1700000000000");
    assert_eq!(ContractNegotiationState::Other("X\"Y".to_string()).label(), "Other(\"X\\\"Y\")");
    assert_eq!(ContractNegotiationState::Initial.label(), "Initial");
}

#[test]
fn a_transfer_on_its_screen() {
    let transfer = TransferProcess {
        id: "t1".to_string(),
        private_properties: Properties::default(),
        state: TransferProcessState::Other("PAUSED".to_string()),
        state_timestamp: 5,
        asset_id: "asset".to_string(),
        contract_id: "contract".to_string(),
        correlation_id: None,
        data_destination: None,
        callback_addresses: vec![],
        transfer_type: "HttpData-PULL".to_string(),
        kind: TransferProcessKind::Provider,
    };
    assert_eq!(transfer.state_timestamp(), 5);
    assert!(transfer.data_destination().is_none());
    assert!(transfer.correlation_id().is_none());
    let entry = TransferProcessEntry::new(transfer, rendered("[]"), rendered("{}"));
    assert_eq!(
        entry.row(),
        vec!["t1", "Provider", "Other(\"PAUSED\")", "HttpData-PULL", "asset", "contract", "{}"]
    );
    assert_eq!(entry.title(), "Transfer Processes");
    let fields = entry.fields();
    let names: Vec<String> = fields.iter().map(|f| f.name().to_string()).collect();
    assert_eq!(
        names,
        vec![
            "id",
            "type",
            "state",
            "transferType",
            "asset_id",
            "contract_agreement_id",
            "correlation_id",
            "callback_addresses",
            "private_properties"
        ]
    );
    assert_eq!(fields[5].value().as_str(), "contract");
    assert_eq!(fields[6].value().as_str(), "");
    assert_eq!(TransferProcessState::DeprovisioningRequested.label(), "DeprovisioningRequested");
    let record = entry.resource();
    assert_eq!(record.kind, ResourceKind::TransferProcesses);
    assert_eq!(record.row.len(), 7);
}

#[test]
fn rust_values_are_written_down_and_read_back() {
    assert!(matches!("a".into_value(), PropertyValue::Text(t) if t == "a"));
    assert!(matches!("a".to_string().into_value(), PropertyValue::Text(t) if t == "a"));
    assert!(matches!((&"a".to_string()).into_value(), PropertyValue::Text(t) if t == "a"));
    assert!(matches!(
        vec!["a".to_string(), "b".to_string()].into_value(),
        PropertyValue::Many(items) if items == vec!["a", "b"]
    ));
    assert!(matches!(PropertyValue::Other("1".to_string()).into_value(), PropertyValue::Other(_)));

    let text = PropertyValue::text("t");
    assert_eq!(<String as FromValue>::try_from(&text).ok(), Some("t".to_string()));
    assert_eq!(<Vec<String> as FromValue>::try_from(&text).ok(), Some(vec!["t".to_string()]));
    assert_eq!(text.try_from::<String>().ok(), Some("t".to_string()));
    let many = vec!["x".to_string()].into_value();
    assert!(many.try_from::<String>().is_err());
    assert_eq!(many.try_from::<Vec<String>>().ok(), Some(vec!["x".to_string()]));

    let mut props = Properties::default();
    props.set("name", "value");
    props.set("tags", vec!["a".to_string(), "b".to_string()]);
    assert_eq!(props.get::<String>("name").ok(), Some(Some("value".to_string())));
    assert_eq!(props.get::<Vec<String>>("tags").ok(), Some(Some(vec!["a".to_string(), "b".to_string()])));
    assert!(props.get::<String>("tags").is_err());
    assert_eq!(props.get::<String>("absent").ok(), Some(None));

    let asset = Asset::builder()
        .id("a")
        .property("name", "n")
        .private_property("owner", "o".to_string())
        .data_address(DataAddress::builder().kind("HttpData").property("tags", vec!["x".to_string()]).build().ok().expect("typed"))
        .build()
        .ok()
        .expect("complete");
    assert_eq!(asset.properties().get::<String>("name").ok(), Some(Some("n".to_string())));
    assert_eq!(asset.private_properties().get::<String>("owner").ok(), Some(Some("o".to_string())));
    let query = Query::builder().filter("id", "=", "1").filter("tag", "in", vec!["a".to_string()]).build();
    assert_eq!(query.filter_expression().len(), 2);
    let constraint = AtomicConstraint::new("l", "eq", "r");
    assert!(matches!(&constraint.right_operand, PropertyValue::Text(r) if r == "r"));
}

#[test]
fn components_have_defaults() {
    let header = HeaderComponent::default();
    assert_eq!(*header.selected_menu(), Menu::Connectors);
    assert!(header.sheet().iter_info().is_empty());
    let list = ConnectorsComponent::default();
    assert!(list.selected().is_none());
    assert!(list.table.elements.is_empty());
    assert_eq!(list.table.selected(), Some(0));
}
