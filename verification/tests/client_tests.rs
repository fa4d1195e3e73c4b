use edc_connector::client::Auth;
use edc_connector::client::BuilderError;
use edc_connector::client::EdcConnectorClient;
use edc_connector::config::default_file;
use edc_connector::config::AuthKind;
use edc_connector::config::ConnectorConfig;
use edc_connector::connector::Connector;
use edc_connector::connector::ConnectorStatus;
use edc_connector::connectors::ConnectorEntry;
use edc_connector::connectors::ConnectorsComponent;
use edc_connector::connectors::ConnectorsMsg;
use edc_connector::component::Component;
use edc_connector::envelope::ComponentMsg;
use edc_connector::action::Action;
use edc_connector::nav::Nav;
use edc_connector::event::ComponentEvent;
use edc_connector::event::Input;
use edc_connector::event::InputKey;
use edc_connector::event::KeyCode;
use edc_connector::event::KeyEvent;
use edc_connector::event::MouseKind;
use edc_connector::footer::BannerColor;
use edc_connector::footer::Footer;
use edc_connector::notification::Notification;
use edc_connector::notification::NotificationKind;
use edc_connector::policy::Action as PolicyAction;
use edc_connector::policy::LeftOperand;
use edc_connector::policy::Operator;
use edc_connector::policy::Target;
use edc_connector::query::Criterion;
use edc_connector::query::PropertyValue;
use edc_connector::query::Query;
use edc_connector::query::Sort;
use edc_connector::query::SortOrder;
use edc_connector::record::ResourceKind;
use edc_connector::record::TableEntry;
use edc_connector::types::CallbackAddress;
use edc_connector::types::ContractNegotiationKind;
use edc_connector::types::ContractNegotiationState;
use edc_connector::types::DatasetRequest;
use edc_connector::types::EndpointDataReferenceEntry;
use edc_connector::types::IdResponse;
use edc_connector::types::NegotiationState;
use edc_connector::types::Protocol;
use edc_connector::types::TransferProcessKind;
use edc_connector::types::TransferProcessState;
use edc_connector::types::TransferState;

#[test]
fn the_client_builder_needs_the_management_url() {
    let built = EdcConnectorClient::builder()
        .management_url("http://myedc")
        .with_auth(Auth::api_token("password".to_string()))
        .build();
    match built {
        Ok(client) => {
            assert_eq!(client.management_url, "http://myedc");
            assert!(matches!(&client.auth, Auth::ApiToken(t) if t == "password"));
            assert_eq!(client.fetch_call(ResourceKind::Assets).url, "http://myedc/v3/assets/request");
            assert_eq!(
                client.fetch_call(ResourceKind::Policies).url,
                "http://myedc/v2/policydefinitions/request"
            );
            assert_eq!(
                client.fetch_call(ResourceKind::ContractDefinitions).url,
                "http://myedc/v2/contractdefinitions/request"
            );
            assert_eq!(
                client.fetch_call(ResourceKind::ContractNegotiations).url,
                "http://myedc/v3/contractnegotiations/request"
            );
            assert_eq!(
                client.fetch_call(ResourceKind::TransferProcesses).url,
                "http://myedc/v3/transferprocesses/request"
            );
        }
        Err(_) => panic!("the client should have been built"),
    }
    match EdcConnectorClient::builder().with_auth(Auth::NoAuth).build() {
        Ok(_) => panic!("the address is missing"),
        Err(err) => {
            assert!(matches!(&err, BuilderError::MissingProperty(p) if p == "management_url"));
            assert_eq!(err.message(), "Missing mandatory property management_url");
        }
    }
}

#[test]
fn the_api_token_travels_in_its_header() {
    assert!(Auth::NoAuth.header().is_none());
    let header = Auth::api_token("t0ken".to_string()).header();
    assert_eq!(header, Some(("X-Api-Key".to_string(), "t0ken".to_string())));
    assert!(matches!(Auth::NoAuth.clone(), Auth::NoAuth));
}

#[test]
fn missing_property_names_the_property() {
    let err = BuilderError::missing_property("uri");
    assert!(matches!(&err, BuilderError::MissingProperty(p) if p == "uri"));
}

#[test]
fn a_callback_address_needs_its_uri() {
    let built = CallbackAddress::builder()
        .transactional(true)
        .uri("http://callback")
        .events(vec!["contract.negotiation".to_string(), "transfer.process".to_string()])
        .auth("key", "code")
        .build();
    match built {
        Ok(address) => {
            assert!(address.transactional);
            assert_eq!(address.uri, "http://callback");
            assert_eq!(address.events, vec!["contract.negotiation", "transfer.process"]);
            let auth = address.auth.expect("the authentication was set");
            assert_eq!(auth.auth_key, "key");
            assert_eq!(auth.auth_code_id, "code");
        }
        Err(_) => panic!("the address should have been built"),
    }
    match CallbackAddress::builder().events(vec!["e".to_string()]).build() {
        Ok(_) => panic!("the uri is missing"),
        Err(err) => assert_eq!(err.message(), "Missing mandatory property uri"),
    }
    let plain = CallbackAddress::builder().uri("u").build().ok().expect("built");
    assert!(!plain.transactional);
    assert!(plain.events.is_empty());
    assert!(plain.auth.is_none());
}

#[test]
fn a_dataset_request_needs_its_id_and_the_address() {
    let built = DatasetRequest::builder().id("dataset").counter_party_address("http://other").build();
    match built {
        Ok(request) => {
            assert_eq!(request.id, "dataset");
            assert_eq!(request.counter_party_address, "http://other");
            assert_eq!(request.protocol.0, "dataspace-protocol-http");
        }
        Err(_) => panic!("the request should have been built"),
    }
    let with_protocol = DatasetRequest::builder()
        .protocol("other-protocol")
        .id("d")
        .counter_party_address("a")
        .build()
        .ok()
        .expect("built");
    assert_eq!(with_protocol.protocol.0, "other-protocol");
    match DatasetRequest::builder().counter_party_address("a").build() {
        Ok(_) => panic!("the id is missing"),
        Err(err) => assert_eq!(err.message(), "Missing mandatory property id"),
    }
    match DatasetRequest::builder().id("d").build() {
        Ok(_) => panic!("the address is missing"),
        Err(err) => assert_eq!(err.message(), "Missing mandatory property counter_party_address"),
    }
    match DatasetRequest::builder().build() {
        Ok(_) => panic!("everything is missing"),
        Err(err) => assert_eq!(err.message(), "Missing mandatory property id"),
    }
}

#[test]
fn protocols() {
    assert_eq!(Protocol::new("p").0, "p");
    assert_eq!(Protocol::default().0, "dataspace-protocol-http");
}

#[test]
fn states_and_kinds() {
    let n = NegotiationState { state: ContractNegotiationState::Finalized };
    assert!(matches!(n.state(), ContractNegotiationState::Finalized));
    assert!(n.state().is_final());
    assert!(ContractNegotiationState::Terminated.is_final());
    assert!(!ContractNegotiationState::Requested.is_final());
    assert!(!ContractNegotiationState::Other("X".to_string()).is_final());
    assert_eq!(ContractNegotiationKind::Consumer.label(), "Consumer");
    assert_eq!(ContractNegotiationKind::Provider.label(), "Provider");
    let t = TransferState { state: TransferProcessState::Started };
    assert!(matches!(t.state(), TransferProcessState::Started));
    assert_eq!(TransferProcessKind::Consumer.label(), "Consumer");
    assert_eq!(TransferProcessKind::Provider.label(), "Provider");
}

#[test]
fn cache_entries_and_id_responses() {
    let entry = EndpointDataReferenceEntry {
        asset_id: "asset".to_string(),
        agreement_id: "agreement".to_string(),
        transfer_process_id: "transfer".to_string(),
        provider_id: "provider".to_string(),
        contract_negotiation_id: Some("negotiation".to_string()),
        created_at: 1700000000000,
    };
    assert_eq!(entry.asset_id(), "asset");
    assert_eq!(entry.agreement_id(), "agreement");
    assert_eq!(entry.transfer_process_id(), "transfer");
    assert_eq!(entry.provider_id(), "provider");
    assert_eq!(entry.contract_negotiation_id(), Some(&"negotiation".to_string()));
    assert_eq!(entry.created_at(), 1700000000000);
    let response = IdResponse { id: "id-1".to_string(), created_at: -5 };
    assert_eq!(response.id(), "id-1");
    assert_eq!(response.created_at(), -5);
}

#[test]
fn policy_terms() {
    assert!(matches!(Target::simple("t"), Target::Simple(s) if s == "t"));
    assert!(matches!(Target::id("t"), Target::Id { id } if id == "t"));
    assert_eq!(Target::simple("a").get_id(), "a");
    assert_eq!(Target::id("b").get_id(), "b");
    assert!(matches!(PolicyAction::new("use".to_string()), PolicyAction::Id { id } if id == "use"));
    assert_eq!(PolicyAction::new("use".to_string()).id(), "use");
    assert_eq!(PolicyAction::Simple("read".to_string()).id(), "read");
    assert_eq!(PolicyAction::default().id(), "http://www.w3.org/ns/odrl/2/use");
    assert!(matches!(LeftOperand::simple("l"), LeftOperand::Simple(s) if s == "l"));
    assert!(matches!(LeftOperand::id("l"), LeftOperand::Id { id } if id == "l"));
    assert!(matches!(Operator::simple("eq"), Operator::Simple(s) if s == "eq"));
    assert!(matches!(Operator::id("eq"), Operator::Id { id } if id == "eq"));
}

#[test]
fn queries_are_built_step_by_step() {
    let query = Query::default();
    assert_eq!(query.offset(), 0);
    assert_eq!(query.limit(), 50);
    assert!(query.sort().is_none());
    assert!(query.filter_expression().is_empty());

    let query = Query::builder()
        .offset(10)
        .limit(20)
        .sort("name", SortOrder::Desc)
        .filter("id", "=", PropertyValue::text("1"))
        .filter("tag", "in", PropertyValue::many(vec!["a".to_string(), "b".to_string()]))
        .build();
    assert_eq!(query.offset(), 10);
    assert_eq!(query.limit(), 20);
    let sort = query.sort().expect("a sort was set");
    assert_eq!(sort.field(), "name");
    assert_eq!(*sort.order(), SortOrder::Desc);
    let filter = query.filter_expression();
    assert_eq!(filter.len(), 2);
    assert_eq!(filter[0].operand_left(), "id");
    assert_eq!(filter[0].operator(), "=");
    assert!(matches!(filter[0].operand_right(), PropertyValue::Text(t) if t == "1"));
    assert_eq!(filter[1].operand_left(), "tag");
    assert!(matches!(filter[1].operand_right(), PropertyValue::Many(v) if v.len() == 2));

    let next = query.to_builder().offset(30).build();
    assert_eq!(next.offset(), 30);
    assert_eq!(next.limit(), 20);
    assert_eq!(next.filter_expression().len(), 2);
    assert_eq!(next.sort().map(|s| s.field()), Some("name"));
    assert_eq!(query.offset(), 10);

    let copy = query.clone();
    assert_eq!(copy.filter_expression()[1].operator(), "in");
    let sort = Sort::new("f".to_string(), SortOrder::Asc);
    assert_eq!(sort.duplicate().field(), "f");
    let criterion = Criterion::new("l", "op", PropertyValue::text("r"));
    let again = criterion.duplicate();
    assert_eq!(again.operand_left(), "l");
    assert!(matches!(again.operand_right().duplicate(), PropertyValue::Text(t) if t == "r"));
}

#[test]
fn configuration_of_connectors() {
    let cfg = ConnectorConfig::new(
        "name".to_string(),
        "http://address".to_string(),
        AuthKind::Token { token_alias: "alias".to_string() },
    );
    assert_eq!(cfg.name(), "name");
    assert_eq!(cfg.address(), "http://address");
    assert_eq!(cfg.auth().kind(), "Token based");
    assert_eq!(AuthKind::NoAuth.kind(), "No auth");
    assert!(matches!(AuthKind::default(), AuthKind::NoAuth));
    let copy = cfg.clone();
    assert_eq!(copy.name(), "name");
    assert!(matches!(copy.auth(), AuthKind::Token { token_alias } if token_alias == "alias"));
    assert_eq!(default_file("/home/me/.config/edc-connector-tui"), "/home/me/.config/edc-connector-tui/config.toml");
    assert_eq!(ConnectorStatus::Connected.as_str(), "connected");
    assert_eq!(ConnectorStatus::Custom("down".to_string()).as_str(), "down");
    assert_eq!(ConnectorStatus::token_not_found("a").as_str(), "Token not found for alias a");
}

#[test]
fn the_connector_list() {
    let one = Connector::new(
        ConnectorConfig::new("one".to_string(), "http://one".to_string(), AuthKind::NoAuth),
        ConnectorStatus::Connected,
    );
    let two = Connector::new(
        ConnectorConfig::new(
            "two".to_string(),
            "http://two".to_string(),
            AuthKind::Token { token_alias: "t".to_string() },
        ),
        ConnectorStatus::Custom("Token not found for alias t".to_string()),
    );
    let entry = ConnectorEntry(two.clone());
    assert_eq!(
        entry.row(),
        vec!["two", "http://two", "Token based", "Token not found for alias t"]
    );
    assert_eq!(entry.headers(), vec!["NAME", "ADDRESS", "AUTH", "STATUS"]);

    let mut list = ConnectorsComponent::new(vec![one, two.clone()]);
    assert_eq!(list.table.elements.len(), 2);
    assert_eq!(list.table.elements[1].0.config().name(), "two");
    assert!(list.table.show_block);
    assert_eq!(list.table.name, "Connectors");
    assert_eq!(list.selected().map(|c| c.config().name()), Some("one"));
    let ret = list.update(ComponentMsg::wrap(ConnectorsMsg::ConnectorSelected(two)));
    assert_eq!(list.selected().map(|c| c.config().name()), Some("two"));
    assert_eq!(ret.actions.len(), 1);
    assert!(matches!(ret.actions[0], Action::NavTo(Nav::AssetsList)));
    assert_eq!(
        list.info_sheet().iter_info(),
        vec![
            ("Connector Address".to_string(), "http://two".to_string()),
            ("Connector Name".to_string(), "two".to_string()),
        ]
    );
    let msgs = list.handle_event(ComponentEvent::Key(KeyEvent::press(KeyCode::Down)));
    assert_eq!(msgs.len(), 1);
    let mut all = msgs;
    let _ = list.update(all.remove(0));
    assert_eq!(list.table.selected(), Some(1));
    let empty = ConnectorsComponent::new(vec![]);
    assert!(empty.selected().is_none());
}

#[test]
fn events_become_editing_inputs() {
    let press = ComponentEvent::Key(KeyEvent {
        code: KeyCode::Char('a'),
        ctrl: true,
        alt: false,
        shift: true,
        kind: edc_connector::event::KeyEventKind::Repeat,
    });
    assert_eq!(
        Input::from_event(press),
        Input { key: InputKey::Char('a'), ctrl: true, alt: false, shift: true }
    );
    assert_eq!(KeyCode::F(3).key(), InputKey::F(3));
    assert_eq!(KeyCode::Other.key(), InputKey::Null);
    assert_eq!(KeyCode::PageDown.key(), InputKey::PageDown);
    let scroll = ComponentEvent::Mouse { kind: MouseKind::ScrollUp, ctrl: false, alt: true, shift: false };
    assert_eq!(
        Input::from_event(scroll),
        Input { key: InputKey::MouseScrollUp, ctrl: false, alt: true, shift: false }
    );
    let click = ComponentEvent::Mouse { kind: MouseKind::Other, ctrl: false, alt: false, shift: false };
    assert_eq!(Input::from_event(click), Input::default());
    assert_eq!(Input::from_event(ComponentEvent::Other), Input::default());
    assert_eq!(Input::plain(InputKey::Esc).key, InputKey::Esc);
}

#[test]
fn banners_and_their_colours() {
    let error = Notification::error("e".to_string());
    assert_eq!(error.msg(), "e");
    assert_eq!(*error.kind(), NotificationKind::Error);
    assert_eq!(error.timeout(), 5);
    let info = Notification::info("i".to_string());
    assert_eq!(*info.kind(), NotificationKind::Info);
    assert_eq!(info.clone().msg(), "i");
    assert_eq!(Footer::map_color(&error), BannerColor::Red);
    assert_eq!(Footer::map_color(&info), BannerColor::Cyan);
    let mut footer = Footer::default();
    assert_eq!(footer.color(), None);
    footer.clear_notification();
    assert_eq!(footer.noty_counter, 0);
    footer.show_notification(info);
    assert_eq!(footer.color(), Some(BannerColor::Cyan));
    footer.noty_counter = u32::MAX;
    footer.show_notification(error);
    assert_eq!(footer.noty_counter, u32::MAX);
    assert_eq!(footer.content(), "e");
}
