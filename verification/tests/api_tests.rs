use edc_connector::api::BodyContext;
use edc_connector::api::Call;
use edc_connector::api::EdrApi;
use edc_connector::api::Method;
use edc_connector::client::Auth;
use edc_connector::client::EdcConnectorClient;
use edc_connector::client::Error;
use edc_connector::client::ManagementApiErrorDetail;
use edc_connector::client::ManagementApiErrorDetailKind;
use edc_connector::query::PropertyValue;
use edc_connector::types::EndpointDataReferenceEntry;

fn client() -> EdcConnectorClient {
    EdcConnectorClient::builder()
        .management_url("http://edc/management")
        .with_auth(Auth::NoAuth)
        .build()
        .ok()
        .expect("the address was given")
}

fn check(call: Call, method: Method, url: &str, context: BodyContext) {
    assert_eq!(call.method, method);
    assert_eq!(call.url, url);
    assert_eq!(call.context, context);
}

#[test]
fn asset_calls() {
    let c = client();
    let api = c.assets();
    check(api.create(), Method::Post, "http://edc/management/v3/assets", BodyContext::Default);
    check(api.get("a1"), Method::Get, "http://edc/management/v3/assets/a1", BodyContext::NoBody);
    check(api.update(), Method::Put, "http://edc/management/v3/assets", BodyContext::Default);
    check(api.query(), Method::Post, "http://edc/management/v3/assets/request", BodyContext::Default);
    check(api.delete("a1"), Method::Delete, "http://edc/management/v3/assets/a1", BodyContext::NoBody);
}

#[test]
fn policy_calls_use_the_rights_vocabulary_for_bodies_with_policies() {
    let c = client();
    let api = c.policies();
    check(api.create(), Method::Post, "http://edc/management/v2/policydefinitions", BodyContext::Odrl);
    check(api.get("p"), Method::Get, "http://edc/management/v2/policydefinitions/p", BodyContext::NoBody);
    check(api.update("p"), Method::Put, "http://edc/management/v2/policydefinitions/p", BodyContext::Odrl);
    check(
        api.query(),
        Method::Post,
        "http://edc/management/v2/policydefinitions/request",
        BodyContext::Default,
    );
    check(
        api.delete("p"),
        Method::Delete,
        "http://edc/management/v2/policydefinitions/p",
        BodyContext::NoBody,
    );
    assert_eq!(BodyContext::Odrl.odrl(), Some("http://www.w3.org/ns/odrl.jsonld"));
    assert_eq!(BodyContext::Default.odrl(), None);
    assert_eq!(BodyContext::NoBody.odrl(), None);
}

#[test]
fn contract_definition_and_agreement_calls() {
    let c = client();
    let api = c.contract_definitions();
    check(api.create(), Method::Post, "http://edc/management/v2/contractdefinitions", BodyContext::Default);
    check(api.get("d"), Method::Get, "http://edc/management/v2/contractdefinitions/d", BodyContext::NoBody);
    check(api.update(), Method::Put, "http://edc/management/v2/contractdefinitions", BodyContext::Default);
    check(
        api.query(),
        Method::Post,
        "http://edc/management/v2/contractdefinitions/request",
        BodyContext::Default,
    );
    check(
        api.delete("d"),
        Method::Delete,
        "http://edc/management/v2/contractdefinitions/d",
        BodyContext::NoBody,
    );
    let api = c.contract_agreements();
    check(api.get("g"), Method::Get, "http://edc/management/v3/contractagreements/g", BodyContext::NoBody);
    check(
        api.query(),
        Method::Post,
        "http://edc/management/v3/contractagreements/request",
        BodyContext::Default,
    );
}

#[test]
fn negotiation_calls() {
    let c = client();
    let api = c.contract_negotiations();
    check(api.initiate(), Method::Post, "http://edc/management/v3/contractnegotiations", BodyContext::Odrl);
    check(api.get("n"), Method::Get, "http://edc/management/v3/contractnegotiations/n", BodyContext::NoBody);
    check(
        api.get_state("n"),
        Method::Get,
        "http://edc/management/v3/contractnegotiations/n",
        BodyContext::NoBody,
    );
    check(
        api.query(),
        Method::Post,
        "http://edc/management/v3/contractnegotiations/request",
        BodyContext::Default,
    );
    let (call, body) = api.terminate("n", "no longer needed");
    check(
        call,
        Method::Post,
        "http://edc/management/v3/contractnegotiations/n/terminate",
        BodyContext::Default,
    );
    assert_eq!(body.id, "n");
    assert_eq!(body.reason, "no longer needed");
}

#[test]
fn transfer_calls() {
    let c = client();
    let api = c.transfer_processes();
    check(api.initiate(), Method::Post, "http://edc/management/v3/transferprocesses", BodyContext::Default);
    check(api.get("t"), Method::Get, "http://edc/management/v3/transferprocesses/t", BodyContext::NoBody);
    check(
        api.get_state("t"),
        Method::Get,
        "http://edc/management/v3/transferprocesses/t",
        BodyContext::NoBody,
    );
    check(
        api.query(),
        Method::Post,
        "http://edc/management/v3/transferprocesses/request",
        BodyContext::Default,
    );
    check(
        api.resume("t"),
        Method::Post,
        "http://edc/management/v3/transferprocesses/t/resume",
        BodyContext::NoBody,
    );
    let (call, body) = api.terminate("t", "r1");
    check(
        call,
        Method::Post,
        "http://edc/management/v3/transferprocesses/t/terminate",
        BodyContext::Default,
    );
    assert_eq!((body.id.as_str(), body.reason.as_str()), ("t", "r1"));
    let (call, body) = api.suspend("t", "r2");
    check(
        call,
        Method::Post,
        "http://edc/management/v3/transferprocesses/t/suspend",
        BodyContext::Default,
    );
    assert_eq!((body.id.as_str(), body.reason.as_str()), ("t", "r2"));
}

#[test]
fn catalog_data_plane_and_reference_calls() {
    let c = client();
    check(c.catalogue().request(), Method::Post, "http://edc/management/v2/catalog/request", BodyContext::Default);
    check(
        c.catalogue().dataset(),
        Method::Post,
        "http://edc/management/v2/catalog/dataset/request",
        BodyContext::Default,
    );
    check(c.data_planes().list(), Method::Get, "http://edc/management/v3/dataplanes", BodyContext::NoBody);
    let api = c.edrs();
    check(
        api.get_data_address("t"),
        Method::Get,
        "http://edc/management/v2/edrs/t/dataaddress",
        BodyContext::NoBody,
    );
    check(api.query(), Method::Post, "http://edc/management/v1/edrs/request", BodyContext::Default);
    check(api.delete("t"), Method::Delete, "http://edc/management/v1/edrs/t", BodyContext::NoBody);
    let (call, query) = api.get_entry("transfer-1");
    check(call, Method::Post, "http://edc/management/v1/edrs/request", BodyContext::Default);
    assert_eq!(query.offset(), 0);
    assert_eq!(query.limit(), 50);
    assert!(query.sort().is_none());
    assert_eq!(query.filter_expression().len(), 1);
    assert_eq!(query.filter_expression()[0].operand_left(), "transferProcessId");
    assert_eq!(query.filter_expression()[0].operator(), "=");
    assert!(matches!(
        query.filter_expression()[0].operand_right(),
        PropertyValue::Text(t) if t == "transfer-1"
    ));
}

fn entry(asset: &str) -> EndpointDataReferenceEntry {
    EndpointDataReferenceEntry {
        asset_id: asset.to_string(),
        agreement_id: "g".to_string(),
        transfer_process_id: "t".to_string(),
        provider_id: "p".to_string(),
        contract_negotiation_id: None,
        created_at: 0,
    }
}

#[test]
fn the_first_reference_is_the_one_or_there_is_none() {
    match EdrApi::first_entry(vec![entry("a"), entry("b")], "t") {
        Ok(found) => assert_eq!(found.asset_id(), "a"),
        Err(_) => panic!("there were references"),
    }
    match EdrApi::first_entry(vec![], "t-9") {
        Ok(_) => panic!("there was no reference"),
        Err(err) => {
            assert_eq!(err.status_code, 404);
            assert!(matches!(
                &err.error_detail,
                ManagementApiErrorDetailKind::Raw(text) if text == "EDR entry with id t-9 not found"
            ));
        }
    }
}

#[test]
fn answers_are_judged_by_their_status() {
    for status in [200u16, 201, 204, 299] {
        match EdcConnectorClient::handle_response(status, "body".to_string(), None) {
            Ok(text) => assert_eq!(text, "body"),
            Err(_) => panic!("{} is a success", status),
        }
    }
    for status in [100u16, 199, 300, 404, 500] {
        match EdcConnectorClient::handle_response(status, "oops".to_string(), None) {
            Ok(_) => panic!("{} is no success", status),
            Err(Error::ManagementApi(err)) => {
                assert_eq!(err.status_code, status);
                assert!(matches!(&err.error_detail, ManagementApiErrorDetailKind::Raw(t) if t == "oops"));
            }
            Err(_) => panic!("an error of the management API was expected"),
        }
    }
    let details = vec![ManagementApiErrorDetail {
        message: "Object of type Asset with ID=1 was not found".to_string(),
        kind: "ObjectNotFound".to_string(),
    }];
    match EdcConnectorClient::handle_response(404, "[...]".to_string(), Some(details)) {
        Err(Error::ManagementApi(err)) => match &err.error_detail {
            ManagementApiErrorDetailKind::Parsed(parsed) => {
                assert_eq!(parsed.len(), 1);
                assert_eq!(parsed[0].kind, "ObjectNotFound");
            }
            _ => panic!("the details were parsed"),
        },
        _ => panic!("an error was expected"),
    }
    match EdcConnectorClient::handle_response(
        200,
        "ok".to_string(),
        Some(vec![]),
    ) {
        Ok(text) => assert_eq!(text, "ok"),
        Err(_) => panic!("a success stays a success"),
    }
}
