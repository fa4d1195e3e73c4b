use vstd::prelude::*;
use crate::client::EdcConnectorClient;
use crate::client::ManagementApiError;
use crate::client::ManagementApiErrorDetailKind;
use crate::query::CriterionModel;
use crate::query::PropertyValue;
use crate::query::Query;
use crate::query::QueryModel;
use crate::query::ValueModel;
use crate::record::ResourceKind;
use crate::types::EndpointDataReferenceEntry;
use crate::types::SuspendTransfer;
use crate::types::TerminateNegotiation;
use crate::types::TerminateTransfer;

verus! {

/// The method of a call.
#[derive(Debug, Clone, Copy, PartialEq, Eq, Structural)]
pub enum Method {
    Get,
    Post,
    Put,
    Delete,
}

/// The context that the body of a call is sent under.
#[derive(Debug, Clone, Copy, PartialEq, Eq, Structural)]
pub enum BodyContext {
    /// The call has no body, or one without a context.
    NoBody,
    /// The vocabulary of the connector.
    Default,
    /// The rights vocabulary, and the vocabulary of the connector.
    Odrl,
}

/// One call of the management API: how, where, and under which context.
pub struct Call {
    pub method: Method,
    pub url: String,
    pub context: BodyContext,
}

/// Whether a call goes by `method` to the address `url` under `context`.
pub open spec fn call_is(call: Call, method: Method, url: Seq<char>, context: BodyContext) -> bool {
    call.method == method && call.url@ == url && call.context == context
}

/// The address of the rights vocabulary.
pub open spec fn odrl_context() -> Seq<char> {
    "http://www.w3.org/ns/odrl.jsonld"@
}

impl BodyContext {
    /// The vocabularies of the context, in order: the first is the address of the
    /// rights vocabulary, if it is used; the vocabulary of the connector is implied.
    pub fn odrl(&self) -> (out: Option<&'static str>)
        ensures
            match *self {
                BodyContext::Odrl => out is Some && out->Some_0@ == odrl_context(),
                _ => out is None,
            },
    {
        match self {
            BodyContext::Odrl => Some("http://www.w3.org/ns/odrl.jsonld"),
            _ => None,
        }
    }
}

impl EdcConnectorClient {
    /// The call that goes by `method` to `path`, and to `id` and `tail` behind it.
    pub fn call(&self, method: Method, path: &str, id: &str, tail: &str, context: BodyContext) -> (out:
        Call)
        ensures
            call_is(out, method, self.management_url@ + path@ + id@ + tail@, context),
    {
        let mut url = self.management_url.clone();
        url.append(path);
        url.append(id);
        url.append(tail);
        Call { method, url, context }
    }

    pub fn assets(&self) -> (out: AssetApi<'_>)
        ensures
            out.0 == self,
    {
        AssetApi(self)
    }

    pub fn catalogue(&self) -> (out: CatalogApi<'_>)
        ensures
            out.0 == self,
    {
        CatalogApi(self)
    }

    pub fn contract_agreements(&self) -> (out: ContractAgreementApi<'_>)
        ensures
            out.0 == self,
    {
        ContractAgreementApi(self)
    }

    pub fn contract_definitions(&self) -> (out: ContractDefinitionApi<'_>)
        ensures
            out.0 == self,
    {
        ContractDefinitionApi(self)
    }

    pub fn contract_negotiations(&self) -> (out: ContractNegotiationApi<'_>)
        ensures
            out.0 == self,
    {
        ContractNegotiationApi(self)
    }

    pub fn data_planes(&self) -> (out: DataPlaneApi<'_>)
        ensures
            out.0 == self,
    {
        DataPlaneApi(self)
    }

    pub fn edrs(&self) -> (out: EdrApi<'_>)
        ensures
            out.0 == self,
    {
        EdrApi(self)
    }

    pub fn policies(&self) -> (out: PolicyApi<'_>)
        ensures
            out.0 == self,
    {
        PolicyApi(self)
    }

    pub fn transfer_processes(&self) -> (out: TransferProcessApi<'_>)
        ensures
            out.0 == self,
    {
        TransferProcessApi(self)
    }

}

/// The calls that create, read, change, list and delete assets.
pub struct AssetApi<'a>(pub &'a EdcConnectorClient);

impl<'a> AssetApi<'a> {
    /// Creates an asset.
    pub fn create(&self) -> (out: Call)
        ensures
            call_is(out, Method::Post, self.0.management_url@ + "/v3/assets"@, BodyContext::Default),
    {
        proof {
            reveal_strlit("");
        }
        let out = self.0.call(Method::Post, "/v3/assets", "", "", BodyContext::Default);
        assert(out.url@ =~= self.0.management_url@ + "/v3/assets"@);
        out
    }

    /// Reads the asset with an identifier.
    pub fn get(&self, id: &str) -> (out: Call)
        ensures
            call_is(out, Method::Get, self.0.management_url@ + "/v3/assets/"@ + id@, BodyContext::NoBody),
    {
        proof {
            reveal_strlit("");
        }
        let out = self.0.call(Method::Get, "/v3/assets/", id, "", BodyContext::NoBody);
        assert(out.url@ =~= self.0.management_url@ + "/v3/assets/"@ + id@);
        out
    }

    /// Changes an asset.
    pub fn update(&self) -> (out: Call)
        ensures
            call_is(out, Method::Put, self.0.management_url@ + "/v3/assets"@, BodyContext::Default),
    {
        proof {
            reveal_strlit("");
        }
        let out = self.0.call(Method::Put, "/v3/assets", "", "", BodyContext::Default);
        assert(out.url@ =~= self.0.management_url@ + "/v3/assets"@);
        out
    }

    /// Lists the assets that a query selects.
    pub fn query(&self) -> (out: Call)
        ensures
            call_is(out, Method::Post, self.0.management_url@ + "/v3/assets/request"@, BodyContext::Default),
    {
        proof {
            reveal_strlit("");
        }
        let out = self.0.call(Method::Post, "/v3/assets/request", "", "", BodyContext::Default);
        assert(out.url@ =~= self.0.management_url@ + "/v3/assets/request"@);
        out
    }

    /// Deletes the asset with an identifier.
    pub fn delete(&self, id: &str) -> (out: Call)
        ensures
            call_is(out, Method::Delete, self.0.management_url@ + "/v3/assets/"@ + id@, BodyContext::NoBody),
    {
        proof {
            reveal_strlit("");
        }
        let out = self.0.call(Method::Delete, "/v3/assets/", id, "", BodyContext::NoBody);
        assert(out.url@ =~= self.0.management_url@ + "/v3/assets/"@ + id@);
        out
    }

}

/// The calls that ask another connector for its catalog.
pub struct CatalogApi<'a>(pub &'a EdcConnectorClient);

impl<'a> CatalogApi<'a> {
    /// Asks for the catalog.
    pub fn request(&self) -> (out: Call)
        ensures
            call_is(out, Method::Post, self.0.management_url@ + "/v2/catalog/request"@, BodyContext::Default),
    {
        proof {
            reveal_strlit("");
        }
        let out = self.0.call(Method::Post, "/v2/catalog/request", "", "", BodyContext::Default);
        assert(out.url@ =~= self.0.management_url@ + "/v2/catalog/request"@);
        out
    }

    /// Asks for one dataset.
    pub fn dataset(&self) -> (out: Call)
        ensures
            call_is(out, Method::Post, self.0.management_url@ + "/v2/catalog/dataset/request"@, BodyContext::Default),
    {
        proof {
            reveal_strlit("");
        }
        let out = self.0.call(Method::Post, "/v2/catalog/dataset/request", "", "", BodyContext::Default);
        assert(out.url@ =~= self.0.management_url@ + "/v2/catalog/dataset/request"@);
        out
    }

}

/// The calls that read and list contract agreements.
pub struct ContractAgreementApi<'a>(pub &'a EdcConnectorClient);

impl<'a> ContractAgreementApi<'a> {
    /// Reads the agreement with an identifier.
    pub fn get(&self, id: &str) -> (out: Call)
        ensures
            call_is(out, Method::Get, self.0.management_url@ + "/v3/contractagreements/"@ + id@, BodyContext::NoBody),
    {
        proof {
            reveal_strlit("");
        }
        let out = self.0.call(Method::Get, "/v3/contractagreements/", id, "", BodyContext::NoBody);
        assert(out.url@ =~= self.0.management_url@ + "/v3/contractagreements/"@ + id@);
        out
    }

    /// Lists the agreements that a query selects.
    pub fn query(&self) -> (out: Call)
        ensures
            call_is(out, Method::Post, self.0.management_url@ + "/v3/contractagreements/request"@, BodyContext::Default),
    {
        proof {
            reveal_strlit("");
        }
        let out = self.0.call(Method::Post, "/v3/contractagreements/request", "", "", BodyContext::Default);
        assert(out.url@ =~= self.0.management_url@ + "/v3/contractagreements/request"@);
        out
    }

}

/// The calls that create, read, change, list and delete contract definitions.
pub struct ContractDefinitionApi<'a>(pub &'a EdcConnectorClient);

impl<'a> ContractDefinitionApi<'a> {
    /// Creates a contract definition.
    pub fn create(&self) -> (out: Call)
        ensures
            call_is(out, Method::Post, self.0.management_url@ + "/v2/contractdefinitions"@, BodyContext::Default),
    {
        proof {
            reveal_strlit("");
        }
        let out = self.0.call(Method::Post, "/v2/contractdefinitions", "", "", BodyContext::Default);
        assert(out.url@ =~= self.0.management_url@ + "/v2/contractdefinitions"@);
        out
    }

    /// Reads the definition with an identifier.
    pub fn get(&self, id: &str) -> (out: Call)
        ensures
            call_is(out, Method::Get, self.0.management_url@ + "/v2/contractdefinitions/"@ + id@, BodyContext::NoBody),
    {
        proof {
            reveal_strlit("");
        }
        let out = self.0.call(Method::Get, "/v2/contractdefinitions/", id, "", BodyContext::NoBody);
        assert(out.url@ =~= self.0.management_url@ + "/v2/contractdefinitions/"@ + id@);
        out
    }

    /// Changes a contract definition.
    pub fn update(&self) -> (out: Call)
        ensures
            call_is(out, Method::Put, self.0.management_url@ + "/v2/contractdefinitions"@, BodyContext::Default),
    {
        proof {
            reveal_strlit("");
        }
        let out = self.0.call(Method::Put, "/v2/contractdefinitions", "", "", BodyContext::Default);
        assert(out.url@ =~= self.0.management_url@ + "/v2/contractdefinitions"@);
        out
    }

    /// Lists the definitions that a query selects.
    pub fn query(&self) -> (out: Call)
        ensures
            call_is(out, Method::Post, self.0.management_url@ + "/v2/contractdefinitions/request"@, BodyContext::Default),
    {
        proof {
            reveal_strlit("");
        }
        let out = self.0.call(Method::Post, "/v2/contractdefinitions/request", "", "", BodyContext::Default);
        assert(out.url@ =~= self.0.management_url@ + "/v2/contractdefinitions/request"@);
        out
    }

    /// Deletes the definition with an identifier.
    pub fn delete(&self, id: &str) -> (out: Call)
        ensures
            call_is(out, Method::Delete, self.0.management_url@ + "/v2/contractdefinitions/"@ + id@, BodyContext::NoBody),
    {
        proof {
            reveal_strlit("");
        }
        let out = self.0.call(Method::Delete, "/v2/contractdefinitions/", id, "", BodyContext::NoBody);
        assert(out.url@ =~= self.0.management_url@ + "/v2/contractdefinitions/"@ + id@);
        out
    }

}

/// The calls that start, read, end and list contract negotiations.
pub struct ContractNegotiationApi<'a>(pub &'a EdcConnectorClient);

impl<'a> ContractNegotiationApi<'a> {
    /// Starts a negotiation.
    pub fn initiate(&self) -> (out: Call)
        ensures
            call_is(out, Method::Post, self.0.management_url@ + "/v3/contractnegotiations"@, BodyContext::Odrl),
    {
        proof {
            reveal_strlit("");
        }
        let out = self.0.call(Method::Post, "/v3/contractnegotiations", "", "", BodyContext::Odrl);
        assert(out.url@ =~= self.0.management_url@ + "/v3/contractnegotiations"@);
        out
    }

    /// Reads the negotiation with an identifier.
    pub fn get(&self, id: &str) -> (out: Call)
        ensures
            call_is(out, Method::Get, self.0.management_url@ + "/v3/contractnegotiations/"@ + id@, BodyContext::NoBody),
    {
        proof {
            reveal_strlit("");
        }
        let out = self.0.call(Method::Get, "/v3/contractnegotiations/", id, "", BodyContext::NoBody);
        assert(out.url@ =~= self.0.management_url@ + "/v3/contractnegotiations/"@ + id@);
        out
    }

    /// Reads the state of the negotiation with an identifier.
    pub fn get_state(&self, id: &str) -> (out: Call)
        ensures
            call_is(out, Method::Get, self.0.management_url@ + "/v3/contractnegotiations/"@ + id@, BodyContext::NoBody),
    {
        proof {
            reveal_strlit("");
        }
        let out = self.0.call(Method::Get, "/v3/contractnegotiations/", id, "", BodyContext::NoBody);
        assert(out.url@ =~= self.0.management_url@ + "/v3/contractnegotiations/"@ + id@);
        out
    }

    /// Lists the negotiations that a query selects.
    pub fn query(&self) -> (out: Call)
        ensures
            call_is(out, Method::Post, self.0.management_url@ + "/v3/contractnegotiations/request"@, BodyContext::Default),
    {
        proof {
            reveal_strlit("");
        }
        let out = self.0.call(Method::Post, "/v3/contractnegotiations/request", "", "", BodyContext::Default);
        assert(out.url@ =~= self.0.management_url@ + "/v3/contractnegotiations/request"@);
        out
    }

}

/// The call that lists the data planes.
pub struct DataPlaneApi<'a>(pub &'a EdcConnectorClient);

impl<'a> DataPlaneApi<'a> {
    /// Lists the data planes.
    pub fn list(&self) -> (out: Call)
        ensures
            call_is(out, Method::Get, self.0.management_url@ + "/v3/dataplanes"@, BodyContext::NoBody),
    {
        proof {
            reveal_strlit("");
        }
        let out = self.0.call(Method::Get, "/v3/dataplanes", "", "", BodyContext::NoBody);
        assert(out.url@ =~= self.0.management_url@ + "/v3/dataplanes"@);
        out
    }

}

/// The calls that read, list and delete cached endpoint data references.
pub struct EdrApi<'a>(pub &'a EdcConnectorClient);

impl<'a> EdrApi<'a> {
    /// Reads the data address of the reference of a transfer.
    pub fn get_data_address(&self, id: &str) -> (out: Call)
        ensures
            call_is(out, Method::Get, self.0.management_url@ + "/v2/edrs/"@ + id@ + "/dataaddress"@, BodyContext::NoBody),
    {
        proof {
            reveal_strlit("");
        }
        let out = self.0.call(Method::Get, "/v2/edrs/", id, "/dataaddress", BodyContext::NoBody);
        assert(out.url@ =~= self.0.management_url@ + "/v2/edrs/"@ + id@ + "/dataaddress"@);
        out
    }

    /// Lists the references that a query selects.
    pub fn query(&self) -> (out: Call)
        ensures
            call_is(out, Method::Post, self.0.management_url@ + "/v1/edrs/request"@, BodyContext::Default),
    {
        proof {
            reveal_strlit("");
        }
        let out = self.0.call(Method::Post, "/v1/edrs/request", "", "", BodyContext::Default);
        assert(out.url@ =~= self.0.management_url@ + "/v1/edrs/request"@);
        out
    }

    /// Deletes the reference of a transfer.
    pub fn delete(&self, id: &str) -> (out: Call)
        ensures
            call_is(out, Method::Delete, self.0.management_url@ + "/v1/edrs/"@ + id@, BodyContext::NoBody),
    {
        proof {
            reveal_strlit("");
        }
        let out = self.0.call(Method::Delete, "/v1/edrs/", id, "", BodyContext::NoBody);
        assert(out.url@ =~= self.0.management_url@ + "/v1/edrs/"@ + id@);
        out
    }

}

/// The calls that create, read, change, list and delete policy definitions.
pub struct PolicyApi<'a>(pub &'a EdcConnectorClient);

impl<'a> PolicyApi<'a> {
    /// Creates a policy definition.
    pub fn create(&self) -> (out: Call)
        ensures
            call_is(out, Method::Post, self.0.management_url@ + "/v2/policydefinitions"@, BodyContext::Odrl),
    {
        proof {
            reveal_strlit("");
        }
        let out = self.0.call(Method::Post, "/v2/policydefinitions", "", "", BodyContext::Odrl);
        assert(out.url@ =~= self.0.management_url@ + "/v2/policydefinitions"@);
        out
    }

    /// Reads the definition with an identifier.
    pub fn get(&self, id: &str) -> (out: Call)
        ensures
            call_is(out, Method::Get, self.0.management_url@ + "/v2/policydefinitions/"@ + id@, BodyContext::NoBody),
    {
        proof {
            reveal_strlit("");
        }
        let out = self.0.call(Method::Get, "/v2/policydefinitions/", id, "", BodyContext::NoBody);
        assert(out.url@ =~= self.0.management_url@ + "/v2/policydefinitions/"@ + id@);
        out
    }

    /// Changes the definition with an identifier.
    pub fn update(&self, id: &str) -> (out: Call)
        ensures
            call_is(out, Method::Put, self.0.management_url@ + "/v2/policydefinitions/"@ + id@, BodyContext::Odrl),
    {
        proof {
            reveal_strlit("");
        }
        let out = self.0.call(Method::Put, "/v2/policydefinitions/", id, "", BodyContext::Odrl);
        assert(out.url@ =~= self.0.management_url@ + "/v2/policydefinitions/"@ + id@);
        out
    }

    /// Lists the definitions that a query selects.
    pub fn query(&self) -> (out: Call)
        ensures
            call_is(out, Method::Post, self.0.management_url@ + "/v2/policydefinitions/request"@, BodyContext::Default),
    {
        proof {
            reveal_strlit("");
        }
        let out = self.0.call(Method::Post, "/v2/policydefinitions/request", "", "", BodyContext::Default);
        assert(out.url@ =~= self.0.management_url@ + "/v2/policydefinitions/request"@);
        out
    }

    /// Deletes the definition with an identifier.
    pub fn delete(&self, id: &str) -> (out: Call)
        ensures
            call_is(out, Method::Delete, self.0.management_url@ + "/v2/policydefinitions/"@ + id@, BodyContext::NoBody),
    {
        proof {
            reveal_strlit("");
        }
        let out = self.0.call(Method::Delete, "/v2/policydefinitions/", id, "", BodyContext::NoBody);
        assert(out.url@ =~= self.0.management_url@ + "/v2/policydefinitions/"@ + id@);
        out
    }

}

/// The calls that start, read, list, end, suspend and resume transfers.
pub struct TransferProcessApi<'a>(pub &'a EdcConnectorClient);

impl<'a> TransferProcessApi<'a> {
    /// Starts a transfer.
    pub fn initiate(&self) -> (out: Call)
        ensures
            call_is(out, Method::Post, self.0.management_url@ + "/v3/transferprocesses"@, BodyContext::Default),
    {
        proof {
            reveal_strlit("");
        }
        let out = self.0.call(Method::Post, "/v3/transferprocesses", "", "", BodyContext::Default);
        assert(out.url@ =~= self.0.management_url@ + "/v3/transferprocesses"@);
        out
    }

    /// Reads the transfer with an identifier.
    pub fn get(&self, id: &str) -> (out: Call)
        ensures
            call_is(out, Method::Get, self.0.management_url@ + "/v3/transferprocesses/"@ + id@, BodyContext::NoBody),
    {
        proof {
            reveal_strlit("");
        }
        let out = self.0.call(Method::Get, "/v3/transferprocesses/", id, "", BodyContext::NoBody);
        assert(out.url@ =~= self.0.management_url@ + "/v3/transferprocesses/"@ + id@);
        out
    }

    /// Reads the state of the transfer with an identifier.
    pub fn get_state(&self, id: &str) -> (out: Call)
        ensures
            call_is(out, Method::Get, self.0.management_url@ + "/v3/transferprocesses/"@ + id@, BodyContext::NoBody),
    {
        proof {
            reveal_strlit("");
        }
        let out = self.0.call(Method::Get, "/v3/transferprocesses/", id, "", BodyContext::NoBody);
        assert(out.url@ =~= self.0.management_url@ + "/v3/transferprocesses/"@ + id@);
        out
    }

    /// Lists the transfers that a query selects.
    pub fn query(&self) -> (out: Call)
        ensures
            call_is(out, Method::Post, self.0.management_url@ + "/v3/transferprocesses/request"@, BodyContext::Default),
    {
        proof {
            reveal_strlit("");
        }
        let out = self.0.call(Method::Post, "/v3/transferprocesses/request", "", "", BodyContext::Default);
        assert(out.url@ =~= self.0.management_url@ + "/v3/transferprocesses/request"@);
        out
    }

    /// Resumes the transfer with an identifier.
    pub fn resume(&self, id: &str) -> (out: Call)
        ensures
            call_is(out, Method::Post, self.0.management_url@ + "/v3/transferprocesses/"@ + id@ + "/resume"@, BodyContext::NoBody),
    {
        proof {
            reveal_strlit("");
        }
        let out = self.0.call(Method::Post, "/v3/transferprocesses/", id, "/resume", BodyContext::NoBody);
        assert(out.url@ =~= self.0.management_url@ + "/v3/transferprocesses/"@ + id@ + "/resume"@);
        out
    }

}

/// The part of the address, behind that of the management API, under which a
/// collection is queried.
pub open spec fn query_path(kind: ResourceKind) -> Seq<char> {
    match kind {
        ResourceKind::Assets => "/v3/assets/request"@,
        ResourceKind::Policies => "/v2/policydefinitions/request"@,
        ResourceKind::ContractDefinitions => "/v2/contractdefinitions/request"@,
        ResourceKind::ContractNegotiations => "/v3/contractnegotiations/request"@,
        ResourceKind::TransferProcesses => "/v3/transferprocesses/request"@,
    }
}

impl EdcConnectorClient {
    /// The call that fetches one page of a collection for its screen.
    pub fn fetch_call(&self, kind: ResourceKind) -> (out: Call)
        ensures
            call_is(out, Method::Post, self.management_url@ + query_path(kind), BodyContext::Default),
    {
        match kind {
            ResourceKind::Assets => self.assets().query(),
            ResourceKind::Policies => self.policies().query(),
            ResourceKind::ContractDefinitions => self.contract_definitions().query(),
            ResourceKind::ContractNegotiations => self.contract_negotiations().query(),
            ResourceKind::TransferProcesses => self.transfer_processes().query(),
        }
    }
}

/// The status of a call that found nothing.
pub const NOT_FOUND: u16 = 404;

/// The query that selects the references of the transfer `id`.
pub open spec fn edr_query(id: Seq<char>) -> QueryModel {
    QueryModel {
        filter_expression: seq![
            CriterionModel {
                operand_left: "transferProcessId"@,
                operator: "="@,
                operand_right: ValueModel::Text(id),
            },
        ],
        ..Query::default_model()
    }
}

/// The text of the error for a transfer that has no reference.
pub open spec fn edr_missing_text(id: Seq<char>) -> Seq<char> {
    "EDR entry with id "@ + id + " not found"@
}

impl<'a> EdrApi<'a> {
    /// The call and the query that look for the reference of the transfer `id`.
    pub fn get_entry(&self, id: &str) -> (out: (Call, Query))
        ensures
            call_is(
                out.0,
                Method::Post,
                self.0.management_url@ + "/v1/edrs/request"@,
                BodyContext::Default,
            ),
            out.1@ == edr_query(id@),
    {
        let query = Query::builder().filter("transferProcessId", "=", PropertyValue::text(id)).build();
        assert(query@.filter_expression =~= edr_query(id@).filter_expression);
        (self.query(), query)
    }

    /// The reference of the transfer `id` among those that the query brought: the
    /// first of them, or the error that says that there is none.
    pub fn first_entry(entries: Vec<EndpointDataReferenceEntry>, id: &str) -> (out: Result<
        EndpointDataReferenceEntry,
        ManagementApiError,
    >)
        ensures
            entries@.len() > 0 ==> out == Ok::<EndpointDataReferenceEntry, ManagementApiError>(
                entries@[0],
            ),
            entries@.len() == 0 ==> {
                &&& out is Err
                &&& out->Err_0.status_code == NOT_FOUND
                &&& out->Err_0.error_detail is Raw
                &&& out->Err_0.error_detail->Raw_0@ == edr_missing_text(id@)
            },
    {
        let mut entries = entries;
        if entries.len() > 0 {
            Ok(entries.remove(0))
        } else {
            let mut text = "EDR entry with id ".to_owned();
            text.append(id);
            text.append(" not found");
            Err(
                ManagementApiError {
                    status_code: NOT_FOUND,
                    error_detail: ManagementApiErrorDetailKind::Raw(text),
                },
            )
        }
    }
}

impl<'a> ContractNegotiationApi<'a> {
    /// The call that ends the negotiation `id`, and its body.
    pub fn terminate(&self, id: &str, reason: &str) -> (out: (Call, TerminateNegotiation))
        ensures
            call_is(
                out.0,
                Method::Post,
                self.0.management_url@ + "/v3/contractnegotiations/"@ + id@ + "/terminate"@,
                BodyContext::Default,
            ),
            out.1.id@ == id@,
            out.1.reason@ == reason@,
    {
        let call = self.0.call(
            Method::Post,
            "/v3/contractnegotiations/",
            id,
            "/terminate",
            BodyContext::Default,
        );
        (call, TerminateNegotiation { id: id.to_owned(), reason: reason.to_owned() })
    }
}

impl<'a> TransferProcessApi<'a> {
    /// The call that ends the transfer `id`, and its body.
    pub fn terminate(&self, id: &str, reason: &str) -> (out: (Call, TerminateTransfer))
        ensures
            call_is(
                out.0,
                Method::Post,
                self.0.management_url@ + "/v3/transferprocesses/"@ + id@ + "/terminate"@,
                BodyContext::Default,
            ),
            out.1.id@ == id@,
            out.1.reason@ == reason@,
    {
        let call = self.0.call(
            Method::Post,
            "/v3/transferprocesses/",
            id,
            "/terminate",
            BodyContext::Default,
        );
        (call, TerminateTransfer { id: id.to_owned(), reason: reason.to_owned() })
    }

    /// The call that suspends the transfer `id`, and its body.
    pub fn suspend(&self, id: &str, reason: &str) -> (out: (Call, SuspendTransfer))
        ensures
            call_is(
                out.0,
                Method::Post,
                self.0.management_url@ + "/v3/transferprocesses/"@ + id@ + "/suspend"@,
                BodyContext::Default,
            ),
            out.1.id@ == id@,
            out.1.reason@ == reason@,
    {
        let call = self.0.call(
            Method::Post,
            "/v3/transferprocesses/",
            id,
            "/suspend",
            BodyContext::Default,
        );
        (call, SuspendTransfer { id: id.to_owned(), reason: reason.to_owned() })
    }
}

} // verus!
