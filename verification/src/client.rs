use vstd::prelude::*;

verus! {

/// How the management API is to be authenticated against.
#[derive(Debug)]
pub enum Auth {
    NoAuth,
    ApiToken(String),
}

/// What can go wrong when a builder is asked for its product.
#[derive(Debug)]
pub enum BuilderError {
    MissingProperty(String),
}

/// A failed conversion of a property value.
#[derive(Debug, Clone, Copy, PartialEq, Eq, Structural)]
pub struct ConversionError {}

/// One detail of an error that the management API reported.
#[derive(Debug)]
pub struct ManagementApiErrorDetail {
    pub message: String,
    pub kind: String,
}

/// What the management API said of an error: the details it listed, or its raw text.
#[derive(Debug)]
pub enum ManagementApiErrorDetailKind {
    Raw(String),
    Parsed(Vec<ManagementApiErrorDetail>),
}

/// An error that the management API reported: the status of the answer, and what
/// the answer said.
#[derive(Debug)]
pub struct ManagementApiError {
    pub status_code: u16,
    pub error_detail: ManagementApiErrorDetailKind,
}

/// What can go wrong with a call.
#[derive(Debug)]
pub enum Error {
    /// The call did not get through, or its answer could not be read.
    Transport(String),
    ManagementApi(ManagementApiError),
}

/// Whether a status says that the call succeeded.
pub open spec fn is_success(status: u16) -> bool {
    200 <= status < 300
}

/// What is needed to talk to the management API of one connector.
pub struct EdcConnectorClient {
    pub management_url: String,
    pub auth: Auth,
}

pub struct EdcClientConnectorBuilder {
    pub management_url: Option<String>,
    pub auth: Auth,
}

/// The name of the header that carries the API token.
pub open spec fn api_key_header() -> Seq<char> {
    "X-Api-Key"@
}

impl Clone for Auth {
    fn clone(&self) -> (out: Auth)
        ensures
            out == *self,
    {
        match self {
            Auth::NoAuth => Auth::NoAuth,
            Auth::ApiToken(token) => Auth::ApiToken(token.clone()),
        }
    }
}

impl Auth {
    pub fn api_token(token: String) -> (out: Auth)
        ensures
            out == Auth::ApiToken(token),
    {
        Auth::ApiToken(token)
    }

    /// The header that authenticates a request: none without authentication, the API
    /// key with its token otherwise.
    pub fn header(&self) -> (out: Option<(String, String)>)
        ensures
            match *self {
                Auth::NoAuth => out is None,
                Auth::ApiToken(token) => out is Some && out->Some_0.0@ == api_key_header()
                    && out->Some_0.1 == token,
            },
    {
        match self {
            Auth::NoAuth => None,
            Auth::ApiToken(token) => Some(("X-Api-Key".to_owned(), token.clone())),
        }
    }
}

impl BuilderError {
    pub fn missing_property(property: &str) -> (out: BuilderError)
        ensures
            out is MissingProperty,
            out->MissingProperty_0@ == property@,
    {
        BuilderError::MissingProperty(property.to_owned())
    }

    pub open spec fn message_spec(self) -> Seq<char> {
        "Missing mandatory property "@ + self->MissingProperty_0@
    }

    /// The text of the error.
    pub fn message(&self) -> (out: String)
        ensures
            out@ == self.message_spec(),
    {
        let mut out = "Missing mandatory property ".to_owned();
        match self {
            BuilderError::MissingProperty(property) => {
                out.append(property.as_str());
            },
        }
        out
    }
}

impl Default for EdcClientConnectorBuilder {
    fn default() -> (out: Self)
        ensures
            out.management_url is None,
            out.auth == Auth::NoAuth,
    {
        EdcClientConnectorBuilder { management_url: None, auth: Auth::NoAuth }
    }
}

impl EdcClientConnectorBuilder {
    pub fn management_url(self, url: &str) -> (out: Self)
        ensures
            out.management_url is Some,
            out.management_url->Some_0@ == url@,
            out.auth == self.auth,
    {
        let mut out = self;
        out.management_url = Some(url.to_owned());
        out
    }

    pub fn with_auth(self, auth: Auth) -> (out: Self)
        ensures
            out.management_url == self.management_url,
            out.auth == auth,
    {
        let mut out = self;
        out.auth = auth;
        out
    }

    /// The client, if the address of the management API was given.
    pub fn build(self) -> (out: Result<EdcConnectorClient, BuilderError>)
        ensures
            match self.management_url {
                Some(url) => out == Ok::<EdcConnectorClient, BuilderError>(
                    EdcConnectorClient { management_url: url, auth: self.auth },
                ),
                None => out is Err && out->Err_0 is MissingProperty
                    && out->Err_0->MissingProperty_0@ == "management_url"@,
            },
    {
        match self.management_url {
            Some(url) => Ok(EdcConnectorClient { management_url: url, auth: self.auth }),
            None => Err(BuilderError::missing_property("management_url")),
        }
    }
}

impl EdcConnectorClient {
    pub fn builder() -> (out: EdcClientConnectorBuilder)
        ensures
            out.management_url is None,
            out.auth == Auth::NoAuth,
    {
        EdcClientConnectorBuilder::default()
    }

    /// Judges an answer by its status. An answer that says success is handed on with
    /// its body. Any other answer is an error of the management API with the status
    /// of the answer; it holds the details that the body listed, if the body could
    /// be read as a list of details, and the body as it is otherwise.
    pub fn handle_response(
        status: u16,
        text: String,
        details: Option<Vec<ManagementApiErrorDetail>>,
    ) -> (out: Result<String, Error>)
        ensures
            is_success(status) ==> out == Ok::<String, Error>(text),
            !is_success(status) ==> out == Err::<String, Error>(
                Error::ManagementApi(
                    ManagementApiError {
                        status_code: status,
                        error_detail: match details {
                            Some(parsed) => ManagementApiErrorDetailKind::Parsed(parsed),
                            None => ManagementApiErrorDetailKind::Raw(text),
                        },
                    },
                ),
            ),
    {
        if status >= 200 && status < 300 {
            Ok(text)
        } else {
            let error_detail = match details {
                Some(parsed) => ManagementApiErrorDetailKind::Parsed(parsed),
                None => ManagementApiErrorDetailKind::Raw(text),
            };
            Err(Error::ManagementApi(ManagementApiError { status_code: status, error_detail }))
        }
    }
}

} // verus!
