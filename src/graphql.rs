//! Responses of remote GraphQL APIs, and how they are turned into a result.
use vstd::prelude::*;

use crate::error::TelescopeError;

verus! {

/// One step of the path to the field that an error is about.
#[derive(Debug, Clone, PartialEq, Eq)]
pub enum PathSegment {
    /// The name of an object's field.
    Key(String),
    /// The position of an item in a list.
    Index(i64),
}

/// An error reported by a GraphQL API.
#[derive(Debug, Clone, PartialEq, Eq)]
pub struct RemoteError {
    /// What went wrong.
    pub message: String,
    /// The path to the field that the error is about, if the API gave one.
    pub path: Option<Vec<PathSegment>>,
}

/// The envelope of a GraphQL API's answer: the data, the errors, or both.
#[derive(Debug, Clone, PartialEq, Eq)]
pub struct RemoteResponse<D> {
    /// The data that the query asked for.
    pub data: Option<D>,
    /// The errors that the API reported.
    pub errors: Option<Vec<RemoteError>>,
}

impl<D> RemoteResponse<D> {
    /// The API reported at least one error.
    pub open spec fn reports_errors(self) -> bool {
        self.errors matches Some(errs) && errs@.len() > 0
    }

    /// An answer with no data and no error breaks the API's contract: it
    /// signals a fault of the API, not a failure of the request.
    pub open spec fn violates_protocol(self) -> bool {
        self.data is None && !self.reports_errors()
    }

    /// Whether this answer breaks the API's contract.
    pub fn is_protocol_violation(&self) -> (r: bool)
        ensures
            r == self.violates_protocol(),
    {
        let reported = match &self.errors {
            Some(errs) => errs.len() > 0,
            None => false,
        };
        self.data.is_none() && !reported
    }
}

/// `r` is the failure that carries the errors `errors` reported by the API
/// named `api_name`.
pub open spec fn is_graphql_error<D>(api_name: Seq<char>, errors: Vec<RemoteError>, r: Result<
    D,
    TelescopeError,
>) -> bool {
    r matches Err(TelescopeError::GraphQLError { platform, errors: e }) && platform@ == api_name
        && e == errors
}

/// The result that an answer of the API named `api_name` stands for: the
/// errors, where it reported any, and else its data. An empty list of errors
/// is no failure.
pub open spec fn graphql_outcome<D>(api_name: Seq<char>, response: RemoteResponse<D>, r: Result<
    D,
    TelescopeError,
>) -> bool {
    if response.reports_errors() {
        is_graphql_error(api_name, response.errors.unwrap(), r)
    } else {
        r == Ok::<D, TelescopeError>(response.data.unwrap())
    }
}

/// Handle a response from a GraphQL API: return its errors with the API's
/// name where it reported any, and else the data. An answer with neither
/// breaks the API's contract and is not accepted.
pub fn handle_graphql_response<D>(api_name: &str, response: RemoteResponse<D>) -> (r: Result<
    D,
    TelescopeError,
>)
    requires
        !response.violates_protocol(),
    ensures
        graphql_outcome(api_name@, response, r),
{
    let reported = match &response.errors {
        Some(errs) => errs.len() > 0,
        None => false,
    };
    if reported {
        let errors = response.errors.unwrap();
        Err(TelescopeError::GraphQLError { platform: api_name.to_owned(), errors })
    } else {
        Ok(response.data.unwrap())
    }
}

/// The four shapes of an answer, each with its result: data alone gives the
/// data; errors, with or without data, give the errors; an empty list of
/// errors beside data gives the data; neither is a breach of the protocol.
pub proof fn response_table<D>(api_name: Seq<char>, data: D, errors: Vec<RemoteError>, r: Result<
    D,
    TelescopeError,
>)
    ensures
        graphql_outcome(api_name, RemoteResponse { data: Some(data), errors: None }, r) <==> r
            == Ok::<D, TelescopeError>(data),
        errors@.len() > 0 ==> (graphql_outcome(
            api_name,
            RemoteResponse { data: Some(data), errors: Some(errors) },
            r,
        ) <==> is_graphql_error(api_name, errors, r)),
        errors@.len() > 0 ==> (graphql_outcome(
            api_name,
            RemoteResponse::<D> { data: None, errors: Some(errors) },
            r,
        ) <==> is_graphql_error(api_name, errors, r)),
        errors@.len() == 0 ==> (graphql_outcome(
            api_name,
            RemoteResponse { data: Some(data), errors: Some(errors) },
            r,
        ) <==> r == Ok::<D, TelescopeError>(data)),
        (RemoteResponse::<D> { data: None, errors: None }).violates_protocol(),
{
}

} // verus!
