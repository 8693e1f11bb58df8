//! The closed set of failures that a request can end in, and the HTTP status
//! that each of them is reported with.
use vstd::prelude::*;

use crate::graphql::RemoteError;

verus! {

/// HTTP 400 Bad Request.
pub const BAD_REQUEST: u16 = 400;

/// HTTP 404 Not Found.
pub const NOT_FOUND: u16 = 404;

/// HTTP 500 Internal Server Error.
pub const INTERNAL_SERVER_ERROR: u16 = 500;

/// HTTP 501 Not Implemented.
pub const NOT_IMPLEMENTED: u16 = 501;

/// A reply of a mail server, as the three digit SMTP reply code and the lines
/// of text that came with it.
#[derive(Debug, Clone, PartialEq, Eq)]
pub struct SmtpReply {
    /// The reply code, `250` or `550` for instance.
    pub code: u16,
    /// The lines of the reply's text.
    pub message: Vec<String>,
}

impl SmtpReply {
    /// A reply is positive when its first digit is 2 (completion) or 3
    /// (intermediate).
    pub open spec fn positive(&self) -> bool {
        200 <= self.code < 400
    }

    /// Whether the mail server accepted what it was sent.
    pub fn is_positive(&self) -> (r: bool)
        ensures
            r == self.positive(),
    {
        200 <= self.code && self.code < 400
    }
}

/// All major errors that can occur while responding to a request.
#[derive(Debug, Clone, PartialEq, Eq)]
#[allow(inconsistent_fields)]
pub enum TelescopeError {
    /// 404 - Page not found. Use [`TelescopeError::ResourceNotFound`] instead
    /// when possible, as it carries more information.
    PageNotFound,
    /// 404 - Resource not found.
    ResourceNotFound {
        /// The header of the jumbotron to be displayed.
        header: String,
        /// The message to display under the jumbotron.
        message: String,
    },
    /// 400 - The request was malformed.
    BadRequest {
        /// The header of the jumbotron to be displayed.
        header: String,
        /// The error message to be displayed under the jumbotron.
        message: String,
    },
    /// A handlebars template could not be rendered.
    RenderingError(String),
    /// A future that ran blocking work was canceled before it finished.
    FutureCanceled,
    /// Some other internal failure, with its description.
    InternalServerError(String),
    /// Lettre's file transport failed to store an email.
    LettreFileError(String),
    /// Lettre's SMTP transport failed to send an email.
    LettreSmtpError(String),
    /// The SMTP server answered negatively.
    NegativeSmtpResponse {
        /// The reply code.
        code: u16,
        /// The lines of the reply's text.
        message: Vec<String>,
    },
    /// A GraphQL API answered with errors.
    GraphQLError {
        /// The name of the API that answered.
        platform: String,
        /// The errors that it reported.
        errors: Vec<RemoteError>,
    },
    /// The user reached something that is not implemented yet.
    NotImplemented,
}

impl TelescopeError {
    /// The HTTP status that a failure is reported with: 404 for the two
    /// not-found kinds, 400 for a bad request, 501 for what is not implemented
    /// and 500 for every internal failure.
    pub open spec fn status_of(self) -> u16 {
        match self {
            TelescopeError::PageNotFound => NOT_FOUND,
            TelescopeError::ResourceNotFound { .. } => NOT_FOUND,
            TelescopeError::BadRequest { .. } => BAD_REQUEST,
            TelescopeError::RenderingError(_) => INTERNAL_SERVER_ERROR,
            TelescopeError::FutureCanceled => INTERNAL_SERVER_ERROR,
            TelescopeError::InternalServerError(_) => INTERNAL_SERVER_ERROR,
            TelescopeError::LettreFileError(_) => INTERNAL_SERVER_ERROR,
            TelescopeError::LettreSmtpError(_) => INTERNAL_SERVER_ERROR,
            TelescopeError::NegativeSmtpResponse { .. } => INTERNAL_SERVER_ERROR,
            TelescopeError::GraphQLError { .. } => INTERNAL_SERVER_ERROR,
            TelescopeError::NotImplemented => NOT_IMPLEMENTED,
        }
    }

    /// Create a resource not found error from its header and message.
    pub fn resource_not_found(header: &str, message: &str) -> (r: Self)
        ensures
            r matches TelescopeError::ResourceNotFound { header: h, message: m } && h@ == header@
                && m@ == message@,
    {
        TelescopeError::ResourceNotFound { header: header.to_owned(), message: message.to_owned() }
    }

    /// Create an internal server error with the given description.
    pub fn ise(message: &str) -> (r: Self)
        ensures
            r matches TelescopeError::InternalServerError(m) && m@ == message@,
    {
        TelescopeError::InternalServerError(message.to_owned())
    }

    /// Create a bad request error from its header and message.
    pub fn bad_request(header: &str, message: &str) -> (r: Self)
        ensures
            r matches TelescopeError::BadRequest { header: h, message: m } && h@ == header@
                && m@ == message@,
    {
        TelescopeError::BadRequest { header: header.to_owned(), message: message.to_owned() }
    }

    /// The error for a negative reply of a mail server. A positive reply is no
    /// failure, and is not accepted here.
    pub fn negative_smtp_response(res: SmtpReply) -> (r: Self)
        requires
            !res.positive(),
        ensures
            r == (TelescopeError::NegativeSmtpResponse { code: res.code, message: res.message }),
    {
        TelescopeError::NegativeSmtpResponse { code: res.code, message: res.message }
    }

    /// The HTTP status code of this error.
    pub fn status_code(&self) -> (r: u16)
        ensures
            r == self.status_of(),
    {
        match self {
            TelescopeError::BadRequest { .. } => BAD_REQUEST,
            TelescopeError::ResourceNotFound { .. } => NOT_FOUND,
            TelescopeError::PageNotFound => NOT_FOUND,
            TelescopeError::NotImplemented => NOT_IMPLEMENTED,
            _ => INTERNAL_SERVER_ERROR,
        }
    }
}

/// The status of an error depends on the error alone: equal errors get the
/// same status, and every status is one of 400, 404, 500 and 501.
pub proof fn status_is_stable(a: TelescopeError, b: TelescopeError)
    requires
        a == b,
    ensures
        a.status_of() == b.status_of(),
        a.status_of() == BAD_REQUEST || a.status_of() == NOT_FOUND || a.status_of()
            == INTERNAL_SERVER_ERROR || a.status_of() == NOT_IMPLEMENTED,
{
}

} // verus!
