//! Form pages whose fields are filled in before rendering.
use vstd::prelude::*;

verus! {

/// A form field that holds an email address: the id of its input element, the
/// value to fill in, and the error to show beside it.
#[derive(Debug, Clone, PartialEq, Eq)]
pub struct EmailField {
    /// The id of the HTML input element.
    pub id: String,
    /// The address filled into the field, if any.
    pub value: Option<String>,
    /// The error shown with the field, if any.
    pub error: Option<String>,
}

impl EmailField {
    /// An empty field with the given element id.
    pub fn new(id: &str) -> (r: Self)
        ensures
            r.id@ == id@,
            r.value is None,
            r.error is None,
    {
        EmailField { id: id.to_owned(), value: None, error: None }
    }

    /// The field with `email` filled in.
    pub fn prefill(self, email: &str) -> (r: Self)
        ensures
            r.id == self.id,
            r.value matches Some(v) && v@ == email@,
            r.error == self.error,
    {
        EmailField { id: self.id, value: Some(email.to_owned()), error: self.error }
    }

    /// The field with the error `err` shown.
    pub fn error(self, err: &str) -> (r: Self)
        ensures
            r.id == self.id,
            r.value == self.value,
            r.error matches Some(e) && e@ == err@,
    {
        EmailField { id: self.id, value: self.value, error: Some(err.to_owned()) }
    }
}

/// The password recovery form. It has a single field, for the address to send
/// the recovery link to.
#[derive(Debug, Clone, PartialEq, Eq)]
pub struct PasswordRecoveryPage {
    /// Whether the recovery email was sent.
    pub success: bool,
    /// The email form field.
    email_field: EmailField,
}

impl PasswordRecoveryPage {
    /// Whether the recovery email was sent, as a specification sees it.
    pub closed spec fn sent(&self) -> bool {
        self.success
    }

    /// The email form field, as a specification sees it.
    pub closed spec fn field(&self) -> EmailField {
        self.email_field
    }

    /// A new recovery page: not yet sent, with an empty field whose element
    /// id is `email-input`.
    pub fn new() -> (r: Self)
        ensures
            !r.sent(),
            r.field().id@ == "email-input"@,
            r.field().value is None,
            r.field().error is None,
    {
        PasswordRecoveryPage { success: false, email_field: EmailField::new("email-input") }
    }

    /// The page with `email` filled into its field.
    pub fn email(self, email: &str) -> (r: Self)
        ensures
            r.sent() == self.sent(),
            r.field().id == self.field().id,
            r.field().value matches Some(v) && v@ == email@,
            r.field().error == self.field().error,
    {
        PasswordRecoveryPage { success: self.success, email_field: self.email_field.prefill(email) }
    }

    /// The page with the error `err` shown beside its field.
    pub fn error(self, err: &str) -> (r: Self)
        ensures
            r.sent() == self.sent(),
            r.field().id == self.field().id,
            r.field().value == self.field().value,
            r.field().error matches Some(e) && e@ == err@,
    {
        PasswordRecoveryPage { success: self.success, email_field: self.email_field.error(err) }
    }

    /// The email form field.
    pub fn email_field(&self) -> (r: &EmailField)
        ensures
            *r == self.field(),
    {
        &self.email_field
    }
}

} // verus!
