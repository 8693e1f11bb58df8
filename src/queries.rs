//! Descriptors of the queries and mutations sent to the central RCOS GraphQL
//! API. Each stands for one operation; the answers go through
//! [`crate::graphql::handle_graphql_response`].
use vstd::prelude::*;

verus! {

/// The query for the public RCOS projects.
pub struct RawProjects;

/// The query for the user accounts linked to an RCS id.
pub struct UserAccountsByRCSID;

/// The query for the user ids behind a list of account ids of one platform.
pub struct UserAccountsLookup;

/// The mutation that merges two user accounts into one.
pub struct CleanMerge;

/// The mutation that enrolls a user in a semester.
pub struct InsertEnrollment;

/// The mutation that assigns several users to one project.
pub struct SetProjectsByIds;

/// One row of an uploaded enrollment sheet.
#[derive(Debug, Clone, PartialEq, Eq)]
pub struct EnrollmentUpload {
    /// When the row was submitted.
    pub timestamp: String,
    /// The student's first name.
    pub first_name: String,
    /// The student's last name.
    pub last_name: String,
    /// The student's RCS id.
    pub rcs_id: String,
    /// The student's Discord id.
    pub discord_id: String,
    /// The project that the student chose.
    pub project: String,
    /// The year in which the student graduates.
    pub graduation_year: i32,
}

} // verus!
