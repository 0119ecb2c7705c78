//! The failures a request can end in, and how each is shown to the caller.

use vstd::prelude::*;
use crate::ids::{hyphenated, uuid_text};
use crate::text::{decimal, decimal_text};
use crate::validation::{joined, ValidationErrors};

verus! {

/// One of the three headers the gateway sets on every forwarded request.
#[derive(Clone, Copy, Debug, PartialEq, Eq, Structural)]
pub enum Header {
    UserId,
    UserRoles,
    RequestId,
}

/// A role the gateway can vouch for. `Unknown` stands for every token that
/// is not recognised, and is never asked for by a gate.
#[derive(Clone, Copy, Debug, PartialEq, Eq, Structural)]
pub enum Role {
    Candidate,
    Admin,
    Unknown,
}

/// The name of a gateway header.
pub open spec fn header_name(header: Header) -> Seq<char> {
    match header {
        Header::UserId => "X-User-Id"@,
        Header::UserRoles => "X-User-Roles"@,
        Header::RequestId => "X-Request-Id"@,
    }
}

/// The name of a role.
pub open spec fn role_name(role: Role) -> Seq<char> {
    match role {
        Role::Candidate => "Candidate"@,
        Role::Admin => "Admin"@,
        Role::Unknown => "Unknown"@,
    }
}

impl Header {
    /// The name of the header.
    pub fn name(self) -> (text: &'static str)
        ensures
            text@ == header_name(self),
    {
        match self {
            Header::UserId => "X-User-Id",
            Header::UserRoles => "X-User-Roles",
            Header::RequestId => "X-Request-Id",
        }
    }
}

impl Role {
    /// The name of the role.
    pub fn name(self) -> (text: &'static str)
        ensures
            text@ == role_name(self),
    {
        match self {
            Role::Candidate => "Candidate",
            Role::Admin => "Admin",
            Role::Unknown => "Unknown",
        }
    }
}

/// The services that a request may have to ask.
#[derive(Clone, Copy, Debug, PartialEq, Eq, Structural)]
pub enum Collaborator {
    JobService,
    IdentityProvider,
}

/// What went wrong with a collaborator.
#[derive(Clone, Copy, Debug, PartialEq, Eq, Structural)]
pub enum UpstreamFault {
    /// The call itself failed.
    Unreachable(Collaborator),
    /// The job service does not know the job with this identifier.
    InvalidJob(u128),
    /// The identity provider answered without an access token.
    NoAccessToken,
    /// The identity provider refused to create the user, with this status.
    UserCreationRefused(u16),
    /// The identity provider created the user but did not say where.
    NoUserLocation,
    /// The identity provider refused to set the password, with this status.
    PasswordRefused(u16),
    /// A reply arrived that does not answer what was asked.
    UnexpectedReply,
}

/// What went wrong with a collaborator, in words.
pub open spec fn fault_text(fault: UpstreamFault) -> Seq<char> {
    match fault {
        UpstreamFault::Unreachable(Collaborator::JobService) => "The job service could not be reached"@,
        UpstreamFault::Unreachable(Collaborator::IdentityProvider) =>
            "The identity provider could not be reached"@,
        UpstreamFault::InvalidJob(job_id) => "Invalid job id : "@ + hyphenated(job_id) + " "@,
        UpstreamFault::NoAccessToken => "The identity provider handed out no token"@,
        UpstreamFault::UserCreationRefused(status) => "Failed to create a user on keycloak: "@
            + decimal(status as nat),
        UpstreamFault::NoUserLocation => "The identity provider did not name the user it created"@,
        UpstreamFault::PasswordRefused(status) => "Failed to set the user password : "@ + decimal(
            status as nat,
        ),
        UpstreamFault::UnexpectedReply => "A collaborator gave an unexpected reply"@,
    }
}

impl UpstreamFault {
    /// What went wrong, in words.
    pub fn describe(self) -> (text: String)
        ensures
            text@ == fault_text(self),
    {
        match self {
            UpstreamFault::Unreachable(Collaborator::JobService) => String::from_str(
                "The job service could not be reached",
            ),
            UpstreamFault::Unreachable(Collaborator::IdentityProvider) => String::from_str(
                "The identity provider could not be reached",
            ),
            UpstreamFault::InvalidJob(job_id) => {
                let mut text = String::from_str("Invalid job id : ");
                let id = uuid_text(job_id);
                text.append(id.as_str());
                text.append(" ");
                text
            },
            UpstreamFault::NoAccessToken => String::from_str("The identity provider handed out no token"),
            UpstreamFault::UserCreationRefused(status) => {
                let mut text = String::from_str("Failed to create a user on keycloak: ");
                let code = decimal_text(status as u64);
                text.append(code.as_str());
                text
            },
            UpstreamFault::NoUserLocation => String::from_str(
                "The identity provider did not name the user it created",
            ),
            UpstreamFault::PasswordRefused(status) => {
                let mut text = String::from_str("Failed to set the user password : ");
                let code = decimal_text(status as u64);
                text.append(code.as_str());
                text
            },
            UpstreamFault::UnexpectedReply => String::from_str("A collaborator gave an unexpected reply"),
        }
    }
}

/// Why a request failed.
#[derive(Clone, Copy, Debug, PartialEq, Eq, Structural)]
pub enum ErrorKind {
    /// A gateway header is absent.
    MissingHeader(Header),
    /// A gateway header is present but cannot be read as an identifier.
    MalformedHeader(Header),
    /// The caller is known but lacks the role named here.
    Forbidden(Role),
    /// The payload breaks the rules listed here.
    ValidationFailed(ValidationErrors),
    /// No record was affected: it is absent, or not the caller's.
    NotFound,
    /// A key that must be unique matched this many records.
    IntegrityViolation(u64),
    /// A collaborator failed or refused; nothing was stored.
    UpstreamFailure(UpstreamFault),
    /// The store itself failed.
    StorageFailure,
}

/// The error every handler returns.
#[derive(Clone, Copy, Debug, PartialEq, Eq, Structural)]
pub struct AppError(pub ErrorKind);

impl AppError {
    /// The failure of a payload that breaks these rules.
    pub fn invalid(errors: ValidationErrors) -> (error: AppError)
        ensures
            error == AppError(ErrorKind::ValidationFailed(errors)),
    {
        AppError(ErrorKind::ValidationFailed(errors))
    }

    /// The HTTP status the failure is reported with: faults of the request
    /// map to the 4xx class, faults of the service to the 5xx class.
    pub open spec fn spec_status(self) -> u16 {
        match self.0 {
            ErrorKind::MissingHeader(_) => 400,
            ErrorKind::MalformedHeader(_) => 400,
            ErrorKind::Forbidden(_) => 403,
            ErrorKind::ValidationFailed(_) => 400,
            ErrorKind::NotFound => 404,
            ErrorKind::IntegrityViolation(_) => 500,
            ErrorKind::UpstreamFailure(_) => 502,
            ErrorKind::StorageFailure => 500,
        }
    }

    /// The failure in words.
    pub open spec fn spec_message(self) -> Seq<char> {
        match self.0 {
            ErrorKind::MissingHeader(header) => "`"@ + header_name(header) + "` header is missing"@,
            ErrorKind::MalformedHeader(header) => "`"@ + header_name(header)
                + "` header is malformed"@,
            ErrorKind::Forbidden(role) => "The user does not have one of the following roles: "@
                + role_name(role),
            ErrorKind::ValidationFailed(errors) => "The payload is not valid: "@ + joined(
                errors.listing(),
            ),
            ErrorKind::NotFound => "The resource does not exist"@,
            ErrorKind::IntegrityViolation(rows) => "Too many ressources affected: "@ + decimal(
                rows as nat,
            ) + " rows affected"@,
            ErrorKind::UpstreamFailure(fault) => fault_text(fault),
            ErrorKind::StorageFailure => "The store could not carry out the request"@,
        }
    }

    /// The failure in words.
    pub fn message(self) -> (text: String)
        ensures
            text@ == self.spec_message(),
    {
        match self.0 {
            ErrorKind::MissingHeader(header) => {
                let mut text = String::from_str("`");
                text.append(header.name());
                text.append("` header is missing");
                text
            },
            ErrorKind::MalformedHeader(header) => {
                let mut text = String::from_str("`");
                text.append(header.name());
                text.append("` header is malformed");
                text
            },
            ErrorKind::Forbidden(role) => {
                let mut text = String::from_str("The user does not have one of the following roles: ");
                text.append(role.name());
                text
            },
            ErrorKind::ValidationFailed(errors) => {
                let mut text = String::from_str("The payload is not valid: ");
                let rules = errors.message();
                text.append(rules.as_str());
                text
            },
            ErrorKind::NotFound => String::from_str("The resource does not exist"),
            ErrorKind::IntegrityViolation(rows) => {
                let mut text = String::from_str("Too many ressources affected: ");
                let count = decimal_text(rows);
                text.append(count.as_str());
                text.append(" rows affected");
                text
            },
            ErrorKind::UpstreamFailure(fault) => fault.describe(),
            ErrorKind::StorageFailure => String::from_str("The store could not carry out the request"),
        }
    }

    /// What the caller is answered: the status, and a text that says what
    /// went wrong.
    pub fn into_response(self) -> (answer: (u16, String))
        ensures
            answer.0 == self.spec_status(),
            answer.1@ == "Something went wrong: "@ + self.spec_message(),
    {
        let mut text = String::from_str("Something went wrong: ");
        let message = self.message();
        text.append(message.as_str());
        (self.status(), text)
    }

    /// Whether the failure is a fault of the request, not of the service.
    pub open spec fn client_induced(self) -> bool {
        match self.0 {
            ErrorKind::MissingHeader(_) => true,
            ErrorKind::MalformedHeader(_) => true,
            ErrorKind::Forbidden(_) => true,
            ErrorKind::ValidationFailed(_) => true,
            ErrorKind::NotFound => true,
            _ => false,
        }
    }

    #[verifier::when_used_as_spec(spec_status)]
    pub fn status(self) -> (code: u16)
        ensures
            code == self.spec_status(),
    {
        match self.0 {
            ErrorKind::MissingHeader(_) => 400,
            ErrorKind::MalformedHeader(_) => 400,
            ErrorKind::Forbidden(_) => 403,
            ErrorKind::ValidationFailed(_) => 400,
            ErrorKind::NotFound => 404,
            ErrorKind::IntegrityViolation(_) => 500,
            ErrorKind::UpstreamFailure(_) => 502,
            ErrorKind::StorageFailure => 500,
        }
    }
}

/// Faults of the request are reported in the 4xx class, faults of the
/// service in the 5xx class.
pub proof fn law_status_follows_fault(error: AppError)
    ensures
        error.client_induced() ==> 400 <= error.spec_status() < 500,
        !error.client_induced() ==> 500 <= error.spec_status() < 600,
{
}

/// How a request whose payload was validated with this outcome goes on:
/// it does if the payload is valid, and fails with every broken rule if not.
pub open spec fn admitted(outcome: Result<(), ValidationErrors>) -> Result<(), AppError> {
    match outcome {
        Ok(()) => Ok(()),
        Err(errors) => Err(AppError(ErrorKind::ValidationFailed(errors))),
    }
}

/// Turns the outcome of a validation into that of the request.
pub fn admit_payload(outcome: Result<(), ValidationErrors>) -> (verdict: Result<(), AppError>)
    ensures
        verdict == admitted(outcome),
{
    match outcome {
        Ok(()) => Ok(()),
        Err(errors) => Err(AppError::invalid(errors)),
    }
}

} // verus!
