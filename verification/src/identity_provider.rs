//! Opening an account at the identity provider: a token is acquired, the
//! user is created, and its password is set. The calls themselves are made
//! by the surrounding program; what to call next, and what each reply
//! means, is decided here.

use vstd::prelude::*;
use crate::dtos::candidate::{CreateCandidate, CreateCandidateView};
use crate::error::{AppError, Collaborator, ErrorKind, UpstreamFault};
use crate::ids::{hyphenated, parse_uuid, uuid_of_text, uuid_text};
use crate::text::{after_last, tail_after_last};
use crate::utils::{is_success, success};

verus! {

/// The address at which the identity provider hands out tokens.
pub open spec fn token_address(root: Seq<char>) -> Seq<char> {
    root + "/realms/season-link/protocol/openid-connect/token"@
}

/// The address at which the identity provider creates users.
pub open spec fn users_address(root: Seq<char>) -> Seq<char> {
    root + "/admin/realms/season-link/users/"@
}

/// The address at which the identity provider sets the password of a user.
pub open spec fn password_address(root: Seq<char>, user_id: u128) -> Seq<char> {
    users_address(root) + hyphenated(user_id) + "/reset-password"@
}

/// The value of the authorization header that presents a token.
pub open spec fn bearer(token: Seq<char>) -> Seq<char> {
    "Bearer "@ + token
}

/// The address at which the identity provider hands out tokens.
pub fn token_url(root: &str) -> (url: String)
    ensures
        url@ == token_address(root@),
{
    String::from_str(root).concat("/realms/season-link/protocol/openid-connect/token")
}

/// The address at which the identity provider creates users.
pub fn users_url(root: &str) -> (url: String)
    ensures
        url@ == users_address(root@),
{
    String::from_str(root).concat("/admin/realms/season-link/users/")
}

/// The address at which the identity provider sets the password of a user.
pub fn password_url(root: &str, user_id: u128) -> (url: String)
    ensures
        url@ == password_address(root@, user_id),
{
    let mut url = users_url(root);
    let id = uuid_text(user_id);
    url.append(id.as_str());
    url.append("/reset-password");
    url
}

/// The value of the authorization header that presents a token.
pub fn bearer_header(token: &str) -> (header: String)
    ensures
        header@ == bearer(token@),
{
    String::from_str("Bearer ").concat(token)
}

/// The user that is created for a candidate.
#[derive(Clone, Debug, PartialEq, Eq)]
pub struct NewUser {
    pub enabled: bool,
    pub username: String,
    pub first_name: String,
    pub last_name: String,
    pub email_verified: bool,
}

/// What a `NewUser` holds.
pub struct NewUserView {
    pub enabled: bool,
    pub username: Seq<char>,
    pub first_name: Seq<char>,
    pub last_name: Seq<char>,
    pub email_verified: bool,
}

impl View for NewUser {
    type V = NewUserView;

    open spec fn view(&self) -> NewUserView {
        NewUserView {
            enabled: self.enabled,
            username: self.username@,
            first_name: self.first_name@,
            last_name: self.last_name@,
            email_verified: self.email_verified,
        }
    }
}

/// The user that is created for a candidate: enabled, with a verified
/// address, under the candidate's names, and known by its first name.
pub open spec fn user_for(dto: CreateCandidateView) -> NewUserView {
    NewUserView {
        enabled: true,
        username: dto.candidate.first_name,
        first_name: dto.candidate.first_name,
        last_name: dto.candidate.last_name,
        email_verified: true,
    }
}

/// The user that is created for a candidate.
pub fn new_user(dto: &CreateCandidate) -> (user: NewUser)
    ensures
        user@ == user_for(dto@),
{
    NewUser {
        enabled: true,
        username: dto.candidate.first_name.clone(),
        first_name: dto.candidate.first_name.clone(),
        last_name: dto.candidate.last_name.clone(),
        email_verified: true,
    }
}

/// The password that is set for a new user.
#[derive(Clone, Debug, PartialEq, Eq)]
pub struct Credential {
    pub kind: String,
    pub temporary: bool,
    pub value: String,
}

/// The password that is set for a candidate: the one of the payload, for
/// good.
pub fn credential(dto: &CreateCandidate) -> (secret: Credential)
    ensures
        secret.kind@ == "password"@,
        !secret.temporary,
        secret.value@ == dto@.password,
{
    Credential { kind: String::from_str("password"), temporary: false, value: dto.password.clone() }
}

/// The identifier of the user that a location names: what follows its last
/// slash, read as an identifier. A location without a slash names none.
pub open spec fn located(location: Seq<char>) -> Option<u128> {
    match after_last(location, '/') {
        Some(tail) => uuid_of_text(tail),
        None => None,
    }
}

/// The identifier of the user that a location names.
pub fn located_user(location: &str) -> (user_id: Option<u128>)
    ensures
        user_id == located(location@),
{
    match tail_after_last(location, '/') {
        Some(tail) => parse_uuid(tail),
        None => None,
    }
}

/// What came back from one call to the identity provider.
#[derive(Debug, PartialEq, Eq)]
pub enum IdpReply {
    /// The call itself failed, or its answer could not be read.
    Unreachable,
    /// The answer to a request for a token: the access token in it, if any.
    Token(Option<String>),
    /// The answer to the creation of a user: its status, and the location
    /// it names, if any.
    UserCreated { status: u16, location: Option<String> },
    /// The answer to the setting of a password: its status.
    PasswordSet { status: u16 },
}

/// What an `IdpReply` holds.
pub enum IdpReplyView {
    Unreachable,
    Token(Option<Seq<char>>),
    UserCreated { status: u16, location: Option<Seq<char>> },
    PasswordSet { status: u16 },
}

impl View for IdpReply {
    type V = IdpReplyView;

    open spec fn view(&self) -> IdpReplyView {
        match *self {
            IdpReply::Unreachable => IdpReplyView::Unreachable,
            IdpReply::Token(token) => IdpReplyView::Token(
                match token {
                    Some(text) => Some(text@),
                    None => None,
                },
            ),
            IdpReply::UserCreated { status, location } => IdpReplyView::UserCreated {
                status,
                location: match location {
                    Some(text) => Some(text@),
                    None => None,
                },
            },
            IdpReply::PasswordSet { status } => IdpReplyView::PasswordSet { status },
        }
    }
}

/// How far the opening of an account has come.
#[derive(Debug, PartialEq, Eq)]
pub enum Provisioning {
    /// A token was asked for.
    AwaitingToken,
    /// The creation of the user was asked for, with this token.
    AwaitingUser { token: String },
    /// The user exists; the setting of its password was asked for.
    AwaitingPassword { token: String, user_id: u128 },
    /// The account is open, or could not be opened.
    Finished,
}

/// What a `Provisioning` holds.
pub enum ProvisioningView {
    AwaitingToken,
    AwaitingUser { token: Seq<char> },
    AwaitingPassword { token: Seq<char>, user_id: u128 },
    Finished,
}

impl View for Provisioning {
    type V = ProvisioningView;

    open spec fn view(&self) -> ProvisioningView {
        match *self {
            Provisioning::AwaitingToken => ProvisioningView::AwaitingToken,
            Provisioning::AwaitingUser { token } => ProvisioningView::AwaitingUser { token: token@ },
            Provisioning::AwaitingPassword { token, user_id } => ProvisioningView::AwaitingPassword {
                token: token@,
                user_id,
            },
            Provisioning::Finished => ProvisioningView::Finished,
        }
    }
}

/// What the surrounding program has to do next for the account.
#[derive(Debug, PartialEq, Eq)]
pub enum IdpAction {
    /// Ask for a token.
    RequestToken,
    /// Create the user, presenting this authorization.
    CreateUser { authorization: String },
    /// Set the password of this user, presenting this authorization.
    SetPassword { authorization: String, user_id: u128 },
    /// Nothing more: the account is open under this identifier, or could
    /// not be opened.
    Done(Result<u128, AppError>),
}

/// What an `IdpAction` holds.
pub enum IdpActionView {
    RequestToken,
    CreateUser { authorization: Seq<char> },
    SetPassword { authorization: Seq<char>, user_id: u128 },
    Done(Result<u128, AppError>),
}

impl View for IdpAction {
    type V = IdpActionView;

    open spec fn view(&self) -> IdpActionView {
        match *self {
            IdpAction::RequestToken => IdpActionView::RequestToken,
            IdpAction::CreateUser { authorization } => IdpActionView::CreateUser {
                authorization: authorization@,
            },
            IdpAction::SetPassword { authorization, user_id } => IdpActionView::SetPassword {
                authorization: authorization@,
                user_id,
            },
            IdpAction::Done(outcome) => IdpActionView::Done(outcome),
        }
    }
}

/// The failure of the identity provider with the given fault.
pub open spec fn idp_failure(fault: UpstreamFault) -> AppError {
    AppError(ErrorKind::UpstreamFailure(fault))
}

/// The end of an opening that failed.
pub open spec fn failed(fault: UpstreamFault) -> (ProvisioningView, IdpActionView) {
    (ProvisioningView::Finished, IdpActionView::Done(Err(idp_failure(fault))))
}

/// The token that a reply to a request for a token hands out, or why it
/// hands out none.
pub open spec fn token_of(reply: IdpReplyView) -> Result<Seq<char>, AppError> {
    match reply {
        IdpReplyView::Unreachable => Err(
            idp_failure(UpstreamFault::Unreachable(Collaborator::IdentityProvider)),
        ),
        IdpReplyView::Token(Some(token)) => Ok(token),
        IdpReplyView::Token(None) => Err(idp_failure(UpstreamFault::NoAccessToken)),
        _ => Err(idp_failure(UpstreamFault::UnexpectedReply)),
    }
}

/// The identifier of the user that a reply to a creation names, or why it
/// names none: the creation must have succeeded and name a location that
/// ends in an identifier.
pub open spec fn created_user(reply: IdpReplyView) -> Result<u128, AppError> {
    match reply {
        IdpReplyView::Unreachable => Err(
            idp_failure(UpstreamFault::Unreachable(Collaborator::IdentityProvider)),
        ),
        IdpReplyView::UserCreated { status, location } => if !success(status) {
            Err(idp_failure(UpstreamFault::UserCreationRefused(status)))
        } else {
            match location {
                Some(text) => match located(text) {
                    Some(user_id) => Ok(user_id),
                    None => Err(idp_failure(UpstreamFault::NoUserLocation)),
                },
                None => Err(idp_failure(UpstreamFault::NoUserLocation)),
            }
        },
        _ => Err(idp_failure(UpstreamFault::UnexpectedReply)),
    }
}

/// Whether a reply to the setting of a password reports that it is set, or
/// why it is not.
pub open spec fn password_set(reply: IdpReplyView) -> Result<(), AppError> {
    match reply {
        IdpReplyView::Unreachable => Err(
            idp_failure(UpstreamFault::Unreachable(Collaborator::IdentityProvider)),
        ),
        IdpReplyView::PasswordSet { status } => if success(status) {
            Ok(())
        } else {
            Err(idp_failure(UpstreamFault::PasswordRefused(status)))
        },
        _ => Err(idp_failure(UpstreamFault::UnexpectedReply)),
    }
}

/// The step that the opening of an account takes on a reply: where it
/// stands afterwards, and what is to be done next. Every failure ends it;
/// a reply to an opening that has ended is unexpected.
pub open spec fn provisioning_step(state: ProvisioningView, reply: IdpReplyView) -> (
    ProvisioningView,
    IdpActionView,
) {
    match state {
        ProvisioningView::AwaitingToken => match token_of(reply) {
            Ok(token) => (
                ProvisioningView::AwaitingUser { token },
                IdpActionView::CreateUser { authorization: bearer(token) },
            ),
            Err(error) => (ProvisioningView::Finished, IdpActionView::Done(Err(error))),
        },
        ProvisioningView::AwaitingUser { token } => match created_user(reply) {
            Ok(user_id) => (
                ProvisioningView::AwaitingPassword { token, user_id },
                IdpActionView::SetPassword { authorization: bearer(token), user_id },
            ),
            Err(error) => (ProvisioningView::Finished, IdpActionView::Done(Err(error))),
        },
        ProvisioningView::AwaitingPassword { token, user_id } => match password_set(reply) {
            Ok(()) => (ProvisioningView::Finished, IdpActionView::Done(Ok(user_id))),
            Err(error) => (ProvisioningView::Finished, IdpActionView::Done(Err(error))),
        },
        ProvisioningView::Finished => failed(UpstreamFault::UnexpectedReply),
    }
}

/// Reads the reply to a request for a token.
pub fn refresh_token(reply: IdpReply) -> (token: Result<String, AppError>)
    ensures
        match token {
            Ok(text) => token_of(reply@) == Ok::<Seq<char>, AppError>(text@),
            Err(error) => token_of(reply@) == Err::<Seq<char>, AppError>(error),
        },
{
    match reply {
        IdpReply::Unreachable => Err(
            AppError(
                ErrorKind::UpstreamFailure(UpstreamFault::Unreachable(Collaborator::IdentityProvider)),
            ),
        ),
        IdpReply::Token(Some(token)) => Ok(token),
        IdpReply::Token(None) => Err(AppError(ErrorKind::UpstreamFailure(UpstreamFault::NoAccessToken))),
        _ => Err(AppError(ErrorKind::UpstreamFailure(UpstreamFault::UnexpectedReply))),
    }
}

/// Reads the reply to the creation of a user.
pub fn read_created_user(reply: &IdpReply) -> (user_id: Result<u128, AppError>)
    ensures
        user_id == created_user(reply@),
{
    match reply {
        IdpReply::Unreachable => Err(
            AppError(
                ErrorKind::UpstreamFailure(UpstreamFault::Unreachable(Collaborator::IdentityProvider)),
            ),
        ),
        IdpReply::UserCreated { status, location } => {
            if !is_success(*status) {
                return Err(
                    AppError(ErrorKind::UpstreamFailure(UpstreamFault::UserCreationRefused(*status))),
                );
            }
            let found = match location {
                Some(text) => located_user(text.as_str()),
                None => None,
            };
            match found {
                Some(user_id) => Ok(user_id),
                None => Err(AppError(ErrorKind::UpstreamFailure(UpstreamFault::NoUserLocation))),
            }
        },
        _ => Err(AppError(ErrorKind::UpstreamFailure(UpstreamFault::UnexpectedReply))),
    }
}

/// Reads the reply to the setting of a password.
pub fn read_password_set(reply: &IdpReply) -> (outcome: Result<(), AppError>)
    ensures
        outcome == password_set(reply@),
{
    match reply {
        IdpReply::Unreachable => Err(
            AppError(
                ErrorKind::UpstreamFailure(UpstreamFault::Unreachable(Collaborator::IdentityProvider)),
            ),
        ),
        IdpReply::PasswordSet { status } => {
            if is_success(*status) {
                Ok(())
            } else {
                Err(AppError(ErrorKind::UpstreamFailure(UpstreamFault::PasswordRefused(*status))))
            }
        },
        _ => Err(AppError(ErrorKind::UpstreamFailure(UpstreamFault::UnexpectedReply))),
    }
}

/// Where the opening of an account starts, and what is to be done first.
pub fn start_provisioning() -> (first: (Provisioning, IdpAction))
    ensures
        first.0@ == ProvisioningView::AwaitingToken,
        first.1@ == IdpActionView::RequestToken,
{
    (Provisioning::AwaitingToken, IdpAction::RequestToken)
}

/// Takes the opening of an account one step further on the reply to what
/// was asked last.
pub fn create_keycloak_user(state: Provisioning, reply: IdpReply) -> (next: (Provisioning, IdpAction))
    ensures
        (next.0@, next.1@) == provisioning_step(state@, reply@),
{
    match state {
        Provisioning::AwaitingToken => match refresh_token(reply) {
            Ok(token) => {
                let authorization = bearer_header(token.as_str());
                (Provisioning::AwaitingUser { token }, IdpAction::CreateUser { authorization })
            },
            Err(error) => (Provisioning::Finished, IdpAction::Done(Err(error))),
        },
        Provisioning::AwaitingUser { token } => match read_created_user(&reply) {
            Ok(user_id) => {
                let authorization = bearer_header(token.as_str());
                (
                    Provisioning::AwaitingPassword { token, user_id },
                    IdpAction::SetPassword { authorization, user_id },
                )
            },
            Err(error) => (Provisioning::Finished, IdpAction::Done(Err(error))),
        },
        Provisioning::AwaitingPassword { token, user_id } => match read_password_set(&reply) {
            Ok(()) => (Provisioning::Finished, IdpAction::Done(Ok(user_id))),
            Err(error) => (Provisioning::Finished, IdpAction::Done(Err(error))),
        },
        Provisioning::Finished => (
            Provisioning::Finished,
            IdpAction::Done(Err(AppError(ErrorKind::UpstreamFailure(UpstreamFault::UnexpectedReply)))),
        ),
    }
}

} // verus!
