//! The identity of a caller, as the gateway forwards it in three headers.

use vstd::prelude::*;
use crate::error::{AppError, ErrorKind, Header, Role};
use crate::ids::{parse_uuid, uuid_of_text};
use crate::text::{chars_of, same_text, split_commas, lemma_split_commas_step};

verus! {

/// The role that one token of the roles header stands for. Every token but
/// the two recognised ones stands for `Unknown`.
pub open spec fn role_of(token: Seq<char>) -> Role {
    if token == "client_candidate"@ {
        Role::Candidate
    } else if token == "client_admin"@ {
        Role::Admin
    } else {
        Role::Unknown
    }
}

/// The roles that the value of the roles header lists, one for each piece
/// between its commas.
pub open spec fn roles_of(value: Seq<char>) -> Seq<Role> {
    split_commas(value).map_values(|token: Seq<char>| role_of(token))
}

impl vstd::std_specs::convert::FromSpecImpl<&str> for Role {
    open spec fn obeys_from_spec() -> bool {
        true
    }

    open spec fn from_spec(value: &str) -> Role {
        role_of(value@)
    }
}

impl From<&str> for Role {
    fn from(value: &str) -> (role: Role) {
        if same_text(value, "client_candidate") {
            Role::Candidate
        } else if same_text(value, "client_admin") {
            Role::Admin
        } else {
            Role::Unknown
        }
    }
}

/// Reads the value of the roles header.
pub fn parse_roles(value: &str) -> (roles: Vec<Role>)
    ensures
        roles@ == roles_of(value@),
{
    let chars = chars_of(value);
    let mut roles: Vec<Role> = Vec::new();
    let mut start: usize = 0;
    let mut i: usize = 0;
    let ghost mut done: Seq<Seq<char>> = Seq::empty();
    assert(value@.take(0) =~= Seq::<char>::empty());
    assert(value@.subrange(0, 0) =~= Seq::<char>::empty());
    assert(Seq::<Seq<char>>::empty().push(Seq::<char>::empty()) =~= seq![Seq::<char>::empty()]);
    while i < chars.len()
        invariant
            chars@ == value@,
            start <= i <= chars.len(),
            roles@ == done.map_values(|token: Seq<char>| role_of(token)),
            split_commas(value@.take(i as int)) == done.push(
                value@.subrange(start as int, i as int),
            ),
        decreases chars.len() - i,
    {
        proof {
            lemma_split_commas_step(value@, done, start as int, i as int);
        }
        if chars[i] == ',' {
            let token = value.substring_char(start, i);
            roles.push(Role::from(token));
            proof {
                let piece = value@.subrange(start as int, i as int);
                assert(done.push(piece).map_values(|token: Seq<char>| role_of(token))
                    =~= done.map_values(|token: Seq<char>| role_of(token)).push(role_of(piece)));
                done = done.push(piece);
            }
            start = i + 1;
        }
        i = i + 1;
    }
    let token = value.substring_char(start, i);
    roles.push(Role::from(token));
    proof {
        let piece = value@.subrange(start as int, i as int);
        assert(value@.take(i as int) =~= value@);
        assert(done.push(piece).map_values(|token: Seq<char>| role_of(token))
            =~= done.map_values(|token: Seq<char>| role_of(token)).push(role_of(piece)));
    }
    roles
}

/// The three gateway headers as they arrived: the text of each one that is
/// present. A value that is not readable text arrives as the empty text.
pub struct GatewayHeaders {
    pub user_id: Option<String>,
    pub user_roles: Option<String>,
    pub request_id: Option<String>,
}

/// What `GatewayHeaders` holds, as plain text.
pub struct GatewayHeadersView {
    pub user_id: Option<Seq<char>>,
    pub user_roles: Option<Seq<char>>,
    pub request_id: Option<Seq<char>>,
}

/// The text of an optional header value.
pub open spec fn text_of(value: Option<String>) -> Option<Seq<char>> {
    match value {
        Some(text) => Some(text@),
        None => None,
    }
}

impl View for GatewayHeaders {
    type V = GatewayHeadersView;

    open spec fn view(&self) -> GatewayHeadersView {
        GatewayHeadersView {
            user_id: text_of(self.user_id),
            user_roles: text_of(self.user_roles),
            request_id: text_of(self.request_id),
        }
    }
}

/// The identity of the caller of one request. It is built once, from the
/// gateway headers, and only read afterwards.
#[derive(Debug)]
pub struct AuthHeaders {
    pub user_id: u128,
    pub roles: Vec<Role>,
    pub request_id: u128,
}

/// What `AuthHeaders` holds.
pub struct Identity {
    pub user_id: u128,
    pub roles: Seq<Role>,
    pub request_id: u128,
}

impl View for AuthHeaders {
    type V = Identity;

    open spec fn view(&self) -> Identity {
        Identity { user_id: self.user_id, roles: self.roles@, request_id: self.request_id }
    }
}

/// How one identifier header was found.
#[derive(Clone, Copy, Debug, PartialEq, Eq, Structural)]
pub enum IdHeader {
    Missing,
    Malformed,
    Parsed(u128),
}

/// How an identifier header with the given value is found.
pub open spec fn id_header_of(value: Option<Seq<char>>) -> IdHeader {
    match value {
        None => IdHeader::Missing,
        Some(text) => match uuid_of_text(text) {
            Some(id) => IdHeader::Parsed(id),
            None => IdHeader::Malformed,
        },
    }
}

/// The identity that three headers give once each has been read, or the
/// reason why they give none. An absent header is reported before a
/// malformed one, whichever header it is; among several of one kind the
/// first in the order user id, roles, request id is reported.
pub open spec fn identity_of(
    user_id: IdHeader,
    roles: Option<Seq<Role>>,
    request_id: IdHeader,
) -> Result<Identity, AppError> {
    if user_id == IdHeader::Missing {
        Err(AppError(ErrorKind::MissingHeader(Header::UserId)))
    } else if roles is None {
        Err(AppError(ErrorKind::MissingHeader(Header::UserRoles)))
    } else if request_id == IdHeader::Missing {
        Err(AppError(ErrorKind::MissingHeader(Header::RequestId)))
    } else if user_id == IdHeader::Malformed {
        Err(AppError(ErrorKind::MalformedHeader(Header::UserId)))
    } else if request_id == IdHeader::Malformed {
        Err(AppError(ErrorKind::MalformedHeader(Header::RequestId)))
    } else {
        Ok(Identity { user_id: user_id->Parsed_0, roles: roles->Some_0, request_id: request_id->Parsed_0 })
    }
}

/// The roles that an optional value of the roles header lists.
pub open spec fn listed_roles(value: Option<Seq<char>>) -> Option<Seq<Role>> {
    match value {
        Some(text) => Some(roles_of(text)),
        None => None,
    }
}

/// The identity that a set of gateway headers gives, or the reason why it
/// gives none.
pub open spec fn extraction(headers: GatewayHeadersView) -> Result<Identity, AppError> {
    identity_of(
        id_header_of(headers.user_id),
        listed_roles(headers.user_roles),
        id_header_of(headers.request_id),
    )
}

/// Whether an outcome of the extractor is the one that `expected` describes.
pub open spec fn extracted(
    outcome: Result<AuthHeaders, AppError>,
    expected: Result<Identity, AppError>,
) -> bool {
    match outcome {
        Ok(identity) => expected == Ok::<Identity, AppError>(identity@),
        Err(error) => expected == Err::<Identity, AppError>(error),
    }
}

/// Reads one identifier header.
pub fn read_id_header(value: &Option<String>) -> (found: IdHeader)
    ensures
        found == id_header_of(text_of(*value)),
{
    match value {
        None => IdHeader::Missing,
        Some(text) => match parse_uuid(text.as_str()) {
            Some(id) => IdHeader::Parsed(id),
            None => IdHeader::Malformed,
        },
    }
}

impl AuthHeaders {
    /// Puts an identity together from the three headers once each has been
    /// read.
    pub fn assemble(user_id: IdHeader, roles: Option<Vec<Role>>, request_id: IdHeader) -> (outcome:
        Result<AuthHeaders, AppError>)
        ensures
            extracted(
                outcome,
                identity_of(
                    user_id,
                    match roles {
                        Some(list) => Some(list@),
                        None => None,
                    },
                    request_id,
                ),
            ),
    {
        let user = match user_id {
            IdHeader::Missing => {
                return Err(AppError(ErrorKind::MissingHeader(Header::UserId)));
            },
            other => other,
        };
        let roles = match roles {
            None => {
                return Err(AppError(ErrorKind::MissingHeader(Header::UserRoles)));
            },
            Some(list) => list,
        };
        let request = match request_id {
            IdHeader::Missing => {
                return Err(AppError(ErrorKind::MissingHeader(Header::RequestId)));
            },
            other => other,
        };
        match (user, request) {
            (IdHeader::Parsed(user_id), IdHeader::Parsed(request_id)) => Ok(
                AuthHeaders { user_id, roles, request_id },
            ),
            (IdHeader::Parsed(_), _) => Err(AppError(ErrorKind::MalformedHeader(Header::RequestId))),
            _ => Err(AppError(ErrorKind::MalformedHeader(Header::UserId))),
        }
    }

    /// Builds the caller's identity from the gateway headers.
    pub fn from_request_parts(headers: &GatewayHeaders) -> (outcome: Result<AuthHeaders, AppError>)
        ensures
            extracted(outcome, extraction(headers@)),
    {
        let user_id = read_id_header(&headers.user_id);
        let roles = match &headers.user_roles {
            Some(value) => Some(parse_roles(value.as_str())),
            None => None,
        };
        let request_id = read_id_header(&headers.request_id);
        AuthHeaders::assemble(user_id, roles, request_id)
    }

    /// Whether the caller holds `role`.
    pub fn has_role(&self, role: Role) -> (held: bool)
        ensures
            held == self@.roles.contains(role),
    {
        let mut i: usize = 0;
        while i < self.roles.len()
            invariant
                i <= self.roles.len(),
                forall|j: int| 0 <= j < i ==> self.roles@[j] != role,
            decreases self.roles.len() - i,
        {
            if self.roles[i] == role {
                return true;
            }
            i = i + 1;
        }
        false
    }
}

} // verus!
