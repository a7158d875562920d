//! Who a request comes from: the user and AI grant headers, the admin
//! bearer token, and the request id.

use vstd::prelude::*;

use super::failure::{
    failure_is, invalid_input, unauthorized, error_response, ApiFailure, STATUS_BAD_REQUEST,
    STATUS_FORBIDDEN, STATUS_UNAUTHORIZED,
};
use crate::ai_agent::sanitize::{find_first, first_occurrence};
use crate::error_code::ErrorCode;
use crate::ids::{is_random_id, new_request_id, uuid_text, AiAuthorizationId, UserId};
use crate::text::{chars_of, copy_str, str_equal, string_of_range, occurs_at, starts_with_seq};

verus! {

/// The user a request acts for when it names none.
pub const DEFAULT_TEST_USER_ID: u128 = 0x1111_1111_1111_4111_8111_1111_1111_1111;

/// A request header: absent, present but not visible ASCII, or its text.
#[derive(Debug, PartialEq, Eq)]
pub enum HeaderText {
    Missing,
    Unreadable,
    Text(String),
}

/// What `uuid::Uuid::parse_str` gives for a text, as a 128-bit value.
pub uninterp spec fn parsed_uuid(text: Seq<char>) -> Option<u128>;

/// `uuid::Uuid::parse_str`, as a 128-bit value; none when the text is no
/// identifier. The claim beyond the name: the hyphenated lower-case text of
/// an identifier, as `Uuid`'s `Display` writes it, parses back to it.
#[verifier::external_body]
fn parse_uuid(text: &str) -> (r: Option<u128>)
    ensures
        r == parsed_uuid(text@),
        forall|v: u128| text@ == #[trigger] uuid_text(v) ==> r == Some(v),
{
    match uuid::Uuid::parse_str(text) {
        Ok(id) => Some(id.as_u128()),
        Err(_) => None,
    }
}

/// The identifier that a header names, if it holds one.
pub open spec fn header_uuid(header: HeaderText) -> Option<u128> {
    match header {
        HeaderText::Text(t) => parsed_uuid(t@),
        _ => None,
    }
}

/// The user of a request: the `X-User-Id` header's identifier, or the
/// default user when the header is absent; a header that is no identifier
/// is refused.
pub fn actor_user_id(header: &HeaderText, request_id: u128) -> (r: Result<UserId, ApiFailure>)
    ensures
        *header is Missing ==> r == Ok::<UserId, ApiFailure>(UserId { value: DEFAULT_TEST_USER_ID }),
        !(*header is Missing) ==> match header_uuid(*header) {
            Some(v) => r == Ok::<UserId, ApiFailure>(UserId { value: v }),
            None => r matches Err(f) && failure_is(
                f,
                STATUS_BAD_REQUEST,
                ErrorCode::InvalidInput,
                "X-User-Id must be a UUID"@,
                request_id,
            ),
        },
{
    match header {
        HeaderText::Missing => Ok(UserId::from_u128(DEFAULT_TEST_USER_ID)),
        HeaderText::Unreadable => Err(invalid_input(request_id, "X-User-Id must be a UUID")),
        HeaderText::Text(value) => match parse_uuid(value.as_str()) {
            Some(v) => Ok(UserId::from_u128(v)),
            None => Err(invalid_input(request_id, "X-User-Id must be a UUID")),
        },
    }
}

/// The AI grant of a request, from its `X-Ai-Authorization-Id` header, which
/// is required.
pub fn ai_authorization_id(header: &HeaderText, request_id: u128) -> (r: Result<
    AiAuthorizationId,
    ApiFailure,
>)
    ensures
        *header is Missing ==> (r matches Err(f) && failure_is(
            f,
            STATUS_UNAUTHORIZED,
            ErrorCode::Unauthorized,
            "X-Ai-Authorization-Id is required"@,
            request_id,
        )),
        !(*header is Missing) ==> match header_uuid(*header) {
            Some(v) => r == Ok::<AiAuthorizationId, ApiFailure>(AiAuthorizationId { value: v }),
            None => r matches Err(f) && failure_is(
                f,
                STATUS_BAD_REQUEST,
                ErrorCode::InvalidInput,
                "X-Ai-Authorization-Id must be a UUID"@,
                request_id,
            ),
        },
{
    match header {
        HeaderText::Missing => Err(
            error_response(
                STATUS_UNAUTHORIZED,
                ErrorCode::Unauthorized,
                copy_str("X-Ai-Authorization-Id is required"),
                request_id,
            ),
        ),
        HeaderText::Unreadable => Err(
            invalid_input(request_id, "X-Ai-Authorization-Id must be a UUID"),
        ),
        HeaderText::Text(value) => match parse_uuid(value.as_str()) {
            Some(v) => Ok(AiAuthorizationId::from_u128(v)),
            None => Err(invalid_input(request_id, "X-Ai-Authorization-Id must be a UUID")),
        },
    }
}

/// The id of a request: the `X-Request-Id` header's identifier, or a fresh
/// random one when the header is absent or holds none.
pub fn request_id_from_header(header: &HeaderText) -> (r: u128)
    ensures
        header_uuid(*header) matches Some(v) ==> r == v,
        header_uuid(*header) is None ==> is_random_id(r),
{
    match header {
        HeaderText::Text(value) => match parse_uuid(value.as_str()) {
            Some(v) => v,
            None => new_request_id(),
        },
        _ => new_request_id(),
    }
}

#[derive(Clone, Copy, Debug, PartialEq, Eq, Structural)]
pub enum ActorRole {
    Admin,
    User,
}

/// A caller identified by a bearer token.
#[derive(Clone, Copy, Debug, PartialEq, Eq, Structural)]
pub struct AuthenticatedActor {
    pub user_id: UserId,
    pub role: ActorRole,
}

/// The role and the user text of a `Bearer <role>/<user>` token, split at
/// the first slash.
pub open spec fn bearer_parts(value: Seq<char>) -> Option<(Seq<char>, Seq<char>)> {
    if !starts_with_seq(value, "Bearer "@) {
        None
    } else {
        let token = value.subrange(7, value.len() as int);
        let k = first_occurrence(token, "/"@);
        if k < 0 {
            None
        } else {
            Some((token.take(k), token.subrange(k + 1, token.len() as int)))
        }
    }
}

pub open spec fn role_named(name: Seq<char>) -> Option<ActorRole> {
    if name == "admin"@ {
        Some(ActorRole::Admin)
    } else if name == "user"@ {
        Some(ActorRole::User)
    } else {
        None
    }
}

/// The caller that an `Authorization` header names, if it is a bearer token
/// of a known role and a user identifier.
pub open spec fn actor_of(header: HeaderText) -> Option<AuthenticatedActor> {
    match header {
        HeaderText::Text(t) => match bearer_parts(t@) {
            Some((role, user)) => match (role_named(role), parsed_uuid(user)) {
                (Some(role), Some(id)) => Some(AuthenticatedActor { user_id: UserId { value: id }, role }),
                _ => None,
            },
            None => None,
        },
        _ => None,
    }
}

/// The caller of a request from its `Authorization: Bearer <role>/<user>`
/// header; anything else is unauthorized.
pub fn require_actor(header: &HeaderText, request_id: u128) -> (r: Result<AuthenticatedActor, ApiFailure>)
    ensures
        match actor_of(*header) {
            Some(actor) => r == Ok::<AuthenticatedActor, ApiFailure>(actor),
            None => r matches Err(f) && failure_is(
                f,
                STATUS_UNAUTHORIZED,
                ErrorCode::Unauthorized,
                "authentication is required"@,
                request_id,
            ),
        },
{
    match header {
        HeaderText::Text(value) => bearer_actor(value, request_id),
        _ => Err(unauthorized(request_id)),
    }
}

/// The caller that a bearer token text names, as `require_actor` reads it.
fn bearer_actor(value: &String, request_id: u128) -> (r: Result<AuthenticatedActor, ApiFailure>)
    ensures
        match actor_of(HeaderText::Text(*value)) {
            Some(actor) => r == Ok::<AuthenticatedActor, ApiFailure>(actor),
            None => r matches Err(f) && failure_is(
                f,
                STATUS_UNAUTHORIZED,
                ErrorCode::Unauthorized,
                "authentication is required"@,
                request_id,
            ),
        },
{
    let chars = chars_of(value.as_str());
    let prefix = chars_of("Bearer ");
    proof {
        reveal_strlit("Bearer ");
    }
    assert(prefix@.len() == 7);
    if chars.len() < 7 {
        return Err(unauthorized(request_id));
    }
    let mut i: usize = 0;
    while i < 7
        invariant
            chars@ == value@,
            prefix@ == "Bearer "@,
            prefix@.len() == 7,
            7 <= chars@.len(),
            i <= 7,
            forall|k: int| 0 <= k < i ==> chars@[k] == prefix@[k],
        decreases 7 - i,
    {
        if chars[i] != prefix[i] {
            assert(chars@.subrange(0, 7)[i as int] != prefix@[i as int]);
            assert(!occurs_at(chars@, "Bearer "@, 0));
            return Err(unauthorized(request_id));
        }
        i = i + 1;
    }
    assert(chars@.subrange(0, 7) =~= "Bearer "@);
    let mut token: Vec<char> = Vec::new();
    let mut j: usize = 7;
    while j < chars.len()
        invariant
            7 <= j <= chars@.len(),
            token@ == chars@.subrange(7, j as int),
        decreases chars@.len() - j,
    {
        token.push(chars[j]);
        j = j + 1;
        assert(token@ =~= chars@.subrange(7, j as int));
    }
    let slash = chars_of("/");
    let at = match find_first(&token, &slash) {
        Some(at) => at,
        None => return Err(unauthorized(request_id)),
    };
    proof {
        reveal_strlit("/");
        lemma_occurrence_in_bounds(token@, "/"@, at as int);
    }
    let role_text = string_of_range(&token, 0, at);
    let user_text = string_of_range(&token, at + 1, token.len());
    assert(role_text@ =~= token@.take(at as int));
    let user = match parse_uuid(user_text.as_str()) {
        Some(v) => UserId::from_u128(v),
        None => return Err(unauthorized(request_id)),
    };
    proof {
        reveal_strlit("admin");
        reveal_strlit("user");
    }
    let role = if str_equal(role_text.as_str(), "admin") {
        ActorRole::Admin
    } else if str_equal(role_text.as_str(), "user") {
        ActorRole::User
    } else {
        return Err(unauthorized(request_id));
    };
    Ok(AuthenticatedActor { user_id: user, role })
}

proof fn lemma_occurrence_in_bounds(hay: Seq<char>, needle: Seq<char>, k: int)
    requires
        k == first_occurrence(hay, needle),
        k >= 0,
        needle.len() == 1,
    ensures
        k + 1 <= hay.len(),
{
    crate::ai_agent::sanitize::lemma_first_occurrence_from(hay, needle, 0);
}

/// The caller of a request, who must be an admin.
pub fn require_admin(header: &HeaderText, request_id: u128) -> (r: Result<AuthenticatedActor, ApiFailure>)
    ensures
        match actor_of(*header) {
            Some(actor) => if actor.role == ActorRole::Admin {
                r == Ok::<AuthenticatedActor, ApiFailure>(actor)
            } else {
                r matches Err(f) && failure_is(
                    f,
                    STATUS_FORBIDDEN,
                    ErrorCode::Forbidden,
                    "admin authorization is required"@,
                    request_id,
                )
            },
            None => r matches Err(f) && failure_is(
                f,
                STATUS_UNAUTHORIZED,
                ErrorCode::Unauthorized,
                "authentication is required"@,
                request_id,
            ),
        },
{
    let actor = require_actor(header, request_id)?;
    if actor.role != ActorRole::Admin {
        return Err(
            error_response(
                STATUS_FORBIDDEN,
                ErrorCode::Forbidden,
                copy_str("admin authorization is required"),
                request_id,
            ),
        );
    }
    Ok(actor)
}

} // verus!
