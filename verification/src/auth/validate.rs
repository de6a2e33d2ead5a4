//! Authentication of a request from its authorization header, and the role
//! checks built on it.

use crate::auth::error::AuthenticationError;
use crate::auth::header::{credential_of, credential_of_header, header_bytes};
use crate::auth::resolution::{
    queue_after, resolved, Answers, Outcome, RemoteProfile, Reply, Resolution,
};
use crate::auth::scheme::{
    is_first_delimiter, scheme_of, scheme_of_tag, AuthProvider, Scheme,
};
use crate::auth::session::{Session, SessionMetadata};
use crate::models::users::{Role, User, UserRecord};
use crate::queue::session::SessionQueue;
use vstd::prelude::*;

verus! {

/// The user that an outcome stands for. A session or a link that points at
/// no stored user is a refusal like any other.
pub open spec fn user_of(outcome: Outcome) -> Result<User, AuthenticationError> {
    match outcome {
        Ok(Some(record)) => Ok(User::of_record(record)),
        Ok(None) => Err(AuthenticationError::InvalidCredentials),
        Err(error) => Err(error),
    }
}

/// `answers` holds what the four lookups returned in the course of an
/// authentication by `token`: each lookup was asked what the scheme of the
/// token calls for, and only where the answers before it left the question
/// open.
pub open spec fn answers_given<S, P, M, U>(
    token: &str,
    answers: Answers,
    session_by_token: S,
    provider_user: P,
    local_user_id: M,
    user_by_id: U,
) -> bool where
    S: Fn(&str) -> Option<Session>,
    P: Fn(AuthProvider, &str) -> Result<RemoteProfile, AuthenticationError>,
    M: Fn(AuthProvider, &str) -> Result<Option<i64>, AuthenticationError>,
    U: Fn(i64) -> Option<UserRecord>,
 {
    match scheme_of(token@) {
        None => true,
        Some(Scheme::Session) => {
            &&& session_by_token.ensures((token,), answers.session)
            &&& answers.session matches Some(session) ==> (session.valid_at(answers.received)
                ==> user_by_id.ensures((session.user_id,), answers.user))
        },
        Some(Scheme::Provider(provider)) => {
            &&& provider_user.ensures((provider, token), answers.profile)
            &&& answers.profile matches Ok(profile) ==> {
                &&& exists|remote_id: &str|
                    remote_id@ == profile.id@ && #[trigger] local_user_id.ensures(
                        (provider, remote_id),
                        answers.local_id,
                    )
                &&& answers.local_id matches Ok(Some(user_id)) ==> user_by_id.ensures(
                    (user_id,),
                    answers.user,
                )
            }
        },
    }
}

/// The whole of what authenticating a request does: `user` is the result
/// and `after` the queue of used sessions that it leaves, for a request with
/// this header, lookups that answered as `answers_given` says, and the queue
/// `before`.
///
/// A request without the header, or with one that is not text, is refused
/// before any lookup is asked, and the queue stays as it was.
pub open spec fn header_authenticates<S, P, M, U>(
    header: Option<&[u8]>,
    user: Result<User, AuthenticationError>,
    before: Map<i64, SessionMetadata>,
    after: Map<i64, SessionMetadata>,
    metadata: SessionMetadata,
    session_by_token: S,
    provider_user: P,
    local_user_id: M,
    user_by_id: U,
) -> bool where
    S: Fn(&str) -> Option<Session>,
    P: Fn(AuthProvider, &str) -> Result<RemoteProfile, AuthenticationError>,
    M: Fn(AuthProvider, &str) -> Result<Option<i64>, AuthenticationError>,
    U: Fn(i64) -> Option<UserRecord>,
 {
    match credential_of(header_bytes(header)) {
        Err(error) => user == Err::<User, AuthenticationError>(error) && after == before,
        Ok(text) => exists|token: &str, answers: Answers|
            {
                &&& token@ == text
                &&& #[trigger] answers_given(
                    token,
                    answers,
                    session_by_token,
                    provider_user,
                    local_user_id,
                    user_by_id,
                )
                &&& user == user_of(resolved(text, answers).outcome())
                &&& after == queue_after(before, resolved(text, answers).touched(), metadata)
            },
    }
}

/// What the role check makes of an authentication: a user of a sufficient
/// role passes unchanged, a lesser one is refused as invalid credentials,
/// and a refusal stays what it was.
pub open spec fn checked_role(
    user: Result<User, AuthenticationError>,
    minimum: Role,
) -> Result<User, AuthenticationError> {
    match user {
        Ok(user) => if user.role.at_least(minimum) {
            Ok(user)
        } else {
            Err(AuthenticationError::InvalidCredentials)
        },
        Err(error) => Err(error),
    }
}

/// Turns the outcome of an authentication into the user it stands for.
pub fn authenticated_user(outcome: Outcome) -> (user: Result<User, AuthenticationError>)
    ensures
        user == user_of(outcome),
{
    match outcome {
        Ok(Some(record)) => Ok(User::from_record(record)),
        Ok(None) => Err(AuthenticationError::InvalidCredentials),
        Err(error) => Err(error),
    }
}

/// Lets a user pass whose role grants at least what `minimum` grants. A
/// lesser role is refused in the same words as a failed authentication, so
/// that the refusal tells nothing of what lies behind the check.
pub fn require_role_at_least(user: User, minimum: Role) -> (checked: Result<
    User,
    AuthenticationError,
>)
    ensures
        checked == checked_role(Ok(user), minimum),
        user.role.at_least(minimum) ==> checked == Ok::<User, AuthenticationError>(user),
        !user.role.at_least(minimum) ==> checked == Err::<User, AuthenticationError>(
            AuthenticationError::InvalidCredentials,
        ),
{
    if user.role.is_at_least(minimum) {
        Ok(user)
    } else {
        Err(AuthenticationError::InvalidCredentials)
    }
}

/// Authenticates a bearer token to the stored record of its user.
///
/// The token's tag chooses the scheme. The lookups are asked in the order
/// that the scheme calls for, each with what the answers before it gave, and
/// none once the outcome is settled. Where a session was used, `queue`
/// notes it with `metadata`.
pub fn get_user_record_from_bearer_token<S, P, M, U>(
    token: &str,
    session_by_token: S,
    provider_user: P,
    local_user_id: M,
    user_by_id: U,
    metadata: SessionMetadata,
    queue: &mut SessionQueue,
) -> (outcome: Outcome) where
    S: Fn(&str) -> Option<Session>,
    P: Fn(AuthProvider, &str) -> Result<RemoteProfile, AuthenticationError>,
    M: Fn(AuthProvider, &str) -> Result<Option<i64>, AuthenticationError>,
    U: Fn(i64) -> Option<UserRecord>,

    requires
        forall|t: &str| session_by_token.requires((t,)),
        forall|p: AuthProvider, t: &str| provider_user.requires((p, t)),
        forall|p: AuthProvider, r: &str| local_user_id.requires((p, r)),
        forall|id: i64| user_by_id.requires((id,)),
    ensures
        scheme_of(token@) is None ==> outcome == Err::<Option<UserRecord>, AuthenticationError>(
            AuthenticationError::InvalidAuthMethod,
        ) && final(queue)@ == old(queue)@,
        exists|answers: Answers|
            {
                &&& answers_given(
                    token,
                    answers,
                    session_by_token,
                    provider_user,
                    local_user_id,
                    user_by_id,
                )
                &&& outcome == (#[trigger] resolved(token@, answers)).outcome()
                &&& final(queue)@ == queue_after(
                    old(queue)@,
                    resolved(token@, answers).touched(),
                    metadata,
                )
            },
{
    let state = Resolution::begin(token);
    match state {
        Resolution::AwaitSession { token: _ } => {
            let found = session_by_token(token);
            let reply = Reply::session_now(found);
            let ghost received = reply->at;
            let state = state.advance(reply);
            match state {
                Resolution::AwaitUser { user_id, session: _ } => {
                    let user = user_by_id(user_id);
                    let state = state.advance(Reply::User(user));
                    proof {
                        let answers = Answers {
                            session: found,
                            received,
                            profile: arbitrary(),
                            local_id: arbitrary(),
                            user,
                        };
                        assert(state == resolved(token@, answers));
                    }
                    state.finish(metadata, queue)
                },
                _ => {
                    proof {
                        let answers = Answers {
                            session: found,
                            received,
                            profile: arbitrary(),
                            local_id: arbitrary(),
                            user: arbitrary(),
                        };
                        assert(state == resolved(token@, answers));
                    }
                    state.finish(metadata, queue)
                },
            }
        },
        Resolution::AwaitProfile { provider, token: _ } => {
            let verdict = provider_user(provider, token);
            let state = state.advance(Reply::Profile(verdict));
            match state {
                Resolution::AwaitLocalId { provider, ref remote_id } => {
                    let link = local_user_id(provider, remote_id.as_str());
                    let state = state.advance(Reply::LocalId(link));
                    match state {
                        Resolution::AwaitUser { user_id, session: _ } => {
                            let user = user_by_id(user_id);
                            let state = state.advance(Reply::User(user));
                            proof {
                                let answers = Answers {
                                    session: arbitrary(),
                                    received: arbitrary(),
                                    profile: verdict,
                                    local_id: link,
                                    user,
                                };
                                assert(state == resolved(token@, answers));
                            }
                            state.finish(metadata, queue)
                        },
                        _ => {
                            proof {
                                let answers = Answers {
                                    session: arbitrary(),
                                    received: arbitrary(),
                                    profile: verdict,
                                    local_id: link,
                                    user: arbitrary(),
                                };
                                assert(state == resolved(token@, answers));
                            }
                            state.finish(metadata, queue)
                        },
                    }
                },
                _ => {
                    proof {
                        let answers = Answers {
                            session: arbitrary(),
                            received: arbitrary(),
                            profile: verdict,
                            local_id: arbitrary(),
                            user: arbitrary(),
                        };
                        assert(state == resolved(token@, answers));
                    }
                    state.finish(metadata, queue)
                },
            }
        },
        _ => {
            proof {
                let answers = Answers {
                    session: arbitrary(),
                    received: arbitrary(),
                    profile: arbitrary(),
                    local_id: arbitrary(),
                    user: arbitrary(),
                };
                assert(state == resolved(token@, answers));
            }
            state.finish(metadata, queue)
        },
    }
}

/// Authenticates a request by its authorization header to the user who sent
/// it.
///
/// A request without the header has chosen no method; a header that is not
/// text, a token that does not hold up and a token whose user is not stored
/// are invalid credentials. The user is assembled from the stored record in
/// the same way whatever the scheme of the token.
pub fn get_user_from_headers<S, P, M, U>(
    header: Option<&[u8]>,
    session_by_token: S,
    provider_user: P,
    local_user_id: M,
    user_by_id: U,
    metadata: SessionMetadata,
    queue: &mut SessionQueue,
) -> (user: Result<User, AuthenticationError>) where
    S: Fn(&str) -> Option<Session>,
    P: Fn(AuthProvider, &str) -> Result<RemoteProfile, AuthenticationError>,
    M: Fn(AuthProvider, &str) -> Result<Option<i64>, AuthenticationError>,
    U: Fn(i64) -> Option<UserRecord>,

    requires
        forall|t: &str| session_by_token.requires((t,)),
        forall|p: AuthProvider, t: &str| provider_user.requires((p, t)),
        forall|p: AuthProvider, r: &str| local_user_id.requires((p, r)),
        forall|id: i64| user_by_id.requires((id,)),
    ensures
        header is None ==> user == Err::<User, AuthenticationError>(
            AuthenticationError::InvalidAuthMethod,
        ),
        header_authenticates(
            header,
            user,
            old(queue)@,
            final(queue)@,
            metadata,
            session_by_token,
            provider_user,
            local_user_id,
            user_by_id,
        ),
{
    match credential_of_header(header) {
        Err(error) => Err(error),
        Ok(token) => {
            let outcome = get_user_record_from_bearer_token(
                token.as_str(),
                session_by_token,
                provider_user,
                local_user_id,
                user_by_id,
                metadata,
                queue,
            );
            authenticated_user(outcome)
        },
    }
}

/// Authenticates a request as `get_user_from_headers` does, and lets the
/// user pass only if they are a moderator or more.
pub fn check_is_moderator_from_headers<S, P, M, U>(
    header: Option<&[u8]>,
    session_by_token: S,
    provider_user: P,
    local_user_id: M,
    user_by_id: U,
    metadata: SessionMetadata,
    queue: &mut SessionQueue,
) -> (checked: Result<User, AuthenticationError>) where
    S: Fn(&str) -> Option<Session>,
    P: Fn(AuthProvider, &str) -> Result<RemoteProfile, AuthenticationError>,
    M: Fn(AuthProvider, &str) -> Result<Option<i64>, AuthenticationError>,
    U: Fn(i64) -> Option<UserRecord>,

    requires
        forall|t: &str| session_by_token.requires((t,)),
        forall|p: AuthProvider, t: &str| provider_user.requires((p, t)),
        forall|p: AuthProvider, r: &str| local_user_id.requires((p, r)),
        forall|id: i64| user_by_id.requires((id,)),
    ensures
        header is None ==> checked == Err::<User, AuthenticationError>(
            AuthenticationError::InvalidAuthMethod,
        ),
        exists|user: Result<User, AuthenticationError>|
            {
                &&& #[trigger] header_authenticates(
                    header,
                    user,
                    old(queue)@,
                    final(queue)@,
                    metadata,
                    session_by_token,
                    provider_user,
                    local_user_id,
                    user_by_id,
                )
                &&& checked == checked_role(user, Role::Moderator)
            },
{
    let user = get_user_from_headers(
        header,
        session_by_token,
        provider_user,
        local_user_id,
        user_by_id,
        metadata,
        queue,
    );
    match user {
        Ok(user) => require_role_at_least(user, Role::Moderator),
        Err(error) => Err(error),
    }
}

/// A token without a delimiter, and one whose tag is not registered, are
/// refused as no method at all, whatever the stores hold.
pub proof fn lemma_unregistered_tag_is_no_method(token: Seq<char>, answers: Answers)
    requires
        forall|k: int| is_first_delimiter(token, k) ==> scheme_of_tag(token.subrange(0, k)) is None,
    ensures
        resolved(token, answers) == Resolution::refused(AuthenticationError::InvalidAuthMethod),
        user_of(resolved(token, answers).outcome()) == Err::<User, AuthenticationError>(
            AuthenticationError::InvalidAuthMethod,
        ),
{
}

/// An authentication is refused as no method exactly when the token claims
/// no registered scheme: every failure after that is invalid credentials.
pub proof fn lemma_no_method_only_without_scheme(token: Seq<char>, answers: Answers)
    ensures
        user_of(resolved(token, answers).outcome()) == Err::<User, AuthenticationError>(
            AuthenticationError::InvalidAuthMethod,
        ) <==> scheme_of(token) is None,
{
}

/// A session that has run out is refused like one that is not stored: no
/// user is returned and the session is not noted as used.
pub proof fn lemma_expired_session_is_refused(token: Seq<char>, answers: Answers)
    requires
        scheme_of(token) == Some(Scheme::Session),
        answers.session matches Some(session) && session.expires.at_or_before(answers.received),
    ensures
        resolved(token, answers) == Resolution::refused(AuthenticationError::InvalidCredentials),
        user_of(resolved(token, answers).outcome()) == Err::<User, AuthenticationError>(
            AuthenticationError::InvalidCredentials,
        ),
        resolved(token, answers).touched() is None,
{
}

/// A valid session whose user is not stored is refused as invalid
/// credentials.
pub proof fn lemma_session_without_user_is_refused(token: Seq<char>, answers: Answers)
    requires
        scheme_of(token) == Some(Scheme::Session),
        answers.session matches Some(session) && session.valid_at(answers.received),
        answers.user is None,
    ensures
        user_of(resolved(token, answers).outcome()) == Err::<User, AuthenticationError>(
            AuthenticationError::InvalidCredentials,
        ),
{
}

/// A valid session whose user is stored authenticates that user: the user
/// returned is assembled from the stored record and bears the id that the
/// session names, and the session is noted as used, once, with the metadata
/// of this request.
pub proof fn lemma_valid_session_authenticates(
    token: Seq<char>,
    answers: Answers,
    before: Map<i64, SessionMetadata>,
    metadata: SessionMetadata,
)
    requires
        scheme_of(token) == Some(Scheme::Session),
        answers.session matches Some(session) && session.valid_at(answers.received),
        answers.user matches Some(record) && record.id == answers.session->0.user_id,
    ensures
        user_of(resolved(token, answers).outcome()) == Ok::<User, AuthenticationError>(
            User::of_record(answers.user->0),
        ),
        user_of(resolved(token, answers).outcome())->Ok_0.id == answers.session->0.user_id,
        resolved(token, answers).touched() == Some(answers.session->0.id),
        queue_after(before, resolved(token, answers).touched(), metadata) == before.insert(
            answers.session->0.id,
            metadata,
        ),
        queue_after(before, resolved(token, answers).touched(), metadata)[answers.session->0.id]
            == metadata,
{
}

/// Of several touches of one session only the last is kept: the queue is
/// as if the earlier ones had not been made.
pub proof fn lemma_later_touch_replaces_earlier(
    before: Map<i64, SessionMetadata>,
    touch: Option<i64>,
    earlier: SessionMetadata,
    later: SessionMetadata,
)
    ensures
        queue_after(queue_after(before, touch, earlier), touch, later) == queue_after(
            before,
            touch,
            later,
        ),
{
    if let Some(id) = touch {
        assert(before.insert(id, earlier).insert(id, later) =~= before.insert(id, later));
    }
}

/// A token that the provider does not vouch for is refused as invalid
/// credentials, and the refusal is final at once: the authentication asks
/// neither for a link nor for a user.
pub proof fn lemma_rejected_provider_token_is_refused(
    token: Seq<char>,
    answers: Answers,
    state: Resolution,
)
    requires
        scheme_of(token) matches Some(Scheme::Provider(_)),
        answers.profile is Err,
        state.begins(token),
    ensures
        resolved(token, answers) == Resolution::refused(AuthenticationError::InvalidCredentials),
        user_of(resolved(token, answers).outcome()) == Err::<User, AuthenticationError>(
            AuthenticationError::InvalidCredentials,
        ),
        state.after(Reply::Profile(answers.profile)).finished(),
        state.after(Reply::Profile(answers.profile)) == resolved(token, answers),
{
}

/// A token that the provider vouches for, of a remote user who is linked to
/// no local one, is refused as invalid credentials.
pub proof fn lemma_unlinked_remote_user_is_refused(token: Seq<char>, answers: Answers)
    requires
        scheme_of(token) matches Some(Scheme::Provider(_)),
        answers.profile is Ok,
        answers.local_id == Ok::<Option<i64>, AuthenticationError>(None),
    ensures
        resolved(token, answers) == Resolution::refused(AuthenticationError::InvalidCredentials),
        user_of(resolved(token, answers).outcome()) == Err::<User, AuthenticationError>(
            AuthenticationError::InvalidCredentials,
        ),
{
}

/// While a session is valid, authenticating by it again yields the same
/// user, field for field: the result depends on the stored session and the
/// stored user alone, not on the instant within the session's life nor on
/// anything that the provider or the link store would say.
pub proof fn lemma_repeated_authentication_agrees(
    token: Seq<char>,
    first: Answers,
    second: Answers,
)
    requires
        scheme_of(token) == Some(Scheme::Session),
        first.session matches Some(session) && session.valid_at(first.received)
            && session.valid_at(second.received),
        second.session == first.session,
        second.user == first.user,
    ensures
        user_of(resolved(token, first).outcome()) == user_of(resolved(token, second).outcome()),
        resolved(token, first).touched() == resolved(token, second).touched(),
{
}

/// The user is assembled from the stored record alone: a session token and
/// a provider token that lead to the same stored user yield the same user,
/// and nothing of the session or of the provider's profile shows in it.
pub proof fn lemma_schemes_assemble_alike(
    session_token: Seq<char>,
    by_session: Answers,
    provider_token: Seq<char>,
    by_provider: Answers,
)
    requires
        scheme_of(session_token) == Some(Scheme::Session),
        by_session.session matches Some(session) && session.valid_at(by_session.received),
        scheme_of(provider_token) matches Some(Scheme::Provider(_)),
        by_provider.profile is Ok,
        by_provider.local_id matches Ok(Some(_)),
        by_session.user == by_provider.user,
    ensures
        user_of(resolved(session_token, by_session).outcome()) == user_of(
            resolved(provider_token, by_provider).outcome(),
        ),
        user_of(resolved(session_token, by_session).outcome()) == user_of(Ok(by_session.user)),
{
}

} // verus!
