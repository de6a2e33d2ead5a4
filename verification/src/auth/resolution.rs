//! The course of one authentication, as a machine that is told what the
//! stores and the identity provider answered and says what to ask next.

use crate::auth::error::AuthenticationError;
use crate::auth::scheme::{scheme_of, AuthProvider, Scheme};
use crate::auth::session::{Session, SessionMetadata};
use crate::models::users::UserRecord;
use crate::queue::session::SessionQueue;
use crate::time::{utc_now, Timestamp};
use vstd::prelude::*;

verus! {

/// What an identity provider tells of the holder of a token.
#[derive(Clone, Debug, PartialEq, Eq)]
pub struct RemoteProfile {
    pub id: String,
    pub username: String,
    pub name: Option<String>,
    pub email: Option<String>,
    pub avatar_url: Option<String>,
    pub bio: Option<String>,
}

/// What the outcome of an authentication is made of: the stored record of
/// the user, if there is one, or the reason for the refusal.
pub type Outcome = Result<Option<UserRecord>, AuthenticationError>;

/// An answer of a store or of an identity provider.
#[derive(Debug, PartialEq, Eq)]
pub enum Reply {
    /// The session stored under the token, if any, and the instant at which
    /// the store's answer arrived.
    Session { found: Option<Session>, at: Timestamp },
    /// The provider's verdict on the token.
    Profile(Result<RemoteProfile, AuthenticationError>),
    /// The local user linked to the remote one, if any.
    LocalId(Result<Option<i64>, AuthenticationError>),
    /// The stored record of the user, if any.
    User(Option<UserRecord>),
}

/// What the stores and the identity provider answer in the course of one
/// authentication, each to the one question it may be asked.
pub struct Answers {
    /// The session store, asked for the session under the token.
    pub session: Option<Session>,
    /// The instant at which the session store's answer arrived.
    pub received: Timestamp,
    /// The identity provider, asked to verify the token.
    pub profile: Result<RemoteProfile, AuthenticationError>,
    /// The link store, asked for the local user of the remote one.
    pub local_id: Result<Option<i64>, AuthenticationError>,
    /// The user store, asked for the record of the user.
    pub user: Option<UserRecord>,
}

/// What an authentication leaves in the queue of used sessions: for a used
/// session the metadata of this request, replacing what waited for that
/// session before; for none, the queue as it was.
pub open spec fn queue_after(
    before: Map<i64, SessionMetadata>,
    touch: Option<i64>,
    metadata: SessionMetadata,
) -> Map<i64, SessionMetadata> {
    match touch {
        Some(id) => before.insert(id, metadata),
        None => before,
    }
}

impl Reply {
    /// The session store's answer, marked with the instant that the system
    /// clock shows as the answer is taken in.
    pub fn session_now(found: Option<Session>) -> (reply: Reply)
        ensures
            reply matches Reply::Session { found: given, at } && given == found,
    {
        Reply::Session { found, at: utc_now() }
    }
}

/// Where an authentication stands. Each unfinished state names the one
/// question whose answer it waits for.
#[derive(Debug, PartialEq, Eq)]
pub enum Resolution {
    /// Waits for the session stored under `token`.
    AwaitSession { token: String },
    /// Waits for `provider` to verify `token`.
    AwaitProfile { provider: AuthProvider, token: String },
    /// Waits for the local user linked to `remote_id` at `provider`.
    AwaitLocalId { provider: AuthProvider, remote_id: String },
    /// Waits for the stored record of `user_id`. `session` is the session
    /// that was used, where one was.
    AwaitUser { user_id: i64, session: Option<i64> },
    /// Finished with `outcome`. `touch` is the session to be noted as used.
    Done { outcome: Outcome, touch: Option<i64> },
}

impl Resolution {
    /// The state of an authentication that was refused for `error`.
    pub open spec fn refused(error: AuthenticationError) -> Resolution {
        Resolution::Done { outcome: Err(error), touch: None }
    }

    /// `self` is a state in which an authentication by `token` may begin:
    /// refused where the token claims no registered scheme, and else waiting
    /// for the first answer that the claimed scheme needs, about the whole
    /// token.
    pub open spec fn begins(self, token: Seq<char>) -> bool {
        match scheme_of(token) {
            None => self == Resolution::refused(AuthenticationError::InvalidAuthMethod),
            Some(Scheme::Session) => self matches Resolution::AwaitSession { token: asked }
                && asked@ == token,
            Some(Scheme::Provider(issuer)) => self matches Resolution::AwaitProfile {
                provider,
                token: asked,
            } && provider == issuer && asked@ == token,
        }
    }

    /// The state that follows `self` once `reply` has arrived.
    ///
    /// A missing or expired session, a token that the provider does not
    /// vouch for, and a remote user without a local one all end in the same
    /// refusal. A reply to a question that was not asked ends in it too. A
    /// finished authentication stays as it is.
    pub open spec fn after(self, reply: Reply) -> Resolution {
        match (self, reply) {
            (Resolution::Done { outcome, touch }, _) => self,
            (Resolution::AwaitSession { token }, Reply::Session { found: Some(session), at }) => {
                if session.valid_at(at) {
                    Resolution::AwaitUser { user_id: session.user_id, session: Some(session.id) }
                } else {
                    Resolution::refused(AuthenticationError::InvalidCredentials)
                }
            },
            (Resolution::AwaitProfile { provider, token }, Reply::Profile(Ok(profile))) => {
                Resolution::AwaitLocalId { provider, remote_id: profile.id }
            },
            (Resolution::AwaitLocalId { provider, remote_id }, Reply::LocalId(Ok(Some(user_id)))) => {
                Resolution::AwaitUser { user_id, session: None }
            },
            (Resolution::AwaitUser { user_id, session }, Reply::User(found)) => {
                Resolution::Done { outcome: Ok(found), touch: session }
            },
            _ => Resolution::refused(AuthenticationError::InvalidCredentials),
        }
    }

    /// No question is open: the authentication has its outcome.
    pub open spec fn finished(self) -> bool {
        self is Done
    }

    /// The outcome of the authentication. One that was broken off before
    /// its end is refused.
    pub open spec fn outcome(self) -> Outcome {
        match self {
            Resolution::Done { outcome, touch } => outcome,
            _ => Err(AuthenticationError::InvalidCredentials),
        }
    }

    /// The session that the authentication used, once it has ended.
    pub open spec fn touched(self) -> Option<i64> {
        match self {
            Resolution::Done { outcome, touch } => touch,
            _ => None,
        }
    }

    /// Begins an authentication by `token`.
    pub fn begin(token: &str) -> (state: Resolution)
        ensures
            state.begins(token@),
    {
        match Scheme::of_token(token) {
            None => Resolution::Done {
                outcome: Err(AuthenticationError::InvalidAuthMethod),
                touch: None,
            },
            Some(Scheme::Session) => Resolution::AwaitSession { token: token.to_owned() },
            Some(Scheme::Provider(provider)) => Resolution::AwaitProfile {
                provider,
                token: token.to_owned(),
            },
        }
    }

    /// Takes the authentication one answer further.
    pub fn advance(self, reply: Reply) -> (next: Resolution)
        ensures
            next == self.after(reply),
    {
        match self {
            Resolution::Done { outcome, touch } => Resolution::Done { outcome, touch },
            Resolution::AwaitSession { token } => match reply {
                Reply::Session { found: Some(session), at } => {
                    if session.is_valid_at(&at) {
                        Resolution::AwaitUser {
                            user_id: session.user_id,
                            session: Some(session.id),
                        }
                    } else {
                        Resolution::Done {
                            outcome: Err(AuthenticationError::InvalidCredentials),
                            touch: None,
                        }
                    }
                },
                _ => Resolution::Done {
                    outcome: Err(AuthenticationError::InvalidCredentials),
                    touch: None,
                },
            },
            Resolution::AwaitProfile { provider, token } => match reply {
                Reply::Profile(Ok(profile)) => Resolution::AwaitLocalId {
                    provider,
                    remote_id: profile.id,
                },
                _ => Resolution::Done {
                    outcome: Err(AuthenticationError::InvalidCredentials),
                    touch: None,
                },
            },
            Resolution::AwaitLocalId { provider, remote_id } => match reply {
                Reply::LocalId(Ok(Some(user_id))) => Resolution::AwaitUser {
                    user_id,
                    session: None,
                },
                _ => Resolution::Done {
                    outcome: Err(AuthenticationError::InvalidCredentials),
                    touch: None,
                },
            },
            Resolution::AwaitUser { user_id, session } => match reply {
                Reply::User(found) => Resolution::Done { outcome: Ok(found), touch: session },
                _ => Resolution::Done {
                    outcome: Err(AuthenticationError::InvalidCredentials),
                    touch: None,
                },
            },
        }
    }

    /// Decides whether the authentication has its outcome.
    pub fn is_finished(&self) -> (b: bool)
        ensures
            b == self.finished(),
    {
        match self {
            Resolution::Done { .. } => true,
            _ => false,
        }
    }

    /// Ends the authentication: hands out its outcome and, where a session
    /// was used, notes in `queue` that it was, with what the request told of
    /// its sender. Nothing else in the queue changes.
    pub fn finish(self, metadata: SessionMetadata, queue: &mut SessionQueue) -> (outcome: Outcome)
        ensures
            outcome == self.outcome(),
            final(queue)@ == queue_after(old(queue)@, self.touched(), metadata),
    {
        match self {
            Resolution::Done { outcome, touch } => {
                if let Some(id) = touch {
                    queue.add(id, metadata);
                }
                outcome
            },
            _ => Err(AuthenticationError::InvalidCredentials),
        }
    }
}

/// Where an authentication by `token` ends, given what the stores and the
/// identity provider answer.
///
/// A token of no registered scheme is refused as no method at all. A session
/// token succeeds with whatever the user store holds for the session's user,
/// if the session exists and has not run out, and then the session counts as
/// used. A provider token succeeds with whatever the user store holds for the
/// linked local user, if the provider vouches for the token and a link
/// exists; no session is used. Every other course is refused as invalid
/// credentials.
pub open spec fn resolved(token: Seq<char>, answers: Answers) -> Resolution {
    match scheme_of(token) {
        None => Resolution::refused(AuthenticationError::InvalidAuthMethod),
        Some(Scheme::Session) => match answers.session {
            Some(session) => if session.valid_at(answers.received) {
                Resolution::Done { outcome: Ok(answers.user), touch: Some(session.id) }
            } else {
                Resolution::refused(AuthenticationError::InvalidCredentials)
            },
            None => Resolution::refused(AuthenticationError::InvalidCredentials),
        },
        Some(Scheme::Provider(_)) => if answers.profile is Ok && answers.local_id matches Ok(
            Some(_),
        ) {
            Resolution::Done { outcome: Ok(answers.user), touch: None }
        } else {
            Resolution::refused(AuthenticationError::InvalidCredentials)
        },
    }
}

impl Resolution {
    /// The answer in `answers` to the question that `self` waits for.
    pub open spec fn answer_from(self, answers: Answers) -> Reply {
        match self {
            Resolution::AwaitSession { token } => Reply::Session {
                found: answers.session,
                at: answers.received,
            },
            Resolution::AwaitProfile { provider, token } => Reply::Profile(answers.profile),
            Resolution::AwaitLocalId { provider, remote_id } => Reply::LocalId(answers.local_id),
            _ => Reply::User(answers.user),
        }
    }

    /// The state that follows `self` once its open question is answered
    /// from `answers`.
    pub open spec fn told(self, answers: Answers) -> Resolution {
        self.after(self.answer_from(answers))
    }

    /// An upper bound on the answers that `self` still needs.
    pub open spec fn answers_needed(self) -> nat {
        match self {
            Resolution::AwaitSession { token } => 2,
            Resolution::AwaitProfile { provider, token } => 3,
            Resolution::AwaitLocalId { provider, remote_id } => 2,
            Resolution::AwaitUser { user_id, session } => 1,
            Resolution::Done { outcome, touch } => 0,
        }
    }

    /// Every reply to an unfinished authentication, whatever it says, brings
    /// the end nearer: no authentication asks without end.
    pub proof fn lemma_reply_brings_end_nearer(self, reply: Reply)
        requires
            !self.finished(),
        ensures
            self.after(reply).answers_needed() < self.answers_needed(),
    {
    }

    /// Answered faithfully, an authentication that begins with `token` is
    /// over after three answers at most, and ends where `resolved` says.
    pub proof fn lemma_ends_as_resolved(self, token: Seq<char>, answers: Answers)
        requires
            self.begins(token),
        ensures
            self.told(answers).told(answers).told(answers) == resolved(token, answers),
    {
    }
}

} // verus!
