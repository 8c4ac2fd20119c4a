//! Provisioning of a first-time visitor: an anonymous user and its first
//! session.

use vstd::prelude::*;
use vstd::std_specs::convert::FromSpecImpl;
use crate::data_type::id::{Id, IdFactory};
use crate::entity::session::{Session, SessionView};
use crate::entity::user::{
    AnonymousUser,
    AnonymousUserView,
    AuthenticatedUserView,
    UserTrait,
    UserView,
};
use crate::repository::session_repository::{
    holds,
    SessionRepositoryError,
    SessionRepositoryTrait,
};
use crate::repository::user_repository::{AnonymousUserRepositoryTrait, SavingUserError};
use crate::token::GeneratorTrait;
use crate::use_case::user_authenticates_with_token::{identity_of, resolves, AuthenticationError};

verus! {

/// Why a visitor was not provisioned.
#[derive(Debug, Clone, Copy, PartialEq, Eq, Structural)]
pub enum AnonymousRegistrationError {
    /// The user was not saved. Nothing was stored.
    SavingAnonymousError(SavingUserError),
    /// The user was saved and the session was not: the user is in the
    /// store, without a session.
    SavingSessionError(SessionRepositoryError),
}

impl AnonymousRegistrationError {
    /// The message of the error.
    pub fn to_string(&self) -> (message: String)
        ensures
            message@ == match self {
                AnonymousRegistrationError::SavingAnonymousError(_) => "Can't save anonymous"@,
                AnonymousRegistrationError::SavingSessionError(_) => "Can't save session"@,
            },
    {
        match self {
            AnonymousRegistrationError::SavingAnonymousError(_) => "Can't save anonymous".to_owned(),
            AnonymousRegistrationError::SavingSessionError(_) => "Can't save session".to_owned(),
        }
    }
}

impl From<SavingUserError> for AnonymousRegistrationError {
    fn from(cause: SavingUserError) -> (error: AnonymousRegistrationError) {
        AnonymousRegistrationError::SavingAnonymousError(cause)
    }
}

impl FromSpecImpl<SavingUserError> for AnonymousRegistrationError {
    open spec fn obeys_from_spec() -> bool {
        true
    }

    open spec fn from_spec(cause: SavingUserError) -> AnonymousRegistrationError {
        AnonymousRegistrationError::SavingAnonymousError(cause)
    }
}

impl From<SessionRepositoryError> for AnonymousRegistrationError {
    fn from(cause: SessionRepositoryError) -> (error: AnonymousRegistrationError) {
        AnonymousRegistrationError::SavingSessionError(cause)
    }
}

impl FromSpecImpl<SessionRepositoryError> for AnonymousRegistrationError {
    open spec fn obeys_from_spec() -> bool {
        true
    }

    open spec fn from_spec(cause: SessionRepositoryError) -> AnonymousRegistrationError {
        AnonymousRegistrationError::SavingSessionError(cause)
    }
}

/// The mathematical value of the result of a registration.
pub open spec fn outcome_view(
    outcome: Result<(AnonymousUser, Session), AnonymousRegistrationError>,
) -> Result<(AnonymousUserView, SessionView), AnonymousRegistrationError> {
    match outcome {
        Ok((user, session)) => Ok((user@, session@)),
        Err(error) => Err(error),
    }
}

/// Whether a registration of the visitor `id` that found the stores as
/// `users` and `sessions` may end in `outcome` and leave them as
/// `users_after` and `sessions_after`.
///
/// On success the user of that identifier and a session of that user are
/// both stored. Where the user was not saved, nothing is stored. Where the
/// session was not saved, the user stays stored: nothing takes it back.
pub open spec fn registers(
    users: Map<Seq<char>, AnonymousUserView>,
    sessions: Map<Seq<char>, SessionView>,
    id: Seq<char>,
    outcome: Result<(AnonymousUserView, SessionView), AnonymousRegistrationError>,
    users_after: Map<Seq<char>, AnonymousUserView>,
    sessions_after: Map<Seq<char>, SessionView>,
) -> bool {
    match outcome {
        Ok((user, session)) => {
            &&& user == AnonymousUserView { id }
            &&& session.user_id == id
            &&& users_after == users.insert(id, user)
            &&& sessions_after == sessions.insert(session.id, session)
        },
        Err(AnonymousRegistrationError::SavingAnonymousError(_)) => {
            &&& users_after == users
            &&& sessions_after == sessions
        },
        Err(AnonymousRegistrationError::SavingSessionError(_)) => {
            &&& users_after == users.insert(id, AnonymousUserView { id })
            &&& sessions_after == sessions
        },
    }
}

/// The workflow that provisions a visitor.
pub struct AnonymousRegistersUc<
    's,
    F: IdFactory,
    U: AnonymousUserRepositoryTrait,
    S: SessionRepositoryTrait,
    G: GeneratorTrait,
> {
    pub id_factory: &'s F,
    pub user_repository: &'s mut U,
    pub session_repository: &'s mut S,
    pub token_generator: &'s G,
}

impl<
    's,
    F: IdFactory,
    U: AnonymousUserRepositoryTrait,
    S: SessionRepositoryTrait,
    G: GeneratorTrait,
> AnonymousRegistersUc<'s, F, U, S, G> {
    /// The workflow over the two stores, which it holds until it is
    /// dropped: what it leaves in them is what the caller finds there.
    pub fn new(
        id_factory: &'s F,
        user_repository: &'s mut U,
        session_repository: &'s mut S,
        token_generator: &'s G,
    ) -> (uc: AnonymousRegistersUc<'s, F, U, S, G>)
        ensures
            uc.id_factory == id_factory,
            uc.token_generator == token_generator,
            *uc.user_repository == *old(user_repository),
            *uc.session_repository == *old(session_repository),
            *final(uc.user_repository) == *final(user_repository),
            *final(uc.session_repository) == *final(session_repository),
    {
        AnonymousRegistersUc { id_factory, user_repository, session_repository, token_generator }
    }

    /// Provisions the visitor `id`: saves an anonymous user of that
    /// identifier, then a session of that user under a fresh identifier,
    /// with a token generated for the user.
    pub fn execute(&mut self, id: &Id) -> (registered: Result<
        (AnonymousUser, Session),
        AnonymousRegistrationError,
    >)
        ensures
            registers(
                old(self).user_repository.users(),
                old(self).session_repository.sessions(),
                id@,
                outcome_view(registered),
                final(self).user_repository.users(),
                final(self).session_repository.sessions(),
            ),
            registered matches Ok((_, session)) ==> old(self).id_factory.creates(session@.id)
                && old(self).token_generator.generates(id@, session@.token),
            registered matches Err(AnonymousRegistrationError::SavingAnonymousError(cause))
                ==> old(self).user_repository.fails_with(cause),
            registered matches Err(AnonymousRegistrationError::SavingSessionError(cause))
                ==> old(self).session_repository.fails_with(cause),
            old(self).user_repository.broken() ==> registered matches Err(
                AnonymousRegistrationError::SavingAnonymousError(_),
            ),
            old(self).user_repository.reliable() ==> !(registered matches Err(
                AnonymousRegistrationError::SavingAnonymousError(_),
            )),
            old(self).user_repository.reliable() && old(self).session_repository.broken()
                ==> registered matches Err(AnonymousRegistrationError::SavingSessionError(_)),
            old(self).session_repository.reliable() ==> !(registered matches Err(
                AnonymousRegistrationError::SavingSessionError(_),
            )),
            final(self).id_factory == old(self).id_factory,
            final(self).token_generator == old(self).token_generator,
            final(self).user_repository.reliable() == old(self).user_repository.reliable(),
            final(self).user_repository.broken() == old(self).user_repository.broken(),
            final(self).session_repository.reliable() == old(self).session_repository.reliable(),
            final(self).session_repository.broken() == old(self).session_repository.broken(),
            *final(final(self).user_repository) == *final(old(self).user_repository),
            *final(final(self).session_repository) == *final(old(self).session_repository),
    {
        let user = {
            let user = AnonymousUser::new(id);

            let result = self.user_repository.save(&user);

            match result {
                Ok(_) => user,
                Err(e) => return Err(AnonymousRegistrationError::from(e)),
            }
        };

        let session = Session::new(
            self.id_factory.create(),
            user.id().clone(),
            self.token_generator.generate(id),
        );

        match self.session_repository.save(&session) {
            Ok(_) => Ok((user, session)),
            Err(e) => Err(AnonymousRegistrationError::from(e)),
        }
    }
}

/// A visitor who has just been provisioned resolves, by the token of the
/// new session, to the anonymous user of the visitor's identifier:
/// provided that no other session carries that token, that no
/// authenticated user has that identifier, and that the lookup among the
/// authenticated users does not fail.
pub proof fn provisioned_visitor_resolves(
    users: Map<Seq<char>, AnonymousUserView>,
    sessions: Map<Seq<char>, SessionView>,
    authenticated: Map<Seq<char>, AuthenticatedUserView>,
    id: Seq<char>,
    user: AnonymousUserView,
    session: SessionView,
    users_after: Map<Seq<char>, AnonymousUserView>,
    sessions_after: Map<Seq<char>, SessionView>,
    resolved: Result<UserView, AuthenticationError>,
)
    requires
        registers(
            users,
            sessions,
            id,
            Ok::<(AnonymousUserView, SessionView), AnonymousRegistrationError>((user, session)),
            users_after,
            sessions_after,
        ),
        forall|other: Seq<char>| #[trigger]
            sessions.contains_key(other) && other != session.id ==> sessions[other].token
                != session.token,
        !authenticated.contains_key(id),
        resolves(sessions_after, authenticated, users_after, session.token, resolved),
        !(resolved matches Err(AuthenticationError::UserRepositoryError(_))),
    ensures
        resolved == Ok::<UserView, AuthenticationError>(
            UserView::Anonymous(AnonymousUserView { id }),
        ),
{
    assert(sessions_after.contains_key(session.id));
    let found = choose|found: SessionView|
        #[trigger] holds(sessions_after, found) && found.token == session.token && resolved
            == identity_of(authenticated, users_after, found.user_id);
    if found.id != session.id {
        assert(sessions.contains_key(found.id));
    }
}

/// A registration that ends because the user was not saved has written
/// nothing: the session store is as it was, and so is the store of users.
pub proof fn unsaved_user_leaves_no_session(
    users: Map<Seq<char>, AnonymousUserView>,
    sessions: Map<Seq<char>, SessionView>,
    id: Seq<char>,
    cause: SavingUserError,
    users_after: Map<Seq<char>, AnonymousUserView>,
    sessions_after: Map<Seq<char>, SessionView>,
)
    requires
        registers(
            users,
            sessions,
            id,
            Err::<(AnonymousUserView, SessionView), AnonymousRegistrationError>(
                AnonymousRegistrationError::SavingAnonymousError(cause),
            ),
            users_after,
            sessions_after,
        ),
    ensures
        sessions_after == sessions,
        users_after == users,
{
}

/// A registration that ends because the session was not saved leaves the
/// user in the store: the first write is not taken back.
pub proof fn unsaved_session_leaves_the_user(
    users: Map<Seq<char>, AnonymousUserView>,
    sessions: Map<Seq<char>, SessionView>,
    id: Seq<char>,
    cause: SessionRepositoryError,
    users_after: Map<Seq<char>, AnonymousUserView>,
    sessions_after: Map<Seq<char>, SessionView>,
)
    requires
        registers(
            users,
            sessions,
            id,
            Err::<(AnonymousUserView, SessionView), AnonymousRegistrationError>(
                AnonymousRegistrationError::SavingSessionError(cause),
            ),
            users_after,
            sessions_after,
        ),
    ensures
        users_after.contains_key(id),
        users_after[id] == (AnonymousUserView { id }),
        sessions_after == sessions,
{
}

} // verus!
