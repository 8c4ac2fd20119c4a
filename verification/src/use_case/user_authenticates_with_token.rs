//! Resolution of a bearer token into the caller it stands for.

use vstd::prelude::*;
use vstd::std_specs::convert::FromSpecImpl;
use crate::entity::session::SessionView;
use crate::entity::user::{AnonymousUserView, AuthenticatedUserView, User, UserView};
use crate::repository::session_repository::{has_token, holds, SessionRepositoryTrait};
use crate::repository::user_repository::{
    AnonymousUserRepositoryTrait,
    AuthenticatedUserRepositoryTrait,
    SavingUserError,
};

verus! {

/// Why a token was not resolved.
#[derive(Debug, Clone, Copy, PartialEq, Eq, Structural)]
pub enum AuthenticationError {
    /// A session carries the token, and neither identity store has its
    /// user.
    UserNotFound,
    /// No session carries the token.
    WrongToken,
    /// The lookup in the store of authenticated users failed.
    UserRepositoryError(SavingUserError),
}

impl AuthenticationError {
    /// The message of the error.
    pub fn to_string(&self) -> (message: String)
        ensures
            message@ == match self {
                AuthenticationError::UserNotFound => "User not found"@,
                AuthenticationError::WrongToken => "Wrong token"@,
                AuthenticationError::UserRepositoryError(_) => "User repository error"@,
            },
    {
        match self {
            AuthenticationError::UserNotFound => "User not found".to_owned(),
            AuthenticationError::WrongToken => "Wrong token".to_owned(),
            AuthenticationError::UserRepositoryError(_) => "User repository error".to_owned(),
        }
    }
}

impl From<SavingUserError> for AuthenticationError {
    fn from(cause: SavingUserError) -> (error: AuthenticationError) {
        AuthenticationError::UserRepositoryError(cause)
    }
}

impl FromSpecImpl<SavingUserError> for AuthenticationError {
    open spec fn obeys_from_spec() -> bool {
        true
    }

    open spec fn from_spec(cause: SavingUserError) -> AuthenticationError {
        AuthenticationError::UserRepositoryError(cause)
    }
}

/// The mathematical value of the result of a resolution.
pub open spec fn outcome_view(outcome: Result<User, AuthenticationError>) -> Result<
    UserView,
    AuthenticationError,
> {
    match outcome {
        Ok(user) => Ok(user@),
        Err(error) => Err(error),
    }
}

/// The caller that the two identity stores give for `user_id`: the
/// authenticated user where there is one, else the anonymous user, else
/// none.
pub open spec fn identity_of(
    authenticated: Map<Seq<char>, AuthenticatedUserView>,
    anonymous: Map<Seq<char>, AnonymousUserView>,
    user_id: Seq<char>,
) -> Result<UserView, AuthenticationError> {
    if authenticated.contains_key(user_id) {
        Ok(UserView::Authenticated(authenticated[user_id]))
    } else if anonymous.contains_key(user_id) {
        Ok(UserView::Anonymous(anonymous[user_id]))
    } else {
        Err(AuthenticationError::UserNotFound)
    }
}

/// Whether `outcome` is a resolution of `token` over the three stores.
///
/// Without a session that carries the token it is `WrongToken`, and only
/// then. With one, it is either a failure of the lookup among the
/// authenticated users, or what the identity stores give for the user of a
/// session that carries the token.
pub open spec fn resolves(
    sessions: Map<Seq<char>, SessionView>,
    authenticated: Map<Seq<char>, AuthenticatedUserView>,
    anonymous: Map<Seq<char>, AnonymousUserView>,
    token: Seq<char>,
    outcome: Result<UserView, AuthenticationError>,
) -> bool {
    match outcome {
        Err(AuthenticationError::WrongToken) => !has_token(sessions, token),
        Err(AuthenticationError::UserRepositoryError(_)) => has_token(sessions, token),
        _ => exists|session: SessionView|
            #[trigger] holds(sessions, session) && session.token == token && outcome
                == identity_of(authenticated, anonymous, session.user_id),
    }
}

/// The workflow that resolves a token.
pub struct UserAuthenticatesWithTokenUc<
    's,
    U: AuthenticatedUserRepositoryTrait,
    A: AnonymousUserRepositoryTrait,
    S: SessionRepositoryTrait,
> {
    pub user_repository: &'s U,
    pub anon_repository: &'s A,
    pub session_repository: &'s S,
}

impl<
    's,
    U: AuthenticatedUserRepositoryTrait,
    A: AnonymousUserRepositoryTrait,
    S: SessionRepositoryTrait,
> UserAuthenticatesWithTokenUc<'s, U, A, S> {
    pub fn new(user_repository: &'s U, anon_repository: &'s A, session_repository: &'s S) -> (uc:
        UserAuthenticatesWithTokenUc<'s, U, A, S>)
        ensures
            uc.user_repository == user_repository,
            uc.anon_repository == anon_repository,
            uc.session_repository == session_repository,
    {
        UserAuthenticatesWithTokenUc { user_repository, anon_repository, session_repository }
    }

    /// Resolves `token` into the caller it stands for.
    ///
    /// The session is looked up by the token; its user is looked up among
    /// the authenticated users first, and among the anonymous users only
    /// where the first lookup found nobody. A failure of the first lookup
    /// ends the resolution.
    pub fn execute(&self, token: String) -> (authenticated: Result<User, AuthenticationError>)
        ensures
            resolves(
                self.session_repository.sessions(),
                self.user_repository.users(),
                self.anon_repository.users(),
                token@,
                outcome_view(authenticated),
            ),
            !has_token(self.session_repository.sessions(), token@) ==> authenticated
                == Err::<User, AuthenticationError>(AuthenticationError::WrongToken),
            authenticated matches Err(AuthenticationError::UserRepositoryError(cause))
                ==> self.user_repository.fails_with(cause) && !self.user_repository.reliable(),
            has_token(self.session_repository.sessions(), token@)
                && self.user_repository.broken()
                ==> authenticated matches Err(AuthenticationError::UserRepositoryError(_)),
    {
        let session_result = self.session_repository.find_by_token(token);

        let session = match session_result {
            Some(s) => s,
            None => return Err(AuthenticationError::WrongToken),
        };
        assert(holds(self.session_repository.sessions(), session@));
        assert(has_token(self.session_repository.sessions(), token@)) by {
            assert(self.session_repository.sessions().contains_key(session@.id));
        }

        let user = self.user_repository.find(&session.user_id);

        match user {
            Err(e) => Err(AuthenticationError::from(e)),
            Ok(o) => match o {
                Some(u) => Ok(User::Authenticated(u)),
                None => match self.anon_repository.find(&session.user_id) {
                    Some(a) => Ok(User::Anonymous(a)),
                    None => Err(AuthenticationError::UserNotFound),
                },
            },
        }
    }
}

/// A token that no session carries resolves to `WrongToken`.
pub proof fn unknown_token_is_wrong(
    sessions: Map<Seq<char>, SessionView>,
    authenticated: Map<Seq<char>, AuthenticatedUserView>,
    anonymous: Map<Seq<char>, AnonymousUserView>,
    token: Seq<char>,
    resolved: Result<UserView, AuthenticationError>,
)
    requires
        !has_token(sessions, token),
        resolves(sessions, authenticated, anonymous, token, resolved),
    ensures
        resolved == Err::<UserView, AuthenticationError>(AuthenticationError::WrongToken),
{
    match resolved {
        Err(AuthenticationError::WrongToken) => {},
        Err(AuthenticationError::UserRepositoryError(_)) => {},
        _ => {
            let session = choose|session: SessionView|
                #[trigger] holds(sessions, session) && session.token == token && resolved
                    == identity_of(authenticated, anonymous, session.user_id);
            assert(sessions.contains_key(session.id));
        },
    }
}

/// A token whose sessions belong to users that neither identity store has
/// resolves to `UserNotFound`, to no user at all, unless the lookup among
/// the authenticated users fails.
pub proof fn session_without_user_resolves_to_nobody(
    sessions: Map<Seq<char>, SessionView>,
    authenticated: Map<Seq<char>, AuthenticatedUserView>,
    anonymous: Map<Seq<char>, AnonymousUserView>,
    token: Seq<char>,
    resolved: Result<UserView, AuthenticationError>,
)
    requires
        has_token(sessions, token),
        forall|id: Seq<char>| #[trigger]
            sessions.contains_key(id) && sessions[id].token == token
                ==> !authenticated.contains_key(sessions[id].user_id) && !anonymous.contains_key(
                sessions[id].user_id,
            ),
        resolves(sessions, authenticated, anonymous, token, resolved),
        !(resolved matches Err(AuthenticationError::UserRepositoryError(_))),
    ensures
        resolved == Err::<UserView, AuthenticationError>(AuthenticationError::UserNotFound),
{
    let session = choose|session: SessionView|
        #[trigger] holds(sessions, session) && session.token == token && resolved == identity_of(
            authenticated,
            anonymous,
            session.user_id,
        );
    assert(sessions.contains_key(session.id));
}

/// A token whose sessions belong to users that the store of authenticated
/// users has resolves to the authenticated user of one of them, whatever
/// the store of anonymous users holds, unless the lookup among the
/// authenticated users fails.
pub proof fn authenticated_user_takes_precedence(
    sessions: Map<Seq<char>, SessionView>,
    authenticated: Map<Seq<char>, AuthenticatedUserView>,
    anonymous: Map<Seq<char>, AnonymousUserView>,
    token: Seq<char>,
    resolved: Result<UserView, AuthenticationError>,
)
    requires
        has_token(sessions, token),
        forall|id: Seq<char>| #[trigger]
            sessions.contains_key(id) && sessions[id].token == token ==> authenticated.contains_key(
                sessions[id].user_id,
            ),
        resolves(sessions, authenticated, anonymous, token, resolved),
        !(resolved matches Err(AuthenticationError::UserRepositoryError(_))),
    ensures
        exists|id: Seq<char>| #[trigger]
            sessions.contains_key(id) && sessions[id].token == token && resolved == Ok::<
                UserView,
                AuthenticationError,
            >(UserView::Authenticated(authenticated[sessions[id].user_id])),
{
    let session = choose|session: SessionView|
        #[trigger] holds(sessions, session) && session.token == token && resolved == identity_of(
            authenticated,
            anonymous,
            session.user_id,
        );
    assert(sessions.contains_key(session.id));
}

} // verus!
