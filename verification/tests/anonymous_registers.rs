use argentum_standard_business::data_type::id::IdFactory as SourceOfIds;
use argentum_standard_business::mock::data_type::id_factory::IdFactoryMock;
use user_account::data_type::id::{Id, IdFactory};
use user_account::mock::repository::anonymous_user_repository_mock::AnonymousUserRepositoryMock;
use user_account::mock::repository::broken::anonymous_user_repository_mock::AnonymousRepositoryMockWithBrokenSave;
use user_account::mock::repository::broken::session_repository_mock::SessionRepositoryMockWithBrokenSave;
use user_account::mock::repository::session_repository_mock::SessionRepositoryMock;
use user_account::mock::token::TokenGeneratorMock;
use user_account::repository::session_repository::{SessionRepositoryError, SessionRepositoryTrait};
use user_account::repository::user_repository::{AnonymousUserRepositoryTrait, SavingUserError};
use user_account::use_case::anonymous_registers::{AnonymousRegistersUc, AnonymousRegistrationError};

/// Identifiers from the random factory, each known by its printed form.
struct RandomIds(IdFactoryMock);

impl RandomIds {
    fn new() -> RandomIds {
        RandomIds(IdFactoryMock::new())
    }
}

impl IdFactory for RandomIds {
    fn create(&self) -> Id {
        Id::new(self.0.create().to_string())
    }
}

/// Always the same identifier.
struct OneId(&'static str);

impl IdFactory for OneId {
    fn create(&self) -> Id {
        Id::new(String::from(self.0))
    }
}

#[test]
fn anonymous_registers() -> Result<(), &'static str> {
    let mut anonymous_user_repository = AnonymousUserRepositoryMock::new();
    let mut session_repository = SessionRepositoryMock::new();
    let id_factory = RandomIds::new();
    let token_generator = TokenGeneratorMock::new();

    let mut uc = AnonymousRegistersUc::new(
        &id_factory,
        &mut anonymous_user_repository,
        &mut session_repository,
        &token_generator,
    );

    let anon_id: Id = id_factory.create();
    let result = uc.execute(&anon_id);

    match result {
        Ok((anonymous, s)) => {
            assert_eq!(anonymous.id.to_string(), anon_id.clone().to_string());
            assert_eq!(s.user_id.to_string(), anon_id.clone().to_string());

            return Ok(());
        }
        Err(_) => {
            return Err("User is not registered");
        }
    }
}

#[test]
fn anonymous_registers_with_broken_user_repository() -> Result<(), &'static str> {
    let mut anonymous_user_repository = AnonymousRepositoryMockWithBrokenSave::new();
    let mut session_repository = SessionRepositoryMock::new();
    let id_factory = RandomIds::new();
    let token_generator = TokenGeneratorMock::new();

    let mut uc = AnonymousRegistersUc::new(
        &id_factory,
        &mut anonymous_user_repository,
        &mut session_repository,
        &token_generator,
    );

    let anon_id: Id = id_factory.create();
    let result = uc.execute(&anon_id);

    match result {
        Ok(_) => Err("Should return error"),
        Err(e) => match e {
            AnonymousRegistrationError::SavingAnonymousError(_) => Ok(()),
            _ => Err("Wrong error type"),
        },
    }
}

#[test]
fn anonymous_registers_with_broken_session_repository() -> Result<(), &'static str> {
    let mut anonymous_user_repository = AnonymousUserRepositoryMock::new();
    let mut session_repository = SessionRepositoryMockWithBrokenSave::new();
    let id_factory = RandomIds::new();
    let token_generator = TokenGeneratorMock::new();

    let mut uc = AnonymousRegistersUc::new(
        &id_factory,
        &mut anonymous_user_repository,
        &mut session_repository,
        &token_generator,
    );

    let anon_id: Id = id_factory.create();
    let result = uc.execute(&anon_id);

    match result {
        Ok(_) => Err("Should return error"),
        Err(e) => match e {
            AnonymousRegistrationError::SavingSessionError(_) => Ok(()),
            _ => Err("Wrong error type"),
        },
    }
}

#[test]
fn registration_stores_the_user_and_the_session() {
    let mut users = AnonymousUserRepositoryMock::new();
    let mut sessions = SessionRepositoryMock::new();
    let ids = OneId("S1");
    let tokens = TokenGeneratorMock::new();
    let id = Id::new(String::from("U1"));

    let (user, session) = AnonymousRegistersUc::new(&ids, &mut users, &mut sessions, &tokens)
        .execute(&id)
        .expect("both stores save");

    assert_eq!(user.id.to_string(), "U1");
    assert_eq!(session.id.to_string(), "S1");
    assert_eq!(session.user_id.to_string(), "U1");
    assert_eq!(session.token, "token-U1");

    let stored_user = users.find(&id).expect("the user is stored");
    assert_eq!(stored_user.id.to_string(), "U1");
    let stored = sessions.find(&Id::new(String::from("S1"))).expect("the session is stored");
    assert_eq!(stored.user_id.to_string(), "U1");
    assert_eq!(stored.token, "token-U1");
    let by_token = sessions.find_by_token(String::from("token-U1")).expect("found by its token");
    assert_eq!(by_token.id.to_string(), "S1");
}

#[test]
fn failed_user_save_writes_no_session() {
    let mut users = AnonymousRepositoryMockWithBrokenSave::new();
    let mut sessions = SessionRepositoryMock::new();
    let ids = OneId("S1");
    let tokens = TokenGeneratorMock::new();
    let id = Id::new(String::from("U1"));

    let result = AnonymousRegistersUc::new(&ids, &mut users, &mut sessions, &tokens).execute(&id);

    assert_eq!(
        result.err(),
        Some(AnonymousRegistrationError::SavingAnonymousError(SavingUserError::Anonymous))
    );
    assert!(sessions.find(&Id::new(String::from("S1"))).is_none());
    assert!(sessions.find_by_token(String::from("token-U1")).is_none());
    assert!(users.find(&id).is_none());
}

#[test]
fn failed_session_save_leaves_the_user_stored() {
    let mut users = AnonymousUserRepositoryMock::new();
    let mut sessions = SessionRepositoryMockWithBrokenSave::new();
    let ids = OneId("S1");
    let tokens = TokenGeneratorMock::new();
    let id = Id::new(String::from("U1"));

    let result = AnonymousRegistersUc::new(&ids, &mut users, &mut sessions, &tokens).execute(&id);

    assert_eq!(
        result.err(),
        Some(AnonymousRegistrationError::SavingSessionError(SessionRepositoryError::Save))
    );
    let orphan = users.find(&id).expect("the user stays stored");
    assert_eq!(orphan.id.to_string(), "U1");
    assert!(sessions.find(&Id::new(String::from("S1"))).is_none());
    assert!(sessions.find_by_token(String::from("token-U1")).is_none());
}

#[test]
fn registration_errors_have_messages() {
    assert_eq!(
        AnonymousRegistrationError::SavingAnonymousError(SavingUserError::Anonymous).to_string(),
        "Can't save anonymous"
    );
    assert_eq!(
        AnonymousRegistrationError::SavingSessionError(SessionRepositoryError::Save).to_string(),
        "Can't save session"
    );
    assert_eq!(
        AnonymousRegistrationError::from(SavingUserError::Authenticated),
        AnonymousRegistrationError::SavingAnonymousError(SavingUserError::Authenticated)
    );
    assert_eq!(
        AnonymousRegistrationError::from(SessionRepositoryError::Delete),
        AnonymousRegistrationError::SavingSessionError(SessionRepositoryError::Delete)
    );
}
