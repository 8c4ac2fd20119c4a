use argentum_standard_business::data_type::email::EmailAddress;
use user_account::data_type::id::Id;
use user_account::entity::credential::PasswordCredential;
use user_account::entity::session::Session;
use user_account::entity::user::{AnonymousUser, AuthenticatedUser, UserTrait};
use user_account::mock::repository::anonymous_user_repository_mock::AnonymousUserRepositoryMock;
use user_account::mock::repository::authenticated_user_repository_mock::AuthenticatedUserRepositoryMock;
use user_account::mock::repository::broken::anonymous_user_repository_mock::AnonymousRepositoryMockWithBrokenSave;
use user_account::mock::repository::broken::authenticated_user_repository_mock::AuthenticatedRepositoryMockOutOfOrder;
use user_account::mock::repository::broken::session_repository_mock::SessionRepositoryMockWithBrokenSave;
use user_account::mock::repository::password_credential_repository_mock::PasswordCredentialRepositoryMock;
use user_account::mock::repository::session_repository_mock::SessionRepositoryMock;
use user_account::mock::table::Table;
use user_account::mock::token::TokenGeneratorMock;
use user_account::repository::password_credential_repository::PasswordCredentialRepository;
use user_account::repository::session_repository::{SessionRepositoryError, SessionRepositoryTrait};
use user_account::repository::user_repository::{
    AnonymousUserRepositoryTrait, AuthenticatedUserRepositoryTrait, SavingUserError,
};
use user_account::token::GeneratorTrait;
use user_account::value_object::name::Name;

fn id(printed: &str) -> Id {
    Id::new(String::from(printed))
}

fn session(session_id: &str, user_id: &str, token: &str) -> Session {
    Session::new(id(session_id), id(user_id), String::from(token))
}

#[test]
fn id_is_its_printed_form() {
    let first = id("17");
    assert_eq!(first.to_string(), "17");
    assert!(first == id("17"));
    assert!(first != id("18"));
    assert!(first != id("017"));
    let copy = first.clone();
    assert!(copy == first);
    assert_eq!(copy.to_string(), "17");
    assert_eq!(id("").to_string(), "");
}

#[test]
fn token_is_bound_to_the_user() {
    let tokens = TokenGeneratorMock::new();
    assert_eq!(tokens.generate(&id("U1")), "token-U1");
    assert_eq!(tokens.generate(&id("U2")), "token-U2");
    assert_eq!(tokens.generate(&id("")), "token-");
    assert_eq!(TokenGeneratorMock::default().generate(&id("U1")), "token-U1");
}

#[test]
fn users_know_their_identifier() {
    let anonymous = AnonymousUser::new(&id("U1"));
    assert_eq!(anonymous.id.to_string(), "U1");
    assert_eq!(anonymous.id().to_string(), "U1");
    assert_eq!(anonymous.clone().id.to_string(), "U1");

    let authenticated = AuthenticatedUser::new(
        &id("U2"),
        Name::new(String::from("Sarah"), String::from("Connor")),
        EmailAddress::try_new(String::from("sarah-connor@example.com")).unwrap(),
    );
    assert_eq!(authenticated.id().to_string(), "U2");
    let copy = authenticated.clone();
    assert_eq!(copy.id.to_string(), "U2");
    assert_eq!(copy.name.first, "Sarah");
    assert_eq!(copy.name.last, "Connor");
    assert_eq!(copy.email.as_string(), "sarah-connor@example.com");
}

#[test]
fn password_credentials_are_kept_by_user() {
    let mut credentials = PasswordCredentialRepositoryMock::new();
    assert!(credentials.find_by_user_id(&id("U1")).is_none());

    let first = PasswordCredential::new(id("U1"), String::from("hash-1"), String::from("salt-1"));
    let second = PasswordCredential::new(id("U2"), String::from("hash-2"), String::from("salt-2"));
    credentials.save(&first);
    credentials.save(&second);

    let found = credentials.find_by_user_id(&id("U1")).expect("stored");
    assert_eq!(found.user_id.to_string(), "U1");
    assert_eq!(found.password, "hash-1");
    assert_eq!(found.salt, "salt-1");
    let found = credentials.find_by_user_id(&id("U2")).expect("stored");
    assert_eq!(found.password, "hash-2");

    let changed = PasswordCredential::new(id("U1"), String::from("hash-3"), String::from("salt-3"));
    credentials.save(&changed);
    let found = credentials.find_by_user_id(&id("U1")).expect("stored");
    assert_eq!(found.password, "hash-3");
    assert_eq!(found.salt, "salt-3");

    credentials.delete(&first);
    assert!(credentials.find_by_user_id(&id("U1")).is_none());
    assert!(credentials.find_by_user_id(&id("U2")).is_some());
    credentials.delete(&first);
    assert!(credentials.find_by_user_id(&id("U2")).is_some());

    assert!(PasswordCredentialRepositoryMock::default().find_by_user_id(&id("U2")).is_none());
}

#[test]
fn sessions_are_found_by_identifier_and_by_token() {
    let mut sessions = SessionRepositoryMock::new();
    assert!(sessions.find(&id("S1")).is_none());
    assert!(sessions.find_by_token(String::from("T1")).is_none());

    assert_eq!(sessions.save(&session("S1", "U1", "T1")), Ok(()));
    assert_eq!(sessions.save(&session("S2", "U2", "T2")), Ok(()));

    let found = sessions.find(&id("S2")).expect("stored");
    assert_eq!(found.id.to_string(), "S2");
    assert_eq!(found.user_id.to_string(), "U2");
    assert_eq!(found.token, "T2");
    let found = sessions.find_by_token(String::from("T1")).expect("stored");
    assert_eq!(found.id.to_string(), "S1");
    assert_eq!(found.user_id.to_string(), "U1");
    assert!(sessions.find_by_token(String::from("T3")).is_none());
    assert!(sessions.find_by_token(String::from("S1")).is_none());

    assert_eq!(sessions.save(&session("S1", "U3", "T3")), Ok(()));
    let found = sessions.find(&id("S1")).expect("stored");
    assert_eq!(found.user_id.to_string(), "U3");
    assert!(sessions.find_by_token(String::from("T1")).is_none());
    assert!(sessions.find_by_token(String::from("T3")).is_some());
}

#[test]
fn every_session_of_the_user_is_deleted() {
    let mut sessions = SessionRepositoryMock::new();
    for (session_id, user_id, token) in [
        ("S1", "U1", "T1"),
        ("S2", "U2", "T2"),
        ("S3", "U1", "T3"),
        ("S4", "U1", "T4"),
        ("S5", "U3", "T5"),
    ] {
        sessions.save(&session(session_id, user_id, token)).expect("Can't save a session");
    }

    assert_eq!(sessions.delete_users_sessions(&id("U1")), Ok(()));

    for gone in ["S1", "S3", "S4"] {
        assert!(sessions.find(&id(gone)).is_none());
    }
    for gone in ["T1", "T3", "T4"] {
        assert!(sessions.find_by_token(String::from(gone)).is_none());
    }
    assert_eq!(sessions.find(&id("S2")).expect("kept").user_id.to_string(), "U2");
    assert_eq!(sessions.find(&id("S5")).expect("kept").user_id.to_string(), "U3");

    assert_eq!(sessions.delete_users_sessions(&id("U9")), Ok(()));
    assert!(sessions.find(&id("S2")).is_some());
    assert!(sessions.find(&id("S5")).is_some());
}

#[test]
fn broken_session_store_saves_nothing() {
    let mut sessions = SessionRepositoryMockWithBrokenSave::new();
    assert_eq!(sessions.save(&session("S1", "U1", "T1")), Err(SessionRepositoryError::Save));
    assert!(sessions.find(&id("S1")).is_none());
    assert!(sessions.find_by_token(String::from("T1")).is_none());
    assert_eq!(sessions.delete_users_sessions(&id("U1")), Ok(()));
    assert!(SessionRepositoryMockWithBrokenSave::default().find(&id("S1")).is_none());
}

#[test]
fn anonymous_users_are_kept_by_identifier() {
    let mut users = AnonymousUserRepositoryMock::new();
    assert!(users.find(&id("U1")).is_none());
    assert_eq!(users.save(&AnonymousUser::new(&id("U1"))), Ok(()));
    assert_eq!(users.save(&AnonymousUser::new(&id("U2"))), Ok(()));
    assert_eq!(users.save(&AnonymousUser::new(&id("U1"))), Ok(()));
    assert_eq!(users.find(&id("U1")).expect("stored").id.to_string(), "U1");
    assert_eq!(users.find(&id("U2")).expect("stored").id.to_string(), "U2");
    users.delete(&id("U1"));
    assert!(users.find(&id("U1")).is_none());
    assert!(users.find(&id("U2")).is_some());

    let mut broken = AnonymousRepositoryMockWithBrokenSave::new();
    assert_eq!(broken.save(&AnonymousUser::new(&id("U1"))), Err(SavingUserError::Anonymous));
    assert!(broken.find(&id("U1")).is_none());
}

#[test]
fn authenticated_users_are_kept_with_name_and_email() {
    let mut users = AuthenticatedUserRepositoryMock::new();
    assert!(users.find(&id("U1")).expect("the lookup works").is_none());
    let sarah = AuthenticatedUser::new(
        &id("U1"),
        Name::new(String::from("Sarah"), String::from("Connor")),
        EmailAddress::try_new(String::from("sarah-connor@example.com")).unwrap(),
    );
    assert_eq!(users.save(&sarah), Ok(()));
    let found = users.find(&id("U1")).expect("the lookup works").expect("stored");
    assert_eq!(found.id.to_string(), "U1");
    assert_eq!(found.name.first, "Sarah");
    assert_eq!(found.name.last, "Connor");
    assert_eq!(found.email.as_string(), "sarah-connor@example.com");
    users.delete(&id("U1"));
    assert!(users.find(&id("U1")).expect("the lookup works").is_none());

    let mut out_of_order = AuthenticatedRepositoryMockOutOfOrder::new();
    assert_eq!(out_of_order.save(&sarah), Err(SavingUserError::Authenticated));
    assert_eq!(out_of_order.find(&id("U1")).err(), Some(SavingUserError::Authenticated));
}

#[test]
fn table_files_one_record_per_key() {
    let mut table: Table<Session> = Table::new();
    assert_eq!(table.len(), 0);
    table.put(session("S1", "U1", "T1"));
    table.put(session("S2", "U2", "T2"));
    table.put(session("S1", "U3", "T3"));
    assert_eq!(table.len(), 2);
    assert_eq!(table.get(&id("S1")).expect("filed").token, "T3");
    assert_eq!(table.row(0).id.to_string(), "S1");
    assert_eq!(table.row(1).id.to_string(), "S2");
    table.discard(0);
    assert_eq!(table.len(), 1);
    assert_eq!(table.row(0).id.to_string(), "S2");
    assert!(table.get(&id("S1")).is_none());
    table.remove(&id("S9"));
    assert_eq!(table.len(), 1);
    table.remove(&id("S2"));
    assert_eq!(table.len(), 0);
}
