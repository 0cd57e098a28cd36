use mairie360_api_lib::db_interface::get_db_interface;
use mairie360_api_lib::db_interface::DbConfig;
use mairie360_api_lib::db_interface::DbInterface;
use mairie360_api_lib::db_interface::ExecuteError;
use mairie360_api_lib::db_interface::QueryResultView;
use mairie360_api_lib::queries::AboutUserQuery;
use mairie360_api_lib::queries::DoesUserExistByEmailQuery;
use mairie360_api_lib::queries::DoesUserExistByIdQuery;
use mairie360_api_lib::queries::LoginUserQuery;
use mairie360_api_lib::queries::QueryError;
use mairie360_api_lib::queries::RegisterUserQuery;
use mairie360_api_lib::queries_result_views::QueryResult;
use mairie360_api_lib::queries_result_views::UserProfile;

/// A connected interface over a table holding the one seeded user Alice
/// (id 1), as the test database is prepared before each test.
fn setup_tests() -> DbInterface {
    let config = DbConfig::new(
        "127.0.0.1".to_string(),
        "postgres".to_string(),
        "postgres".to_string(),
        "postgres".to_string(),
    );
    let mut db = get_db_interface(config);
    db.connect().expect("Manual connection to test DB failed");
    db.seed_user(
        &"Alice".to_string(),
        &"Smith".to_string(),
        &"alice@example.com".to_string(),
        &"password123".to_string(),
        &Some("0102030405".to_string()),
        &Some("active".to_string()),
    )
    .expect("Failed to setup test schema");
    db
}

// --- EXISTENCE TESTS ---

#[test]
fn queries_tests_test_user_exists() {
    let mut db = setup_tests();
    let query = DoesUserExistByIdQuery::new(1);

    let result = db.execute_query(query).unwrap();

    assert_eq!(result.get_result(), QueryResult::Boolean(true));
}

#[test]
fn queries_tests_test_user_not_found() {
    let mut db = setup_tests();
    let query = DoesUserExistByIdQuery::new(999);

    let result = db.execute_query(query).unwrap();

    assert_eq!(result.get_result(), QueryResult::Boolean(false));
}

#[test]
fn queries_tests_test_user_exists_by_email() {
    let mut db = setup_tests();
    let query = DoesUserExistByEmailQuery::new("alice@example.com");

    let result = db.execute_query(query).unwrap();

    assert_eq!(result.get_result(), QueryResult::Boolean(true));
}

#[test]
fn test_user_exists_by_email_invalid_format() {
    let mut db = setup_tests();
    let email = "invalid-email";
    let query = DoesUserExistByEmailQuery::new(email);

    let result = db.execute_query(query);

    assert!(result.is_err());
    match result.err().unwrap() {
        ExecuteError::Query(query_err) => {
            assert_eq!(query_err, QueryError::InvalidEmailFormat(email.to_string()));
        }
        other => panic!("Failed to downcast to QueryError: {:?}", other),
    }
}

// --- LOGIN TESTS ---

#[test]
fn queries_tests_test_login_user_success() {
    let mut db = setup_tests();
    let query = LoginUserQuery::new("alice@example.com", "password123");

    let result = db.execute_query(query).unwrap();

    assert_eq!(result.get_result(), QueryResult::U64(1));
}

#[test]
fn queries_tests_test_login_user_wrong_password() {
    let mut db = setup_tests();
    let email = "alice@example.com";
    let query = LoginUserQuery::new(email, "wrong_pass");

    let result = db.execute_query(query);

    assert!(result.is_err());
    match result.err().unwrap() {
        ExecuteError::Query(query_err) => {
            assert_eq!(query_err, QueryError::InvalidPassword(email.to_string()));
        }
        other => panic!("Failed to downcast to QueryError: {:?}", other),
    }
}

#[test]
fn queries_tests_test_login_user_unknown_email() {
    let mut db = setup_tests();
    let email = "stranger@danger.com";
    let query = LoginUserQuery::new(email, "any_password");

    let result = db.execute_query(query);

    assert!(result.is_err());
    match result.err().unwrap() {
        ExecuteError::Query(query_err) => {
            assert_eq!(query_err, QueryError::EmailNotFound(email.to_string()));
        }
        other => panic!("Failed to downcast to QueryError: {:?}", other),
    }
}

// --- REGISTRATION AND LOOKUP TESTS ---

#[test]
fn queries_tests_test_register_user_success() {
    let mut db = setup_tests();
    let email = "new_user@test.com";

    let register_query = RegisterUserQuery::new(
        "John",
        "Doe",
        email,
        "secure_password",
        Some("0601020304".to_string()),
    );

    let register_result = db.execute_query(register_query).unwrap();

    assert_eq!(register_result.get_result(), QueryResult::Unit);
}

#[test]
fn queries_tests_test_about_user_success() {
    let mut db = setup_tests();
    let query = AboutUserQuery::new(1);

    let result = db.execute_query(query).unwrap();

    let expected = UserProfile {
        first_name: "Alice".to_string(),
        last_name: "Smith".to_string(),
        email: "alice@example.com".to_string(),
        phone: "0102030405".to_string(),
        status: "active".to_string(),
    };

    assert_eq!(result.get_result(), QueryResult::JSON(expected));
}

#[test]
fn test_about_user_fail() {
    let mut db = setup_tests();
    let query = AboutUserQuery::new(999);

    let result = db.execute_query(query);

    assert!(result.is_err());
    match result.err().unwrap() {
        ExecuteError::Query(query_err) => {
            assert_eq!(query_err, QueryError::InvalidId("User ID not found".to_string()));
        }
        other => panic!("Failed to downcast to QueryError: {:?}", other),
    }
}

// --- INJECTION TESTS ---

#[test]
fn test_injection_login_email() {
    let mut db = setup_tests();

    // A classic attempt: were the email interpolated into the statement,
    // this could bypass the lookup or return the first user.
    let malicious_email = "' OR 1=1 --";
    let query = LoginUserQuery::new(malicious_email, "any_password");

    let result = db.execute_query(query);

    // The string is treated literally, so the email simply matches no row.
    assert!(result.is_err());
    match result.err().unwrap() {
        ExecuteError::Query(query_err) => {
            assert_eq!(
                query_err,
                QueryError::EmailNotFound(malicious_email.to_string())
            );
        }
        other => panic!("the injection caused an unexpected error or succeeded: {:?}", other),
    }
}

#[test]
fn test_injection_register_fields() {
    let mut db = setup_tests();

    let malicious_name = "John'); DROP TABLE users; --";
    let register_query =
        RegisterUserQuery::new(malicious_name, "Doe", "attacker@test.com", "pass", None);

    let result = db.execute_query(register_query).unwrap();

    assert_eq!(result.get_result(), QueryResult::Unit);

    // The table survived: the seeded row is still there.
    let check_query = DoesUserExistByIdQuery::new(1);
    let check_result = db.execute_query(check_query).unwrap();

    assert_eq!(check_result.get_result(), QueryResult::Boolean(true));
}

#[test]
fn test_injection_about_user_string_id() {
    let mut db = setup_tests();

    // The id is a number by type, so injection through it is impossible by
    // design; a valid id simply answers.
    let query = AboutUserQuery::new(1);
    let result = db.execute_query(query);

    assert!(result.is_ok());
}
