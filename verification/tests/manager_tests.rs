use mairie360_api_lib::db_interface::get_db_interface;
use mairie360_api_lib::db_interface::DatabaseQueryView;
use mairie360_api_lib::db_interface::DbConfig;
use mairie360_api_lib::db_interface::DbInterface;
use mairie360_api_lib::db_interface::ExecuteError;
use mairie360_api_lib::db_interface::QueryResultView;
use mairie360_api_lib::errors::DatabaseError;
use mairie360_api_lib::queries::AboutUserQuery;
use mairie360_api_lib::queries::DoesUserExistByEmailQuery;
use mairie360_api_lib::queries::DoesUserExistByIdQuery;
use mairie360_api_lib::queries::LoginUserQuery;
use mairie360_api_lib::queries::login_user::login_decision;
use mairie360_api_lib::queries::register_user::register_decision;
use mairie360_api_lib::queries::QueryError;
use mairie360_api_lib::queries::RegisterUserQuery;
use mairie360_api_lib::queries::QUERY;
use mairie360_api_lib::queries_result_views::get_boolean_from_query_result;
use mairie360_api_lib::queries_result_views::QueryResult;
use mairie360_api_lib::queries_result_views::UserProfile;
use mairie360_api_lib::query_views::LoginUserQueryView;
use mairie360_api_lib::text::str_contains;
use mairie360_api_lib::utils::does_user_exist_by_id::does_user_exist_by_id;

fn fresh_db() -> DbInterface {
    let config = DbConfig::new(
        "127.0.0.1".to_string(),
        "postgres".to_string(),
        "postgres".to_string(),
        "postgres".to_string(),
    );
    get_db_interface(config)
}

fn connected_db_with_alice() -> DbInterface {
    let mut db = fresh_db();
    db.connect().expect("connect cannot fail");
    db.seed_user(
        &"Alice".to_string(),
        &"Smith".to_string(),
        &"alice@example.com".to_string(),
        &"password123".to_string(),
        &Some("0102030405".to_string()),
        &Some("active".to_string()),
    )
    .expect("seeding an empty table cannot fail");
    db
}

fn assert_not_initialized(err: ExecuteError) {
    assert!(matches!(
        err,
        ExecuteError::Connection(DatabaseError::NotInitialized)
    ));
}

// --- CONNECTION LIFECYCLE ---

#[test]
fn test_connect_and_disconnect_markers() {
    let mut db = fresh_db();
    assert_eq!(db.connect().unwrap(), "PostgreSQL Connected".to_string());
    assert_eq!(db.disconnect().unwrap(), "PostgreSql Disconnected".to_string());
    // Disconnect is idempotent.
    assert_eq!(db.disconnect().unwrap(), "PostgreSql Disconnected".to_string());
    // The manager stays retryable.
    assert_eq!(db.connect().unwrap(), "PostgreSQL Connected".to_string());
}

#[test]
fn test_execute_uninitialized_fails_for_every_variant() {
    let mut db = fresh_db();
    assert_not_initialized(db.execute_query(DoesUserExistByIdQuery::new(1)).err().unwrap());
    assert_not_initialized(
        db.execute_query(DoesUserExistByEmailQuery::new("alice@example.com")).err().unwrap(),
    );
    assert_not_initialized(db.execute_query(AboutUserQuery::new(1)).err().unwrap());
    assert_not_initialized(
        db.execute_query(LoginUserQuery::new("alice@example.com", "password123")).err().unwrap(),
    );
    assert_not_initialized(
        db.execute_query(RegisterUserQuery::new("John", "Doe", "j@d.com", "pw", None))
            .err()
            .unwrap(),
    );
}

#[test]
fn test_execute_after_disconnect_fails() {
    let mut db = connected_db_with_alice();
    db.disconnect().unwrap();
    assert_not_initialized(db.execute_query(DoesUserExistByIdQuery::new(1)).err().unwrap());
    assert_not_initialized(
        db.seed_user(
            &"Bob".to_string(),
            &"Stone".to_string(),
            &"bob@example.com".to_string(),
            &"pw".to_string(),
            &None,
            &None,
        )
        .err()
        .unwrap(),
    );
}

// --- REGISTRATION PROPERTIES ---

#[test]
fn test_register_then_exists_by_email() {
    let mut db = connected_db_with_alice();
    let email = "john@example.com";
    db.execute_query(RegisterUserQuery::new("John", "Doe", email, "pw", None)).unwrap();

    let result = db.execute_query(DoesUserExistByEmailQuery::new(email)).unwrap();
    assert_eq!(result.get_result(), QueryResult::Boolean(true));
}

#[test]
fn test_register_duplicate_email_is_constraint_violation() {
    let mut db = connected_db_with_alice();
    let query = RegisterUserQuery::new("Another", "Alice", "alice@example.com", "pw", None);

    let result = db.execute_query(query);

    assert!(result.is_err());
    match result.err().unwrap() {
        ExecuteError::Query(QueryError::ConstraintViolation(msg)) => {
            assert!(msg.contains("unique constraint"));
        }
        other => panic!("expected a constraint violation, got {:?}", other),
    }
}

#[test]
fn test_registered_user_gets_next_sequential_id() {
    let mut db = connected_db_with_alice();
    db.execute_query(RegisterUserQuery::new("John", "Doe", "john@example.com", "john_pw", None))
        .unwrap();

    let login = db.execute_query(LoginUserQuery::new("john@example.com", "john_pw")).unwrap();
    assert_eq!(login.get_result(), QueryResult::U64(2));
}

#[test]
fn test_registered_user_profile_has_null_status() {
    let mut db = connected_db_with_alice();
    db.execute_query(RegisterUserQuery::new(
        "John",
        "Doe",
        "john@example.com",
        "pw",
        Some("0601020304".to_string()),
    ))
    .unwrap();

    // Registration never lists the status column, so the profile's status
    // column cannot be mapped.
    let result = db.execute_query(AboutUserQuery::new(2));
    match result.err().unwrap() {
        ExecuteError::Query(query_err) => {
            assert_eq!(query_err, QueryError::MappingError("column status was null".to_string()));
        }
        other => panic!("expected a query error, got {:?}", other),
    }
}

#[test]
fn test_registered_user_without_phone_profile_mapping_error() {
    let mut db = connected_db_with_alice();
    db.execute_query(RegisterUserQuery::new("John", "Doe", "john@example.com", "pw", None))
        .unwrap();

    let result = db.execute_query(AboutUserQuery::new(2));
    match result.err().unwrap() {
        ExecuteError::Query(query_err) => {
            assert_eq!(
                query_err,
                QueryError::MappingError("column phone_number was null".to_string())
            );
        }
        other => panic!("expected a query error, got {:?}", other),
    }
}

#[test]
fn test_seed_duplicate_email_is_constraint_violation() {
    let mut db = connected_db_with_alice();
    let result = db.seed_user(
        &"Alice".to_string(),
        &"Again".to_string(),
        &"alice@example.com".to_string(),
        &"pw".to_string(),
        &None,
        &None,
    );
    match result.err().unwrap() {
        ExecuteError::Query(QueryError::ConstraintViolation(msg)) => {
            assert!(msg.contains("unique constraint"));
        }
        other => panic!("expected a constraint violation, got {:?}", other),
    }
}

#[test]
fn test_register_decision_row_count_mismatch() {
    assert!(register_decision(1).is_ok());
    match register_decision(0).err().unwrap() {
        QueryError::AffectedRowsMismatch { expected, actual } => {
            assert_eq!(expected, 1);
            assert_eq!(actual, 0);
        }
        other => panic!("expected a row-count mismatch, got {:?}", other),
    }
    match register_decision(3).err().unwrap() {
        QueryError::AffectedRowsMismatch { expected, actual } => {
            assert_eq!(expected, 1);
            assert_eq!(actual, 3);
        }
        other => panic!("expected a row-count mismatch, got {:?}", other),
    }
}

#[test]
fn test_login_decision_outcomes() {
    let email = "alice@example.com".to_string();
    let password = "password123".to_string();
    let ok = login_decision(&email, &password, Some((7, "password123".to_string()))).unwrap();
    assert_eq!(ok.get_result(), QueryResult::U64(7));
    assert_eq!(
        login_decision(&email, &password, Some((7, "other".to_string()))).err().unwrap(),
        QueryError::InvalidPassword(email.clone())
    );
    assert_eq!(
        login_decision(&email, &password, None).err().unwrap(),
        QueryError::EmailNotFound(email.clone())
    );
}

// --- ERROR CLASSIFICATION ---

#[test]
fn test_classifier_unique_constraint_message() {
    let msg = "duplicate key value violates unique constraint \"users_email_key\"".to_string();
    assert_eq!(QueryError::from(msg.clone()), QueryError::ConstraintViolation(msg));
}

#[test]
fn test_classifier_zero_rows_message() {
    let msg = "query returned an unexpected number of rows: 0 rows".to_string();
    assert_eq!(QueryError::from(msg), QueryError::NoResults);
}

#[test]
fn test_classifier_other_message_is_execution_failed() {
    let msg = "connection reset by peer".to_string();
    assert_eq!(QueryError::from(msg.clone()), QueryError::ExecutionFailed(msg));
}

#[test]
fn test_classifier_first_match_wins() {
    // A message carrying both phrases classifies by the first rule.
    let msg = "unique constraint broken after 0 rows".to_string();
    assert_eq!(QueryError::from(msg.clone()), QueryError::ConstraintViolation(msg));
}

// --- STATEMENT TEXTS ---

#[test]
fn test_statement_texts() {
    assert_eq!(
        DoesUserExistByIdQuery::new(1).request(),
        "SELECT EXISTS(SELECT 1 FROM users WHERE id = $1)".to_string()
    );
    assert_eq!(
        DoesUserExistByEmailQuery::new("a@b.c").request(),
        "SELECT EXISTS(SELECT 1 FROM users WHERE email = $1)".to_string()
    );
    assert_eq!(
        AboutUserQuery::new(1).request(),
        "SELECT first_name, last_name, email, phone_number, status FROM users WHERE id = $1"
            .to_string()
    );
}

#[test]
fn test_register_statement_arity_follows_phone() {
    let with_phone =
        RegisterUserQuery::new("J", "D", "j@d.com", "pw", Some("0601020304".to_string()));
    assert_eq!(
        with_phone.request(),
        "INSERT INTO users (first_name, last_name, email, password, phone_number) VALUES ($1, $2, $3, $4, $5)"
            .to_string()
    );
    let without_phone = RegisterUserQuery::new("J", "D", "j@d.com", "pw", None);
    assert_eq!(
        without_phone.request(),
        "INSERT INTO users (first_name, last_name, email, password) VALUES ($1, $2, $3, $4)"
            .to_string()
    );
}

#[test]
fn test_login_view_surface() {
    let view = LoginUserQueryView::new("alice@example.com".to_string(), "pw".to_string());
    assert_eq!(view.get_email(), &"alice@example.com".to_string());
    assert_eq!(view.get_password(), &"pw".to_string());
    assert_eq!(view.get_request(), "SELECT id, password FROM users WHERE email = $1".to_string());
    assert_eq!(
        view.get_raw_request(),
        "SELECT id, password FROM users WHERE email = 'alice@example.com'".to_string()
    );
    assert_eq!(view.get_query_type(), QUERY::LoginUser);
}

#[test]
fn test_connection_string() {
    let config = DbConfig::new(
        "localhost".to_string(),
        "user".to_string(),
        "secret".to_string(),
        "db".to_string(),
    );
    assert_eq!(
        config.connection_string(),
        "host=localhost user=user password=secret dbname=db".to_string()
    );
}

// --- HELPERS AND TEXT SEARCH ---

#[test]
fn test_get_boolean_from_query_result_shapes() {
    assert!(get_boolean_from_query_result(QueryResult::Boolean(true)));
    assert!(!get_boolean_from_query_result(QueryResult::Boolean(false)));
    assert!(!get_boolean_from_query_result(QueryResult::U64(1)));
    assert!(!get_boolean_from_query_result(QueryResult::Unit));
}

#[test]
fn test_str_contains_edges() {
    assert!(str_contains("unique constraint broken", "unique constraint"));
    assert!(str_contains("abc", ""));
    assert!(str_contains("", ""));
    assert!(str_contains("abcdef", "def"));
    assert!(!str_contains("abcdef", "deg"));
    assert!(!str_contains("ab", "abc"));
}

#[test]
fn test_does_user_exist_by_id_helper() {
    let mut db = connected_db_with_alice();
    assert!(does_user_exist_by_id(&mut db, 1));
    assert!(!does_user_exist_by_id(&mut db, 999));
    db.disconnect().unwrap();
    // Any failure to answer reads as false.
    assert!(!does_user_exist_by_id(&mut db, 1));
}

// --- THE FULL SCENARIO ---

#[test]
fn test_full_scenario() {
    let mut db = connected_db_with_alice();

    let exists = db.execute_query(DoesUserExistByIdQuery::new(1)).unwrap();
    assert_eq!(exists.get_result(), QueryResult::Boolean(true));

    let login = db.execute_query(LoginUserQuery::new("alice@example.com", "password123")).unwrap();
    assert_eq!(login.get_result(), QueryResult::U64(1));

    let wrong = db.execute_query(LoginUserQuery::new("alice@example.com", "wrong"));
    match wrong.err().unwrap() {
        ExecuteError::Query(query_err) => {
            assert_eq!(query_err, QueryError::InvalidPassword("alice@example.com".to_string()));
        }
        other => panic!("expected a query error, got {:?}", other),
    }

    let profile = db.execute_query(AboutUserQuery::new(1)).unwrap();
    assert_eq!(
        profile.get_result(),
        QueryResult::JSON(UserProfile {
            first_name: "Alice".to_string(),
            last_name: "Smith".to_string(),
            email: "alice@example.com".to_string(),
            phone: "0102030405".to_string(),
            status: "active".to_string(),
        })
    );

    let missing = db.execute_query(AboutUserQuery::new(999));
    match missing.err().unwrap() {
        ExecuteError::Query(query_err) => {
            assert_eq!(query_err, QueryError::InvalidId("User ID not found".to_string()));
        }
        other => panic!("expected a query error, got {:?}", other),
    }
}
