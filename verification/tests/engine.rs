use joltamp::api::{get_friends, get_info, get_self_info, is_admin, resolve_by_email, update_field};
use joltamp::register::{RequestUser, register};
use joltamp::store::Store;
use joltamp::types::{LoginError, RegistrationError, ResolutionError, UpdateError};
use joltamp::user::User;

const TODAY: u64 = 20000;

fn request(username: &str, email: &str, password: &str) -> RequestUser {
    RequestUser {
        email: String::from(email),
        password: String::from(password),
        username: String::from(username),
    }
}

fn registered(store: &mut Store, username: &str, email: &str, password: &str) -> (u128, u128) {
    register(store, request(username, email, password), TODAY).expect("registration should succeed")
}

#[test]
fn register_validates_inputs_in_order() {
    let mut store = Store::new();
    assert_eq!(
        register(&mut store, request("", "a@x.com", "secret"), TODAY),
        Err(RegistrationError::EmptyField)
    );
    assert_eq!(
        register(&mut store, request("alice", "", "secret"), TODAY),
        Err(RegistrationError::EmptyField)
    );
    assert_eq!(
        register(&mut store, request("alice", "a@x.com", ""), TODAY),
        Err(RegistrationError::EmptyField)
    );
    assert_eq!(
        register(&mut store, request("alice", "ax.com", "secret"), TODAY),
        Err(RegistrationError::InvalidEmail)
    );
    assert_eq!(
        register(&mut store, request("al", "a@x.com", "secret"), TODAY),
        Err(RegistrationError::TooShort)
    );
    assert_eq!(
        register(&mut store, request("alice", "a@x.com", "pw"), TODAY),
        Err(RegistrationError::TooShort)
    );
    // An empty email is reported as the empty field, before the @ check.
    assert_eq!(
        register(&mut store, request("alice", "", "secret"), TODAY),
        Err(RegistrationError::EmptyField)
    );
}

#[test]
fn register_rejects_duplicate_username() {
    let mut store = Store::new();
    registered(&mut store, "alice", "alice@x.com", "secret123");
    assert_eq!(
        register(&mut store, request("alice", "other@x.com", "secret123"), TODAY),
        Err(RegistrationError::AlreadyExists)
    );
}

#[test]
fn register_rejects_duplicate_email() {
    let mut store = Store::new();
    registered(&mut store, "alice", "alice@x.com", "secret123");
    assert_eq!(
        register(&mut store, request("bob", "alice@x.com", "secret123"), TODAY),
        Err(RegistrationError::AlreadyExists)
    );
}

#[test]
fn register_populates_new_row() {
    let mut store = Store::new();
    let (jwt, user_id) = registered(&mut store, "alice", "alice@x.com", "secret123");
    let user = get_self_info(&store, jwt).expect("token should resolve");
    assert_eq!(user.user_id, user_id);
    assert_eq!(user.jwt, jwt);
    assert_eq!(user.username, "alice");
    assert_eq!(user.display_name, "alice");
    assert_eq!(user.email, "alice@x.com");
    assert_eq!(user.created_at, TODAY);
    assert_eq!(user.status, 0);
    assert_eq!(user.is_admin, Some(false));
    assert!(user.friends.is_empty());
    assert!(user.badges.is_empty());
    assert_eq!(user.banner_color, None);
    assert_eq!(user.background_color, None);
    assert_eq!(user.description, None);
    assert_ne!(user.password_hash, "secret123");
}

#[test]
fn resolution_uses_exactly_one_key() {
    let mut store = Store::new();
    let (jwt_a, id_a) = registered(&mut store, "alice", "alice@x.com", "secret123");
    let (jwt_b, id_b) = registered(&mut store, "bob", "bob@x.com", "secret123");

    // A partial user carrying only alice's id resolves to alice.
    let only_id = User { user_id: Some(id_a), jwt: None, email: None };
    let resolved = only_id.fill_info(&store).expect("id should resolve");
    assert_eq!(resolved.username, "alice");

    // Extra keys pointing at bob are ignored while the id is set.
    let mixed = User {
        user_id: Some(id_a),
        jwt: Some(jwt_b),
        email: Some(String::from("bob@x.com")),
    };
    let resolved = mixed.fill_info(&store).expect("id should resolve");
    assert_eq!(resolved.username, "alice");
    assert_eq!(resolved.user_id, id_a);

    // Without an id, the token decides before the email.
    let token_and_email = User {
        user_id: None,
        jwt: Some(jwt_a),
        email: Some(String::from("bob@x.com")),
    };
    let resolved = token_and_email.fill_info(&store).expect("token should resolve");
    assert_eq!(resolved.username, "alice");
    assert_eq!(resolved.user_id, id_a);

    // No key at all is rejected without touching the store.
    let empty = User { user_id: None, jwt: None, email: None };
    assert_eq!(
        empty.fill_info(&store).map(|u| u.user_id),
        Err(ResolutionError::NoKeyProvided)
    );
    let _ = (jwt_b, id_b);
}

#[test]
fn update_rejects_is_admin() {
    let mut store = Store::new();
    let (jwt, user_id) = registered(&mut store, "alice", "alice@x.com", "secret123");
    let r = update_field(&mut store, jwt, "is_admin", String::from("true"));
    assert!(matches!(r, Err(UpdateError::FieldNotAllowed)));
    assert_eq!(is_admin(&store, user_id), Ok(false));
}

#[test]
fn update_rejects_other_protected_fields() {
    let mut store = Store::new();
    let (jwt, user_id) = registered(&mut store, "alice", "alice@x.com", "secret123");
    for field in ["user_id", "jwt", "username", "created_at", "badges", "friends", ""] {
        let r = update_field(&mut store, jwt, field, String::from("x"));
        assert!(matches!(r, Err(UpdateError::FieldNotAllowed)));
    }
    let user = get_info(&store, user_id).expect("id should resolve");
    assert_eq!(user.username, "alice");
}

#[test]
fn update_status_accepts_codes_up_to_three() {
    let mut store = Store::new();
    let (jwt, _) = registered(&mut store, "alice", "alice@x.com", "secret123");
    for (value, expected) in [("0", 0i8), ("1", 1), ("2", 2), ("3", 3)] {
        let user = update_field(&mut store, jwt, "status", String::from(value))
            .expect("status update should succeed");
        assert_eq!(user.status, expected);
        assert_eq!(get_self_info(&store, jwt).unwrap().status, expected);
    }
}

#[test]
fn update_status_rejects_bad_codes() {
    let mut store = Store::new();
    let (jwt, _) = registered(&mut store, "alice", "alice@x.com", "secret123");
    for value in ["4", "abc", "", "-1", "256", "2x"] {
        let r = update_field(&mut store, jwt, "status", String::from(value));
        assert!(matches!(r, Err(UpdateError::InvalidStatus)), "value {:?}", value);
    }
    assert_eq!(get_self_info(&store, jwt).unwrap().status, 0);
}

#[test]
fn update_email_validates() {
    let mut store = Store::new();
    let (jwt, _) = registered(&mut store, "alice", "alice@x.com", "secret123");
    for value in ["no-at-sign", "@x", ""] {
        let r = update_field(&mut store, jwt, "email", String::from(value));
        assert!(matches!(r, Err(UpdateError::InvalidEmail)), "value {:?}", value);
    }
    let user = update_field(&mut store, jwt, "email", String::from("new@x.com"))
        .expect("email update should succeed");
    assert_eq!(user.email, "new@x.com");
    assert_eq!(get_self_info(&store, jwt).unwrap().email, "new@x.com");
}

#[test]
fn update_profile_fields() {
    let mut store = Store::new();
    let (jwt, _) = registered(&mut store, "alice", "alice@x.com", "secret123");
    update_field(&mut store, jwt, "display_name", String::from("Alice A."))
        .expect("display name update should succeed");
    update_field(&mut store, jwt, "banner_color", String::from("#112233"))
        .expect("banner color update should succeed");
    update_field(&mut store, jwt, "background_color", String::from("#445566"))
        .expect("background color update should succeed");
    update_field(&mut store, jwt, "description", String::from("hello"))
        .expect("description update should succeed");
    let user = get_self_info(&store, jwt).unwrap();
    assert_eq!(user.display_name, "Alice A.");
    assert_eq!(user.banner_color, Some(String::from("#112233")));
    assert_eq!(user.background_color, Some(String::from("#445566")));
    assert_eq!(user.description, Some(String::from("hello")));
    assert_eq!(user.username, "alice");
}

#[test]
fn update_password_stores_hash() {
    let mut store = Store::new();
    let (jwt, _) = registered(&mut store, "alice", "alice@x.com", "secret123");
    let user = update_field(&mut store, jwt, "password", String::from("newsecret"))
        .expect("password update should succeed");
    assert_ne!(user.password_hash, "newsecret");
    let login_req = joltamp::login::RequestUser {
        email: String::from("alice@x.com"),
        password: String::from("newsecret"),
    };
    assert!(joltamp::login::login(&store, &login_req).is_ok());
}

#[test]
fn update_with_unknown_token_is_unauthenticated() {
    let mut store = Store::new();
    registered(&mut store, "alice", "alice@x.com", "secret123");
    let r = update_field(&mut store, 12345, "status", String::from("1"));
    assert!(matches!(r, Err(UpdateError::Unauthenticated)));
}

#[test]
fn login_roundtrip() {
    let mut store = Store::new();
    let (jwt, user_id) = registered(&mut store, "alice", "alice@x.com", "secret123");
    let ok = joltamp::login::login(
        &store,
        &joltamp::login::RequestUser {
            email: String::from("alice@x.com"),
            password: String::from("secret123"),
        },
    );
    assert_eq!(ok, Ok((jwt, user_id)));
    let wrong = joltamp::login::login(
        &store,
        &joltamp::login::RequestUser {
            email: String::from("alice@x.com"),
            password: String::from("wrong"),
        },
    );
    assert_eq!(wrong, Err(LoginError::InvalidPassword));
    let unknown = joltamp::login::login(
        &store,
        &joltamp::login::RequestUser {
            email: String::from("nobody@x.com"),
            password: String::from("secret123"),
        },
    );
    assert_eq!(unknown, Err(LoginError::NotFound));
}

#[test]
fn set_status_through_payload() {
    let mut store = Store::new();
    let (jwt, _) = registered(&mut store, "alice", "alice@x.com", "secret123");
    joltamp::status::set_status(&mut store, jwt, joltamp::status::RequestUser { status: 2 })
        .expect("status change should succeed");
    assert_eq!(get_self_info(&store, jwt).unwrap().status, 2);
    let r = joltamp::status::set_status(&mut store, jwt, joltamp::status::RequestUser { status: 4 });
    assert!(matches!(r, Err(UpdateError::InvalidStatus)));
    let r = joltamp::status::set_status(&mut store, 999, joltamp::status::RequestUser { status: 1 });
    assert!(matches!(r, Err(UpdateError::Unauthenticated)));
}

#[test]
fn end_to_end_scenario() {
    let mut store = Store::new();
    let (token, user_id) =
        register(&mut store, request("alice", "alice@x.com", "secret123"), TODAY)
            .expect("registration should succeed");

    let user = get_self_info(&store, token).expect("token should resolve");
    assert_eq!(user.username, "alice");
    assert_eq!(user.status, 0);
    assert_eq!(user.is_admin, Some(false));
    assert_eq!(user.user_id, user_id);

    update_field(&mut store, token, "status", String::from("2"))
        .expect("status update should succeed");
    let user = get_self_info(&store, token).expect("token should resolve");
    assert_eq!(user.status, 2);

    assert_eq!(
        resolve_by_email(&store, "nobody@x.com").map(|u| u.user_id),
        Err(ResolutionError::NotFound)
    );
}

#[test]
fn request_error_carries_message() {
    let e = joltamp::types::RequestError::from(String::from("Incorrect userId"));
    assert_eq!(e.message(), "Incorrect userId");
}

#[test]
fn empty_friends_list() {
    let mut store = Store::new();
    let (jwt, _) = registered(&mut store, "alice", "alice@x.com", "secret123");
    let friends = get_friends(&store, jwt).expect("token should resolve");
    assert!(friends.is_empty());
    assert!(matches!(
        get_friends(&store, 424242),
        Err(ResolutionError::NotFound)
    ));
}
