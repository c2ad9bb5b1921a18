use my_api::handlers::{create_user, get_user, home, list_users};
use my_api::ids::uuid_v4;
use my_api::routes::{route_table, Method};
use my_api::types::{ApiError, CreateUser};

#[test]
fn route_table_declares_four_endpoints() {
    let routes = route_table();
    assert_eq!(routes.len(), 4);
    assert_eq!(routes[0].method, Method::Get);
    assert_eq!(routes[0].path, "/");
    assert_eq!(routes[1].method, Method::Get);
    assert_eq!(routes[1].path, "/users");
    assert_eq!(routes[2].method, Method::Get);
    assert_eq!(routes[2].path, "/users/{id}");
    assert_eq!(routes[3].method, Method::Post);
    assert_eq!(routes[3].path, "/users");
}

#[test]
fn home_returns_fixed_descriptor() {
    let info = home();
    assert_eq!(info.name, "my-api");
    assert_eq!(info.version, "0.1.0");
}

#[test]
fn get_user_one_returns_alice() {
    let u = get_user("1").unwrap();
    assert_eq!(u.id, "1");
    assert_eq!(u.name, "Alice");
    assert_eq!(u.email, "alice@example.com");
}

#[test]
fn get_user_two_returns_bob() {
    let u = get_user("2").unwrap();
    assert_eq!(u.id, "2");
    assert_eq!(u.name, "Bob");
    assert_eq!(u.email, "bob@example.com");
}

#[test]
fn get_user_other_ids_return_not_found() {
    for id in ["3", "0", "", "10", "alice", "1 "] {
        match get_user(id) {
            Ok(_) => panic!("id {:?} should not be found", id),
            Err(ApiError::NotFound { message }) => assert_eq!(message, "User not found"),
        }
    }
}

#[test]
fn list_users_returns_two_entries_and_matching_total() {
    let list = list_users();
    assert_eq!(list.users.len(), 2);
    assert_eq!(list.total, 2);
    assert_eq!(list.total, list.users.len() as i64);
    assert_eq!(list.users[0].id, "1");
    assert_eq!(list.users[0].name, "Alice");
    assert_eq!(list.users[0].email, "alice@example.com");
    assert_eq!(list.users[1].id, "2");
    assert_eq!(list.users[1].name, "Bob");
    assert_eq!(list.users[1].email, "bob@example.com");
}

#[test]
fn create_user_echoes_name_and_email() {
    let body = CreateUser { name: "X".to_owned(), email: "y@z.co".to_owned() };
    let entropy: [u8; 16] = [7; 16];
    let u = create_user(body, &entropy);
    assert_eq!(u.name, "X");
    assert_eq!(u.email, "y@z.co");
    assert_eq!(u.id.len(), 36);
}

#[test]
fn create_user_ids_distinct_for_distinct_entropy() {
    let body1 = CreateUser { name: "X".to_owned(), email: "y@z.co".to_owned() };
    let body2 = CreateUser { name: "X".to_owned(), email: "y@z.co".to_owned() };
    let u1 = create_user(body1, &[1; 16]);
    let u2 = create_user(body2, &[2; 16]);
    assert_ne!(u1.id, u2.id);
}

#[test]
fn uuid_v4_formats_expected_string() {
    let entropy: [u8; 16] = [
        0x00, 0x01, 0x02, 0x03, 0x04, 0x05, 0x06, 0x07, 0x08, 0x09, 0x0a, 0x0b, 0x0c, 0x0d, 0x0e,
        0x0f,
    ];
    assert_eq!(uuid_v4(&entropy), "00010203-0405-4607-8809-0a0b0c0d0e0f");
}

#[test]
fn uuid_v4_forces_version_and_variant() {
    let id = uuid_v4(&[0xff; 16]);
    assert_eq!(id, "ffffffff-ffff-4fff-bfff-ffffffffffff");
    let chars: Vec<char> = id.chars().collect();
    assert_eq!(chars.len(), 36);
    assert_eq!(chars[8], '-');
    assert_eq!(chars[13], '-');
    assert_eq!(chars[18], '-');
    assert_eq!(chars[23], '-');
    assert_eq!(chars[14], '4');
    assert!(matches!(chars[19], '8' | '9' | 'a' | 'b'));
}

#[test]
fn create_user_payload_constraints() {
    let ok = CreateUser { name: "X".to_owned(), email: "y@z.co".to_owned() };
    assert!(ok.is_valid());
    let short_name = CreateUser { name: "".to_owned(), email: "y@z.co".to_owned() };
    assert!(!short_name.is_valid());
    let short_email = CreateUser { name: "X".to_owned(), email: "a@b.".to_owned() };
    assert!(!short_email.is_valid());
    let edge_email = CreateUser { name: "X".to_owned(), email: "a@b.c".to_owned() };
    assert!(edge_email.is_valid());
}

#[test]
fn not_found_error_carries_message() {
    let e = ApiError::NotFound { message: "User not found".to_owned() };
    assert_eq!(e.message(), "User not found");
}
