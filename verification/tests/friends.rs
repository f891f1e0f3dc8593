use joltamp::api::get_friends;
use joltamp::friend::Friend;
use joltamp::store::Store;
use joltamp::types::ResolutionError;
use joltamp::user::CompleteUser;

fn row(user_id: u128, jwt: u128, username: &str, friends: Vec<(u128, i8)>) -> CompleteUser {
    CompleteUser {
        created_at: 20000,
        user_id,
        jwt,
        username: String::from(username),
        email: format!("{}@x.com", username),
        password_hash: String::from("$argon2id$stub"),
        display_name: String::from(username),
        friends,
        badges: Vec::new(),
        status: 0,
        banner_color: None,
        background_color: None,
        is_admin: Some(false),
        description: None,
    }
}

#[test]
fn aggregation_fills_each_peer() {
    let mut store = Store::new();
    store.push_row(row(1, 101, "alice", vec![(2, 1), (3, 2)]));
    let mut bob = row(2, 102, "bob", Vec::new());
    bob.status = 3;
    bob.banner_color = Some(String::from("#101010"));
    bob.badges = vec![77, 78];
    store.push_row(bob);
    store.push_row(row(3, 103, "carol", Vec::new()));

    let friends = get_friends(&store, 101).expect("token should resolve");
    assert_eq!(friends.len(), 2);

    assert_eq!(friends[0].user_id, 2);
    assert_eq!(friends[0].friendstatus, 1);
    assert_eq!(friends[0].username, Some(String::from("bob")));
    assert_eq!(friends[0].displayname, Some(String::from("bob")));
    assert_eq!(friends[0].status, Some(3));
    assert_eq!(friends[0].bannercolor, Some(String::from("#101010")));
    assert_eq!(friends[0].backgroundcolor, None);
    assert_eq!(friends[0].badges, Some(vec![77, 78]));

    assert_eq!(friends[1].user_id, 3);
    assert_eq!(friends[1].friendstatus, 2);
    assert_eq!(friends[1].username, Some(String::from("carol")));
}

#[test]
fn aggregation_skips_missing_peers() {
    let mut store = Store::new();
    store.push_row(row(1, 101, "alice", vec![(9, 1), (2, 2)]));
    store.push_row(row(2, 102, "bob", Vec::new()));

    let friends = get_friends(&store, 101).expect("token should resolve");
    assert_eq!(friends.len(), 1);
    assert_eq!(friends[0].user_id, 2);
    assert_eq!(friends[0].friendstatus, 2);
}

#[test]
fn fill_info_reads_first_matching_row() {
    let mut store = Store::new();
    store.push_row(row(2, 102, "bob", Vec::new()));
    let filled = Friend::from_uuid(2, 1).fill_info(&store).expect("peer exists");
    assert_eq!(filled.friendstatus, 1);
    assert_eq!(filled.username, Some(String::from("bob")));

    let missing = Friend::from_uuid(5, 1).fill_info(&store);
    assert!(matches!(missing, Err(ResolutionError::NotFound)));
}
