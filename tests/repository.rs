use bloom_users::models::{BloomUser, UserRepository};

fn user(id: i32, name: &str, email: &str) -> BloomUser {
    BloomUser { id, name: name.to_string(), email: email.to_string() }
}

fn ids(rows: &[BloomUser]) -> Vec<i32> {
    rows.iter().map(|u| u.id).collect()
}

#[test]
fn find_by_name_with_no_match_is_empty_not_an_error() {
    let rows = vec![user(1, "Bob", "bob@example.com")];
    let r = UserRepository::find_by_name::<String>(Ok(rows), "Ada".to_string());
    assert_eq!(r.map(|v| v.len()), Ok(0));
}

#[test]
fn find_by_name_on_empty_store_is_empty() {
    let r = UserRepository::find_by_name::<String>(Ok(Vec::new()), "Ada".to_string());
    assert_eq!(r.map(|v| v.len()), Ok(0));
}

#[test]
fn find_by_name_returns_every_match_in_store_order() {
    let rows = vec![
        user(9, "Ada", "a9@example.com"),
        user(2, "Bob", "bob@example.com"),
        user(4, "Ada", "a4@example.com"),
        user(1, "Ada", "a1@example.com"),
    ];
    let r = UserRepository::find_by_name::<String>(Ok(rows), "Ada".to_string()).unwrap();
    assert_eq!(ids(&r), vec![9, 4, 1]);
    assert_eq!(r[1].email, "a4@example.com");
}

#[test]
fn find_by_name_keeps_all_rows_when_all_match() {
    let rows = vec![user(3, "Ada", "x@example.com"), user(1, "Ada", "y@example.com")];
    let r = UserRepository::find_by_name::<String>(Ok(rows), "Ada".to_string()).unwrap();
    assert_eq!(ids(&r), vec![3, 1]);
}

#[test]
fn find_by_name_matches_exactly() {
    let rows = vec![user(1, "ada", "x@example.com"), user(2, "Ada ", "y@example.com")];
    let r = UserRepository::find_by_name::<String>(Ok(rows), "Ada".to_string()).unwrap();
    assert!(r.is_empty());
}

#[test]
fn find_by_name_passes_the_error_on() {
    let r = UserRepository::find_by_name::<String>(Err("timeout".to_string()), "Ada".to_string());
    assert_eq!(r.map(|v| v.len()), Err("timeout".to_string()));
}

#[test]
fn find_by_id_picks_the_row_with_that_identifier() {
    let rows = vec![user(3, "Bob", "bob@example.com"), user(42, "Ada", "ada@example.com")];
    let r = UserRepository::find_by_id::<String>(Ok(rows), 42).unwrap();
    assert_eq!(r.map(|u| (u.id, u.name)), Some((42, "Ada".to_string())));
}

#[test]
fn find_by_id_without_a_match_is_none() {
    let rows = vec![user(3, "Bob", "bob@example.com")];
    let r = UserRepository::find_by_id::<String>(Ok(rows), 42).unwrap();
    assert!(r.is_none());
}

#[test]
fn find_by_id_passes_the_error_on() {
    let r = UserRepository::find_by_id::<u8>(Err(7), 42);
    assert_eq!(r.map(|o| o.is_none()), Err(7));
}

#[test]
fn duplicate_keeps_every_field() {
    let u = user(5, "Cy", "cy@example.com");
    let d = u.duplicate();
    assert_eq!((d.id, d.name, d.email), (5, "Cy".to_string(), "cy@example.com".to_string()));
}
