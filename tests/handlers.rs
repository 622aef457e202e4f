use user_service::{
    add_user_after_insert, add_user_after_lookup, delete_user_reply, get_user_filter,
    get_user_reply, greet, update_user_replacement, update_user_reply, AddStep, Body, Reply,
    User, STATUS_NOT_FOUND, STATUS_OK, STATUS_SERVER_ERROR,
};

fn user(name: &str, email: &str) -> User {
    User::new(name.to_string(), email.to_string())
}

fn text(status: u16, s: &str) -> Reply {
    Reply { status, body: Body::Text(s.to_string()) }
}

// A plain vector standing in for the collection, searched in order.
fn find(col: &[User], email: &str) -> Option<User> {
    col.iter().find(|u| u.email == email).cloned()
}

fn add(col: &mut Vec<User>, u: User) -> Reply {
    let doc = u.normalized();
    let lookup = Ok(find(col, &doc.email));
    match add_user_after_lookup(doc, &lookup) {
        AddStep::Reply(r) => r,
        AddStep::Insert(d) => {
            col.push(d);
            add_user_after_insert(&Ok(()))
        }
    }
}

fn get(col: &[User], path: &str) -> Reply {
    let q = get_user_filter(path);
    get_user_reply(Ok(find(col, &q)))
}

fn update(col: &mut Vec<User>, path: &str, body: User) -> Reply {
    let plan = update_user_replacement(path.to_string(), body);
    let mut modified: u64 = 0;
    if let Some(i) = col.iter().position(|u| u.email == plan.filter) {
        if col[i] != plan.doc {
            modified = 1;
        }
        col[i] = plan.doc.clone();
    }
    update_user_reply(&Ok(modified))
}

fn delete(col: &mut Vec<User>, path: &str) -> Reply {
    let mut deleted: u64 = 0;
    if let Some(i) = col.iter().position(|u| u.email == path) {
        col.remove(i);
        deleted = 1;
    }
    delete_user_reply(&Ok(deleted))
}

#[test]
fn greet_answers_with_fixed_text() {
    assert_eq!(greet(), text(200, "Jai Mata Di"));
}

#[test]
fn status_codes() {
    assert_eq!(STATUS_OK, 200);
    assert_eq!(STATUS_NOT_FOUND, 404);
    assert_eq!(STATUS_SERVER_ERROR, 500);
}

#[test]
fn normalized_lowercases_email_only() {
    let d = user("Alice", "Alice@Example.COM").normalized();
    assert_eq!(d, user("Alice", "alice@example.com"));
}

#[test]
fn add_user_stores_lowercased_email() {
    let mut col = Vec::new();
    let r = add(&mut col, user("alice", "Alice@Example.com"));
    assert_eq!(r, text(200, "User added successfully"));
    assert_eq!(col, vec![user("alice", "alice@example.com")]);
}

#[test]
fn add_user_repeated_is_already_available() {
    let mut col = Vec::new();
    add(&mut col, user("alice", "Alice@Example.com"));
    let r = add(&mut col, user("alice", "Alice@Example.com"));
    assert_eq!(r, text(200, "User already available"));
    assert_eq!(col.iter().filter(|u| u.email == "alice@example.com").count(), 1);
}

#[test]
fn add_user_twice_differing_in_case_stores_one() {
    let mut col = Vec::new();
    assert_eq!(add(&mut col, user("bob", "Bob@Mail.org")), text(200, "User added successfully"));
    assert_eq!(add(&mut col, user("robert", "BOB@MAIL.ORG")), text(200, "User already available"));
    assert_eq!(col, vec![user("bob", "bob@mail.org")]);
}

#[test]
fn add_user_lookup_hit_answers_without_insert() {
    let doc = user("alice", "alice@example.com");
    let step = add_user_after_lookup(doc.clone(), &Ok(Some(doc)));
    assert_eq!(step, AddStep::Reply(text(200, "User already available")));
}

#[test]
fn add_user_lookup_miss_inserts() {
    let doc = user("alice", "alice@example.com");
    let step = add_user_after_lookup(doc.clone(), &Ok(None));
    assert_eq!(step, AddStep::Insert(doc));
}

#[test]
fn add_user_lookup_failure_counts_as_absent() {
    let doc = user("alice", "alice@example.com");
    let step = add_user_after_lookup(doc.clone(), &Err("connection reset".to_string()));
    assert_eq!(step, AddStep::Insert(doc));
}

#[test]
fn add_user_insert_failure_is_server_error() {
    let r = add_user_after_insert(&Err("duplicate key".to_string()));
    assert_eq!(r, text(500, "Error: duplicate key"));
}

#[test]
fn get_user_filter_lowercases() {
    assert_eq!(get_user_filter("Foo@Bar.com"), "foo@bar.com");
    assert_eq!(get_user_filter("foo@bar.com"), "foo@bar.com");
}

#[test]
fn get_user_ignores_case_of_path() {
    let mut col = Vec::new();
    add(&mut col, user("foo", "foo@bar.com"));
    assert_eq!(get(&col, "Foo@Bar.com"), get(&col, "foo@bar.com"));
    assert_eq!(get(&col, "FOO@BAR.COM"), get(&col, "foo@bar.com"));
    let empty: Vec<User> = Vec::new();
    assert_eq!(get(&empty, "Foo@Bar.com"), get(&empty, "foo@bar.com"));
}

#[test]
fn get_user_found_answers_with_json_user() {
    let mut col = Vec::new();
    add(&mut col, user("alice", "Alice@Example.com"));
    let r = get(&col, "alice@example.com");
    assert_eq!(r, Reply { status: 200, body: Body::Json(user("alice", "alice@example.com")) });
}

#[test]
fn get_user_missing_is_not_found() {
    assert_eq!(get_user_reply(Ok(None)), text(404, "User not found"));
}

#[test]
fn get_user_failure_is_server_error_with_empty_body() {
    let r = get_user_reply(Err("timeout".to_string()));
    assert_eq!(r, Reply { status: 500, body: Body::Empty });
}

#[test]
fn update_user_replacement_keeps_path_and_lowercases_body() {
    let plan = update_user_replacement("Alice@Example.com".to_string(), user("al", "New@Example.com"));
    assert_eq!(plan.filter, "Alice@Example.com");
    assert_eq!(plan.doc, user("al", "new@example.com"));
}

#[test]
fn update_user_replies() {
    assert_eq!(update_user_reply(&Ok(1)), text(200, "User updated successfully"));
    assert_eq!(update_user_reply(&Ok(0)), text(404, "User not found in the database"));
    assert_eq!(update_user_reply(&Err("write failed".to_string())), text(500, "Error: write failed"));
}

#[test]
fn update_user_then_get_by_new_email() {
    let mut col = Vec::new();
    add(&mut col, user("alice", "alice@example.com"));
    let r = update(&mut col, "alice@example.com", user("alicia", "Alicia@Example.com"));
    assert_eq!(r, text(200, "User updated successfully"));
    let g = get(&col, "alicia@example.com");
    assert_eq!(g, Reply { status: 200, body: Body::Json(user("alicia", "alicia@example.com")) });
}

#[test]
fn update_user_path_case_must_match_exactly() {
    let mut col = Vec::new();
    add(&mut col, user("alice", "alice@example.com"));
    let r = update(&mut col, "Alice@Example.com", user("alicia", "alice@example.com"));
    assert_eq!(r, text(404, "User not found in the database"));
    assert_eq!(col, vec![user("alice", "alice@example.com")]);
}

#[test]
fn update_user_identical_document_is_not_found() {
    let mut col = Vec::new();
    add(&mut col, user("alice", "alice@example.com"));
    let r = update(&mut col, "alice@example.com", user("alice", "alice@example.com"));
    assert_eq!(r, text(404, "User not found in the database"));
}

#[test]
fn delete_user_then_get_is_not_found() {
    let mut col = Vec::new();
    add(&mut col, user("alice", "Alice@Example.com"));
    let r = delete(&mut col, "alice@example.com");
    assert_eq!(r, text(200, "User deleted successfully"));
    assert_eq!(get(&col, "alice@example.com"), text(404, "User not found"));
}

#[test]
fn delete_user_path_case_must_match_exactly() {
    let mut col = Vec::new();
    add(&mut col, user("alice", "Alice@Example.com"));
    let r = delete(&mut col, "Alice@Example.com");
    assert_eq!(r, text(404, "User not found in the database"));
    assert_eq!(col.len(), 1);
}

#[test]
fn delete_user_replies() {
    assert_eq!(delete_user_reply(&Ok(1)), text(200, "User deleted successfully"));
    assert_eq!(delete_user_reply(&Ok(0)), text(404, "User not found in the database"));
    assert_eq!(delete_user_reply(&Err("gone".to_string())), text(500, "Error: gone"));
}
