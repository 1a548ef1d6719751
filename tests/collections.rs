use house_keeper::accounts::{authenticate, find_token, login, login_with_token};
use house_keeper::error::AppError;
use house_keeper::house::{CreateHouseForm, House, HouseMember};
use house_keeper::houses::{
    add_house, check_house_access, check_house_owner, create_house, delete_house, find_house,
    members_for, my_houses, set_house_members,
};
use house_keeper::user::User;

fn user(id: &str, name: &str, password: &str, token: &str) -> User {
    User {
        id: id.to_string(),
        username: name.to_string(),
        password: password.to_string(),
        token: token.to_string(),
    }
}

fn house(id: &str, creator: &str, members: &[&str]) -> House {
    House {
        id: id.to_string(),
        name: format!("house {}", id),
        creator: creator.to_string(),
        members: members
            .iter()
            .map(|m| HouseMember { user_id: m.to_string(), username: format!("name-{}", m) })
            .collect(),
    }
}

fn users() -> Vec<User> {
    vec![
        user("u1", "alice", "pw1", "t1"),
        user("u2", "bob", "pw2", "t2"),
        user("u3", "carol", "pw3", "t3"),
    ]
}

#[test]
fn login_sets_the_token() {
    let mut us = users();
    assert_eq!(login_with_token(&mut us, "bob", "pw2", "fresh".to_string()), Ok(()));
    assert_eq!(us[1].token, "fresh");
    assert_eq!(us[1].username, "bob");
    assert_eq!(us[1].password, "pw2");
    assert_eq!(us[0].token, "t1");
    assert_eq!(us[2].token, "t3");
}

#[test]
fn login_with_wrong_password_changes_nothing() {
    let mut us = users();
    assert_eq!(
        login_with_token(&mut us, "bob", "nope", "fresh".to_string()),
        Err(AppError::PasswordError)
    );
    assert_eq!(us[1].token, "t2");
}

#[test]
fn login_of_unknown_user() {
    let mut us = users();
    assert_eq!(
        login_with_token(&mut us, "dave", "pw", "fresh".to_string()),
        Err(AppError::UserNotFound)
    );
}

#[test]
fn login_issues_a_fresh_token() {
    let mut us = users();
    let token = login(&mut us, "alice", "pw1").unwrap();
    assert_eq!(us[0].token, token);
    assert_ne!(token, "t1");
    assert_eq!(token.len(), 36);
    assert_eq!(login(&mut us, "alice", "bad"), Err(AppError::PasswordError));
}

#[test]
fn authenticate_by_token() {
    let u = authenticate(Some("t3".to_string()), Ok(users())).unwrap();
    assert_eq!(u.id, "u3");
    assert_eq!(u.username, "carol");
    assert!(matches!(
        authenticate(None, Ok(users())),
        Err(AppError::AuthenticationRequired)
    ));
    assert!(matches!(
        authenticate(Some("zz".to_string()), Ok(users())),
        Err(AppError::AuthenticationRequired)
    ));
    assert!(matches!(
        authenticate(Some("t1".to_string()), Err(AppError::NotFound)),
        Err(AppError::AuthenticationRequired)
    ));
    assert_eq!(find_token(&users(), "t2"), Some(1));
}

#[test]
fn create_house_appends_and_returns_its_document() {
    let mut hs = vec![house("h0", "u2", &[])];
    let creator = user("u1", "alice", "pw1", "t1");
    let form = CreateHouseForm { name: "Home".to_string() };
    let (id, detail) = create_house(&mut hs, &form, &creator);
    assert_eq!(hs.len(), 2);
    assert_eq!(hs[1].id, id);
    assert_eq!(hs[1].name, "Home");
    assert_eq!(hs[1].creator, "u1");
    assert!(hs[1].members.is_empty());
    assert_eq!(detail.name, "Home");
    assert!(detail.items.is_empty());
    assert_eq!(id.len(), 36);
    assert_ne!(detail.version, id);
}

#[test]
fn add_house_uses_the_given_identifiers() {
    let mut hs = vec![];
    let creator = user("u1", "alice", "pw1", "t1");
    let form = CreateHouseForm { name: "Cabin".to_string() };
    let d = add_house(&mut hs, &form, &creator, "h9".to_string(), "v9".to_string());
    assert_eq!(hs[0].id, "h9");
    assert_eq!(d.version, "v9");
    assert_eq!(d.name, "Cabin");
}

#[test]
fn my_houses_lists_created_and_joined() {
    let hs = vec![
        house("h1", "u1", &[]),
        house("h2", "u2", &["u1"]),
        house("h3", "u2", &["u3"]),
        house("h4", "u3", &["u2", "u1"]),
    ];
    let mine = my_houses(hs, "u1");
    let ids: Vec<&str> = mine.iter().map(|h| h.id.as_str()).collect();
    assert_eq!(ids, vec!["h1", "h2", "h4"]);
    assert!(my_houses(vec![], "u1").is_empty());
}

#[test]
fn house_access_checks() {
    let hs = vec![house("h1", "u1", &["u2"]), house("h2", "u2", &[])];
    assert_eq!(find_house(&hs, "h2"), Some(1));
    assert_eq!(find_house(&hs, "h3"), None);
    assert_eq!(check_house_access(&hs, "h1", "u2"), Ok(0));
    assert_eq!(check_house_access(&hs, "h1", "u1"), Ok(0));
    assert_eq!(check_house_access(&hs, "h2", "u1"), Err(AppError::PermissionDenied));
    assert_eq!(check_house_access(&hs, "h9", "u1"), Err(AppError::HouseNotFound));
    assert_eq!(check_house_owner(&hs, "h1", "u2"), Err(AppError::PermissionDenied));
    assert_eq!(check_house_owner(&hs, "h1", "u1"), Ok(0));
}

#[test]
fn delete_house_by_its_creator() {
    let mut hs = vec![house("h1", "u1", &[]), house("h2", "u2", &[]), house("h3", "u1", &[])];
    assert_eq!(delete_house(&mut hs, "h2", "u1"), Err(AppError::PermissionDenied));
    assert_eq!(hs.len(), 3);
    assert_eq!(delete_house(&mut hs, "h7", "u1"), Err(AppError::HouseNotFound));
    assert_eq!(hs.len(), 3);
    assert_eq!(delete_house(&mut hs, "h2", "u2"), Ok(()));
    let ids: Vec<&str> = hs.iter().map(|h| h.id.as_str()).collect();
    assert_eq!(ids, vec!["h1", "h3"]);
}

#[test]
fn members_resolve_by_name_in_order() {
    let names = vec!["carol".to_string(), "nobody".to_string(), "alice".to_string()];
    let ms = members_for(&users(), &names);
    assert_eq!(ms.len(), 2);
    assert_eq!(ms[0].user_id, "u3");
    assert_eq!(ms[0].username, "carol");
    assert_eq!(ms[1].user_id, "u1");
}

#[test]
fn set_members_of_own_house() {
    let mut hs = vec![house("h1", "u1", &["u9"]), house("h2", "u2", &[])];
    let names = vec!["bob".to_string(), "ghost".to_string()];
    assert_eq!(set_house_members(&mut hs, "h1", "u1", &users(), &names), Ok(()));
    assert_eq!(hs[0].members.len(), 1);
    assert_eq!(hs[0].members[0].user_id, "u2");
    assert_eq!(hs[0].members[0].username, "bob");
    assert_eq!(hs[0].name, "house h1");
    assert_eq!(
        set_house_members(&mut hs, "h2", "u1", &users(), &names),
        Err(AppError::PermissionDenied)
    );
    assert!(hs[1].members.is_empty());
    assert_eq!(
        set_house_members(&mut hs, "hx", "u1", &users(), &names),
        Err(AppError::HouseNotFound)
    );
}

#[test]
fn new_records_get_fresh_identifiers() {
    let u = User::new("alice", "pw");
    assert_eq!(u.username, "alice");
    assert_eq!(u.password, "pw");
    assert_ne!(u.id, u.token);
    let h = House::new("Home", "u1");
    assert_eq!(h.name, "Home");
    assert_eq!(h.creator, "u1");
    assert!(h.members.is_empty());
    assert_eq!(h.id.len(), 36);
}
