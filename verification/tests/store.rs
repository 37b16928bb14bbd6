use passcli::failure::Failure;
use passcli::store::Store;
use passcli::strmap::StrMap;

fn text(s: &str) -> String {
    String::from(s)
}

fn two_accounts() -> Store {
    let mut store = Store::new();
    store.add("a", "pass", text("pa"), false).unwrap();
    store.add("a", "email", text("a@example.org"), false).unwrap();
    store.add("b", "pass", text("pb"), false).unwrap();
    store
}

#[test]
fn new_store_is_empty() {
    let store = Store::new();
    assert!(store.get_all().is_empty());
    assert_eq!(
        store.get_account("anything").err(),
        Some(Failure::AccountNotFound(text("anything")))
    );
}

#[test]
fn add_creates_account_with_exactly_one_field() {
    let mut store = Store::new();
    assert_eq!(store.add("acct", "pass", text("v1"), false), Ok(()));
    let all = store.get_all();
    assert_eq!(all, vec![(text("acct"), vec![(text("pass"), text("v1"))])]);
}

#[test]
fn add_inserts_field_into_existing_account() {
    let mut store = Store::new();
    store.add("acct", "pass", text("v1"), false).unwrap();
    assert_eq!(store.add("acct", "email", text("me@example.org"), false), Ok(()));
    assert_eq!(store.get("acct", "pass"), Ok(&text("v1")));
    assert_eq!(store.get("acct", "email"), Ok(&text("me@example.org")));
}

#[test]
fn add_conflict_keeps_first_value() {
    let mut store = Store::new();
    assert_eq!(store.add("acct", "pass", text("v1"), false), Ok(()));
    let before = store.clone();
    assert_eq!(store.add("acct", "pass", text("v2"), false), Err(Failure::FieldExists));
    assert_eq!(store.get("acct", "pass"), Ok(&text("v1")));
    assert!(store.equals(&before));
}

#[test]
fn add_with_overwrite_replaces_value() {
    let mut store = Store::new();
    store.add("acct", "pass", text("v1"), false).unwrap();
    assert_eq!(store.add("acct", "pass", text("v2"), true), Ok(()));
    assert_eq!(store.get("acct", "pass"), Ok(&text("v2")));
    assert_eq!(store.get_all().len(), 1);
}

#[test]
fn get_reports_the_missing_name() {
    let store = two_accounts();
    assert_eq!(store.get("a", "pass"), Ok(&text("pa")));
    assert_eq!(store.get("zzz", "pass"), Err(Failure::AccountNotFound(text("zzz"))));
    assert_eq!(store.get("a", "token"), Err(Failure::FieldNotFound(text("token"))));
}

#[test]
fn get_account_returns_all_fields() {
    let store = two_accounts();
    let fields = store.get_account("a").unwrap();
    assert!(fields.contains_key("pass"));
    assert!(fields.contains_key("email"));
    assert!(!fields.contains_key("token"));
    assert_eq!(fields.get("email"), Some(&text("a@example.org")));
    let mut pairs = fields.to_pairs();
    pairs.sort();
    assert_eq!(
        pairs,
        vec![(text("email"), text("a@example.org")), (text("pass"), text("pa"))]
    );
}

#[test]
fn get_all_lists_every_account() {
    let store = two_accounts();
    let mut names: Vec<String> = store.get_all().into_iter().map(|a| a.0).collect();
    names.sort();
    assert_eq!(names, vec![text("a"), text("b")]);
}

#[test]
fn remove_field_on_empty_store_is_field_not_found() {
    let mut store = Store::new();
    assert_eq!(
        store.remove_field("missing", "x"),
        Err(Failure::FieldNotFound(text("x")))
    );
    assert!(store.get_all().is_empty());
    assert!(store.equals(&Store::new()));
}

#[test]
fn remove_field_deletes_only_that_field() {
    let mut store = two_accounts();
    assert_eq!(store.remove_field("a", "email"), Ok(()));
    assert_eq!(store.get("a", "email"), Err(Failure::FieldNotFound(text("email"))));
    assert_eq!(store.get("a", "pass"), Ok(&text("pa")));
    assert_eq!(store.get("b", "pass"), Ok(&text("pb")));
}

#[test]
fn remove_last_field_keeps_empty_account() {
    let mut store = Store::new();
    store.add("acct", "pass", text("v"), false).unwrap();
    assert_eq!(store.remove_field("acct", "pass"), Ok(()));
    assert_eq!(store.get_all(), vec![(text("acct"), vec![])]);
}

#[test]
fn remove_field_missing_field_leaves_store_unchanged() {
    let mut store = two_accounts();
    let before = store.clone();
    assert_eq!(
        store.remove_field("a", "token"),
        Err(Failure::FieldNotFound(text("token")))
    );
    assert!(store.equals(&before));
}

#[test]
fn remove_account_deletes_it() {
    let mut store = two_accounts();
    assert_eq!(store.remove_account("a"), Ok(()));
    assert_eq!(store.get_account("a").err(), Some(Failure::AccountNotFound(text("a"))));
    assert_eq!(store.get("b", "pass"), Ok(&text("pb")));
}

#[test]
fn remove_account_missing_is_account_not_found() {
    let mut store = two_accounts();
    let before = store.clone();
    assert_eq!(
        store.remove_account("nobody"),
        Err(Failure::AccountNotFound(text("nobody")))
    );
    assert!(store.equals(&before));
}

#[test]
fn remove_all_clears_everything() {
    let mut store = two_accounts();
    store.remove_all();
    assert!(store.get_all().is_empty());
}

#[test]
fn rename_collision_leaves_both_accounts() {
    let mut store = two_accounts();
    let before = store.clone();
    assert_eq!(store.rename("a", "b", false), Err(Failure::NameCollision));
    assert!(store.equals(&before));
    assert_eq!(store.get("a", "pass"), Ok(&text("pa")));
    assert_eq!(store.get("a", "email"), Ok(&text("a@example.org")));
    assert_eq!(store.get("b", "pass"), Ok(&text("pb")));
}

#[test]
fn rename_with_overwrite_replaces_destination_entirely() {
    let mut store = two_accounts();
    store.add("b", "only-b", text("x"), false).unwrap();
    assert_eq!(store.rename("a", "b", true), Ok(()));
    assert_eq!(store.get_account("a").err(), Some(Failure::AccountNotFound(text("a"))));
    assert_eq!(store.get("b", "pass"), Ok(&text("pa")));
    assert_eq!(store.get("b", "email"), Ok(&text("a@example.org")));
    assert_eq!(store.get("b", "only-b"), Err(Failure::FieldNotFound(text("only-b"))));
    assert_eq!(store.get_all().len(), 1);
}

#[test]
fn rename_to_free_name_moves_account() {
    let mut store = two_accounts();
    assert_eq!(store.rename("a", "c", false), Ok(()));
    assert_eq!(store.get("c", "pass"), Ok(&text("pa")));
    assert_eq!(store.get_account("a").err(), Some(Failure::AccountNotFound(text("a"))));
}

#[test]
fn rename_to_own_name_changes_nothing() {
    let mut store = two_accounts();
    let before = store.clone();
    assert_eq!(store.rename("a", "a", false), Ok(()));
    assert!(store.equals(&before));
}

#[test]
fn rename_missing_account_is_account_not_found() {
    let mut store = two_accounts();
    let before = store.clone();
    assert_eq!(
        store.rename("nobody", "b", true),
        Err(Failure::AccountNotFound(text("nobody")))
    );
    assert!(store.equals(&before));
}

#[test]
fn rename_field_follows_the_same_rules() {
    let mut store = two_accounts();
    let before = store.clone();
    assert_eq!(
        store.rename_field("a", "pass", "email", false),
        Err(Failure::NameCollision)
    );
    assert!(store.equals(&before));
    assert_eq!(
        store.rename_field("nobody", "pass", "p", false),
        Err(Failure::AccountNotFound(text("nobody")))
    );
    assert_eq!(
        store.rename_field("a", "token", "p", false),
        Err(Failure::FieldNotFound(text("token")))
    );
    assert!(store.equals(&before));
    assert_eq!(store.rename_field("a", "pass", "pass", false), Ok(()));
    assert!(store.equals(&before));
    assert_eq!(store.rename_field("a", "pass", "secret", false), Ok(()));
    assert_eq!(store.get("a", "secret"), Ok(&text("pa")));
    assert_eq!(store.get("a", "pass"), Err(Failure::FieldNotFound(text("pass"))));
    assert_eq!(store.rename_field("a", "secret", "email", true), Ok(()));
    assert_eq!(store.get("a", "email"), Ok(&text("pa")));
    assert_eq!(store.get_all().iter().find(|a| a.0 == "a").unwrap().1.len(), 1);
}

#[test]
fn set_value_never_creates() {
    let mut store = two_accounts();
    let before = store.clone();
    assert_eq!(
        store.set_value("a", "token", text("t")),
        Err(Failure::FieldNotFound(text("token")))
    );
    assert_eq!(
        store.set_value("nobody", "pass", text("t")),
        Err(Failure::FieldNotFound(text("pass")))
    );
    assert!(store.equals(&before));
}

#[test]
fn set_value_overwrites_in_place() {
    let mut store = two_accounts();
    assert_eq!(store.set_value("a", "pass", text("new")), Ok(()));
    assert_eq!(store.get("a", "pass"), Ok(&text("new")));
    assert_eq!(store.get("a", "email"), Ok(&text("a@example.org")));
    assert_eq!(store.get("b", "pass"), Ok(&text("pb")));
}

#[test]
fn from_entries_is_the_inverse_of_get_all() {
    let store = two_accounts();
    let copy = Store::from_entries(store.get_all());
    assert!(copy.equals(&store));
    assert!(store.equals(&copy));
}

#[test]
fn from_entries_lets_later_entries_win() {
    let store = Store::from_entries(vec![
        (text("a"), vec![(text("f"), text("1")), (text("f"), text("2"))]),
        (text("b"), vec![(text("g"), text("3"))]),
        (text("a"), vec![(text("h"), text("4"))]),
    ]);
    assert_eq!(store.get("a", "h"), Ok(&text("4")));
    assert_eq!(store.get("a", "f"), Err(Failure::FieldNotFound(text("f"))));
    assert_eq!(store.get("b", "g"), Ok(&text("3")));
    let fields = StrMap::from_pairs(vec![(text("f"), text("1")), (text("f"), text("2"))]);
    assert_eq!(fields.get("f"), Some(&text("2")));
    assert_eq!(fields.len(), 1);
}

#[test]
fn equality_ignores_order_and_sees_every_difference() {
    let mut left = Store::new();
    left.add("a", "x", text("1"), false).unwrap();
    left.add("b", "y", text("2"), false).unwrap();
    let mut right = Store::new();
    right.add("b", "y", text("2"), false).unwrap();
    right.add("a", "x", text("1"), false).unwrap();
    assert!(left.equals(&right));
    right.set_value("a", "x", text("other")).unwrap();
    assert!(!left.equals(&right));
    right.set_value("a", "x", text("1")).unwrap();
    right.add("c", "z", text("3"), false).unwrap();
    assert!(!left.equals(&right));
    assert!(left.is_within(&right));
    assert!(!right.is_within(&left));
}

#[test]
fn string_map_insert_and_remove_return_the_old_value() {
    let mut map: StrMap<String> = StrMap::new();
    assert_eq!(map.insert(text("k"), text("1")), None);
    assert_eq!(map.insert(text("k"), text("2")), Some(text("1")));
    assert_eq!(map.len(), 1);
    assert_eq!(map.key_at(0), "k");
    assert_eq!(map.value_at(0), "2");
    assert_eq!(map.remove("absent"), None);
    assert_eq!(map.remove("k"), Some(text("2")));
    assert_eq!(map.len(), 0);
    assert!(map.equals(&StrMap::new()));
}
