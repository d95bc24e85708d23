use issue_bot::issue::Issue;
use issue_bot::store::Store;
use issue_bot::token::Token;

fn issue(id: i64, token: u128) -> Issue {
    Issue {
        id,
        submitter: "a@x.com".to_string(),
        token: Token { value: token },
        created_at: "2024-01-01T00:00:00.000Z".to_string(),
        anonymous: false,
        subscribed: true,
        title: "Crash on save".to_string(),
        watermark: String::new(),
    }
}

#[test]
fn empty_store_finds_nothing() {
    let store = Store::new();
    assert_eq!(store.len(), 0);
    assert!(store.find_by_token(Token { value: 1 }).is_none());
    assert!(store.list_all().is_empty());
}

#[test]
fn insert_adds_rows_in_order() {
    let mut store = Store::new();
    assert!(store.insert(issue(1, 10)));
    assert!(store.insert(issue(2, 20)));
    assert_eq!(store.len(), 2);
    let all = store.list_all();
    assert_eq!(all[0].id, 1);
    assert_eq!(all[1].id, 2);
    assert_eq!(store.find_by_token(Token { value: 20 }).map(|i| i.id), Some(2));
    assert!(store.find_by_token(Token { value: 30 }).is_none());
}

#[test]
fn insert_refuses_a_taken_token_or_number() {
    let mut store = Store::new();
    assert!(store.insert(issue(1, 10)));
    assert!(!store.insert(issue(2, 10)));
    assert!(!store.insert(issue(1, 20)));
    assert_eq!(store.len(), 1);
    assert_eq!(store.list_all()[0].token, Token { value: 10 });
}

#[test]
fn set_subscribed_changes_one_row() {
    let mut store = Store::new();
    store.insert(issue(1, 10));
    store.insert(issue(2, 20));
    assert_eq!(store.set_subscribed(Token { value: 20 }, false), 1);
    assert_eq!(store.set_subscribed(Token { value: 30 }, false), 0);
    let all = store.list_all();
    assert!(all[0].subscribed);
    assert!(!all[1].subscribed);
    assert_eq!(all[1].title, "Crash on save");
}

#[test]
fn set_watermark_changes_one_row() {
    let mut store = Store::new();
    store.insert(issue(1, 10));
    store.insert(issue(2, 20));
    assert_eq!(store.set_watermark(1, "2024-01-02T00:00:00Z".to_string()), 1);
    assert_eq!(store.set_watermark(3, "2024-01-02T00:00:00Z".to_string()), 0);
    let all = store.list_all();
    assert_eq!(all[0].watermark, "2024-01-02T00:00:00Z");
    assert_eq!(all[1].watermark, "");
    assert!(all[0].subscribed);
}
