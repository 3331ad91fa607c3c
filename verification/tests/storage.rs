use syndicator::store::Database;
use syndicator::story::{Story, Timestamp};

fn open_store() -> Database {
    let connection = rusqlite::Connection::open_in_memory().unwrap();
    let database = Database::new(connection);
    database.init().unwrap();
    database
}

fn story(feed_url: &str, guid: Option<&str>, title: &str) -> Story {
    Story {
        title: Some(title.to_string()),
        guid: guid.map(str::to_string),
        description: Some(format!("about {}", title)),
        pub_date: Some(Timestamp { secs: 1136214245, offset_secs: 0 }),
        feed_url: feed_url.to_string(),
    }
}

#[test]
fn inserted_story_is_retrievable_and_absent_key_is_not() {
    let mut db = open_store();
    let s = story("http://a.example/feed", Some("abc"), "Hello");
    Story::insert(&mut db, s).unwrap();
    assert_eq!(db.story_exists("http://a.example/feed", "abc").unwrap(), true);
    assert_eq!(db.story_exists("http://a.example/feed", "other").unwrap(), false);
    assert_eq!(db.story_exists("http://b.example/feed", "abc").unwrap(), false);
}

#[test]
fn found_story_is_the_stored_row() {
    let mut db = open_store();
    let s = story("http://a.example/feed", Some("abc"), "Hello");
    Story::insert(&mut db, s).unwrap();
    let found = Story::find_by_feed_url_and_guid(&db, "http://a.example/feed", "abc").unwrap();
    assert_eq!(found.title.as_deref(), Some("Hello"));
    assert_eq!(found.guid.as_deref(), Some("abc"));
    assert_eq!(found.description.as_deref(), Some("about Hello"));
    assert_eq!(found.pub_date, Some(Timestamp { secs: 1136214245, offset_secs: 0 }));
    assert_eq!(found.feed_url, "http://a.example/feed");
    assert!(Story::find_by_feed_url_and_guid(&db, "http://a.example/feed", "nope").is_none());
}

#[test]
fn second_insert_of_same_key_is_rejected() {
    let mut db = open_store();
    Story::insert(&mut db, story("http://a.example/feed", Some("abc"), "Hello")).unwrap();
    let again = Story::insert(&mut db, story("http://a.example/feed", Some("abc"), "Changed"));
    assert!(again.is_err());
    let found = Story::find_by_feed_url_and_guid(&db, "http://a.example/feed", "abc").unwrap();
    assert_eq!(found.title.as_deref(), Some("Hello"));
}

#[test]
fn same_guid_under_another_feed_is_a_different_key() {
    let mut db = open_store();
    Story::insert(&mut db, story("http://a.example/feed", Some("abc"), "Hello")).unwrap();
    Story::insert(&mut db, story("http://b.example/feed", Some("abc"), "World")).unwrap();
    assert!(db.story_exists("http://a.example/feed", "abc").unwrap());
    assert!(db.story_exists("http://b.example/feed", "abc").unwrap());
}

#[test]
fn stories_without_guid_are_always_new() {
    let mut db = open_store();
    Story::insert(&mut db, story("http://a.example/feed", None, "Hello")).unwrap();
    Story::insert(&mut db, story("http://a.example/feed", None, "Hello")).unwrap();
    assert_eq!(db.story_exists("http://a.example/feed", "Hello").unwrap(), false);
}

#[test]
fn absent_date_stays_absent_through_the_store() {
    let mut db = open_store();
    let mut s = story("http://a.example/feed", Some("abc"), "Hello");
    s.pub_date = None;
    Story::insert(&mut db, s).unwrap();
    let found = Story::find_by_feed_url_and_guid(&db, "http://a.example/feed", "abc").unwrap();
    assert_eq!(found.pub_date, None);
}
