use syndicator::parser::{parse, FormatKind};
use syndicator::story::Story;

fn rss_document(item_xml: &str) -> Vec<u8> {
    format!(
        "<rss version=\"2.0\"><channel>\
         <title>Example</title><link>http://example.org/</link>\
         <description>An example channel</description>\
         {}\
         </channel></rss>",
        item_xml
    )
    .into_bytes()
}

const ATOM_DOCUMENT: &str = "<?xml version=\"1.0\" encoding=\"utf-8\"?>\
    <feed xmlns=\"http://www.w3.org/2005/Atom\">\
    <title>Example</title>\
    <id>urn:example:feed</id>\
    <updated>2006-01-02T15:04:05Z</updated>\
    <entry>\
    <title>Hello</title>\
    <id>urn:example:entry-1</id>\
    <updated>2006-01-02T15:04:05Z</updated>\
    <summary>First entry</summary>\
    <published>2006-01-02T15:04:05Z</published>\
    </entry>\
    </feed>";

#[test]
fn rss_item_with_guid_title_and_date() {
    let bytes = rss_document(
        "<item><guid>abc</guid><title>Hello</title>\
         <pubDate>Mon, 02 Jan 2006 15:04:05 GMT</pubDate></item>",
    );
    let parsed = parse(&bytes).unwrap();
    assert_eq!(parsed.kind, FormatKind::Rss);
    assert_eq!(parsed.items.len(), 1);
    let mut items = parsed.items;
    let story = Story::from_raw(items.remove(0), "http://example.org/feed");
    assert_eq!(story.guid.as_deref(), Some("abc"));
    assert_eq!(story.title.as_deref(), Some("Hello"));
    assert_eq!(story.feed_url, "http://example.org/feed");
    let ts = story.pub_date.expect("the RFC 822 date must parse");
    assert_eq!(ts.secs, 1136214245);
    assert_eq!(ts.offset_secs, 0);
}

#[test]
fn rss_date_with_numeric_offset() {
    let bytes = rss_document(
        "<item><guid>abc</guid><title>Hello</title>\
         <pubDate>Mon, 02 Jan 2006 15:04:05 +0200</pubDate></item>",
    );
    let mut parsed = parse(&bytes).unwrap();
    let story = Story::from_raw(parsed.items.remove(0), "http://example.org/feed");
    let ts = story.pub_date.expect("the RFC 822 date must parse");
    assert_eq!(ts.secs, 1136214245 - 7200);
    assert_eq!(ts.offset_secs, 7200);
}

#[test]
fn rss_unparsable_date_yields_absent_pub_date() {
    let bytes = rss_document(
        "<item><guid>abc</guid><title>Hello</title>\
         <pubDate>the day before yesterday</pubDate></item>\
         <item><guid>def</guid><title>World</title></item>",
    );
    let mut parsed = parse(&bytes).unwrap();
    assert_eq!(parsed.items.len(), 2);
    let first = Story::from_raw(parsed.items.remove(0), "http://example.org/feed");
    assert_eq!(first.pub_date, None);
    assert_eq!(first.guid.as_deref(), Some("abc"));
    let second = Story::from_raw(parsed.items.remove(0), "http://example.org/feed");
    assert_eq!(second.guid.as_deref(), Some("def"));
}

#[test]
fn rss_item_without_guid_keeps_absent_guid() {
    let bytes = rss_document("<item><title>Unkeyed</title></item>");
    let mut parsed = parse(&bytes).unwrap();
    let story = Story::from_raw(parsed.items.remove(0), "http://example.org/feed");
    assert_eq!(story.guid, None);
    assert_eq!(story.title.as_deref(), Some("Unkeyed"));
}

#[test]
fn atom_entry_guid_comes_from_its_id_element() {
    let parsed = parse(&ATOM_DOCUMENT.as_bytes().to_vec()).unwrap();
    assert_eq!(parsed.kind, FormatKind::Atom);
    assert_eq!(parsed.items.len(), 1);
    let mut items = parsed.items;
    let story = Story::from_raw(items.remove(0), "http://example.org/atom");
    assert_eq!(story.guid.as_deref(), Some("urn:example:entry-1"));
    assert_eq!(story.title.as_deref(), Some("Hello"));
    assert_eq!(story.description.as_deref(), Some("First entry"));
    let ts = story.pub_date.expect("the RFC 3339 date is fixed by the format");
    assert_eq!(ts.secs, 1136214245);
    assert_eq!(ts.offset_secs, 0);
}

#[test]
fn malformed_bytes_are_a_parse_error() {
    let bytes = b"neither atom nor rss".to_vec();
    assert!(parse(&bytes).is_err());
}

#[test]
fn empty_input_is_a_parse_error() {
    assert!(parse(&Vec::new()).is_err());
}

#[test]
fn invalid_utf8_is_decoded_permissively() {
    let mut bytes = rss_document("<item><guid>abc</guid><title>He__llo</title></item>");
    let at = bytes.windows(2).position(|w| w == b"__").unwrap();
    bytes[at] = 0xFF;
    bytes[at + 1] = 0xFE;
    let mut parsed = parse(&bytes).expect("invalid sequences are replaced, not fatal");
    let story = Story::from_raw(parsed.items.remove(0), "http://example.org/feed");
    let title = story.title.unwrap();
    assert!(title.starts_with("He"));
    assert!(title.ends_with("llo"));
    assert!(title.contains('\u{FFFD}'));
}
