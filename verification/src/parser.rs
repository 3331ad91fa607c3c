use crate::error::ParseError;
use crate::story::{RawItem, RawItemModel, Timestamp};
use vstd::prelude::*;

verus! {

/// The models of a sequence of raw items, element for element.
pub open spec fn raw_items_model(items: Seq<RawItem>) -> Seq<RawItemModel> {
    items.map_values(|it: RawItem| it@)
}

/// What permissive UTF-8 decoding makes of a given byte sequence; a function
/// of the bytes alone.
pub uninterp spec fn decoded_utf8_lossy(bytes: Seq<u8>) -> Seq<char>;

/// Relies on `String::from_utf8_lossy`: the decoding depends on the bytes
/// alone, replacing invalid sequences rather than failing.
#[verifier::external_body]
fn decode_lossy(bytes: &Vec<u8>) -> (r: String)
    ensures
        r@ == decoded_utf8_lossy(bytes@),
{
    String::from_utf8_lossy(bytes.as_slice()).into_owned()
}

/// Whether a given text is a well-formed Atom document and, if so, the raw
/// items of its entries; a function of the characters alone.
pub uninterp spec fn atom_document_items(text: Seq<char>) -> Option<Seq<RawItemModel>>;

/// Relies on atom_syndication's `Feed` parse (`str::parse`): acceptance and
/// the entries handed back depend on the characters alone. Each entry is
/// reduced to its identifier, title, summary and the date of its `published`
/// element, absent when the entry carries none; Atom fixes the form of its
/// dates, so they arrive already parsed and `date_text` stays empty.
#[verifier::external_body]
fn parse_atom(text: &str) -> (r: Option<Vec<RawItem>>)
    ensures
        r matches Some(items) ==> atom_document_items(text@) == Some(raw_items_model(items@)),
        r is None ==> atom_document_items(text@) is None,
{
    match text.parse::<atom_syndication::Feed>() {
        Ok(feed) => Some(feed.entries.into_iter().map(|e| RawItem {
            title: Some(e.title.value),
            guid: Some(e.id),
            description: e.summary.map(|t| t.value),
            date_text: None,
            date_value: e.published.map(
                |d| Timestamp { secs: d.timestamp(), offset_secs: d.offset().local_minus_utc() },
            ),
        }).collect()),
        Err(_) => None,
    }
}

/// Whether a given text is a well-formed RSS document and, if so, the raw
/// items it holds; a function of the characters alone.
pub uninterp spec fn rss_document_items(text: Seq<char>) -> Option<Seq<RawItemModel>>;

/// Relies on rss's `Channel` parse (`str::parse`): acceptance and the items
/// handed back depend on the characters alone. Each item is reduced to its
/// guid, title, description and publication date; RSS dates travel as text,
/// so `date_value` stays empty.
#[verifier::external_body]
fn parse_rss(text: &str) -> (r: Option<Vec<RawItem>>)
    ensures
        r matches Some(items) ==> rss_document_items(text@) == Some(raw_items_model(items@)),
        r is None ==> rss_document_items(text@) is None,
{
    match text.parse::<rss::Channel>() {
        Ok(channel) => Some(channel.items.into_iter().map(|i| RawItem {
            title: i.title,
            guid: i.guid.map(|g| g.value),
            description: i.description,
            date_text: i.pub_date,
            date_value: None,
        }).collect()),
        Err(_) => None,
    }
}

/// Which format a document was recognized as.
#[derive(Clone, Copy, PartialEq, Eq, Structural, Debug)]
pub enum FormatKind {
    Atom,
    Rss,
}

/// A recognized document: its format and its raw items in document order.
pub struct ParsedFeed {
    pub kind: FormatKind,
    pub items: Vec<RawItem>,
}

/// Turns raw fetched bytes into a recognized document. The bytes are decoded
/// permissively, then parsing is attempted Atom-first: Atom's stricter
/// envelope keeps malformed documents from being accepted silently by a more
/// permissive RSS parse. A text that neither parser accepts yields
/// `ParseError`, and the order is part of the contract: a well-formed Atom
/// document is never reported as RSS.
pub fn parse(bytes: &Vec<u8>) -> (r: Result<ParsedFeed, ParseError>)
    ensures
        ({
            let text = decoded_utf8_lossy(bytes@);
            match r {
                Ok(pf) => match atom_document_items(text) {
                    Option::Some(items) => pf.kind is Atom && raw_items_model(pf.items@) == items,
                    Option::None => match rss_document_items(text) {
                        Option::Some(items) => pf.kind is Rss && raw_items_model(pf.items@)
                            == items,
                        Option::None => false,
                    },
                },
                Err(_) => atom_document_items(text) is None && rss_document_items(text) is None,
            }
        }),
{
    let text = decode_lossy(bytes);
    match parse_atom(text.as_str()) {
        Some(items) => Ok(ParsedFeed { kind: FormatKind::Atom, items }),
        None => match parse_rss(text.as_str()) {
            Some(items) => Ok(ParsedFeed { kind: FormatKind::Rss, items }),
            None => Err(ParseError),
        },
    }
}

} // verus!
