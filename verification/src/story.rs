use vstd::prelude::*;

verus! {

/// A point in time together with the fixed UTC offset it was written with.
#[derive(Clone, Copy, PartialEq, Eq, Structural, Debug)]
pub struct Timestamp {
    /// Seconds since the Unix epoch of the instant itself.
    pub secs: i64,
    /// The offset from UTC, in seconds, that the source wrote the time in.
    pub offset_secs: i32,
}

/// One entry of a fetched feed document, reduced to the fields the engine
/// reads: identifier, title, summary and publication date. An Atom entry
/// arrives with its date already parsed, an RSS item with its date as text.
pub struct RawItem {
    /// The entry's title, if any.
    pub title: Option<String>,
    /// The stable identifier the source gave the entry, if any.
    pub guid: Option<String>,
    /// The entry's summary, if any.
    pub description: Option<String>,
    /// The publication date as the document wrote it, for formats that carry
    /// it as text.
    pub date_text: Option<String>,
    /// The publication date as a parsed value, for formats that fix its form.
    pub date_value: Option<Timestamp>,
}

/// The mathematical shape of a `RawItem`.
pub ghost struct RawItemModel {
    pub title: Option<Seq<char>>,
    pub guid: Option<Seq<char>>,
    pub description: Option<Seq<char>>,
    pub date_text: Option<Seq<char>>,
    pub date_value: Option<Timestamp>,
}

impl View for RawItem {
    type V = RawItemModel;

    open spec fn view(&self) -> RawItemModel {
        RawItemModel {
            title: self.title.deep_view(),
            guid: self.guid.deep_view(),
            description: self.description.deep_view(),
            date_text: self.date_text.deep_view(),
            date_value: self.date_value,
        }
    }
}

/// The canonical item: the format-independent form of one feed entry.
/// Constructed once per parse and never mutated; either discarded as a
/// duplicate or persisted as a story.
pub struct Story {
    /// The entry's title, if any.
    pub title: Option<String>,
    /// The stable identifier the source gave the entry; a story without one
    /// cannot be deduplicated and counts as always new.
    pub guid: Option<String>,
    /// The entry's summary, if any.
    pub description: Option<String>,
    /// The publication date, normalized to a fixed-offset timestamp; absent
    /// when the document carried none or wrote one that does not parse.
    pub pub_date: Option<Timestamp>,
    /// The owning feed's identifier; always populated on ingestion.
    pub feed_url: String,
}

/// The mathematical shape of a `Story`.
pub ghost struct StoryModel {
    pub title: Option<Seq<char>>,
    pub guid: Option<Seq<char>>,
    pub description: Option<Seq<char>>,
    pub pub_date: Option<Timestamp>,
    pub feed_url: Seq<char>,
}

impl View for Story {
    type V = StoryModel;

    open spec fn view(&self) -> StoryModel {
        StoryModel {
            title: self.title.deep_view(),
            guid: self.guid.deep_view(),
            description: self.description.deep_view(),
            pub_date: self.pub_date,
            feed_url: self.feed_url@,
        }
    }
}

/// What chrono's RFC 822 parse with a named timezone returns for a given
/// piece of text; a function of the characters alone.
pub uninterp spec fn rfc822_named_zone_datetime(s: Seq<char>) -> Option<Timestamp>;

/// What chrono's RFC 2822 parse returns for a given piece of text; a
/// function of the characters alone.
pub uninterp spec fn rfc2822_datetime(s: Seq<char>) -> Option<Timestamp>;

/// Relies on chrono's `DateTime::parse_from_str` with the RFC 822 form whose
/// zone is written as a name: the outcome depends on the characters of `s`
/// alone, and a text that does not fit the form yields no value.
#[verifier::external_body]
fn parse_rfc822_named_zone(s: &str) -> (r: Option<Timestamp>)
    ensures
        r == rfc822_named_zone_datetime(s@),
{
    chrono::DateTime::parse_from_str(s, "%a, %d %b %Y %T %Z").ok().map(
        |d| Timestamp { secs: d.timestamp(), offset_secs: d.offset().local_minus_utc() },
    )
}

/// Relies on chrono's `DateTime::parse_from_rfc2822`: the outcome depends on
/// the characters of `s` alone, and a text that does not fit the form yields
/// no value.
#[verifier::external_body]
fn parse_rfc2822(s: &str) -> (r: Option<Timestamp>)
    ensures
        r == rfc2822_datetime(s@),
{
    chrono::DateTime::parse_from_rfc2822(s).ok().map(
        |d| Timestamp { secs: d.timestamp(), offset_secs: d.offset().local_minus_utc() },
    )
}

/// The publication date a raw entry normalizes to: a date the format already
/// fixed is kept; a textual date is tried first as RFC 822 with a named
/// zone, then as general RFC 822; a text that fits neither yields an absent
/// date, never an error.
pub open spec fn pub_date_of(raw: RawItemModel) -> Option<Timestamp> {
    if raw.date_value is Some {
        raw.date_value
    } else {
        match raw.date_text {
            Option::Some(s) => match rfc822_named_zone_datetime(s) {
                Option::Some(t) => Option::Some(t),
                Option::None => rfc2822_datetime(s),
            },
            Option::None => Option::None,
        }
    }
}

/// The canonical item a raw entry of the feed at `feed_url` normalizes to:
/// title, identifier and summary are carried over as they stand, and the
/// publication date is normalized by `pub_date_of`.
pub open spec fn canonical_of(raw: RawItemModel, feed_url: Seq<char>) -> StoryModel {
    StoryModel {
        title: raw.title,
        guid: raw.guid,
        description: raw.description,
        pub_date: pub_date_of(raw),
        feed_url: feed_url,
    }
}

impl Story {
    /// Normalizes one raw entry of the feed at `feed_url` into its canonical
    /// item. A publication date that fits neither RFC 822 form is dropped;
    /// the item itself is never rejected.
    pub fn from_raw(raw: RawItem, feed_url: &str) -> (r: Story)
        ensures
            r@ == canonical_of(raw@, feed_url@),
    {
        let pub_date: Option<Timestamp> = if let Some(t) = raw.date_value {
            Some(t)
        } else {
            match &raw.date_text {
                Some(s) => match parse_rfc822_named_zone(s.as_str()) {
                    Some(t) => Some(t),
                    None => parse_rfc2822(s.as_str()),
                },
                None => None,
            }
        };
        Story {
            title: raw.title,
            guid: raw.guid,
            description: raw.description,
            pub_date,
            feed_url: feed_url.to_owned(),
        }
    }
}

} // verus!
