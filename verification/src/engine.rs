use crate::parser::{
    atom_document_items, decoded_utf8_lossy, parse, raw_items_model, rss_document_items, FormatKind,
};
use crate::registry::{Feed, Registry};
use crate::store::{story_key, Database, StoryRows};
use crate::story::{canonical_of, RawItem, RawItemModel, Story, StoryModel};
use vstd::prelude::*;

verus! {

/// The two states of the control loop: a timer pending, or a refresh pass in
/// progress. The loop starts in `Refreshing`: an eager first pass runs before
/// the timer is first armed, so a fresh process does not wait a full tick.
#[derive(Clone, Copy, PartialEq, Eq, Structural, Debug)]
pub enum LoopState {
    /// A timer is pending; nothing is being refreshed.
    Armed,
    /// A refresh pass is in progress; no timer is pending.
    Refreshing,
}

/// What became of one canonical item during ingestion.
#[derive(Clone, Copy, PartialEq, Eq, Structural, Debug)]
pub enum IngestOutcome {
    /// The item was not seen before and its row was written.
    Inserted,
    /// A row with the item's (feed_url, guid) key already exists.
    Duplicate,
    /// The store refused the write; the item is dropped until the feed's
    /// next natural due time.
    Failed,
}

/// How ingesting one story moves the store from `t0` to `t1`: a keyed story
/// is inserted exactly when its key is absent, a duplicate changes nothing,
/// a story without a guid leaves the keyed map as it stands, and a failed
/// write changes nothing.
pub open spec fn ingest_post(
    t0: StoryRows,
    t1: StoryRows,
    story: StoryModel,
    o: IngestOutcome,
) -> bool {
    match o {
        IngestOutcome::Duplicate => story.guid is Some && t0.dom().contains(story_key(story)) && t1
            == t0,
        IngestOutcome::Inserted => if story.guid is Some {
            !t0.dom().contains(story_key(story)) && t1 == t0.insert(story_key(story), story)
        } else {
            t1 == t0
        },
        IngestOutcome::Failed => t1 == t0,
    }
}

/// Ingests one canonical item: a point lookup by the (feed_url, guid) key,
/// then an insert if the key is absent. An item without a guid skips the
/// lookup and is always written as new. A lookup that cannot answer falls
/// through to the insert, whose unique key still rejects a duplicate row.
/// The inserted story is handed back exactly when the outcome is `Inserted`.
pub fn ingest_story(database: &mut Database, story: Story) -> (r: (IngestOutcome, Option<Story>))
    ensures
        ingest_post(old(database).rows(), final(database).rows(), story@, r.0),
        r.1 is Some <==> r.0 is Inserted,
        r.1 matches Some(s) ==> s == story,
{
    let duplicate = match &story.guid {
        Some(g) => match database.story_exists(story.feed_url.as_str(), g.as_str()) {
            Ok(b) => b,
            Err(_) => false,
        },
        None => false,
    };
    if duplicate {
        (IngestOutcome::Duplicate, None)
    } else {
        match Story::insert(database, story) {
            Ok(s) => (IngestOutcome::Inserted, Some(s)),
            Err(_) => (IngestOutcome::Failed, None),
        }
    }
}

/// The canonical items a document's raw entries normalize to, in document
/// order, all owned by the feed at `feed_url`.
pub open spec fn stories_of(items: Seq<RawItemModel>, feed_url: Seq<char>) -> Seq<StoryModel> {
    items.map_values(|it: RawItemModel| canonical_of(it, feed_url))
}

/// The models of a sequence of stories, element for element.
pub open spec fn story_models(stories: Seq<Story>) -> Seq<StoryModel> {
    stories.map_values(|s: Story| s@)
}

/// The stories that were newly written, in document order: those whose
/// outcome is `Inserted`.
pub open spec fn inserted_of(s: Seq<StoryModel>, outcomes: Seq<IngestOutcome>) -> Seq<StoryModel>
    decreases outcomes.len(),
{
    if outcomes.len() == 0 {
        Seq::empty()
    } else {
        let j = outcomes.len() - 1;
        inserted_of(s, outcomes.drop_last()) + (if outcomes[j] is Inserted && j < s.len() {
            seq![s[j]]
        } else {
            Seq::empty()
        })
    }
}

/// How one document's items, normalized to the stories `s`, move the store
/// from `t0` to `t1` when ingested in order, with one outcome per item:
/// stored rows are never changed, every new row is an inserted item, an
/// inserted item's key was absent before the pass and holds that item after
/// it, a duplicate's key is present after the pass, no key is inserted
/// twice within the pass, and `inserted` reports exactly the items written.
pub open spec fn ingest_all_post(
    t0: StoryRows,
    t1: StoryRows,
    s: Seq<StoryModel>,
    outcomes: Seq<IngestOutcome>,
    inserted: Seq<StoryModel>,
) -> bool {
    &&& outcomes.len() == s.len()
    &&& forall|k: (Seq<char>, Seq<char>)|
        t0.dom().contains(k) ==> #[trigger] t1.dom().contains(k) && t1[k] == t0[k]
    &&& forall|k: (Seq<char>, Seq<char>)|
        #[trigger] t1.dom().contains(k) && !t0.dom().contains(k) ==> exists|j: int|
            0 <= j < s.len() && (#[trigger] outcomes[j]) is Inserted && s[j].guid is Some
                && story_key(s[j]) == k && t1[k] == s[j]
    &&& forall|j: int|
        0 <= j < s.len() ==> match #[trigger] outcomes[j] {
            IngestOutcome::Inserted => s[j].guid is Some ==> !t0.dom().contains(story_key(s[j]))
                && t1.dom().contains(story_key(s[j])) && t1[story_key(s[j])] == s[j],
            IngestOutcome::Duplicate => s[j].guid is Some && t1.dom().contains(story_key(s[j])),
            IngestOutcome::Failed => true,
        }
    &&& forall|j: int, l: int|
        0 <= j < l < s.len() && (#[trigger] outcomes[j]) is Inserted && (#[trigger] outcomes[l])
            is Inserted && s[j].guid is Some && s[l].guid is Some ==> story_key(s[j])
            != story_key(s[l])
    &&& inserted == inserted_of(s, outcomes)
}

/// Ingests a parsed document's items in order: each raw entry is normalized
/// into a canonical item of the feed at `feed_url`, deduplicated against the
/// store, and written when new. A failure on one item never stops its
/// siblings. Hands back the newly written stories, in document order, and
/// one outcome per item.
pub fn ingest_document(database: &mut Database, items: Vec<RawItem>, feed_url: &str) -> (r: (
    Vec<Story>,
    Vec<IngestOutcome>,
))
    ensures
        ingest_all_post(
            old(database).rows(),
            final(database).rows(),
            stories_of(raw_items_model(items@), feed_url@),
            r.1@,
            story_models(r.0@),
        ),
{
    let ghost t0 = database.rows();
    let ghost full = raw_items_model(items@);
    let ghost stories = stories_of(full, feed_url@);
    let mut items = items;
    let mut new_stories: Vec<Story> = Vec::new();
    let mut outcomes: Vec<IngestOutcome> = Vec::new();
    while items.len() > 0
        invariant
            stories == stories_of(full, feed_url@),
            outcomes@.len() + items@.len() == full.len(),
            raw_items_model(items@) == full.skip(outcomes@.len() as int),
            forall|k: (Seq<char>, Seq<char>)|
                t0.dom().contains(k) ==> #[trigger] database.rows().dom().contains(k)
                    && database.rows()[k] == t0[k],
            forall|k: (Seq<char>, Seq<char>)|
                #[trigger] database.rows().dom().contains(k) && !t0.dom().contains(k)
                    ==> exists|j: int|
                    0 <= j < outcomes@.len() && (#[trigger] outcomes@[j]) is Inserted
                        && stories[j].guid is Some && story_key(stories[j]) == k
                        && database.rows()[k] == stories[j],
            forall|j: int|
                0 <= j < outcomes@.len() ==> match #[trigger] outcomes@[j] {
                    IngestOutcome::Inserted => stories[j].guid is Some ==> !t0.dom().contains(
                        story_key(stories[j]),
                    ) && database.rows().dom().contains(story_key(stories[j]))
                        && database.rows()[story_key(stories[j])] == stories[j],
                    IngestOutcome::Duplicate => stories[j].guid is Some
                        && database.rows().dom().contains(story_key(stories[j])),
                    IngestOutcome::Failed => true,
                },
            forall|j: int, l: int|
                0 <= j < l < outcomes@.len() && (#[trigger] outcomes@[j]) is Inserted && (
                #[trigger] outcomes@[l]) is Inserted && stories[j].guid is Some && stories[l].guid
                    is Some ==> story_key(stories[j]) != story_key(stories[l]),
            story_models(new_stories@) == inserted_of(stories, outcomes@),
        decreases items@.len(),
    {
        let ghost done = outcomes@.len() as int;
        let ghost items_before = items@;
        let raw = items.remove(0);
        proof {
            assert(raw@ == full.skip(done)[0]);
            assert forall|i: int| 0 <= i < items@.len() implies raw_items_model(items@)[i]
                == full.skip(done + 1)[i] by {
                assert(items@[i] == items_before[i + 1]);
                assert(raw_items_model(items_before)[i + 1] == full.skip(done)[i + 1]);
            }
            assert(raw_items_model(items@) =~= full.skip(done + 1));
        }
        let story = Story::from_raw(raw, feed_url);
        proof {
            assert(story@ == stories[done]);
        }
        let ghost prior_outcomes = outcomes@;
        let ghost prior_models = story_models(new_stories@);
        let (o, inserted_story) = ingest_story(database, story);
        outcomes.push(o);
        if let Some(s) = inserted_story {
            new_stories.push(s);
        }
        proof {
            assert(outcomes@.drop_last() =~= prior_outcomes);
            assert(outcomes@.last() == o);
            if o is Inserted {
                assert(story_models(new_stories@) =~= prior_models + seq![stories[done]]);
            } else {
                assert(story_models(new_stories@) =~= prior_models);
            }
            assert(story_models(new_stories@) == inserted_of(stories, outcomes@));
        }
    }
    proof {
        assert(raw_items_model(items@).len() == 0);
        assert(outcomes@.len() == stories.len());
    }
    (new_stories, outcomes)
}

/// The raw items of a document under the detection policy: the Atom parse's
/// entries when it accepts the text, otherwise the RSS parse's items, and
/// nothing when neither accepts.
pub open spec fn document_items(text: Seq<char>) -> Option<Seq<RawItemModel>> {
    match atom_document_items(text) {
        Option::Some(items) => Option::Some(items),
        Option::None => rss_document_items(text),
    }
}

/// What one refresh of a due feed reported.
pub enum RefreshOutcome {
    /// The fetch itself failed; nothing was parsed or written.
    FetchFailed,
    /// Neither the Atom nor the RSS parser recognized the bytes; nothing was
    /// written.
    ParseFailed,
    /// The document was recognized and its items were ingested.
    Processed(ProcessReport),
}

/// The report of one processed document.
pub struct ProcessReport {
    /// The format the document was recognized as.
    pub kind: FormatKind,
    /// The stories newly written by this pass, in document order; each one
    /// is a "new story" event for the surrounding program to surface.
    pub new_stories: Vec<Story>,
    /// One outcome per document item, in document order.
    pub outcomes: Vec<IngestOutcome>,
}

/// The syndication engine: the feed registry, the story store, and the
/// control loop's state.
pub struct Server {
    pub registry: Registry,
    pub database: Database,
    pub state: LoopState,
}

impl Server {
    /// Builds the engine over a validated registry and an initialised store.
    /// The loop starts in `Refreshing`, so the caller runs one eager refresh
    /// pass before arming the timer for the first time.
    pub fn new(registry: Registry, database: Database) -> (r: Server)
        ensures
            r.registry == registry,
            r.database == database,
            r.state is Refreshing,
    {
        Server { registry, database, state: LoopState::Refreshing }
    }

    /// The timer fired: the loop leaves `Armed` and a refresh pass begins.
    /// Nothing else moves.
    pub fn timer_fired(&mut self)
        requires
            old(self).state is Armed,
        ensures
            final(self).state is Refreshing,
            final(self).registry == old(self).registry,
            final(self).database == old(self).database,
    {
        self.state = LoopState::Refreshing;
    }

    /// The refresh pass is over: the loop returns to `Armed` and the caller
    /// re-arms the timer for the short polling tick. Nothing else moves.
    pub fn pass_complete(&mut self)
        requires
            old(self).state is Refreshing,
        ensures
            final(self).state is Armed,
            final(self).registry == old(self).registry,
            final(self).database == old(self).database,
    {
        self.state = LoopState::Armed;
    }

    /// The feeds due at `now`, in configured order, as indices into the
    /// registry: sound, complete and strictly increasing.
    pub fn due_feeds(&self, now: u64) -> (r: Vec<usize>)
        ensures
            forall|a: int, b: int| 0 <= a < b < r@.len() ==> r@[a] < r@[b],
            forall|a: int|
                0 <= a < r@.len() ==> r@[a] < self.registry@.len() && crate::registry::feed_is_due(
                    self.registry@[#[trigger] r@[a] as int],
                    now,
                ),
            forall|i: usize|
                i < self.registry@.len() && crate::registry::feed_is_due(self.registry@[i as int], now)
                    ==> #[trigger] r@.contains(i),
    {
        self.registry.due_feeds(now)
    }

    /// One due feed's step of a refresh pass, from the fetch outcome on:
    /// the feed's `updated_at` is stamped with `now` unconditionally, so a
    /// failed attempt still consumes the interval window; a fetch failure
    /// ends the step; otherwise the bytes are decoded and parsed Atom-first,
    /// a document neither parser accepts ends the step with nothing written,
    /// and a recognized document's items are normalized, deduplicated and
    /// written in order. No failure escapes to the caller: the remaining due
    /// feeds of the pass are never at risk.
    pub fn process_fetch(&mut self, feed_index: usize, now: u64, fetched: Option<Vec<u8>>) -> (r:
        RefreshOutcome)
        requires
            old(self).state is Refreshing,
            feed_index < old(self).registry@.len(),
        ensures
            final(self).state is Refreshing,
            final(self).registry@ == old(self).registry@.update(
                feed_index as int,
                (Feed { updated_at: Some(now), ..old(self).registry@[feed_index as int] }),
            ),
            ({
                let url = old(self).registry@[feed_index as int].url@;
                let t0 = old(self).database.rows();
                let t1 = final(self).database.rows();
                match r {
                    RefreshOutcome::FetchFailed => fetched is None && t1 == t0,
                    RefreshOutcome::ParseFailed => fetched matches Some(b) && document_items(
                        decoded_utf8_lossy(b@),
                    ) is None && t1 == t0,
                    RefreshOutcome::Processed(rep) => fetched matches Some(b) && ({
                        let text = decoded_utf8_lossy(b@);
                        &&& document_items(text) is Some
                        &&& (rep.kind is Atom <==> atom_document_items(text) is Some)
                        &&& ingest_all_post(
                            t0,
                            t1,
                            stories_of(document_items(text)->0, url),
                            rep.outcomes@,
                            story_models(rep.new_stories@),
                        )
                    }),
                }
            }),
    {
        let url = self.registry.get(feed_index).url.clone();
        self.registry.mark_refreshed(feed_index, now);
        match fetched {
            None => RefreshOutcome::FetchFailed,
            Some(bytes) => match parse(&bytes) {
                Err(_) => RefreshOutcome::ParseFailed,
                Ok(parsed) => {
                    let (new_stories, outcomes) = ingest_document(
                        &mut self.database,
                        parsed.items,
                        url.as_str(),
                    );
                    RefreshOutcome::Processed(
                        ProcessReport { kind: parsed.kind, new_stories, outcomes },
                    )
                },
            },
        }
    }
}

/// Round trip through the store: a keyed story whose ingestion reports
/// `Inserted` is stored under its (feed_url, guid) key, with exactly its
/// row, and a key that was absent and not inserted stays absent — its
/// lookup still finds nothing.
pub proof fn lemma_store_round_trip(
    t0: StoryRows,
    t1: StoryRows,
    story: StoryModel,
    other: (Seq<char>, Seq<char>),
)
    requires
        story.guid is Some,
        ingest_post(t0, t1, story, IngestOutcome::Inserted),
        other != story_key(story),
        !t0.dom().contains(other),
    ensures
        t1.dom().contains(story_key(story)),
        t1[story_key(story)] == story,
        !t1.dom().contains(other),
{
}

/// Idempotence of document processing: when the same document's stories run
/// through two successive ingestion passes, each (feed_url, guid) pair is
/// inserted at most once over both passes — no key is inserted twice within
/// one pass, and a key the first pass inserted is never inserted again by
/// the second.
pub proof fn lemma_ingest_idempotent(
    t0: StoryRows,
    t1: StoryRows,
    t2: StoryRows,
    s: Seq<StoryModel>,
    o1: Seq<IngestOutcome>,
    o2: Seq<IngestOutcome>,
    ins1: Seq<StoryModel>,
    ins2: Seq<StoryModel>,
)
    requires
        ingest_all_post(t0, t1, s, o1, ins1),
        ingest_all_post(t1, t2, s, o2, ins2),
    ensures
        forall|j: int, l: int|
            0 <= j < l < s.len() && (#[trigger] o1[j]) is Inserted && (#[trigger] o1[l])
                is Inserted && s[j].guid is Some && s[l].guid is Some ==> story_key(s[j])
                != story_key(s[l]),
        forall|j: int, l: int|
            0 <= j < s.len() && 0 <= l < s.len() && (#[trigger] o1[j]) is Inserted && (
            #[trigger] o2[l]) is Inserted && s[j].guid is Some && s[l].guid is Some ==> story_key(
                s[j],
            ) != story_key(s[l]),
{
    assert forall|j: int, l: int|
        0 <= j < s.len() && 0 <= l < s.len() && (#[trigger] o1[j]) is Inserted && (
        #[trigger] o2[l]) is Inserted && s[j].guid is Some && s[l].guid is Some implies story_key(
        s[j],
    ) != story_key(s[l]) by {
        assert(t1.dom().contains(story_key(s[j])));
        assert(!t1.dom().contains(story_key(s[l])));
    }
}

} // verus!
