use crate::error::DatabaseError;
use crate::story::{Story, StoryModel, Timestamp};
use rusqlite::OptionalExtension;
use vstd::prelude::*;

verus! {

#[verifier::external_type_specification]
#[verifier::external_body]
pub struct ExConnection(rusqlite::Connection);

#[verifier::external_type_specification]
#[verifier::external_body]
pub struct ExRusqliteError(rusqlite::Error);

/// The durable rows of the stories table, keyed by (feed_url, guid).
pub type StoryRows = Map<(Seq<char>, Seq<char>), StoryModel>;

/// The key under which a story with a guid is stored and deduplicated.
pub open spec fn story_key(s: StoryModel) -> (Seq<char>, Seq<char>) {
    (s.feed_url, s.guid->0)
}

/// The stories table behind a connection: its rows with a guid, keyed by
/// (feed_url, guid). The table is the one `Database::init` lays out, where
/// that pair is unique; rows without a guid cannot be deduplicated, are
/// always treated as new, and stand outside this map. The map describes the
/// connection as this library uses it: a single writer and no other hand on
/// the underlying file.
pub uninterp spec fn table_rows(conn: rusqlite::Connection) -> StoryRows;

/// The story store: the persistence boundary of the engine. Owns the only
/// connection to the underlying database.
pub struct Database {
    connection: rusqlite::Connection,
}

impl Database {
    /// The stored rows behind this store, as `table_rows` describes them.
    pub closed spec fn rows(&self) -> StoryRows {
        table_rows(self.connection)
    }

    /// Wraps an opened connection. The surrounding program opens the file;
    /// the store owns every statement that runs on it afterwards.
    pub fn new(connection: rusqlite::Connection) -> (r: Database)
        ensures
            r.rows() == table_rows(connection),
    {
        Database { connection }
    }

    /// Relies on rusqlite's `Connection::execute_batch` to lay out the
    /// stories table: one row per story, (feed_url, guid) unique, so a
    /// second insert of a stored key is rejected. Creating a table that
    /// already exists changes no row.
    #[verifier::external_body]
    fn create_schema(&self) -> (r: Result<(), rusqlite::Error>) {
        self.connection.execute_batch(
            "CREATE TABLE IF NOT EXISTS stories (\
                 id INTEGER PRIMARY KEY,\
                 feed_url TEXT NOT NULL,\
                 guid TEXT,\
                 title TEXT,\
                 description TEXT,\
                 pub_date_secs INTEGER,\
                 pub_date_offset INTEGER,\
                 UNIQUE (feed_url, guid)\
             );",
        )
    }

    /// Initialises the store with its table and unique key. Reports, without
    /// reading further detail, a backend that refuses the statement.
    pub fn init(&self) -> (r: Result<(), DatabaseError>) {
        match self.create_schema() {
            Ok(()) => Ok(()),
            Err(_) => Err(DatabaseError),
        }
    }

    /// Relies on rusqlite's `Connection::execute` running a single INSERT:
    /// on success the row joins the table; on failure, among them the UNIQUE
    /// key on (feed_url, guid), no row changes. A row without a guid stands
    /// outside the keyed map, so the map reads unchanged either way.
    #[verifier::external_body]
    fn insert_row(&mut self, story: &Story) -> (r: Result<(), rusqlite::Error>)
        ensures
            story@.guid is Some ==> match r {
                Ok(_) => table_rows(final(self).connection) == table_rows(old(self).connection).insert(
                    story_key(story@),
                    story@,
                ),
                Err(_) => table_rows(final(self).connection) == table_rows(old(self).connection),
            },
            story@.guid is None ==> table_rows(final(self).connection) == table_rows(old(self).connection),
            story@.guid is Some && table_rows(old(self).connection).dom().contains(story_key(story@))
                ==> r is Err,
    {
        self.connection.execute(
            "INSERT INTO stories (feed_url, guid, title, description, pub_date_secs, pub_date_offset) \
             VALUES (?1, ?2, ?3, ?4, ?5, ?6)",
            (
                &story.feed_url,
                &story.guid,
                &story.title,
                &story.description,
                story.pub_date.as_ref().map(|t| t.secs),
                story.pub_date.as_ref().map(|t| t.offset_secs),
            ),
        ).map(|_| ())
    }

    /// Relies on rusqlite's `Connection::query_row` running a point SELECT
    /// by the unique (feed_url, guid) key: a row comes back exactly when the
    /// table holds that key, `QueryReturnedNoRows` reports that none does,
    /// and any other error leaves the outcome undetermined.
    #[verifier::external_body]
    fn lookup_row(&self, feed_url: &str, guid: &str) -> (r: Result<Option<Story>, rusqlite::Error>)
        ensures
            r matches Ok(Some(s)) ==> table_rows(self.connection).dom().contains((feed_url@, guid@))
                && s@ == table_rows(self.connection)[(feed_url@, guid@)],
            r matches Ok(None) ==> !table_rows(self.connection).dom().contains((feed_url@, guid@)),
    {
        self.connection.query_row(
            "SELECT title, guid, description, pub_date_secs, pub_date_offset, feed_url \
             FROM stories WHERE feed_url = ?1 AND guid = ?2",
            (&feed_url, &guid),
            |row| Ok(Story {
                title: row.get(0)?,
                guid: row.get(1)?,
                description: row.get(2)?,
                pub_date: row.get::<_, Option<i64>>(3)?.zip(row.get(4)?).map(
                    |(s, o)| Timestamp { secs: s, offset_secs: o },
                ),
                feed_url: row.get(5)?,
            }),
        ).optional()
    }

    /// The point lookup of the store's contract: whether a story with this
    /// (feed_url, guid) key was recorded. Exact whenever the backend answers;
    /// a backend failure is reported rather than read as either answer.
    pub fn story_exists(&self, feed_url: &str, guid: &str) -> (r: Result<bool, DatabaseError>)
        ensures
            r matches Ok(b) ==> b == self.rows().dom().contains((feed_url@, guid@)),
    {
        match self.lookup_row(feed_url, guid) {
            Ok(Some(_)) => Ok(true),
            Ok(None) => Ok(false),
            Err(_) => Err(DatabaseError),
        }
    }
}

impl Story {
    /// Appends a story to the store. The stored row is exactly the story's
    /// model: a keyed story joins the map under its (feed_url, guid) key and
    /// is handed back; a key already stored is rejected, the check-then-insert
    /// sequence around it not being atomic; a failed insert changes nothing.
    pub fn insert(database: &mut Database, story: Story) -> (r: Result<Story, DatabaseError>)
        ensures
            r matches Ok(s) ==> s == story,
            story@.guid is Some ==> match r {
                Ok(_) => !old(database).rows().dom().contains(story_key(story@))
                    && final(database).rows() == old(database).rows().insert(
                    story_key(story@),
                    story@,
                ),
                Err(_) => final(database).rows() == old(database).rows(),
            },
            story@.guid is None ==> final(database).rows() == old(database).rows(),
            story@.guid is Some && old(database).rows().dom().contains(story_key(story@)) ==> r
                is Err,
    {
        match database.insert_row(&story) {
            Ok(()) => Ok(story),
            Err(_) => Err(DatabaseError),
        }
    }

    /// Finds the single story stored under (feed_url, guid). A found story
    /// is exactly the stored row; an absent key finds nothing; a backend
    /// failure reads as nothing found, as a lookup that cannot answer must
    /// not report a story.
    pub fn find_by_feed_url_and_guid(database: &Database, feed_url: &str, guid: &str) -> (r: Option<
        Story,
    >)
        ensures
            r matches Some(s) ==> database.rows().dom().contains((feed_url@, guid@)) && s@
                == database.rows()[(feed_url@, guid@)],
            !database.rows().dom().contains((feed_url@, guid@)) ==> r is None,
    {
        match database.lookup_row(feed_url, guid) {
            Ok(r) => r,
            Err(_) => None,
        }
    }
}

} // verus!
