use vstd::prelude::*;

use crate::errors::ScrapeError;
use crate::populate::{cache_step, spec_same_summary};
use crate::utils::{Character, Stats};

verus! {

/// The persistent cache: one single-file store of fully enriched
/// character records, keyed by the character's identifier. One logical
/// store is shared by all concurrent callers of a run; the lock inside
/// serializes conflicting writes, while reads run freely.
#[verifier::external_body]
pub struct Database {
    conn: std::sync::Arc<std::sync::RwLock<rusqlite::Connection>>,
}

impl Clone for Database {
    /// Relies on `Arc::clone`: the new handle addresses the same store.
    #[verifier::external_body]
    fn clone(&self) -> (r: Database) {
        Database { conn: self.conn.clone() }
    }
}

impl Database {
    /// Opens the store at `path`, creating the file and its one table if
    /// they are absent (idempotent), and fails with a cache error
    /// otherwise. Relies on rusqlite's `Connection::open`, which creates
    /// a missing database file, and `Connection::execute` for the
    /// schema.
    #[verifier::external_body]
    pub fn connect(path: &str) -> (r: Result<Database, ScrapeError>) {
        let conn = match rusqlite::Connection::open(path) {
            Ok(c) => c,
            Err(_) => return Err(ScrapeError::Cache),
        };
        let made = conn.execute(
            "CREATE TABLE IF NOT EXISTS characters (id INTEGER PRIMARY KEY, name TEXT, nickname TEXT, element TEXT, position TEXT, kick INTEGER, control INTEGER, technique INTEGER, pressure INTEGER, physical INTEGER, agility INTEGER, intelligence INTEGER)",
            (),
        );
        match made {
            Ok(_) => Ok(Database { conn: std::sync::Arc::new(std::sync::RwLock::new(conn)) }),
            Err(_) => Err(ScrapeError::Cache),
        }
    }

    /// Relies on rusqlite's `Connection::query_row`: reads the seven
    /// stat columns of the row keyed by `id`, if the store holds one.
    /// Any storage error reads as a miss and is never surfaced.
    #[verifier::external_body]
    fn query_stats(&self, id: u16) -> (r: Option<Stats>) {
        let guard = match self.conn.read() {
            Ok(g) => g,
            Err(_) => return None,
        };
        guard.query_row(
            "SELECT kick, control, technique, pressure, physical, agility, intelligence FROM characters WHERE id = ?",
            (id,),
            |row| Ok(Stats {
                kick: row.get(0)?, control: row.get(1)?, technique: row.get(2)?,
                pressure: row.get(3)?, physical: row.get(4)?, agility: row.get(5)?,
                intelligence: row.get(6)?,
            }),
        ).ok()
    }

    /// Relies on rusqlite's `Connection::execute`: durably inserts or
    /// overwrites the full record keyed by `id` before returning
    /// (write-through), and reports whether the write took.
    #[verifier::external_body]
    fn insert_record(
        &self,
        id: u16,
        name: &str,
        nickname: &str,
        element: &str,
        position: &str,
        s: &Stats,
    ) -> (ok: bool) {
        let guard = match self.conn.write() {
            Ok(g) => g,
            Err(_) => return false,
        };
        guard.execute(
            "INSERT OR REPLACE INTO characters (id, name, nickname, element, position, kick, control, technique, pressure, physical, agility, intelligence) VALUES (?, ?, ?, ?, ?, ?, ?, ?, ?, ?, ?, ?)",
            (id, name, nickname, element, position, s.kick, s.control, s.technique, s.pressure, s.physical, s.agility, s.intelligence),
        ).is_ok()
    }

    /// Serves one summary from the cache: on a hit the cached stat block
    /// is attached and the call reports true; on a miss — any storage
    /// error included — the summary comes back untouched and nothing is
    /// surfaced to the caller.
    pub fn populate_character_data(&self, character: &mut Character) -> (hit: bool)
        ensures
            hit ==> final(character).stats is Some,
            !hit ==> *final(character) == *old(character),
            spec_same_summary(*final(character), *old(character)),
    {
        let cached = self.query_stats(character.number);
        cache_step(character, cached)
    }

    /// Writes one fully enriched record through to the cache, reporting
    /// whether the write took. A failed write is the caller's to log; it
    /// never fails the item.
    pub fn store_character(&self, character: &Character) -> (ok: bool)
        requires
            character.stats is Some,
    {
        let s = character.stats.unwrap();
        let element = character.element.db_str();
        let position = character.position.to_str();
        self.insert_record(
            character.number,
            character.name.as_str(),
            character.nickname.as_str(),
            element,
            position,
            &s,
        )
    }
}

} // verus!
