use crate::record::{Record, RecordV};
use vstd::prelude::*;

verus! {

#[verifier::external_type_specification]
#[verifier::external_body]
pub struct ExConnection(rusqlite::Connection);

/// One stored row: a record's content plus the point geometry text written
/// beside it.
pub struct StoredRowV {
    pub rec: RecordV,
    pub location: Seq<char>,
}

/// The rows of the destination table on this connection, in insertion order.
pub uninterp spec fn table_rows(conn: rusqlite::Connection) -> Seq<StoredRowV>;

/// The rows the destination table held when the open transaction began: the
/// state a failing statement may roll the table back to.
pub uninterp spec fn txn_start_rows(conn: rusqlite::Connection) -> Seq<StoredRowV>;

/// Relies on rusqlite::Connection::execute_batch: dropping and recreating
/// the destination table leaves it empty; on failure nothing is promised.
#[verifier::external_body]
pub fn initialize_database(conn: &mut rusqlite::Connection) -> (r: Result<(), String>)
    ensures
        r is Ok ==> table_rows(*final(conn)) == Seq::<StoredRowV>::empty(),
{
    conn.execute_batch(
        "DROP TABLE IF EXISTS ebird; CREATE TABLE ebird (id INTEGER PRIMARY KEY, guid TEXT, common_name TEXT, scientific_name TEXT, observation_count TEXT, breeding_bird_atlas_code TEXT, breeding_bird_atlas_category TEXT, age_sex TEXT, obs_date TEXT, time_obs_started TEXT, obs_id TEXT, sampling_event_id TEXT, protocol_type TEXT, duration_min INTEGER, effort_distance_km REAL, number_observers INTEGER, all_species_reported INTEGER, approved INTEGER, species_comments TEXT, location TEXT, location_srid INTEGER);",
    ).map_err(|e| e.to_string())
}

/// Relies on rusqlite::Connection::execute_batch running BEGIN: opening the
/// transaction changes no rows, whether or not it succeeds, and on success
/// marks the current rows as the state a rollback would return to.
#[verifier::external_body]
pub fn begin_transaction(conn: &mut rusqlite::Connection) -> (r: Result<(), String>)
    ensures
        table_rows(*final(conn)) == table_rows(*old(conn)),
        r is Ok ==> txn_start_rows(*final(conn)) == table_rows(*old(conn)),
{
    conn.execute_batch("BEGIN").map_err(|e| e.to_string())
}

/// Relies on rusqlite::Connection::execute_batch running COMMIT: a
/// successful commit keeps the rows as this connection sees them; after a
/// failed commit nothing is promised.
#[verifier::external_body]
pub fn commit_transaction(conn: &mut rusqlite::Connection) -> (r: Result<(), String>)
    ensures
        r is Ok ==> table_rows(*final(conn)) == table_rows(*old(conn)),
{
    conn.execute_batch("COMMIT").map_err(|e| e.to_string())
}

/// Relies on rusqlite::Connection::execute running one INSERT: on success
/// exactly the bound row is appended, in order. On failure either the
/// statement alone is rolled back, leaving the rows unchanged, or — as
/// SQLite documents for faults such as a full disk — the whole open
/// transaction, reverting the rows to the transaction's start. Neither
/// outcome moves the transaction-start state itself.
#[verifier::external_body]
pub fn insert_record(conn: &mut rusqlite::Connection, rec: &Record, location: &str) -> (r: Result<
    (),
    String,
>)
    ensures
        txn_start_rows(*final(conn)) == txn_start_rows(*old(conn)),
        r is Ok ==> table_rows(*final(conn)) == table_rows(*old(conn)).push(
            (StoredRowV { rec: rec@, location: location@ }),
        ),
        r is Err ==> table_rows(*final(conn)) == table_rows(*old(conn)) || table_rows(
            *final(conn),
        ) == txn_start_rows(*old(conn)),
{
    let binds: [&dyn rusqlite::ToSql; 19] = [
        &rec.guid, &rec.common_name, &rec.scientific_name, &rec.observation_count,
        &rec.breeding_bird_atlas_code, &rec.breeding_bird_atlas_category, &rec.age_sex,
        &rec.obs_date, &rec.time_obs_started, &rec.obs_id, &rec.sampling_event_id,
        &rec.protocol_type, &rec.duration_min, &rec.effort_distance_km, &rec.number_observers,
        &rec.all_species_reported, &rec.approved, &rec.species_comments, &location,
    ];
    match conn.execute(
        "INSERT INTO ebird (guid, common_name, scientific_name, observation_count, breeding_bird_atlas_code, breeding_bird_atlas_category, age_sex, obs_date, time_obs_started, obs_id, sampling_event_id, protocol_type, duration_min, effort_distance_km, number_observers, all_species_reported, approved, species_comments, location, location_srid) VALUES (?1, ?2, ?3, ?4, ?5, ?6, ?7, ?8, ?9, ?10, ?11, ?12, ?13, ?14, ?15, ?16, ?17, ?18, ?19, 4326)",
        &binds[..],
    ) {
        Ok(_) => Ok(()),
        Err(e) => Err(e.to_string()),
    }
}

} // verus!
