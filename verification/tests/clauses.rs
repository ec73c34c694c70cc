use ebird_loader::config::{compile_filter, RawFilterArgs};
use ebird_loader::filter::{
    before_clause, common_name_clause, near_clause, record_passes, scientific_name_clause,
    since_clause,
};
use ebird_loader::record::Record;

fn no_args() -> RawFilterArgs {
    RawFilterArgs {
        before_date: None,
        since_date: None,
        near_location: None,
        buffer: None,
        common_name_regex: None,
        scientific_name_regex: None,
        limit: None,
    }
}

fn mk_record(common: &str, sci: &str, lat: &str, lon: &str, date: &str) -> Record {
    Record {
        guid: "URN:example:1".to_string(),
        common_name: common.to_string(),
        scientific_name: sci.to_string(),
        observation_count: "X".to_string(),
        breeding_bird_atlas_code: "".to_string(),
        breeding_bird_atlas_category: "".to_string(),
        age_sex: "".to_string(),
        latitude: lat.to_string(),
        longitude: lon.to_string(),
        obs_date: date.to_string(),
        time_obs_started: "07:00".to_string(),
        obs_id: "obsr1".to_string(),
        sampling_event_id: "S1".to_string(),
        protocol_type: "Traveling".to_string(),
        duration_min: Some(60),
        effort_distance_km: Some("1.5".to_string()),
        number_observers: Some(2),
        all_species_reported: 1,
        approved: 1,
        species_comments: "".to_string(),
    }
}

#[test]
fn before_clause_bounds_dates() {
    let mut a = no_args();
    a.before_date = Some("2020-01-01".to_string());
    let cfg = compile_filter(&a).unwrap();
    assert!(before_clause(&cfg, &mk_record("A", "a", "37.8", "-122.4", "2019-12-31")));
    assert!(before_clause(&cfg, &mk_record("A", "a", "37.8", "-122.4", "2020-01-01")));
    assert!(!before_clause(&cfg, &mk_record("A", "a", "37.8", "-122.4", "2020-01-02")));
}

#[test]
fn before_clause_passes_unparseable_dates() {
    let mut a = no_args();
    a.before_date = Some("2020-01-01".to_string());
    let cfg = compile_filter(&a).unwrap();
    assert!(before_clause(&cfg, &mk_record("A", "a", "37.8", "-122.4", "not a date")));
}

#[test]
fn since_clause_bounds_dates() {
    let mut a = no_args();
    a.since_date = Some("2020-01-01".to_string());
    let cfg = compile_filter(&a).unwrap();
    assert!(!since_clause(&cfg, &mk_record("A", "a", "37.8", "-122.4", "2019-12-31")));
    assert!(since_clause(&cfg, &mk_record("A", "a", "37.8", "-122.4", "2020-01-01")));
    assert!(since_clause(&cfg, &mk_record("A", "a", "37.8", "-122.4", "2020-06-15")));
    assert!(since_clause(&cfg, &mk_record("A", "a", "37.8", "-122.4", "junk")));
}

#[test]
fn near_clause_measures_distance() {
    let mut a = no_args();
    a.near_location = Some("POINT(-122.4 37.8)".to_string());
    let cfg = compile_filter(&a).unwrap();
    // about 110 metres north of the reference point: inside the 1000 m default
    assert!(near_clause(&cfg, &mk_record("A", "a", "37.801", "-122.4", "2020-01-01")));
    // about 11 kilometres north: outside
    assert!(!near_clause(&cfg, &mk_record("A", "a", "37.9", "-122.4", "2020-01-01")));
}

#[test]
fn near_clause_respects_buffer() {
    let mut a = no_args();
    a.near_location = Some("POINT(-122.4 37.8)".to_string());
    a.buffer = Some("50".to_string());
    let cfg = compile_filter(&a).unwrap();
    // about 110 metres away: outside a 50 m buffer
    assert!(!near_clause(&cfg, &mk_record("A", "a", "37.801", "-122.4", "2020-01-01")));
    let mut b = no_args();
    b.near_location = Some("POINT(-122.4 37.8)".to_string());
    b.buffer = Some("500".to_string());
    let wide = compile_filter(&b).unwrap();
    assert!(near_clause(&wide, &mk_record("A", "a", "37.801", "-122.4", "2020-01-01")));
}

#[test]
fn common_name_clause_matches_anywhere() {
    let mut a = no_args();
    a.common_name_regex = Some("Crow".to_string());
    let cfg = compile_filter(&a).unwrap();
    assert!(common_name_clause(&cfg, &mk_record("American Crow", "Corvus", "1", "2", "d")));
    assert!(!common_name_clause(&cfg, &mk_record("American Robin", "Turdus", "1", "2", "d")));
}

#[test]
fn scientific_name_clause_matches_anywhere() {
    let mut a = no_args();
    a.scientific_name_regex = Some("^Corvus".to_string());
    let cfg = compile_filter(&a).unwrap();
    assert!(scientific_name_clause(
        &cfg,
        &mk_record("American Crow", "Corvus brachyrhynchos", "1", "2", "d")
    ));
    assert!(!scientific_name_clause(&cfg, &mk_record("Fish Crow", "Somecorvus x", "1", "2", "d")));
}

#[test]
fn absent_clauses_pass_everything() {
    let cfg = compile_filter(&no_args()).unwrap();
    assert!(record_passes(&cfg, &mk_record("Any", "thing", "0", "0", "whenever")));
}

#[test]
fn compound_predicate_is_a_conjunction() {
    let mut a = no_args();
    a.since_date = Some("2020-01-01".to_string());
    a.common_name_regex = Some("Crow".to_string());
    let cfg = compile_filter(&a).unwrap();
    assert!(record_passes(&cfg, &mk_record("American Crow", "c", "1", "2", "2020-05-01")));
    assert!(!record_passes(&cfg, &mk_record("American Crow", "c", "1", "2", "2019-05-01")));
    assert!(!record_passes(&cfg, &mk_record("American Robin", "t", "1", "2", "2020-05-01")));
}
