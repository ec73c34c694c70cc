use ebird_loader::record::{decode_row, resolve_header};
use ebird_loader::text::split_tsv;

const COLUMNS: [&str; 20] = [
    "GLOBAL UNIQUE IDENTIFIER",
    "COMMON NAME",
    "SCIENTIFIC NAME",
    "OBSERVATION COUNT",
    "BREEDING BIRD ATLAS CODE",
    "BREEDING BIRD ATLAS CATEGORY",
    "AGE/SEX",
    "LATITUDE",
    "LONGITUDE",
    "OBSERVATION DATE",
    "TIME OBSERVATIONS STARTED",
    "OBSERVER ID",
    "SAMPLING EVENT IDENTIFIER",
    "PROTOCOL TYPE",
    "DURATION MINUTES",
    "EFFORT DISTANCE KM",
    "NUMBER OBSERVERS",
    "ALL SPECIES REPORTED",
    "APPROVED",
    "SPECIES COMMENTS",
];

fn header_line() -> String {
    COLUMNS.join("\t")
}

fn row_line(guid: &str, lat: &str, lon: &str, date: &str) -> String {
    format!(
        "{}\tAmerican Crow\tCorvus brachyrhynchos\tX\t\t\tU\t{}\t{}\t{}\t07:00\tobsr1\tS1\tTraveling\t60\t1.5\t2\t1\t1\tseen",
        guid, lat, lon, date
    )
}

#[test]
fn header_resolves() {
    let header = split_tsv(&header_line());
    let schema = resolve_header(&header).unwrap();
    assert_eq!(schema.width, 20);
    assert_eq!(schema.guid, 0);
    assert_eq!(schema.species_comments, 19);
}

#[test]
fn missing_column_fails_resolution() {
    let mut cols: Vec<&str> = COLUMNS.to_vec();
    cols.retain(|c| *c != "LATITUDE");
    let header = split_tsv(&cols.join("\t"));
    assert!(resolve_header(&header).is_none());
}

#[test]
fn reordered_columns_are_tolerated() {
    let mut cols: Vec<&str> = COLUMNS.to_vec();
    cols.swap(0, 9);
    let header = split_tsv(&cols.join("\t"));
    let schema = resolve_header(&header).unwrap();
    assert_eq!(schema.guid, 9);
    assert_eq!(schema.obs_date, 0);
}

#[test]
fn good_row_decodes() {
    let header = split_tsv(&header_line());
    let schema = resolve_header(&header).unwrap();
    let fields = split_tsv(&row_line("URN:x:1", "37.8", "-122.4", "2020-01-15"));
    let rec = decode_row(&schema, &fields).unwrap();
    assert_eq!(rec.guid, "URN:x:1");
    assert_eq!(rec.common_name, "American Crow");
    assert_eq!(rec.latitude, "37.8");
    assert_eq!(rec.longitude, "-122.4");
    assert_eq!(rec.obs_date, "2020-01-15");
    assert_eq!(rec.duration_min, Some(60));
    assert_eq!(rec.effort_distance_km, Some("1.5".to_string()));
    assert_eq!(rec.number_observers, Some(2));
    assert_eq!(rec.all_species_reported, 1);
    assert_eq!(rec.approved, 1);
}

#[test]
fn empty_optionals_decode_to_none() {
    let header = split_tsv(&header_line());
    let schema = resolve_header(&header).unwrap();
    let line = "g\tc\ts\tX\t\t\tU\t37.8\t-122.4\t2020-01-15\t\tobsr1\tS1\tP\t\t\t\t1\t0\t";
    let fields = split_tsv(line);
    let rec = decode_row(&schema, &fields).unwrap();
    assert_eq!(rec.duration_min, None);
    assert_eq!(rec.effort_distance_km, None);
    assert_eq!(rec.number_observers, None);
    assert_eq!(rec.approved, 0);
}

#[test]
fn wrong_width_is_skipped() {
    let header = split_tsv(&header_line());
    let schema = resolve_header(&header).unwrap();
    let fields = split_tsv("only\tthree\tfields");
    assert!(decode_row(&schema, &fields).is_none());
}

#[test]
fn bad_coordinates_are_skipped() {
    let header = split_tsv(&header_line());
    let schema = resolve_header(&header).unwrap();
    let fields = split_tsv(&row_line("g", "north", "-122.4", "2020-01-15"));
    assert!(decode_row(&schema, &fields).is_none());
    let fields = split_tsv(&row_line("g", "37.8", "", "2020-01-15"));
    assert!(decode_row(&schema, &fields).is_none());
}

#[test]
fn bad_numeric_cells_are_skipped() {
    let header = split_tsv(&header_line());
    let schema = resolve_header(&header).unwrap();
    let line = "g\tc\ts\tX\t\t\tU\t37.8\t-122.4\t2020-01-15\t\tobsr1\tS1\tP\tsixty\t\t\t1\t1\t";
    assert!(decode_row(&schema, &split_tsv(line)).is_none());
    let line = "g\tc\ts\tX\t\t\tU\t37.8\t-122.4\t2020-01-15\t\tobsr1\tS1\tP\t\t\t\tyes\t1\t";
    assert!(decode_row(&schema, &split_tsv(line)).is_none());
}

#[test]
fn unparseable_date_still_decodes() {
    let header = split_tsv(&header_line());
    let schema = resolve_header(&header).unwrap();
    let fields = split_tsv(&row_line("g", "37.8", "-122.4", "someday"));
    let rec = decode_row(&schema, &fields).unwrap();
    assert_eq!(rec.obs_date, "someday");
}
