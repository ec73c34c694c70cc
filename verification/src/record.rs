use crate::text::{decimal_text, is_decimal_text, parse_i64, parse_i64_spec, str_eq};
use vstd::prelude::*;

verus! {

/// One decoded observation. Coordinates and the effort distance keep the
/// texts the export carries; they are validated as decimal numbers when a
/// row is decoded.
pub struct Record {
    pub guid: String,
    pub common_name: String,
    pub scientific_name: String,
    pub observation_count: String,
    pub breeding_bird_atlas_code: String,
    pub breeding_bird_atlas_category: String,
    pub age_sex: String,
    pub latitude: String,
    pub longitude: String,
    pub obs_date: String,
    pub time_obs_started: String,
    pub obs_id: String,
    pub sampling_event_id: String,
    pub protocol_type: String,
    pub duration_min: Option<i64>,
    pub effort_distance_km: Option<String>,
    pub number_observers: Option<i64>,
    pub all_species_reported: i64,
    pub approved: i64,
    pub species_comments: String,
}

/// The mathematical content of a record.
pub struct RecordV {
    pub guid: Seq<char>,
    pub common_name: Seq<char>,
    pub scientific_name: Seq<char>,
    pub observation_count: Seq<char>,
    pub breeding_bird_atlas_code: Seq<char>,
    pub breeding_bird_atlas_category: Seq<char>,
    pub age_sex: Seq<char>,
    pub latitude: Seq<char>,
    pub longitude: Seq<char>,
    pub obs_date: Seq<char>,
    pub time_obs_started: Seq<char>,
    pub obs_id: Seq<char>,
    pub sampling_event_id: Seq<char>,
    pub protocol_type: Seq<char>,
    pub duration_min: Option<i64>,
    pub effort_distance_km: Option<Seq<char>>,
    pub number_observers: Option<i64>,
    pub all_species_reported: i64,
    pub approved: i64,
    pub species_comments: Seq<char>,
}

impl View for Record {
    type V = RecordV;

    open spec fn view(&self) -> RecordV {
        RecordV {
            guid: self.guid@,
            common_name: self.common_name@,
            scientific_name: self.scientific_name@,
            observation_count: self.observation_count@,
            breeding_bird_atlas_code: self.breeding_bird_atlas_code@,
            breeding_bird_atlas_category: self.breeding_bird_atlas_category@,
            age_sex: self.age_sex@,
            latitude: self.latitude@,
            longitude: self.longitude@,
            obs_date: self.obs_date@,
            time_obs_started: self.time_obs_started@,
            obs_id: self.obs_id@,
            sampling_event_id: self.sampling_event_id@,
            protocol_type: self.protocol_type@,
            duration_min: self.duration_min,
            effort_distance_km: match self.effort_distance_km {
                Some(ref t) => Some(t@),
                None => None,
            },
            number_observers: self.number_observers,
            all_species_reported: self.all_species_reported,
            approved: self.approved,
            species_comments: self.species_comments@,
        }
    }
}

/// A record is well formed when its validated texts parse as the decoder
/// demands.
pub open spec fn record_wf(r: RecordV) -> bool {
    decimal_text(r.latitude) && decimal_text(r.longitude)
}

/// Where each column stands in a row, and how wide a row must be.
pub struct Schema {
    pub width: usize,
    pub guid: usize,
    pub common_name: usize,
    pub scientific_name: usize,
    pub observation_count: usize,
    pub breeding_bird_atlas_code: usize,
    pub breeding_bird_atlas_category: usize,
    pub age_sex: usize,
    pub latitude: usize,
    pub longitude: usize,
    pub obs_date: usize,
    pub time_obs_started: usize,
    pub obs_id: usize,
    pub sampling_event_id: usize,
    pub protocol_type: usize,
    pub duration_min: usize,
    pub effort_distance_km: usize,
    pub number_observers: usize,
    pub all_species_reported: usize,
    pub approved: usize,
    pub species_comments: usize,
}

/// Every column index lies inside the row width.
pub open spec fn schema_wf(s: Schema) -> bool {
    s.guid < s.width && s.common_name < s.width && s.scientific_name < s.width
        && s.observation_count < s.width && s.breeding_bird_atlas_code < s.width
        && s.breeding_bird_atlas_category < s.width && s.age_sex < s.width && s.latitude < s.width
        && s.longitude < s.width && s.obs_date < s.width && s.time_obs_started < s.width
        && s.obs_id < s.width && s.sampling_event_id < s.width && s.protocol_type < s.width
        && s.duration_min < s.width && s.effort_distance_km < s.width && s.number_observers
        < s.width && s.all_species_reported < s.width && s.approved < s.width
        && s.species_comments < s.width
}

/// The header names a column `name` somewhere.
pub open spec fn has_column(h: Seq<Seq<char>>, name: Seq<char>) -> bool {
    exists|i: int| 0 <= i < h.len() && h[i] == name
}

/// The schema points each field at a header cell bearing its column name.
pub open spec fn schema_matches(s: Schema, h: Seq<Seq<char>>) -> bool {
    schema_wf(s) && s.width == h.len() && h[s.guid as int] == "GLOBAL UNIQUE IDENTIFIER"@
        && h[s.common_name as int] == "COMMON NAME"@ && h[s.scientific_name as int]
        == "SCIENTIFIC NAME"@ && h[s.observation_count as int] == "OBSERVATION COUNT"@
        && h[s.breeding_bird_atlas_code as int] == "BREEDING BIRD ATLAS CODE"@
        && h[s.breeding_bird_atlas_category as int] == "BREEDING BIRD ATLAS CATEGORY"@
        && h[s.age_sex as int] == "AGE/SEX"@ && h[s.latitude as int] == "LATITUDE"@
        && h[s.longitude as int] == "LONGITUDE"@ && h[s.obs_date as int] == "OBSERVATION DATE"@
        && h[s.time_obs_started as int] == "TIME OBSERVATIONS STARTED"@ && h[s.obs_id as int]
        == "OBSERVER ID"@ && h[s.sampling_event_id as int] == "SAMPLING EVENT IDENTIFIER"@
        && h[s.protocol_type as int] == "PROTOCOL TYPE"@ && h[s.duration_min as int]
        == "DURATION MINUTES"@ && h[s.effort_distance_km as int] == "EFFORT DISTANCE KM"@
        && h[s.number_observers as int] == "NUMBER OBSERVERS"@ && h[s.all_species_reported as int]
        == "ALL SPECIES REPORTED"@ && h[s.approved as int] == "APPROVED"@
        && h[s.species_comments as int] == "SPECIES COMMENTS"@
}

/// Index of a cell holding `name`, if the header has one.
fn find_column(header: &Vec<String>, name: &str) -> (r: Option<usize>)
    ensures
        match r {
            Some(i) => i < header@.len() && header.deep_view()[i as int] == name@,
            None => !has_column(header.deep_view(), name@),
        },
{
    let mut i: usize = 0;
    let n = header.len();
    while i < n
        invariant
            0 <= i <= n,
            n == header@.len(),
            forall|j: int| 0 <= j < i ==> #[trigger] header.deep_view()[j] != name@,
        decreases n - i,
    {
        if str_eq(header[i].as_str(), name) {
            proof {
                assert(header.deep_view()[i as int] == header@[i as int]@);
            }
            return Some(i);
        }
        proof {
            assert(header.deep_view()[i as int] == header@[i as int]@);
        }
        i = i + 1;
    }
    None
}

/// Build the schema from the header row: each column is found by name.
pub fn resolve_header(header: &Vec<String>) -> (r: Option<Schema>)
    ensures
        r is Some ==> schema_matches(r->0, header.deep_view()),
        r is None ==> !(has_column(header.deep_view(), "GLOBAL UNIQUE IDENTIFIER"@) && has_column(
            header.deep_view(),
            "COMMON NAME"@,
        ) && has_column(header.deep_view(), "SCIENTIFIC NAME"@) && has_column(
            header.deep_view(),
            "OBSERVATION COUNT"@,
        ) && has_column(header.deep_view(), "BREEDING BIRD ATLAS CODE"@) && has_column(
            header.deep_view(),
            "BREEDING BIRD ATLAS CATEGORY"@,
        ) && has_column(header.deep_view(), "AGE/SEX"@) && has_column(
            header.deep_view(),
            "LATITUDE"@,
        ) && has_column(header.deep_view(), "LONGITUDE"@) && has_column(
            header.deep_view(),
            "OBSERVATION DATE"@,
        ) && has_column(header.deep_view(), "TIME OBSERVATIONS STARTED"@) && has_column(
            header.deep_view(),
            "OBSERVER ID"@,
        ) && has_column(header.deep_view(), "SAMPLING EVENT IDENTIFIER"@) && has_column(
            header.deep_view(),
            "PROTOCOL TYPE"@,
        ) && has_column(header.deep_view(), "DURATION MINUTES"@) && has_column(
            header.deep_view(),
            "EFFORT DISTANCE KM"@,
        ) && has_column(header.deep_view(), "NUMBER OBSERVERS"@) && has_column(
            header.deep_view(),
            "ALL SPECIES REPORTED"@,
        ) && has_column(header.deep_view(), "APPROVED"@) && has_column(
            header.deep_view(),
            "SPECIES COMMENTS"@,
        )),
{
    let guid = match find_column(header, "GLOBAL UNIQUE IDENTIFIER") {
        Some(i) => i,
        None => {
            return None;
        },
    };
    let common_name = match find_column(header, "COMMON NAME") {
        Some(i) => i,
        None => {
            return None;
        },
    };
    let scientific_name = match find_column(header, "SCIENTIFIC NAME") {
        Some(i) => i,
        None => {
            return None;
        },
    };
    let observation_count = match find_column(header, "OBSERVATION COUNT") {
        Some(i) => i,
        None => {
            return None;
        },
    };
    let breeding_bird_atlas_code = match find_column(header, "BREEDING BIRD ATLAS CODE") {
        Some(i) => i,
        None => {
            return None;
        },
    };
    let breeding_bird_atlas_category = match find_column(header, "BREEDING BIRD ATLAS CATEGORY") {
        Some(i) => i,
        None => {
            return None;
        },
    };
    let age_sex = match find_column(header, "AGE/SEX") {
        Some(i) => i,
        None => {
            return None;
        },
    };
    let latitude = match find_column(header, "LATITUDE") {
        Some(i) => i,
        None => {
            return None;
        },
    };
    let longitude = match find_column(header, "LONGITUDE") {
        Some(i) => i,
        None => {
            return None;
        },
    };
    let obs_date = match find_column(header, "OBSERVATION DATE") {
        Some(i) => i,
        None => {
            return None;
        },
    };
    let time_obs_started = match find_column(header, "TIME OBSERVATIONS STARTED") {
        Some(i) => i,
        None => {
            return None;
        },
    };
    let obs_id = match find_column(header, "OBSERVER ID") {
        Some(i) => i,
        None => {
            return None;
        },
    };
    let sampling_event_id = match find_column(header, "SAMPLING EVENT IDENTIFIER") {
        Some(i) => i,
        None => {
            return None;
        },
    };
    let protocol_type = match find_column(header, "PROTOCOL TYPE") {
        Some(i) => i,
        None => {
            return None;
        },
    };
    let duration_min = match find_column(header, "DURATION MINUTES") {
        Some(i) => i,
        None => {
            return None;
        },
    };
    let effort_distance_km = match find_column(header, "EFFORT DISTANCE KM") {
        Some(i) => i,
        None => {
            return None;
        },
    };
    let number_observers = match find_column(header, "NUMBER OBSERVERS") {
        Some(i) => i,
        None => {
            return None;
        },
    };
    let all_species_reported = match find_column(header, "ALL SPECIES REPORTED") {
        Some(i) => i,
        None => {
            return None;
        },
    };
    let approved = match find_column(header, "APPROVED") {
        Some(i) => i,
        None => {
            return None;
        },
    };
    let species_comments = match find_column(header, "SPECIES COMMENTS") {
        Some(i) => i,
        None => {
            return None;
        },
    };
    Some(
        Schema {
            width: header.len(),
            guid,
            common_name,
            scientific_name,
            observation_count,
            breeding_bird_atlas_code,
            breeding_bird_atlas_category,
            age_sex,
            latitude,
            longitude,
            obs_date,
            time_obs_started,
            obs_id,
            sampling_event_id,
            protocol_type,
            duration_min,
            effort_distance_km,
            number_observers,
            all_species_reported,
            approved,
            species_comments,
        },
    )
}

/// An optional integer cell: empty means absent, anything else must parse.
pub open spec fn opt_i64_ok(t: Seq<char>) -> bool {
    t.len() == 0 || parse_i64_spec(t) is Some
}

pub open spec fn opt_i64_of(t: Seq<char>) -> Option<i64> {
    if t.len() == 0 {
        None
    } else {
        parse_i64_spec(t)
    }
}

/// An optional decimal cell: empty means absent, anything else must be a
/// decimal number.
pub open spec fn opt_decimal_ok(t: Seq<char>) -> bool {
    t.len() == 0 || decimal_text(t)
}

pub open spec fn opt_text_of(t: Seq<char>) -> Option<Seq<char>> {
    if t.len() == 0 {
        None
    } else {
        Some(t)
    }
}

/// A row decodes when it is exactly as wide as the header and every typed
/// cell parses.
pub open spec fn row_decodes(s: Schema, f: Seq<Seq<char>>) -> bool {
    schema_wf(s) && f.len() == s.width && decimal_text(f[s.latitude as int]) && decimal_text(
        f[s.longitude as int],
    ) && opt_i64_ok(f[s.duration_min as int]) && opt_decimal_ok(f[s.effort_distance_km as int])
        && opt_i64_ok(f[s.number_observers as int]) && parse_i64_spec(
        f[s.all_species_reported as int],
    ) is Some && parse_i64_spec(f[s.approved as int]) is Some
}

/// What decoding a row yields.
pub open spec fn decode_spec(s: Schema, f: Seq<Seq<char>>) -> Option<RecordV> {
    if row_decodes(s, f) {
        Some(
            RecordV {
                guid: f[s.guid as int],
                common_name: f[s.common_name as int],
                scientific_name: f[s.scientific_name as int],
                observation_count: f[s.observation_count as int],
                breeding_bird_atlas_code: f[s.breeding_bird_atlas_code as int],
                breeding_bird_atlas_category: f[s.breeding_bird_atlas_category as int],
                age_sex: f[s.age_sex as int],
                latitude: f[s.latitude as int],
                longitude: f[s.longitude as int],
                obs_date: f[s.obs_date as int],
                time_obs_started: f[s.time_obs_started as int],
                obs_id: f[s.obs_id as int],
                sampling_event_id: f[s.sampling_event_id as int],
                protocol_type: f[s.protocol_type as int],
                duration_min: opt_i64_of(f[s.duration_min as int]),
                effort_distance_km: opt_text_of(f[s.effort_distance_km as int]),
                number_observers: opt_i64_of(f[s.number_observers as int]),
                all_species_reported: parse_i64_spec(f[s.all_species_reported as int])->0,
                approved: parse_i64_spec(f[s.approved as int])->0,
                species_comments: f[s.species_comments as int],
            },
        )
    } else {
        None
    }
}

/// Parse an optional integer cell.
fn decode_opt_i64(t: &String) -> (r: Option<Option<i64>>)
    ensures
        r is Some <==> opt_i64_ok(t@),
        r is Some ==> r->0 == opt_i64_of(t@),
{
    if t.as_str().is_empty() {
        return Some(None);
    }
    match parse_i64(t.as_str()) {
        Some(v) => Some(Some(v)),
        None => None,
    }
}

/// Parse an optional decimal cell.
fn decode_opt_decimal(t: &String) -> (r: Option<Option<String>>)
    ensures
        r is Some <==> opt_decimal_ok(t@),
        r is Some ==> (match r->0 {
            Some(ref v) => opt_text_of(t@) == Some(v@),
            None => opt_text_of(t@) is None,
        }),
{
    if t.as_str().is_empty() {
        return Some(None);
    }
    if is_decimal_text(t.as_str()) {
        Some(Some(t.clone()))
    } else {
        None
    }
}

/// Decode one row against the schema; a row that fails to decode is a skip,
/// never an error.
pub fn decode_row(s: &Schema, fields: &Vec<String>) -> (r: Option<Record>)
    requires
        schema_wf(*s),
    ensures
        match r {
            Some(rec) => decode_spec(*s, fields.deep_view()) == Some(rec@) && record_wf(rec@),
            None => decode_spec(*s, fields.deep_view()) is None,
        },
{
    proof {
        assert(forall|j: int|
            0 <= j < fields@.len() ==> #[trigger] fields.deep_view()[j] == fields@[j]@);
    }
    if fields.len() != s.width {
        return None;
    }
    if !is_decimal_text(fields[s.latitude].as_str()) {
        return None;
    }
    if !is_decimal_text(fields[s.longitude].as_str()) {
        return None;
    }
    let duration_min = match decode_opt_i64(&fields[s.duration_min]) {
        Some(v) => v,
        None => {
            return None;
        },
    };
    let effort_distance_km = match decode_opt_decimal(&fields[s.effort_distance_km]) {
        Some(v) => v,
        None => {
            return None;
        },
    };
    let number_observers = match decode_opt_i64(&fields[s.number_observers]) {
        Some(v) => v,
        None => {
            return None;
        },
    };
    let all_species_reported = match parse_i64(fields[s.all_species_reported].as_str()) {
        Some(v) => v,
        None => {
            return None;
        },
    };
    let approved = match parse_i64(fields[s.approved].as_str()) {
        Some(v) => v,
        None => {
            return None;
        },
    };
    Some(
        Record {
            guid: fields[s.guid].clone(),
            common_name: fields[s.common_name].clone(),
            scientific_name: fields[s.scientific_name].clone(),
            observation_count: fields[s.observation_count].clone(),
            breeding_bird_atlas_code: fields[s.breeding_bird_atlas_code].clone(),
            breeding_bird_atlas_category: fields[s.breeding_bird_atlas_category].clone(),
            age_sex: fields[s.age_sex].clone(),
            latitude: fields[s.latitude].clone(),
            longitude: fields[s.longitude].clone(),
            obs_date: fields[s.obs_date].clone(),
            time_obs_started: fields[s.time_obs_started].clone(),
            obs_id: fields[s.obs_id].clone(),
            sampling_event_id: fields[s.sampling_event_id].clone(),
            protocol_type: fields[s.protocol_type].clone(),
            duration_min,
            effort_distance_km,
            number_observers,
            all_species_reported,
            approved,
            species_comments: fields[s.species_comments].clone(),
        },
    )
}

} // verus!
