use crate::config::{config_wf, FilterConfig};
use crate::date::{date_le, date_le_x, parse_date, parse_date_spec};
use crate::distance::{haversine_within, within_buffer};
use crate::pattern::regex_matches;
use crate::record::{record_wf, Record, RecordV};
use vstd::prelude::*;

verus! {

/// Upper-bound clause: the record's date, where it parses, lies on or before
/// the bound; a record whose date does not parse passes.
pub open spec fn before_ok(cfg: FilterConfig, r: RecordV) -> bool {
    match cfg.before_date {
        Some(bound) => match parse_date_spec(r.obs_date) {
            Some(d) => date_le(d, bound),
            None => true,
        },
        None => true,
    }
}

/// Lower-bound clause: the record's date, where it parses, lies on or after
/// the bound; a record whose date does not parse passes.
pub open spec fn since_ok(cfg: FilterConfig, r: RecordV) -> bool {
    match cfg.since_date {
        Some(bound) => match parse_date_spec(r.obs_date) {
            Some(d) => date_le(bound, d),
            None => true,
        },
        None => true,
    }
}

/// Geospatial clause: the record's point lies strictly within the buffer of
/// the reference point, by great-circle distance.
pub open spec fn near_ok(cfg: FilterConfig, r: RecordV) -> bool {
    match cfg.near {
        Some(p) => within_buffer(r.longitude, r.latitude, p.lon@, p.lat@, cfg.buffer@),
        None => true,
    }
}

/// Common-name clause: the pattern matches somewhere in the common name.
pub open spec fn common_name_ok(cfg: FilterConfig, r: RecordV) -> bool {
    match cfg.common_name {
        Some(p) => regex_matches(p.pattern_view(), r.common_name),
        None => true,
    }
}

/// Scientific-name clause: the pattern matches somewhere in the scientific
/// name.
pub open spec fn scientific_name_ok(cfg: FilterConfig, r: RecordV) -> bool {
    match cfg.scientific_name {
        Some(p) => regex_matches(p.pattern_view(), r.scientific_name),
        None => true,
    }
}

/// The compound predicate: the conjunction of every configured clause;
/// absent clauses hold vacuously.
pub open spec fn record_passes_spec(cfg: FilterConfig, r: RecordV) -> bool {
    before_ok(cfg, r) && since_ok(cfg, r) && near_ok(cfg, r) && common_name_ok(cfg, r)
        && scientific_name_ok(cfg, r)
}

/// Evaluate the upper-bound clause.
pub fn before_clause(cfg: &FilterConfig, rec: &Record) -> (r: bool)
    ensures
        r == before_ok(*cfg, rec@),
{
    match &cfg.before_date {
        Some(bound) => match parse_date(rec.obs_date.as_str()) {
            Some(d) => date_le_x(&d, bound),
            None => true,
        },
        None => true,
    }
}

/// Evaluate the lower-bound clause.
pub fn since_clause(cfg: &FilterConfig, rec: &Record) -> (r: bool)
    ensures
        r == since_ok(*cfg, rec@),
{
    match &cfg.since_date {
        Some(bound) => match parse_date(rec.obs_date.as_str()) {
            Some(d) => date_le_x(bound, &d),
            None => true,
        },
        None => true,
    }
}

/// Evaluate the geospatial clause. The validated configuration and record
/// carry decimal coordinate and buffer texts, which the distance call needs.
pub fn near_clause(cfg: &FilterConfig, rec: &Record) -> (r: bool)
    requires
        config_wf(*cfg),
        record_wf(rec@),
    ensures
        r == near_ok(*cfg, rec@),
{
    match &cfg.near {
        Some(p) => haversine_within(
            rec.longitude.as_str(),
            rec.latitude.as_str(),
            p.lon.as_str(),
            p.lat.as_str(),
            cfg.buffer.as_str(),
        ),
        None => true,
    }
}

/// Evaluate the common-name clause.
pub fn common_name_clause(cfg: &FilterConfig, rec: &Record) -> (r: bool)
    ensures
        r == common_name_ok(*cfg, rec@),
{
    match &cfg.common_name {
        Some(p) => p.is_match(rec.common_name.as_str()),
        None => true,
    }
}

/// Evaluate the scientific-name clause.
pub fn scientific_name_clause(cfg: &FilterConfig, rec: &Record) -> (r: bool)
    ensures
        r == scientific_name_ok(*cfg, rec@),
{
    match &cfg.scientific_name {
        Some(p) => p.is_match(rec.scientific_name.as_str()),
        None => true,
    }
}

/// Evaluate the compound predicate, stopping at the first failing clause.
pub fn record_passes(cfg: &FilterConfig, rec: &Record) -> (r: bool)
    requires
        config_wf(*cfg),
        record_wf(rec@),
    ensures
        r == record_passes_spec(*cfg, rec@),
{
    before_clause(cfg, rec) && since_clause(cfg, rec) && near_clause(cfg, rec)
        && common_name_clause(cfg, rec) && scientific_name_clause(cfg, rec)
}

/// Law: a record the compound predicate passes respects the upper date
/// bound, unless its date does not parse.
pub proof fn law_passes_upper_bound(cfg: FilterConfig, r: RecordV)
    requires
        record_passes_spec(cfg, r),
        cfg.before_date is Some,
    ensures
        (match parse_date_spec(r.obs_date) {
            Some(d) => date_le(d, cfg.before_date->0),
            None => true,
        }),
{
}

/// Law: a record the compound predicate passes respects the lower date
/// bound, unless its date does not parse.
pub proof fn law_passes_lower_bound(cfg: FilterConfig, r: RecordV)
    requires
        record_passes_spec(cfg, r),
        cfg.since_date is Some,
    ensures
        (match parse_date_spec(r.obs_date) {
            Some(d) => date_le(cfg.since_date->0, d),
            None => true,
        }),
{
}

/// Law: a record the compound predicate passes lies strictly within the
/// buffer around the reference point, by great-circle distance.
pub proof fn law_passes_near_buffer(cfg: FilterConfig, r: RecordV)
    requires
        record_passes_spec(cfg, r),
        cfg.near is Some,
    ensures
        within_buffer(r.longitude, r.latitude, cfg.near->0.lon@, cfg.near->0.lat@, cfg.buffer@),
{
}

/// Law: a record the compound predicate passes is matched by each configured
/// name pattern, in its respective name.
pub proof fn law_passes_name_patterns(cfg: FilterConfig, r: RecordV)
    requires
        record_passes_spec(cfg, r),
    ensures
        cfg.common_name is Some ==> regex_matches(cfg.common_name->0.pattern_view(), r.common_name),
        cfg.scientific_name is Some ==> regex_matches(
            cfg.scientific_name->0.pattern_view(),
            r.scientific_name,
        ),
{
}

} // verus!
