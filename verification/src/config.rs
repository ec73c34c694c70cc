use crate::date::{date_le, date_wf, parse_date, parse_date_spec, ObsDate};
use crate::pattern::{regex_valid, NamePattern};
use crate::text::{
    all_digits, decimal_text, is_decimal_positive, is_digit, parse_usize, parse_usize_spec,
    sign_len,
};
use crate::wkt_point::{parse_wkt_point, parse_wkt_point_spec};
use vstd::prelude::*;
use vstd::string::StringExecFns;

verus! {

/// The filter flags as handed in from the command line, still raw text.
pub struct RawFilterArgs {
    pub before_date: Option<String>,
    pub since_date: Option<String>,
    pub near_location: Option<String>,
    pub buffer: Option<String>,
    pub common_name_regex: Option<String>,
    pub scientific_name_regex: Option<String>,
    pub limit: Option<String>,
}

/// Why compiling the filter configuration failed; every one is fatal and
/// stops the run before any row is read.
#[derive(Clone, Copy, PartialEq, Eq, Structural, Debug)]
pub enum ConfigError {
    InvalidBeforeDate,
    InvalidSinceDate,
    BoundsReversed,
    InvalidLocation,
    InvalidBuffer,
    InvalidCommonPattern,
    InvalidScientificPattern,
    InvalidLimit,
}

impl ConfigError {
    /// A human-readable description of the fault.
    pub fn describe(&self) -> (r: &'static str)
        ensures
            (match *self {
                ConfigError::InvalidBeforeDate => r@ == "invalid before date"@,
                ConfigError::InvalidSinceDate => r@ == "invalid since date"@,
                ConfigError::BoundsReversed => r@ == "since date is after before date"@,
                ConfigError::InvalidLocation => r@ == "invalid near location"@,
                ConfigError::InvalidBuffer => r@ == "invalid buffer"@,
                ConfigError::InvalidCommonPattern => r@ == "invalid common name pattern"@,
                ConfigError::InvalidScientificPattern => r@ == "invalid scientific name pattern"@,
                ConfigError::InvalidLimit => r@ == "invalid limit"@,
            }),
    {
        match *self {
            ConfigError::InvalidBeforeDate => "invalid before date",
            ConfigError::InvalidSinceDate => "invalid since date",
            ConfigError::BoundsReversed => "since date is after before date",
            ConfigError::InvalidLocation => "invalid near location",
            ConfigError::InvalidBuffer => "invalid buffer",
            ConfigError::InvalidCommonPattern => "invalid common name pattern",
            ConfigError::InvalidScientificPattern => "invalid scientific name pattern",
            ConfigError::InvalidLimit => "invalid limit",
        }
    }
}

/// The reference point's coordinate texts, longitude first.
#[derive(Debug)]
pub struct NearPoint {
    pub lon: String,
    pub lat: String,
}

/// One immutable compiled filter configuration.
#[derive(Debug)]
pub struct FilterConfig {
    pub before_date: Option<ObsDate>,
    pub since_date: Option<ObsDate>,
    pub near: Option<NearPoint>,
    pub buffer: String,
    pub common_name: Option<NamePattern>,
    pub scientific_name: Option<NamePattern>,
    pub limit: usize,
}

/// What every compiled configuration guarantees.
pub open spec fn config_wf(c: FilterConfig) -> bool {
    (c.before_date is Some ==> date_wf(c.before_date->0)) && (c.since_date is Some ==> date_wf(
        c.since_date->0,
    )) && (c.before_date is Some && c.since_date is Some ==> date_le(
        c.since_date->0,
        c.before_date->0,
    )) && (c.near is Some ==> decimal_text(c.near->0.lon@) && decimal_text(c.near->0.lat@))
        && decimal_text(c.buffer@)
}

/// The first configuration fault, checked in command order: before date,
/// since date, reversed bounds, location, buffer, the two patterns, limit.
pub open spec fn compile_error_spec(a: RawFilterArgs) -> Option<ConfigError> {
    if a.before_date is Some && parse_date_spec(a.before_date->0@) is None {
        Some(ConfigError::InvalidBeforeDate)
    } else if a.since_date is Some && parse_date_spec(a.since_date->0@) is None {
        Some(ConfigError::InvalidSinceDate)
    } else if a.before_date is Some && a.since_date is Some && !date_le(
        parse_date_spec(a.since_date->0@)->0,
        parse_date_spec(a.before_date->0@)->0,
    ) {
        Some(ConfigError::BoundsReversed)
    } else if a.near_location is Some && parse_wkt_point_spec(a.near_location->0@) is None {
        Some(ConfigError::InvalidLocation)
    } else if a.buffer is Some && !crate::text::decimal_positive(a.buffer->0@) {
        Some(ConfigError::InvalidBuffer)
    } else if a.common_name_regex is Some && !regex_valid(a.common_name_regex->0@) {
        Some(ConfigError::InvalidCommonPattern)
    } else if a.scientific_name_regex is Some && !regex_valid(a.scientific_name_regex->0@) {
        Some(ConfigError::InvalidScientificPattern)
    } else if a.limit is Some && parse_usize_spec(a.limit->0@) is None {
        Some(ConfigError::InvalidLimit)
    } else {
        None
    }
}

/// Whether the compiled configuration is the one the raw flags call for.
pub open spec fn compiled_from(cfg: FilterConfig, a: RawFilterArgs) -> bool {
    &&& cfg.before_date == (if a.before_date is Some {
        parse_date_spec(a.before_date->0@)
    } else {
        None
    })
    &&& cfg.since_date == (if a.since_date is Some {
        parse_date_spec(a.since_date->0@)
    } else {
        None
    })
    &&& (cfg.near is Some <==> a.near_location is Some)
    &&& (a.near_location is Some ==> parse_wkt_point_spec(a.near_location->0@) == Some(
        (cfg.near->0.lon@, cfg.near->0.lat@),
    ))
    &&& cfg.buffer@ == (if a.buffer is Some {
        a.buffer->0@
    } else {
        "1000"@
    })
    &&& (cfg.common_name is Some <==> a.common_name_regex is Some)
    &&& (a.common_name_regex is Some ==> cfg.common_name->0.pattern_view()
        == a.common_name_regex->0@)
    &&& (cfg.scientific_name is Some <==> a.scientific_name_regex is Some)
    &&& (a.scientific_name_regex is Some ==> cfg.scientific_name->0.pattern_view()
        == a.scientific_name_regex->0@)
    &&& cfg.limit == (if a.limit is Some {
        parse_usize_spec(a.limit->0@)->0
    } else {
        usize::MAX
    })
}

/// Validate the raw flags in command order and build the one immutable
/// configuration; fail fast on the first invalid flag.
pub fn compile_filter(args: &RawFilterArgs) -> (r: Result<FilterConfig, ConfigError>)
    ensures
        (match r {
            Err(e) => compile_error_spec(*args) == Some(e),
            Ok(cfg) => compile_error_spec(*args) is None && config_wf(cfg) && compiled_from(
                cfg,
                *args,
            ),
        }),
{
    let before_date: Option<ObsDate> = match &args.before_date {
        Some(t) => {
            match parse_date(t.as_str()) {
                Some(d) => Some(d),
                None => {
                    return Err(ConfigError::InvalidBeforeDate);
                },
            }
        },
        None => None,
    };
    let since_date: Option<ObsDate> = match &args.since_date {
        Some(t) => {
            match parse_date(t.as_str()) {
                Some(d) => Some(d),
                None => {
                    return Err(ConfigError::InvalidSinceDate);
                },
            }
        },
        None => None,
    };
    match (&before_date, &since_date) {
        (Some(b), Some(s)) => {
            if !crate::date::date_le_x(s, b) {
                return Err(ConfigError::BoundsReversed);
            }
        },
        _ => {},
    }
    let near: Option<NearPoint> = match &args.near_location {
        Some(t) => {
            match parse_wkt_point(t.as_str()) {
                Some(p) => Some(NearPoint { lon: p.0, lat: p.1 }),
                None => {
                    return Err(ConfigError::InvalidLocation);
                },
            }
        },
        None => None,
    };
    let buffer: String = match &args.buffer {
        Some(t) => {
            if !is_decimal_positive(t.as_str()) {
                return Err(ConfigError::InvalidBuffer);
            }
            t.clone()
        },
        None => {
            let d = String::from_str("1000");
            proof {
                reveal_strlit("1000");
                assert(sign_len(d@) == 0);
                assert(d@.subrange(0, 4) =~= d@);
                assert(all_digits(d@)) by {
                    assert forall|i: int| 0 <= i < d@.len() implies is_digit(
                        #[trigger] d@[i],
                    ) by {
                        if i == 0 {
                            assert(d@[0] == '1');
                        } else if i == 1 {
                            assert(d@[1] == '0');
                        } else if i == 2 {
                            assert(d@[2] == '0');
                        } else {
                            assert(d@[3] == '0');
                        }
                    }
                }
                assert(decimal_text(d@));
            }
            d
        },
    };
    let common_name: Option<NamePattern> = match &args.common_name_regex {
        Some(t) => {
            match NamePattern::compile(t.clone()) {
                Some(p) => Some(p),
                None => {
                    return Err(ConfigError::InvalidCommonPattern);
                },
            }
        },
        None => None,
    };
    let scientific_name: Option<NamePattern> = match &args.scientific_name_regex {
        Some(t) => {
            match NamePattern::compile(t.clone()) {
                Some(p) => Some(p),
                None => {
                    return Err(ConfigError::InvalidScientificPattern);
                },
            }
        },
        None => None,
    };
    let limit: usize = match &args.limit {
        Some(t) => {
            match parse_usize(t.as_str()) {
                Some(n) => n,
                None => {
                    return Err(ConfigError::InvalidLimit);
                },
            }
        },
        None => usize::MAX,
    };
    Ok(
        FilterConfig {
            before_date,
            since_date,
            near,
            buffer,
            common_name,
            scientific_name,
            limit,
        },
    )
}

/// Law: a near-location text that does not write a single well-known-text
/// point — two points, a collection, a line, a polygon, anything else — is
/// rejected fatally when the filter is compiled; compilation takes no store
/// and reads no row, so the rejection comes before either is touched. The
/// date flags must have passed their own, earlier checks.
pub proof fn law_non_point_location_rejected(a: RawFilterArgs)
    requires
        a.near_location is Some,
        parse_wkt_point_spec(a.near_location->0@) is None,
        a.before_date is Some ==> parse_date_spec(a.before_date->0@) is Some,
        a.since_date is Some ==> parse_date_spec(a.since_date->0@) is Some,
        a.before_date is Some && a.since_date is Some ==> date_le(
            parse_date_spec(a.since_date->0@)->0,
            parse_date_spec(a.before_date->0@)->0,
        ),
    ensures
        compile_error_spec(a) == Some(ConfigError::InvalidLocation),
{
}

/// Law: a since date strictly after the before date is rejected, before any
/// row is read, as reversed bounds.
pub proof fn law_reversed_bounds_rejected(a: RawFilterArgs, since: ObsDate, before: ObsDate)
    requires
        a.before_date is Some,
        a.since_date is Some,
        parse_date_spec(a.before_date->0@) == Some(before),
        parse_date_spec(a.since_date->0@) == Some(since),
        !date_le(since, before),
    ensures
        compile_error_spec(a) == Some(ConfigError::BoundsReversed),
{
}

} // verus!
