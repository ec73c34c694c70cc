use crate::config::{config_wf, FilterConfig};
use crate::filter::{record_passes, record_passes_spec};
use crate::record::{decode_row, decode_spec, schema_wf, RecordV, Schema};
use crate::store::{
    begin_transaction, commit_transaction, initialize_database, insert_record, table_rows,
    txn_start_rows, StoredRowV,
};
use crate::text::{split_fields, split_tsv};
use crate::wkt_point::{make_wkt_point, wkt_point_text};
use vstd::prelude::*;

verus! {

/// What became of one data row.
pub enum RowOutcome {
    DecodeFailed,
    FilteredOut,
    Inserted,
    InsertFailed(String),
}

/// Counters of one run.
pub struct RunStats {
    pub considered: usize,
    pub decode_failures: usize,
    pub filtered_out: usize,
    pub inserted: usize,
    pub insert_failures: usize,
}

/// The stored form of a record: its content beside its point geometry text,
/// longitude first.
pub open spec fn stored_row_of(r: RecordV) -> StoredRowV {
    StoredRowV { rec: r, location: wkt_point_text(r.longitude, r.latitude) }
}

/// What one data line may do to the table: a line that does not decode is
/// skipped; a decoded record that fails the compound predicate is filtered
/// out; a surviving record is appended, unless its insert fails, which skips
/// the row and leaves the table either as it was or rolled back to the
/// transaction's start.
pub open spec fn line_outcome_ok(
    cfg: FilterConfig,
    s: Schema,
    line: Seq<char>,
    o: RowOutcome,
    before: Seq<StoredRowV>,
    after: Seq<StoredRowV>,
    txn_start: Seq<StoredRowV>,
) -> bool {
    match decode_spec(s, split_fields(line, '\t')) {
        None => o is DecodeFailed && after == before,
        Some(rv) => if !record_passes_spec(cfg, rv) {
            o is FilteredOut && after == before
        } else {
            (o is Inserted && after == before.push(stored_row_of(rv))) || (o is InsertFailed
                && (after == before || after == txn_start))
        },
    }
}

/// The outcome a line owes: failed decodes and filtered records are forced;
/// a record that decodes and passes is inserted, or its insert fails.
pub open spec fn outcome_reflects(
    cfg: FilterConfig,
    s: Schema,
    line: Seq<char>,
    o: RowOutcome,
) -> bool {
    match decode_spec(s, split_fields(line, '\t')) {
        None => o is DecodeFailed,
        Some(rv) => if !record_passes_spec(cfg, rv) {
            o is FilteredOut
        } else {
            o is Inserted || o is InsertFailed
        },
    }
}

/// How many of the first `n` lines fail to decode.
pub open spec fn count_undecoded(s: Schema, lines: Seq<Seq<char>>, n: int) -> int
    decreases n,
{
    if n <= 0 {
        0
    } else {
        count_undecoded(s, lines, n - 1) + if decode_spec(s, split_fields(lines[n - 1], '\t'))
            is None {
            1int
        } else {
            0int
        }
    }
}

/// How many of the first `n` lines decode but fail the compound predicate.
pub open spec fn count_rejected(cfg: FilterConfig, s: Schema, lines: Seq<Seq<char>>, n: int) -> int
    decreases n,
{
    if n <= 0 {
        0
    } else {
        count_rejected(cfg, s, lines, n - 1) + (match decode_spec(
            s,
            split_fields(lines[n - 1], '\t'),
        ) {
            Some(rv) => if !record_passes_spec(cfg, rv) {
                1int
            } else {
                0int
            },
            None => 0int,
        })
    }
}

/// How many of the first `n` lines decode and pass the compound predicate.
pub open spec fn count_passing(cfg: FilterConfig, s: Schema, lines: Seq<Seq<char>>, n: int) -> int
    decreases n,
{
    if n <= 0 {
        0
    } else {
        count_passing(cfg, s, lines, n - 1) + (match decode_spec(
            s,
            split_fields(lines[n - 1], '\t'),
        ) {
            Some(rv) => if record_passes_spec(cfg, rv) {
                1int
            } else {
                0int
            },
            None => 0int,
        })
    }
}

/// The stored rows of the lines whose outcome is a successful insert, in
/// line order: line `j` pairs with outcome `j`.
pub open spec fn inserted_rows(
    s: Schema,
    lines: Seq<Seq<char>>,
    outcomes: Seq<RowOutcome>,
) -> Seq<StoredRowV>
    decreases outcomes.len(),
{
    if outcomes.len() == 0 {
        Seq::empty()
    } else {
        let pre = inserted_rows(s, lines, outcomes.drop_last());
        if outcomes.last() is Inserted {
            pre.push(
                stored_row_of(
                    decode_spec(s, split_fields(lines[outcomes.len() - 1], '\t'))->0,
                ),
            )
        } else {
            pre
        }
    }
}

/// The table holds the initial rows followed by a suffix of the successfully
/// inserted rows: an in-flight insert fault may roll the earlier ones back.
pub open spec fn table_state_ok(
    initial: Seq<StoredRowV>,
    gained: Seq<StoredRowV>,
    table: Seq<StoredRowV>,
) -> bool {
    exists|c: int| 0 <= c <= gained.len() && table == initial + gained.subrange(
        c,
        gained.len() as int,
    )
}

/// Law: every row the loader emits came from a line that decoded to a record
/// the compound predicate passed, so each configured clause held of it: the
/// date bounds, the buffer around the reference point, the name patterns.
pub proof fn law_inserted_rows_pass(
    cfg: FilterConfig,
    s: Schema,
    lines: Seq<Seq<char>>,
    outcomes: Seq<RowOutcome>,
)
    requires
        outcomes.len() <= lines.len(),
        forall|j: int|
            0 <= j < outcomes.len() ==> outcome_reflects(cfg, s, lines[j], #[trigger] outcomes[j]),
    ensures
        forall|m: int|
            0 <= m < inserted_rows(s, lines, outcomes).len() ==> record_passes_spec(
                cfg,
                (#[trigger] inserted_rows(s, lines, outcomes)[m]).rec,
            ),
    decreases outcomes.len(),
{
    if outcomes.len() > 0 {
        let pre = outcomes.drop_last();
        assert forall|j: int|
            0 <= j < pre.len() implies outcome_reflects(cfg, s, lines[j], #[trigger] pre[j]) by {
            assert(pre[j] == outcomes[j]);
        }
        law_inserted_rows_pass(cfg, s, lines, pre);
        let whole = inserted_rows(s, lines, outcomes);
        let prev = inserted_rows(s, lines, pre);
        assert forall|m: int|
            0 <= m < whole.len() implies record_passes_spec(cfg, (#[trigger] whole[m]).rec) by {
            if m < prev.len() {
                assert(record_passes_spec(cfg, prev[m].rec));
                assert(whole[m] == prev[m]);
            } else {
                let j = outcomes.len() - 1;
                assert(outcome_reflects(cfg, s, lines[j], outcomes[j]));
                assert(outcomes.last() is Inserted);
            }
        }
    }
}

/// Split, decode, filter and insert one data line.
pub fn process_line(
    conn: &mut rusqlite::Connection,
    cfg: &FilterConfig,
    schema: &Schema,
    line: &str,
) -> (o: RowOutcome)
    requires
        schema_wf(*schema),
        config_wf(*cfg),
    ensures
        txn_start_rows(*final(conn)) == txn_start_rows(*old(conn)),
        line_outcome_ok(
            *cfg,
            *schema,
            line@,
            o,
            table_rows(*old(conn)),
            table_rows(*final(conn)),
            txn_start_rows(*old(conn)),
        ),
{
    let fields = split_tsv(line);
    let rec = match decode_row(schema, &fields) {
        Some(r) => r,
        None => {
            return RowOutcome::DecodeFailed;
        },
    };
    if !record_passes(cfg, &rec) {
        return RowOutcome::FilteredOut;
    }
    let location = make_wkt_point(rec.longitude.as_str(), rec.latitude.as_str());
    match insert_record(conn, &rec, location.as_str()) {
        Ok(_) => RowOutcome::Inserted,
        Err(e) => RowOutcome::InsertFailed(e),
    }
}

/// Run the whole load over the data lines inside the caller's transaction:
/// consider exactly the first `cfg.limit` lines (or all of them), decode,
/// filter and insert each in order. The counters report, line for line, how
/// many failed to decode, how many were filtered out, and how many passing
/// records had their insert attempted; the returned outcomes say which. When
/// no insert failed, the table gained exactly the passing records whose
/// outcome says so, in line order; a failed insert may also roll the open
/// transaction back, leaving a suffix of them.
pub fn run_load(
    conn: &mut rusqlite::Connection,
    cfg: &FilterConfig,
    schema: &Schema,
    lines: &Vec<String>,
) -> (r: (RunStats, Ghost<Seq<RowOutcome>>))
    requires
        schema_wf(*schema),
        config_wf(*cfg),
        txn_start_rows(*old(conn)) == table_rows(*old(conn)),
    ensures
        r.0.considered == if lines@.len() <= cfg.limit {
            lines@.len() as int
        } else {
            cfg.limit as int
        },
        r.0.decode_failures + r.0.filtered_out + r.0.inserted + r.0.insert_failures
            == r.0.considered,
        r.0.decode_failures == count_undecoded(*schema, lines.deep_view(), r.0.considered as int),
        r.0.filtered_out == count_rejected(*cfg, *schema, lines.deep_view(), r.0.considered as int),
        r.0.inserted + r.0.insert_failures == count_passing(
            *cfg,
            *schema,
            lines.deep_view(),
            r.0.considered as int,
        ),
        r.1@.len() == r.0.considered,
        forall|j: int|
            0 <= j < r.1@.len() ==> outcome_reflects(
                *cfg,
                *schema,
                lines.deep_view()[j],
                #[trigger] r.1@[j],
            ),
        r.0.inserted == inserted_rows(*schema, lines.deep_view(), r.1@).len(),
        table_state_ok(
            table_rows(*old(conn)),
            inserted_rows(*schema, lines.deep_view(), r.1@),
            table_rows(*final(conn)),
        ),
        r.0.insert_failures == 0 ==> table_rows(*final(conn)) == table_rows(*old(conn))
            + inserted_rows(*schema, lines.deep_view(), r.1@),
        txn_start_rows(*final(conn)) == txn_start_rows(*old(conn)),
{
    let ghost table0 = table_rows(*conn);
    let ghost dv = lines.deep_view();
    let ghost mut outcomes: Seq<RowOutcome> = Seq::empty();
    let mut stats = RunStats {
        considered: 0,
        decode_failures: 0,
        filtered_out: 0,
        inserted: 0,
        insert_failures: 0,
    };
    let n = lines.len();
    let mut i: usize = 0;
    proof {
        assert(inserted_rows(*schema, dv, outcomes) =~= Seq::<StoredRowV>::empty());
        assert(table_rows(*conn) =~= table0 + inserted_rows(*schema, dv, outcomes).subrange(
            0,
            0,
        ));
        assert(table_state_ok(table0, inserted_rows(*schema, dv, outcomes), table_rows(*conn)));
    }
    while i < n && i < cfg.limit
        invariant
            schema_wf(*schema),
            config_wf(*cfg),
            0 <= i <= n,
            i <= cfg.limit,
            n == lines@.len(),
            dv == lines.deep_view(),
            stats.considered == i,
            stats.decode_failures + stats.filtered_out + stats.inserted + stats.insert_failures
                == i,
            stats.decode_failures == count_undecoded(*schema, dv, i as int),
            stats.filtered_out == count_rejected(*cfg, *schema, dv, i as int),
            stats.inserted + stats.insert_failures == count_passing(*cfg, *schema, dv, i as int),
            outcomes.len() == i,
            forall|j: int|
                0 <= j < i ==> outcome_reflects(*cfg, *schema, dv[j], #[trigger] outcomes[j]),
            stats.inserted == inserted_rows(*schema, dv, outcomes).len(),
            table_state_ok(table0, inserted_rows(*schema, dv, outcomes), table_rows(*conn)),
            stats.insert_failures == 0 ==> table_rows(*conn) == table0 + inserted_rows(
                *schema,
                dv,
                outcomes,
            ),
            txn_start_rows(*conn) == table0,
        decreases n - i,
    {
        let ghost tpre = table_rows(*conn);
        let ghost ir_pre = inserted_rows(*schema, dv, outcomes);
        let ghost prev = outcomes;
        let ghost failures_pre = stats.insert_failures;
        let o = process_line(conn, cfg, schema, lines[i].as_str());
        let ghost tpost = table_rows(*conn);
        proof {
            outcomes = prev.push(o);
            let li = dv[i as int];
            assert(lines@[i as int]@ == li);
            assert(outcomes.drop_last() =~= prev);
            assert(outcomes.last() == o);
            assert(outcome_reflects(*cfg, *schema, li, o));
            assert forall|j: int|
                0 <= j < i + 1 implies outcome_reflects(
                *cfg,
                *schema,
                dv[j],
                #[trigger] outcomes[j],
            ) by {
                if j < i {
                    assert(outcomes[j] == prev[j]);
                } else {
                    assert(outcomes[j] == o);
                }
            }
            assert(count_undecoded(*schema, dv, i as int + 1) == count_undecoded(
                *schema,
                dv,
                i as int,
            ) + (if decode_spec(*schema, split_fields(li, '\t')) is None {
                1int
            } else {
                0int
            }));
            assert(count_rejected(*cfg, *schema, dv, i as int + 1) == count_rejected(
                *cfg,
                *schema,
                dv,
                i as int,
            ) + (match decode_spec(*schema, split_fields(li, '\t')) {
                Some(rv) => if !record_passes_spec(*cfg, rv) {
                    1int
                } else {
                    0int
                },
                None => 0int,
            }));
            assert(count_passing(*cfg, *schema, dv, i as int + 1) == count_passing(
                *cfg,
                *schema,
                dv,
                i as int,
            ) + (match decode_spec(*schema, split_fields(li, '\t')) {
                Some(rv) => if record_passes_spec(*cfg, rv) {
                    1int
                } else {
                    0int
                },
                None => 0int,
            }));
            let ir_post = inserted_rows(*schema, dv, outcomes);
            if o is Inserted {
                let rv = decode_spec(*schema, split_fields(li, '\t'))->0;
                assert(ir_post =~= ir_pre.push(stored_row_of(rv)));
                assert(tpost == tpre.push(stored_row_of(rv)));
                assert(exists|c: int|
                    0 <= c <= ir_pre.len() && tpre == table0 + ir_pre.subrange(
                        c,
                        ir_pre.len() as int,
                    ));
                let c = choose|c: int|
                    0 <= c <= ir_pre.len() && tpre == table0 + ir_pre.subrange(
                        c,
                        ir_pre.len() as int,
                    );
                assert(ir_post.subrange(c, ir_post.len() as int) =~= ir_pre.subrange(
                    c,
                    ir_pre.len() as int,
                ).push(stored_row_of(rv)));
                assert(tpost =~= table0 + ir_post.subrange(c, ir_post.len() as int));
                assert(table_state_ok(table0, ir_post, tpost));
                if failures_pre == 0 {
                    assert(tpost =~= table0 + ir_post);
                }
            } else {
                assert(ir_post =~= ir_pre);
                if o is InsertFailed && tpost != tpre {
                    assert(tpost == table0);
                    assert(ir_post.subrange(ir_post.len() as int, ir_post.len() as int)
                        =~= Seq::<StoredRowV>::empty());
                    assert(tpost =~= table0 + ir_post.subrange(
                        ir_post.len() as int,
                        ir_post.len() as int,
                    ));
                    assert(table_state_ok(table0, ir_post, tpost));
                } else {
                    assert(tpost == tpre);
                    assert(table_state_ok(table0, ir_post, tpost));
                }
            }
        }
        match o {
            RowOutcome::DecodeFailed => {
                stats.decode_failures = stats.decode_failures + 1;
            },
            RowOutcome::FilteredOut => {
                stats.filtered_out = stats.filtered_out + 1;
            },
            RowOutcome::Inserted => {
                stats.inserted = stats.inserted + 1;
            },
            RowOutcome::InsertFailed(_) => {
                stats.insert_failures = stats.insert_failures + 1;
            },
        }
        stats.considered = stats.considered + 1;
        i = i + 1;
    }
    (stats, Ghost(outcomes))
}

/// What one whole run reports: the counters, the per-line outcomes, and the
/// commit failure where one happened — a failed commit is only reported,
/// never fatal.
pub struct LoadReport {
    pub stats: RunStats,
    pub commit_error: Option<String>,
    pub outcomes: Ghost<Seq<RowOutcome>>,
}

/// One whole run: drop and recreate the destination schema, open one
/// transaction, load every surviving record, and commit once at the end.
/// A schema or transaction-open fault is fatal; a failed insert skips its
/// row; a failed commit is reported in the result and the run still
/// succeeds, though the rows may then never have been persisted.
pub fn load_archive(
    conn: &mut rusqlite::Connection,
    cfg: &FilterConfig,
    schema: &Schema,
    lines: &Vec<String>,
) -> (r: Result<LoadReport, String>)
    requires
        schema_wf(*schema),
        config_wf(*cfg),
    ensures
        (match r {
            Ok(rep) => {
                &&& rep.stats.considered == if lines@.len() <= cfg.limit {
                    lines@.len() as int
                } else {
                    cfg.limit as int
                }
                &&& rep.stats.decode_failures + rep.stats.filtered_out + rep.stats.inserted
                    + rep.stats.insert_failures == rep.stats.considered
                &&& rep.stats.decode_failures == count_undecoded(
                    *schema,
                    lines.deep_view(),
                    rep.stats.considered as int,
                )
                &&& rep.stats.filtered_out == count_rejected(
                    *cfg,
                    *schema,
                    lines.deep_view(),
                    rep.stats.considered as int,
                )
                &&& rep.stats.inserted + rep.stats.insert_failures == count_passing(
                    *cfg,
                    *schema,
                    lines.deep_view(),
                    rep.stats.considered as int,
                )
                &&& rep.outcomes@.len() == rep.stats.considered
                &&& forall|j: int|
                    0 <= j < rep.outcomes@.len() ==> outcome_reflects(
                        *cfg,
                        *schema,
                        lines.deep_view()[j],
                        #[trigger] rep.outcomes@[j],
                    )
                &&& rep.stats.inserted == inserted_rows(
                    *schema,
                    lines.deep_view(),
                    rep.outcomes@,
                ).len()
                &&& (rep.commit_error is None ==> table_state_ok(
                    Seq::<StoredRowV>::empty(),
                    inserted_rows(*schema, lines.deep_view(), rep.outcomes@),
                    table_rows(*final(conn)),
                ))
                &&& (rep.commit_error is None && rep.stats.insert_failures == 0
                    ==> table_rows(*final(conn)) == inserted_rows(
                    *schema,
                    lines.deep_view(),
                    rep.outcomes@,
                ))
            },
            Err(_) => true,
        }),
{
    match initialize_database(conn) {
        Ok(_) => {},
        Err(e) => {
            return Err(e);
        },
    }
    match begin_transaction(conn) {
        Ok(_) => {},
        Err(e) => {
            return Err(e);
        },
    }
    let (stats, outcomes) = run_load(conn, cfg, schema, lines);
    proof {
        assert(Seq::<StoredRowV>::empty() + inserted_rows(*schema, lines.deep_view(), outcomes@)
            =~= inserted_rows(*schema, lines.deep_view(), outcomes@));
    }
    let commit_error = match commit_transaction(conn) {
        Ok(_) => None,
        Err(e) => Some(e),
    };
    Ok(LoadReport { stats, commit_error, outcomes })
}


} // verus!
