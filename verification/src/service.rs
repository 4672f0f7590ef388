//! The metadata service: the three externally visible operations, each
//! composed of identifier validation, existence probes and a final data
//! query, all executed through the retry orchestrator.
//!
//! Each operation takes the backend queries it needs as function values
//! (attempt index and owed backoff delay in, one attempt's outcome out),
//! so the sequencing is verified for every backend behaviour: validation
//! fails fast before any query runs, a probe that reports absence stops
//! the operation with the precise "not found" error, and a listing
//! failure that races a passed probe is remapped rather than surfaced as
//! a generic failure.

use vstd::prelude::*;
use vstd::string::StringExecFns;

use crate::errors::contains_seq;
use crate::errors::contains_str;
use crate::errors::ClickHouseError;
use crate::errors::ErrorModel;
use crate::errors::RawError;
use crate::ident::ident_error_reason;
use crate::ident::ident_ok;
use crate::ident::validate_identifier;
use crate::info::ColumnInfo;
use crate::info::DatabaseInfo;
use crate::info::TableInfo;
use crate::retry::policy_wf;
use crate::retry::spec_backoff_ms;
use crate::retry::valid_retry_trace;
use crate::retry::with_retry;
use crate::retry::RetryPolicy;

verus! {

/// Runs one operation through the retry orchestrator and hands back,
/// beside the result, the trace of attempt outcomes that explains it.
fn with_retry_traced<T, F: Fn(u32, u64) -> Result<T, RawError>>(policy: &RetryPolicy, op: F) -> (r:
    (Result<T, ClickHouseError>, Ghost<Seq<Result<T, RawError>>>))
    requires
        policy_wf(*policy),
        forall|k: u32, d: u64|
            0 <= k <= policy.max_retries && d == spec_backoff_ms(*policy, k as nat)
                ==> call_requires(op, (k, d)),
    ensures
        valid_retry_trace(*policy, op, r.1@, r.0),
{
    let res = with_retry(policy, op);
    let ghost t = choose|t: Seq<Result<T, RawError>>| valid_retry_trace(*policy, op, t, res);
    (res, Ghost(t))
}

/// A "query failed" error whose message reports a missing object is
/// remapped to the precise "not found" error for `database`; anything
/// else passes through. This covers a database dropped between the
/// existence probe and the listing query.
pub open spec fn remap_missing_db(e: ErrorModel, database: Seq<char>) -> ErrorModel {
    match e {
        ErrorModel::QueryFailed { message } => if contains_seq(message, "doesn't exist"@) {
            ErrorModel::DatabaseNotFound { database }
        } else {
            e
        },
        _ => e,
    }
}

/// As [`remap_missing_db`], for a table dropped between the probes and
/// the column listing.
pub open spec fn remap_missing_table(e: ErrorModel, database: Seq<char>, table: Seq<char>) -> ErrorModel {
    match e {
        ErrorModel::QueryFailed { message } => if contains_seq(message, "doesn't exist"@) {
            ErrorModel::TableNotFound { database, table }
        } else {
            e
        },
        _ => e,
    }
}

/// Remaps a "query failed" error reporting a missing object to
/// `DatabaseNotFound` for `database`.
fn remap_db_not_found(e: ClickHouseError, database: &str) -> (r: ClickHouseError)
    ensures
        r@ == remap_missing_db(e@, database@),
{
    match e {
        ClickHouseError::QueryFailed { message } => {
            if contains_str(message.as_str(), "doesn't exist") {
                ClickHouseError::DatabaseNotFound { database: String::from_str(database) }
            } else {
                ClickHouseError::QueryFailed { message }
            }
        },
        other => other,
    }
}

/// Remaps a "query failed" error reporting a missing object to
/// `TableNotFound` for `database` and `table`.
fn remap_table_not_found(e: ClickHouseError, database: &str, table: &str) -> (r: ClickHouseError)
    ensures
        r@ == remap_missing_table(e@, database@, table@),
{
    match e {
        ClickHouseError::QueryFailed { message } => {
            if contains_str(message.as_str(), "doesn't exist") {
                ClickHouseError::TableNotFound {
                    database: String::from_str(database),
                    table: String::from_str(table),
                }
            } else {
                ClickHouseError::QueryFailed { message }
            }
        },
        other => other,
    }
}

/// The error that validation reports for `name`.
pub open spec fn invalid_identifier_model(name: Seq<char>) -> ErrorModel {
    ErrorModel::InvalidIdentifier { identifier: name, reason: ident_error_reason(name) }
}

/// What a run of [`list_databases_with`] returns: the outcome of one
/// retry-wrapped listing query, passed through unchanged.
pub open spec fn list_databases_run<F: Fn(u32, u64) -> Result<Vec<DatabaseInfo>, RawError>>(
    policy: RetryPolicy,
    fetch: F,
    r: Result<Vec<DatabaseInfo>, ClickHouseError>,
) -> bool {
    exists|trace: Seq<Result<Vec<DatabaseInfo>, RawError>>|
        #[trigger] valid_retry_trace(policy, fetch, trace, r)
}

/// Lists all databases: a single query through the retry orchestrator,
/// no existence precondition.
pub fn list_databases_with<F: Fn(u32, u64) -> Result<Vec<DatabaseInfo>, RawError>>(
    policy: &RetryPolicy,
    fetch: F,
) -> (r: Result<Vec<DatabaseInfo>, ClickHouseError>)
    requires
        policy_wf(*policy),
        forall|k: u32, d: u64|
            0 <= k <= policy.max_retries && d == spec_backoff_ms(*policy, k as nat)
                ==> call_requires(fetch, (k, d)),
    ensures
        list_databases_run(*policy, fetch, r),
{
    with_retry(policy, fetch)
}

/// What a run of [`health_check_with`] returns: success exactly when the
/// retry-wrapped probe succeeded, its scalar discarded.
pub open spec fn health_check_run<F: Fn(u32, u64) -> Result<u8, RawError>>(
    policy: RetryPolicy,
    ping: F,
    r: Result<(), ClickHouseError>,
) -> bool {
    exists|trace: Seq<Result<u8, RawError>>, pr: Result<u8, ClickHouseError>|
        #[trigger] valid_retry_trace(policy, ping, trace, pr) && (match pr {
            Result::Ok(_) => r == Result::<(), ClickHouseError>::Ok(()),
            Result::Err(e) => r == Result::<(), ClickHouseError>::Err(e),
        })
}

/// Checks that the backend answers a trivial scalar query, through the
/// retry orchestrator.
pub fn health_check_with<F: Fn(u32, u64) -> Result<u8, RawError>>(policy: &RetryPolicy, ping: F) -> (r:
    Result<(), ClickHouseError>)
    requires
        policy_wf(*policy),
        forall|k: u32, d: u64|
            0 <= k <= policy.max_retries && d == spec_backoff_ms(*policy, k as nat)
                ==> call_requires(ping, (k, d)),
    ensures
        health_check_run(*policy, ping, r),
{
    let (res, trace) = with_retry_traced(policy, ping);
    match res {
        Ok(_) => {
            let r = Result::<(), ClickHouseError>::Ok(());
            assert(health_check_run(*policy, ping, r));
            r
        },
        Err(e) => {
            let ghost pr = Result::<u8, ClickHouseError>::Err(e);
            let r = Result::<(), ClickHouseError>::Err(e);
            assert(valid_retry_trace(*policy, ping, trace@, pr));
            r
        },
    }
}

/// How the table-listing outcome becomes the operation's result: a
/// success passes through, a failure is remapped if it reports the
/// database missing.
pub open spec fn tables_result_of(
    database: Seq<char>,
    fr: Result<Vec<TableInfo>, ClickHouseError>,
    r: Result<Vec<TableInfo>, ClickHouseError>,
) -> bool {
    match fr {
        Result::Ok(v) => r == Result::<Vec<TableInfo>, ClickHouseError>::Ok(v),
        Result::Err(e) => r matches Err(e2) && e2@ == remap_missing_db(e@, database),
    }
}

/// What follows the database existence probe in [`list_tables_with`]: a
/// probe failure passes through; a probe reporting absence stops the
/// operation with `DatabaseNotFound` before the listing query; otherwise
/// the retry-wrapped listing query decides, with its failure remapped.
pub open spec fn list_tables_after_probe<FT: Fn(u32, u64) -> Result<Vec<TableInfo>, RawError>>(
    database: Seq<char>,
    policy: RetryPolicy,
    fetch: FT,
    pr: Result<u8, ClickHouseError>,
    r: Result<Vec<TableInfo>, ClickHouseError>,
) -> bool {
    match pr {
        Result::Err(e) => r == Result::<Vec<TableInfo>, ClickHouseError>::Err(e),
        Result::Ok(c) => if c == 0 {
            r matches Err(e) && e@ == (ErrorModel::DatabaseNotFound { database })
        } else {
            exists|ftrace: Seq<Result<Vec<TableInfo>, RawError>>, fr: Result<
                Vec<TableInfo>,
                ClickHouseError,
            >| #[trigger] valid_retry_trace(policy, fetch, ftrace, fr) && tables_result_of(
                database,
                fr,
                r,
            )
        },
    }
}

/// What a run of [`list_tables_with`] returns: an invalid database name
/// is rejected outright; otherwise the retry-wrapped existence probe and
/// then the retry-wrapped listing query decide.
pub open spec fn list_tables_run<
    FP: Fn(u32, u64) -> Result<u8, RawError>,
    FT: Fn(u32, u64) -> Result<Vec<TableInfo>, RawError>,
>(
    database: Seq<char>,
    policy: RetryPolicy,
    probe: FP,
    fetch: FT,
    r: Result<Vec<TableInfo>, ClickHouseError>,
) -> bool {
    if !ident_ok(database) {
        r matches Err(e) && e@ == invalid_identifier_model(database)
    } else {
        exists|ptrace: Seq<Result<u8, RawError>>, pr: Result<u8, ClickHouseError>|
            #[trigger] valid_retry_trace(policy, probe, ptrace, pr) && list_tables_after_probe(
                database,
                policy,
                fetch,
                pr,
                r,
            )
    }
}

/// Lists the tables of `database`: validates the name (no query runs on
/// an invalid one), probes that the database exists (absence stops the
/// operation with `DatabaseNotFound` before the listing query), then
/// lists, each query through the retry orchestrator; a listing failure
/// that reports the database missing is remapped to `DatabaseNotFound`.
pub fn list_tables_with<
    FP: Fn(u32, u64) -> Result<u8, RawError>,
    FT: Fn(u32, u64) -> Result<Vec<TableInfo>, RawError>,
>(
    database: &str,
    policy: &RetryPolicy,
    probe: FP,
    fetch: FT,
) -> (r: Result<Vec<TableInfo>, ClickHouseError>)
    requires
        policy_wf(*policy),
        forall|k: u32, d: u64|
            0 <= k <= policy.max_retries && d == spec_backoff_ms(*policy, k as nat)
                ==> call_requires(probe, (k, d)),
        forall|k: u32, d: u64|
            0 <= k <= policy.max_retries && d == spec_backoff_ms(*policy, k as nat)
                ==> call_requires(fetch, (k, d)),
    ensures
        list_tables_run(database@, *policy, probe, fetch, r),
{
    if let Err(e) = validate_identifier(database) {
        return Err(e);
    }
    let (pres, ptrace) = with_retry_traced(policy, probe);
    match pres {
        Err(e) => {
            let ghost pr = Result::<u8, ClickHouseError>::Err(e);
            let r = Result::<Vec<TableInfo>, ClickHouseError>::Err(e);
            assert(valid_retry_trace(*policy, probe, ptrace@, pr));
            assert(list_tables_after_probe(database@, *policy, fetch, pr, r));
            r
        },
        Ok(c) => {
            if c == 0 {
                let ghost pr = Result::<u8, ClickHouseError>::Ok(0u8);
                let r = Result::<Vec<TableInfo>, ClickHouseError>::Err(
                    ClickHouseError::DatabaseNotFound { database: String::from_str(database) },
                );
                assert(valid_retry_trace(*policy, probe, ptrace@, pr));
                assert(list_tables_after_probe(database@, *policy, fetch, pr, r));
                return r;
            }
            let ghost pr = Result::<u8, ClickHouseError>::Ok(c);
            let (fres, ftrace) = with_retry_traced(policy, fetch);
            let r = match fres {
                Ok(v) => Result::<Vec<TableInfo>, ClickHouseError>::Ok(v),
                Err(e) => Result::<Vec<TableInfo>, ClickHouseError>::Err(
                    remap_db_not_found(e, database),
                ),
            };
            assert(valid_retry_trace(*policy, probe, ptrace@, pr));
            assert(list_tables_after_probe(database@, *policy, fetch, pr, r));
            r
        },
    }
}

/// How the column-listing outcome becomes the operation's result: a
/// failure is remapped if it reports the table missing; an empty column
/// set after every existence check passed is itself `TableNotFound`, a
/// synthesized error; any other success passes through.
pub open spec fn columns_result_of(
    database: Seq<char>,
    table: Seq<char>,
    fr: Result<Vec<ColumnInfo>, ClickHouseError>,
    r: Result<Vec<ColumnInfo>, ClickHouseError>,
) -> bool {
    match fr {
        Result::Ok(v) => if v@.len() == 0 {
            r matches Err(e) && e@ == (ErrorModel::TableNotFound { database, table })
        } else {
            r == Result::<Vec<ColumnInfo>, ClickHouseError>::Ok(v)
        },
        Result::Err(e) => r matches Err(e2) && e2@ == remap_missing_table(e@, database, table),
    }
}

/// What follows the table existence probe in [`get_table_schema_with`].
pub open spec fn schema_after_table_probe<FC: Fn(u32, u64) -> Result<Vec<ColumnInfo>, RawError>>(
    database: Seq<char>,
    table: Seq<char>,
    policy: RetryPolicy,
    fetch: FC,
    tr: Result<u8, ClickHouseError>,
    r: Result<Vec<ColumnInfo>, ClickHouseError>,
) -> bool {
    match tr {
        Result::Err(e) => r == Result::<Vec<ColumnInfo>, ClickHouseError>::Err(e),
        Result::Ok(c) => if c == 0 {
            r matches Err(e) && e@ == (ErrorModel::TableNotFound { database, table })
        } else {
            exists|ftrace: Seq<Result<Vec<ColumnInfo>, RawError>>, fr: Result<
                Vec<ColumnInfo>,
                ClickHouseError,
            >| #[trigger] valid_retry_trace(policy, fetch, ftrace, fr) && columns_result_of(
                database,
                table,
                fr,
                r,
            )
        },
    }
}

/// What follows the database existence probe in [`get_table_schema_with`]:
/// a probe reporting absence stops the operation with `DatabaseNotFound`
/// before anything else runs.
pub open spec fn schema_after_db_probe<
    FPT: Fn(u32, u64) -> Result<u8, RawError>,
    FC: Fn(u32, u64) -> Result<Vec<ColumnInfo>, RawError>,
>(
    database: Seq<char>,
    table: Seq<char>,
    policy: RetryPolicy,
    probe_table: FPT,
    fetch: FC,
    pr: Result<u8, ClickHouseError>,
    r: Result<Vec<ColumnInfo>, ClickHouseError>,
) -> bool {
    match pr {
        Result::Err(e) => r == Result::<Vec<ColumnInfo>, ClickHouseError>::Err(e),
        Result::Ok(c) => if c == 0 {
            r matches Err(e) && e@ == (ErrorModel::DatabaseNotFound { database })
        } else {
            exists|ttrace: Seq<Result<u8, RawError>>, tr: Result<u8, ClickHouseError>|
                #[trigger] valid_retry_trace(policy, probe_table, ttrace, tr)
                    && schema_after_table_probe(database, table, policy, fetch, tr, r)
        },
    }
}

/// What a run of [`get_table_schema_with`] returns: an invalid identifier
/// (the database name checked first) is rejected outright; otherwise the
/// two retry-wrapped existence probes and then the retry-wrapped column
/// listing decide.
pub open spec fn schema_run<
    FPD: Fn(u32, u64) -> Result<u8, RawError>,
    FPT: Fn(u32, u64) -> Result<u8, RawError>,
    FC: Fn(u32, u64) -> Result<Vec<ColumnInfo>, RawError>,
>(
    database: Seq<char>,
    table: Seq<char>,
    policy: RetryPolicy,
    probe_db: FPD,
    probe_table: FPT,
    fetch: FC,
    r: Result<Vec<ColumnInfo>, ClickHouseError>,
) -> bool {
    if !ident_ok(database) {
        r matches Err(e) && e@ == invalid_identifier_model(database)
    } else if !ident_ok(table) {
        r matches Err(e) && e@ == invalid_identifier_model(table)
    } else {
        exists|ptrace: Seq<Result<u8, RawError>>, pr: Result<u8, ClickHouseError>|
            #[trigger] valid_retry_trace(policy, probe_db, ptrace, pr) && schema_after_db_probe(
                database,
                table,
                policy,
                probe_table,
                fetch,
                pr,
                r,
            )
    }
}

/// Describes the columns of `database`.`table`: validates both names (no
/// query runs on an invalid one), probes that the database exists, then
/// that the table exists (absence stops the operation with the precise
/// "not found" error), then lists the columns, each query through the
/// retry orchestrator. A listing failure that reports the table missing,
/// and an empty column set after every check passed, both become
/// `TableNotFound`.
pub fn get_table_schema_with<
    FPD: Fn(u32, u64) -> Result<u8, RawError>,
    FPT: Fn(u32, u64) -> Result<u8, RawError>,
    FC: Fn(u32, u64) -> Result<Vec<ColumnInfo>, RawError>,
>(
    database: &str,
    table: &str,
    policy: &RetryPolicy,
    probe_db: FPD,
    probe_table: FPT,
    fetch: FC,
) -> (r: Result<Vec<ColumnInfo>, ClickHouseError>)
    requires
        policy_wf(*policy),
        forall|k: u32, d: u64|
            0 <= k <= policy.max_retries && d == spec_backoff_ms(*policy, k as nat)
                ==> call_requires(probe_db, (k, d)),
        forall|k: u32, d: u64|
            0 <= k <= policy.max_retries && d == spec_backoff_ms(*policy, k as nat)
                ==> call_requires(probe_table, (k, d)),
        forall|k: u32, d: u64|
            0 <= k <= policy.max_retries && d == spec_backoff_ms(*policy, k as nat)
                ==> call_requires(fetch, (k, d)),
    ensures
        schema_run(database@, table@, *policy, probe_db, probe_table, fetch, r),
{
    if let Err(e) = validate_identifier(database) {
        return Err(e);
    }
    if let Err(e) = validate_identifier(table) {
        return Err(e);
    }
    let (pres, ptrace) = with_retry_traced(policy, probe_db);
    match pres {
        Err(e) => {
            let ghost pr = Result::<u8, ClickHouseError>::Err(e);
            let r = Result::<Vec<ColumnInfo>, ClickHouseError>::Err(e);
            assert(valid_retry_trace(*policy, probe_db, ptrace@, pr));
            assert(schema_after_db_probe(database@, table@, *policy, probe_table, fetch, pr, r));
            r
        },
        Ok(c) => {
            if c == 0 {
                let ghost pr = Result::<u8, ClickHouseError>::Ok(0u8);
                let r = Result::<Vec<ColumnInfo>, ClickHouseError>::Err(
                    ClickHouseError::DatabaseNotFound { database: String::from_str(database) },
                );
                assert(valid_retry_trace(*policy, probe_db, ptrace@, pr));
                assert(schema_after_db_probe(
                    database@,
                    table@,
                    *policy,
                    probe_table,
                    fetch,
                    pr,
                    r,
                ));
                return r;
            }
            let ghost pr = Result::<u8, ClickHouseError>::Ok(c);
            let (tres, ttrace) = with_retry_traced(policy, probe_table);
            let r = match tres {
                Err(e) => {
                    let ghost tr = Result::<u8, ClickHouseError>::Err(e);
                    let r = Result::<Vec<ColumnInfo>, ClickHouseError>::Err(e);
                    assert(valid_retry_trace(*policy, probe_table, ttrace@, tr));
                    assert(schema_after_table_probe(database@, table@, *policy, fetch, tr, r));
                    r
                },
                Ok(tc) => {
                    if tc == 0 {
                        let ghost tr = Result::<u8, ClickHouseError>::Ok(0u8);
                        let r = Result::<Vec<ColumnInfo>, ClickHouseError>::Err(
                            ClickHouseError::TableNotFound {
                                database: String::from_str(database),
                                table: String::from_str(table),
                            },
                        );
                        assert(valid_retry_trace(*policy, probe_table, ttrace@, tr));
                        assert(schema_after_table_probe(database@, table@, *policy, fetch, tr, r));
                        r
                    } else {
                        let ghost tr = Result::<u8, ClickHouseError>::Ok(tc);
                        let (fres, ftrace) = with_retry_traced(policy, fetch);
                        let r = match fres {
                            Ok(v) => {
                                let ghost fr = Result::<Vec<ColumnInfo>, ClickHouseError>::Ok(v);
                                let r = if v.len() == 0 {
                                    Result::<Vec<ColumnInfo>, ClickHouseError>::Err(
                                        ClickHouseError::TableNotFound {
                                            database: String::from_str(database),
                                            table: String::from_str(table),
                                        },
                                    )
                                } else {
                                    Result::<Vec<ColumnInfo>, ClickHouseError>::Ok(v)
                                };
                                assert(valid_retry_trace(*policy, fetch, ftrace@, fr));
                                assert(columns_result_of(database@, table@, fr, r));
                                r
                            },
                            Err(e) => {
                                let ghost fr = Result::<Vec<ColumnInfo>, ClickHouseError>::Err(e);
                                let r = Result::<Vec<ColumnInfo>, ClickHouseError>::Err(
                                    remap_table_not_found(e, database, table),
                                );
                                assert(valid_retry_trace(*policy, fetch, ftrace@, fr));
                                assert(columns_result_of(database@, table@, fr, r));
                                r
                            },
                        };
                        assert(schema_after_table_probe(database@, table@, *policy, fetch, tr, r));
                        r
                    }
                },
            };
            assert(valid_retry_trace(*policy, probe_db, ptrace@, pr));
            assert(schema_after_db_probe(database@, table@, *policy, probe_table, fetch, pr, r));
            r
        },
    }
}

/// A database probe that can only report absence makes the whole
/// operation fail with `DatabaseNotFound`, whatever the other queries
/// could have answered: the probes run before any listing.
pub proof fn lemma_schema_absent_database<
    FPD: Fn(u32, u64) -> Result<u8, RawError>,
    FPT: Fn(u32, u64) -> Result<u8, RawError>,
    FC: Fn(u32, u64) -> Result<Vec<ColumnInfo>, RawError>,
>(
    database: Seq<char>,
    table: Seq<char>,
    policy: RetryPolicy,
    probe_db: FPD,
    probe_table: FPT,
    fetch: FC,
    r: Result<Vec<ColumnInfo>, ClickHouseError>,
)
    requires
        ident_ok(database),
        ident_ok(table),
        schema_run(database, table, policy, probe_db, probe_table, fetch, r),
        forall|args: (u32, u64), y: Result<u8, RawError>|
            #[trigger] call_ensures(probe_db, args, y) ==> y == Result::<u8, RawError>::Ok(0u8),
    ensures
        r matches Err(e) && e@ == (ErrorModel::DatabaseNotFound { database }),
{
    let (ptrace, pr) = choose|ptrace: Seq<Result<u8, RawError>>, pr: Result<u8, ClickHouseError>|
        #[trigger] valid_retry_trace(policy, probe_db, ptrace, pr) && schema_after_db_probe(
            database,
            table,
            policy,
            probe_table,
            fetch,
            pr,
            r,
        );
    assert(call_ensures(
        probe_db,
        (
            (ptrace.len() - 1) as u32,
            spec_backoff_ms(policy, (ptrace.len() - 1) as nat) as u64,
        ),
        ptrace.last(),
    ));
}

/// The trivial scalar query of the health check.
pub fn ping_query() -> (r: String)
    ensures
        r@ == "SELECT 1"@,
{
    String::from_str("SELECT 1")
}

/// The database listing query, ordered by name.
pub fn databases_query() -> (r: String)
    ensures
        r@ == "SELECT name FROM system.databases ORDER BY name"@,
{
    String::from_str("SELECT name FROM system.databases ORDER BY name")
}

/// The database existence probe; `?` binds the database name.
pub fn database_probe_query() -> (r: String)
    ensures
        r@ == "SELECT count(*) > 0 FROM system.databases WHERE name = ?"@,
{
    String::from_str("SELECT count(*) > 0 FROM system.databases WHERE name = ?")
}

/// The table existence probe; the `?`s bind the database and table names.
pub fn table_probe_query() -> (r: String)
    ensures
        r@ == "SELECT count(*) > 0 FROM system.tables WHERE database = ? AND name = ?"@,
{
    String::from_str("SELECT count(*) > 0 FROM system.tables WHERE database = ? AND name = ?")
}

/// The table listing query, ordered by name; `?` binds the database name.
pub fn tables_query() -> (r: String)
    ensures
        r@ == "SELECT name, database, engine FROM system.tables WHERE database = ? ORDER BY name"@,
{
    String::from_str(
        "SELECT name, database, engine FROM system.tables WHERE database = ? ORDER BY name",
    )
}

/// The column listing query, ordered by physical column position; the
/// `?`s bind the database and table names.
pub fn columns_query() -> (r: String)
    ensures
        r@
            == "SELECT name, type, default_kind as default_type, default_expression, comment, is_in_partition_key, is_in_sorting_key, is_in_primary_key, is_in_sampling_key FROM system.columns WHERE database = ? AND table = ? ORDER BY position"@,
{
    String::from_str(
        "SELECT name, type, default_kind as default_type, default_expression, comment, is_in_partition_key, is_in_sorting_key, is_in_primary_key, is_in_sampling_key FROM system.columns WHERE database = ? AND table = ? ORDER BY position",
    )
}

} // verus!
