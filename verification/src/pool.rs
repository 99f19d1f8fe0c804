//! Settings of database sessions and of long transactions.
use vstd::prelude::*;

use crate::meaning::{part_at, says};
use crate::statement::{executes, fetches_one, Statement, StatementView};
use crate::text::{decimal_text, unsigned_decimal};

verus! {

/// The limits of a session, in milliseconds.
#[derive(Debug, Clone, Copy)]
pub struct SessionLimits {
    pub statement_timeout_ms: u64,
    pub idle_in_transaction_timeout_ms: u64,
    pub lock_timeout_ms: u64,
    pub client_connection_check_interval_ms: u64,
}

/// The settings with which every session starts.
pub open spec fn base_settings(limits: SessionLimits) -> Seq<char> {
    "SET application_name = 'pgmcp'; SET client_min_messages = warning; SET statement_timeout = "@
        + decimal_text(limits.statement_timeout_ms as int)
        + "; SET idle_in_transaction_session_timeout = "@ + decimal_text(
        limits.idle_in_transaction_timeout_ms as int,
    ) + "; SET lock_timeout = "@ + decimal_text(limits.lock_timeout_ms as int) + ";"@
}

/// Sets up a session: its name, which messages it gets, and its time limits.
pub fn session_settings(limits: SessionLimits) -> (st: Statement)
    ensures
        st@ == executes(base_settings(limits), seq![]),
{
    let mut m = String::from_str(
        "SET application_name = 'pgmcp'; SET client_min_messages = warning; SET statement_timeout = ",
    );
    m.append(unsigned_decimal(limits.statement_timeout_ms as u128).as_str());
    m.append("; SET idle_in_transaction_session_timeout = ");
    m.append(unsigned_decimal(limits.idle_in_transaction_timeout_ms as u128).as_str());
    m.append("; SET lock_timeout = ");
    m.append(unsigned_decimal(limits.lock_timeout_ms as u128).as_str());
    m.append(";");
    Statement::execute(m.as_str())
}

pub const SERVER_VERSION_SQL: &'static str = "SELECT current_setting('server_version_num')::int";

/// The first server version that can check whether a client is still there.
pub const CONNECTION_CHECK_SINCE: i32 = 140_000;

/// Asks for the server's version, where a session is to check its client.
pub fn ask_server_version(limits: SessionLimits) -> (r: Option<Statement>)
    ensures
        r is Some <==> limits.client_connection_check_interval_ms > 0,
        r matches Some(st) ==> st@ == fetches_one(SERVER_VERSION_SQL@, seq![]),
{
    if limits.client_connection_check_interval_ms > 0 {
        Some(Statement::one(SERVER_VERSION_SQL))
    } else {
        None
    }
}

/// Sets how often a session checks its client, where the server can.
pub fn connection_check(limits: SessionLimits, server_version_num: i32) -> (r: Option<Statement>)
    ensures
        r is Some <==> limits.client_connection_check_interval_ms > 0 && server_version_num
            >= CONNECTION_CHECK_SINCE,
        r matches Some(st) ==> st@ == executes(
            "SET client_connection_check_interval = "@ + decimal_text(
                limits.client_connection_check_interval_ms as int,
            ),
            seq![],
        ),
{
    if limits.client_connection_check_interval_ms == 0 || server_version_num
        < CONNECTION_CHECK_SINCE {
        return None;
    }
    let mut m = String::from_str("SET client_connection_check_interval = ");
    m.append(unsigned_decimal(limits.client_connection_check_interval_ms as u128).as_str());
    Some(Statement::execute(m.as_str()))
}

pub const HEALTH_CHECK_SQL: &'static str = "SELECT 1";

/// A query that any live connection answers.
pub fn health_check() -> (st: Statement)
    ensures
        st@ == executes(HEALTH_CHECK_SQL@, seq![]),
{
    Statement::execute(HEALTH_CHECK_SQL)
}

/// A statement that runs in a transaction of its own, with its own limit on
/// time and under the name of a job.
#[derive(Debug)]
pub struct HeavyWork {
    pub statement_timeout: String,
    pub job_tag: String,
    pub statement: Statement,
}

/// A long transaction as a mathematical value.
#[verifier::ext_equal]
pub struct HeavyView {
    pub statement_timeout: Seq<char>,
    pub job_tag: Seq<char>,
    pub statement: StatementView,
}

impl View for HeavyWork {
    type V = HeavyView;

    open spec fn view(&self) -> HeavyView {
        HeavyView {
            statement_timeout: self.statement_timeout@,
            job_tag: self.job_tag@,
            statement: self.statement@,
        }
    }
}

/// Every field of the model stands for the field of the same name.
pub proof fn law_heavy_work_is_modelled_by_its_fields(work: HeavyWork)
    ensures
        work@.statement_timeout == work.statement_timeout@,
        work@.job_tag == work.job_tag@,
        work@.statement == work.statement@,
{
}

/// Makes a long transaction.
pub fn heavy(statement_timeout: &str, job_tag: &str, statement: Statement) -> (r: HeavyWork)
    ensures
        r@ == (HeavyView {
            statement_timeout: statement_timeout@,
            job_tag: job_tag@,
            statement: statement@,
        }),
        r@.statement_timeout == statement_timeout@,
        r@.job_tag == job_tag@,
        r@.statement == statement@,
{
    HeavyWork {
        statement_timeout: String::from_str(statement_timeout),
        job_tag: String::from_str(job_tag),
        statement,
    }
}

proof fn lemma_middle(a: Seq<char>, part: Seq<char>, b: Seq<char>)
    ensures
        says(a + part + b, part),
{
    assert(part_at(a + part + b, a.len() as int, part));
}

/// A session gets each of its limits under the limit's own name.
pub proof fn law_session_gets_its_limits(limits: SessionLimits)
    ensures
        says(
            base_settings(limits),
            "SET statement_timeout = "@ + decimal_text(limits.statement_timeout_ms as int) + ";"@,
        ),
        says(
            base_settings(limits),
            "SET idle_in_transaction_session_timeout = "@ + decimal_text(
                limits.idle_in_transaction_timeout_ms as int,
            ) + ";"@,
        ),
        says(
            base_settings(limits),
            "SET lock_timeout = "@ + decimal_text(limits.lock_timeout_ms as int) + ";"@,
        ),
{
    reveal_strlit(
        "SET application_name = 'pgmcp'; SET client_min_messages = warning; SET statement_timeout = ",
    );
    reveal_strlit("SET application_name = 'pgmcp'; SET client_min_messages = warning; ");
    reveal_strlit("; SET idle_in_transaction_session_timeout = ");
    reveal_strlit("; SET lock_timeout = ");
    reveal_strlit("SET statement_timeout = ");
    reveal_strlit("SET idle_in_transaction_session_timeout = ");
    reveal_strlit("SET lock_timeout = ");
    reveal_strlit(";");
    reveal_strlit(" ");
    let head = "SET application_name = 'pgmcp'; SET client_min_messages = warning; "@;
    let a = "SET statement_timeout = "@ + decimal_text(limits.statement_timeout_ms as int) + ";"@;
    let b = "SET idle_in_transaction_session_timeout = "@ + decimal_text(
        limits.idle_in_transaction_timeout_ms as int,
    ) + ";"@;
    let c = "SET lock_timeout = "@ + decimal_text(limits.lock_timeout_ms as int) + ";"@;
    let t = base_settings(limits);
    assert(t =~= head + a + (" "@ + b + " "@ + c));
    lemma_middle(head, a, " "@ + b + " "@ + c);
    assert(t =~= (head + a + " "@) + b + (" "@ + c));
    lemma_middle(head + a + " "@, b, " "@ + c);
    assert(t =~= (head + a + " "@ + b + " "@) + c + seq![]);
    lemma_middle(head + a + " "@ + b + " "@, c, seq![]);
}

} // verus!
