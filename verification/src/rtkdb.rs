//! RTK's command history rows and the upload events made from them.
use vstd::prelude::*;
use vstd::string::*;
use crate::state::Timestamp;
use crate::text::{decimal_int, decimal_nat, hex_digit, i64_to_decimal, str_eq, to_string};
use crate::service::views;

verus! {

/// One row of RTK's `commands` table, as read from the database.  The
/// savings percentage is carried as the bit pattern of its IEEE-754 double.
#[derive(Clone, Debug)]
pub struct CommandRow {
    pub id: i64,
    pub timestamp: String,
    pub original_cmd: String,
    pub rtk_cmd: String,
    pub input_tokens: i64,
    pub output_tokens: i64,
    pub saved_tokens: i64,
    pub savings_pct_bits: u64,
    pub exec_time_ms: i64,
    pub project_path: String,
}

/// One usage event as uploaded to the server.  The savings percentage is
/// carried as the bit pattern of its IEEE-754 double.
#[derive(Clone, Debug)]
pub struct RtkEvent {
    pub source_id: String,
    pub machine_id: String,
    pub local_id: i64,
    pub command: String,
    pub original_cmd: String,
    pub input_tokens: i64,
    pub output_tokens: i64,
    pub saved_tokens: i64,
    pub savings_pct_bits: u64,
    pub exec_time_ms: i64,
    pub project_path: String,
    pub created_at: Timestamp,
}

/// Why rows could not be turned into events.
#[derive(Clone, Copy, Debug, PartialEq, Eq)]
pub enum RowError {
    /// The row with this ID has a timestamp that is not RFC 3339.
    BadTimestamp { local_id: i64 },
}

/// The instant that an RFC 3339 timestamp denotes, in UTC; none when the text
/// is not RFC 3339.
pub uninterp spec fn rfc3339_instant(text: Seq<char>) -> Option<Timestamp>;

/// `chrono::DateTime::parse_from_rfc3339`, converted to UTC.  Claimed: the
/// result depends on the text alone, and is none exactly when chrono refuses it.
#[verifier::external_body]
fn parse_timestamp(timestamp: &str) -> (r: Option<Timestamp>)
    ensures
        r == rfc3339_instant(timestamp@),
{
    match chrono::DateTime::parse_from_rfc3339(timestamp) {
        Ok(t) => {
            let u = t.with_timezone(&chrono::Utc);
            Some(Timestamp { seconds: u.timestamp(), nanos: u.timestamp_subsec_nanos() })
        },
        Err(_) => None,
    }
}

/// The idempotency key of an event: `<machine_id>:<local_id>`.
pub open spec fn source_id_spec(machine_id: Seq<char>, local_id: i64) -> Seq<char> {
    machine_id + ":"@ + decimal_int(local_id as int)
}

/// `e` is the event made from `row` on machine `machine_id`, created at `created_at`.
pub open spec fn event_of_row(e: RtkEvent, row: CommandRow, machine_id: Seq<char>, created_at: Timestamp) -> bool {
    &&& e.source_id@ == source_id_spec(machine_id, row.id)
    &&& e.machine_id@ == machine_id
    &&& e.local_id == row.id
    &&& e.command@ == row.rtk_cmd@
    &&& e.original_cmd@ == row.original_cmd@
    &&& e.input_tokens == row.input_tokens
    &&& e.output_tokens == row.output_tokens
    &&& e.saved_tokens == row.saved_tokens
    &&& e.savings_pct_bits == row.savings_pct_bits
    &&& e.exec_time_ms == row.exec_time_ms
    &&& e.project_path@ == row.project_path@
    &&& e.created_at == created_at
}

proof fn lemma_decimal_nat_shape(n: nat)
    ensures
        decimal_nat(n).len() >= 1,
        n >= 10 ==> decimal_nat(n).len() >= 2,
        forall|i: int| 0 <= i < decimal_nat(n).len() ==> '0' <= #[trigger] decimal_nat(n)[i] <= '9',
    decreases n,
{
    if n >= 10 {
        lemma_decimal_nat_shape(n / 10);
        let p = decimal_nat(n / 10);
        assert forall|i: int| 0 <= i < decimal_nat(n).len() implies '0' <= #[trigger] decimal_nat(n)[i] <= '9' by {
            if i < p.len() {
                assert(decimal_nat(n)[i] == p[i]);
            }
        }
    }
}

proof fn lemma_decimal_nat_injective(n: nat, m: nat)
    requires
        decimal_nat(n) == decimal_nat(m),
    ensures
        n == m,
    decreases n,
{
    lemma_decimal_nat_shape(n);
    lemma_decimal_nat_shape(m);
    if n < 10 && m < 10 {
        assert(decimal_nat(n)[0] == hex_digit(n as int));
        assert(decimal_nat(m)[0] == hex_digit(m as int));
        assert(hex_digit(n as int) as int == n + 48);
        assert(hex_digit(m as int) as int == m + 48);
    } else if n >= 10 && m >= 10 {
        let a = decimal_nat(n);
        let b = decimal_nat(m);
        assert(a.drop_last() =~= decimal_nat(n / 10));
        assert(b.drop_last() =~= decimal_nat(m / 10));
        lemma_decimal_nat_injective(n / 10, m / 10);
        assert(a.last() == hex_digit((n % 10) as int));
        assert(b.last() == hex_digit((m % 10) as int));
        assert(hex_digit((n % 10) as int) as int == n % 10 + 48);
        assert(hex_digit((m % 10) as int) as int == m % 10 + 48);
    }
}

/// An event made from a row carries that row's ID, command texts, token counts
/// (input in `input_tokens`, output in `output_tokens`), savings, run time and
/// project, and the machine it was made on.
pub proof fn lemma_event_keeps_row_fields(e: RtkEvent, row: CommandRow, machine_id: Seq<char>, created_at: Timestamp)
    requires
        event_of_row(e, row, machine_id, created_at),
    ensures
        e.local_id == row.id,
        e.input_tokens == row.input_tokens,
        e.output_tokens == row.output_tokens,
        e.saved_tokens == row.saved_tokens,
        e.savings_pct_bits == row.savings_pct_bits,
        e.exec_time_ms == row.exec_time_ms,
        e.command@ == row.rtk_cmd@,
        e.original_cmd@ == row.original_cmd@,
        e.project_path@ == row.project_path@,
        e.machine_id@ == machine_id,
        e.created_at == created_at,
{
}

/// Distinct commands of one machine get distinct idempotency keys, so the
/// server's uniqueness on `source_id` never merges two of them.
pub proof fn lemma_source_ids_are_distinct(machine_id: Seq<char>, a: i64, b: i64)
    requires
        a != b,
    ensures
        source_id_spec(machine_id, a) != source_id_spec(machine_id, b),
{
    let sa = source_id_spec(machine_id, a);
    let sb = source_id_spec(machine_id, b);
    let k = machine_id.len() + 1;
    reveal_strlit(":");
    if sa == sb {
        let da = decimal_int(a as int);
        let db = decimal_int(b as int);
        assert(sa.subrange(k as int, sa.len() as int) =~= da);
        assert(sb.subrange(k as int, sb.len() as int) =~= db);
        assert(da == db);
        if a < 0 && b < 0 {
            assert(da.drop_first() =~= decimal_nat((-a) as nat));
            assert(db.drop_first() =~= decimal_nat((-b) as nat));
            lemma_decimal_nat_injective((-a) as nat, (-b) as nat);
        } else if a >= 0 && b >= 0 {
            lemma_decimal_nat_injective(a as nat, b as nat);
        } else if a < 0 {
            lemma_decimal_nat_shape(b as nat);
            assert(da[0] == '-');
            assert('0' <= db[0] <= '9');
        } else {
            lemma_decimal_nat_shape(a as nat);
            assert(db[0] == '-');
            assert('0' <= da[0] <= '9');
        }
    }
}

/// The idempotency key of an event: `<machine_id>:<local_id>`.
pub fn source_id(machine_id: &str, local_id: i64) -> (r: String)
    ensures
        r@ == source_id_spec(machine_id@, local_id),
{
    let mut s = to_string(machine_id);
    s.append(":");
    let id = i64_to_decimal(local_id);
    s.append(id.as_str());
    proof {
        reveal_strlit(":");
    }
    s
}

/// The event made from `row` once its timestamp has been parsed: an error
/// naming the row when the timestamp did not parse.
pub fn build_event(row: &CommandRow, machine_id: &str, created_at: Option<Timestamp>) -> (r: Result<RtkEvent, RowError>)
    ensures
        created_at is None <==> r == Err::<RtkEvent, RowError>(RowError::BadTimestamp { local_id: row.id }),
        created_at is Some <==> r is Ok,
        r matches Ok(e) ==> event_of_row(e, *row, machine_id@, created_at->0),
        // The event carries the row's own counts and measurements, each in its own field.
        r matches Ok(e) ==> e.local_id == row.id && e.input_tokens == row.input_tokens
            && e.output_tokens == row.output_tokens && e.saved_tokens == row.saved_tokens
            && e.savings_pct_bits == row.savings_pct_bits && e.exec_time_ms == row.exec_time_ms
            && e.command@ == row.rtk_cmd@ && e.original_cmd@ == row.original_cmd@
            && e.project_path@ == row.project_path@ && e.machine_id@ == machine_id@,
{
    match created_at {
        None => Err(RowError::BadTimestamp { local_id: row.id }),
        Some(at) => Ok(RtkEvent {
            source_id: source_id(machine_id, row.id),
            machine_id: to_string(machine_id),
            local_id: row.id,
            command: row.rtk_cmd.clone(),
            original_cmd: row.original_cmd.clone(),
            input_tokens: row.input_tokens,
            output_tokens: row.output_tokens,
            saved_tokens: row.saved_tokens,
            savings_pct_bits: row.savings_pct_bits,
            exec_time_ms: row.exec_time_ms,
            project_path: row.project_path.clone(),
            created_at: at,
        }),
    }
}

/// The event made from one row.
pub fn event_from_row(row: &CommandRow, machine_id: &str) -> (r: Result<RtkEvent, RowError>)
    ensures
        rfc3339_instant(row.timestamp@) is None <==> r == Err::<RtkEvent, RowError>(
            RowError::BadTimestamp { local_id: row.id },
        ),
        rfc3339_instant(row.timestamp@) is Some <==> r is Ok,
        r matches Ok(e) ==> event_of_row(e, *row, machine_id@, rfc3339_instant(row.timestamp@)->0),
        r matches Ok(e) ==> e.local_id == row.id && e.input_tokens == row.input_tokens
            && e.output_tokens == row.output_tokens && e.saved_tokens == row.saved_tokens
            && e.savings_pct_bits == row.savings_pct_bits && e.exec_time_ms == row.exec_time_ms,
{
    let created_at = parse_timestamp(row.timestamp.as_str());
    build_event(row, machine_id, created_at)
}

/// The events made from rows, in order; the first row whose timestamp does not
/// parse makes the whole batch fail.
pub fn events_from_rows(rows: &Vec<CommandRow>, machine_id: &str) -> (r: Result<Vec<RtkEvent>, RowError>)
    ensures
        r is Ok <==> forall|i: int| 0 <= i < rows@.len() ==> (#[trigger] rfc3339_instant(rows@[i].timestamp@)) is Some,
        r matches Ok(v) ==> {
            &&& v@.len() == rows@.len()
            &&& forall|i: int| 0 <= i < rows@.len() ==> event_of_row(#[trigger] v@[i], rows@[i], machine_id@, rfc3339_instant(rows@[i].timestamp@)->0)
            &&& forall|i: int| 0 <= i < rows@.len() ==> (#[trigger] v@[i]).local_id == rows@[i].id
                && v@[i].input_tokens == rows@[i].input_tokens && v@[i].output_tokens == rows@[i].output_tokens
                && v@[i].saved_tokens == rows@[i].saved_tokens && v@[i].exec_time_ms == rows@[i].exec_time_ms
        },
        r matches Err(RowError::BadTimestamp { local_id }) ==> exists|k: int| {
            &&& 0 <= k < rows@.len()
            &&& #[trigger] rows@[k].id == local_id
            &&& rfc3339_instant(rows@[k].timestamp@) is None
            &&& forall|j: int| 0 <= j < k ==> (#[trigger] rfc3339_instant(rows@[j].timestamp@)) is Some
        },
{
    let mut events: Vec<RtkEvent> = Vec::new();
    let mut i: usize = 0;
    while i < rows.len()
        invariant
            i <= rows@.len(),
            events@.len() == i,
            forall|j: int| 0 <= j < i ==> (#[trigger] rfc3339_instant(rows@[j].timestamp@)) is Some,
            forall|j: int| 0 <= j < i ==> event_of_row(#[trigger] events@[j], rows@[j], machine_id@, rfc3339_instant(rows@[j].timestamp@)->0),
        decreases rows@.len() - i,
    {
        match event_from_row(&rows[i], machine_id) {
            Ok(e) => {
                events.push(e);
            },
            Err(err) => {
                assert(rfc3339_instant(rows@[i as int].timestamp@) is None);
                assert(rows@[i as int].id == rows[i as int].id);
                return Err(err);
            },
        }
        i += 1;
    }
    Ok(events)
}

/// Whether the database has a table of this name.
pub fn has_table(tables: &Vec<String>, name: &str) -> (r: bool)
    ensures
        r <==> views(tables@).contains(name@),
{
    let mut i: usize = 0;
    while i < tables.len()
        invariant
            i <= tables@.len(),
            forall|j: int| 0 <= j < i ==> tables@[j]@ != name@,
        decreases tables@.len() - i,
    {
        if str_eq(tables[i].as_str(), name) {
            assert(views(tables@)[i as int] == name@);
            return true;
        }
        i += 1;
    }
    assert forall|j: int| 0 <= j < views(tables@).len() implies views(tables@)[j] != name@ by {
        assert(views(tables@)[j] == tables@[j]@);
    }
    false
}

} // verus!
