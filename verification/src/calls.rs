//! Call records: what is stored of a call and given out again, and how the end of
//! a call is acknowledged.
use vstd::prelude::*;
use axum::http::{HeaderMap, HeaderValue};
use crate::auth::{authorization_of, key_verdict, require_key};
use crate::clock::{
    gives_in_melbourne_time, in_melbourne_time, instant_of, melbourne_local, stamp_text,
};
use crate::json::{
    holds_integers, is_kept, is_like, is_readable, json_contents, json_or, json_text,
    lemma_integers_are_kept, option_contents, option_from_json, option_read, option_to_json, option_written, texts_from_json, texts_of,
    texts_read, texts_to_json, texts_written, value_from_json, value_read, value_to_json,
    value_written, Json,
};
use crate::record_id::{
    is_drawn, is_record_id, law_drawn_id_comes_from_the_draw, new_record_id,
};
use crate::rejection::Rejection;
use crate::text::clone_option;

verus! {

/// What a caller reports of a call.
pub struct CallLog {
    /// When the call was.
    pub timestamp: String,
    /// The number that called.
    pub caller_cli: String,
    /// What was said.
    pub summary: String,
    /// What the caller is looking for.
    pub qualification: serde_json::Value,
    /// The appointment that was made.
    pub booking: Option<serde_json::Value>,
    /// What compliance should know.
    pub compliance_flags: Vec<String>,
    /// Where the transcript is.
    pub transcript_url: Option<String>,
    /// Where the recording is.
    pub recording_url: Option<String>,
}

/// A row of the table of calls.
pub struct CallRow {
    /// The id of the record.
    pub id: String,
    /// When the call was, in Melbourne time.
    pub ts: String,
    /// The number that called.
    pub caller_cli: String,
    /// What was said.
    pub summary: String,
    /// What the caller is looking for, as JSON.
    pub qualification: String,
    /// The appointment that was made, as JSON.
    pub booking: String,
    /// What compliance should know, as JSON.
    pub compliance_flags: String,
    /// Where the transcript is.
    pub transcript_url: Option<String>,
    /// Where the recording is.
    pub recording_url: Option<String>,
}

impl CallRow {
    /// The row keeps what the log reports: the time in Melbourne time, the JSON
    /// as text, and all else as it is.
    pub open spec fn keeps(self, log: CallLog) -> bool {
        &&& gives_in_melbourne_time(self.ts@, log.timestamp@)
        &&& self.caller_cli@ == log.caller_cli@
        &&& self.summary@ == log.summary@
        &&& value_written(self.qualification@, log.qualification)
        &&& option_written(self.booking@, log.booking)
        &&& texts_written(self.compliance_flags@, texts_of(log.compliance_flags@))
        &&& self.transcript_url == log.transcript_url
        &&& self.recording_url == log.recording_url
    }
}

/// Lays out the row of a log under an id.
pub fn call_row(id: String, log: CallLog) -> (row: CallRow)
    ensures
        row.id == id,
        row.id@ == id@,
        row.keeps(log),
{
    let ts = in_melbourne_time(log.timestamp.as_str());
    let qualification = json_or(value_to_json(&log.qualification), "{}");
    let booking = json_or(option_to_json(&log.booking), "null");
    let compliance_flags = json_or(texts_to_json(&log.compliance_flags), "[]");
    CallRow {
        id,
        ts,
        caller_cli: log.caller_cli,
        summary: log.summary,
        qualification,
        booking,
        compliance_flags,
        transcript_url: log.transcript_url,
        recording_url: log.recording_url,
    }
}

/// The outcome that is owed to a log with that `Authorization` value: the
/// refusal of the key, or a row that keeps the log under an id.
pub open spec fn log_outcome(
    value: Option<Seq<u8>>,
    api_key: Seq<char>,
    log: CallLog,
    outcome: Result<CallRow, Rejection>,
) -> bool {
    match key_verdict(value, api_key) {
        Err(rejection) => outcome == Err::<CallRow, Rejection>(rejection),
        Ok(_) => outcome matches Ok(row) && is_record_id(row.id@) && row.keeps(log),
    }
}

/// The row to store for a log that whoever has the key hands in.
pub fn log_call(headers: &HeaderMap<HeaderValue>, api_key: &str, log: CallLog) -> (outcome: Result<
    CallRow,
    Rejection,
>)
    ensures
        log_outcome(authorization_of(*headers), api_key@, log, outcome),
        outcome matches Ok(row) ==> is_drawn(row.id),
{
    proof {
        assert forall|id: String| call_ensures(new_record_id, (), id) implies #[trigger] is_drawn(
            id,
        ) by {
            law_drawn_id_comes_from_the_draw(id);
        }
    }
    match require_key(headers, api_key) {
        Err(rejection) => Err(rejection),
        Ok(_) => Ok(call_row(new_record_id(), log)),
    }
}

/// The acknowledgement of a request.
#[derive(Clone, Copy, Debug, PartialEq, Eq, Structural)]
pub struct Ack {
    /// Whether the request was served.
    pub ok: bool,
}

/// The answer to a log, once it is known whether the row was stored.
pub fn log_call_reply(stored: bool) -> (outcome: Result<Ack, Rejection>)
    ensures
        outcome == if stored {
            Ok::<Ack, Rejection>(Ack { ok: true })
        } else {
            Err::<Ack, Rejection>(Rejection::DbError)
        },
{
    if stored {
        Ok(Ack { ok: true })
    } else {
        Err(Rejection::DbError)
    }
}

/// A call record that is given out.
pub struct CallRecord {
    /// The id of the record.
    pub id: String,
    /// What was reported, with the time in Melbourne time.
    pub log: CallLog,
}

/// How many call records are given out at most, the newest first.
pub const RECENT_CALLS: usize = 20;

/// The row's JSON can be read.
pub open spec fn is_legible(row: CallRow) -> bool {
    &&& value_read(row.qualification@) is Some
    &&& option_read(row.booking@) is Some
    &&& texts_read(row.compliance_flags@) is Some
}

impl CallRecord {
    /// The record is what the row tells.
    pub open spec fn is_told_by(self, row: CallRow) -> bool {
        &&& self.id@ == row.id@
        &&& self.log.timestamp@ == row.ts@
        &&& self.log.caller_cli@ == row.caller_cli@
        &&& self.log.summary@ == row.summary@
        &&& value_read(row.qualification@) == Some(json_contents(self.log.qualification))
        &&& option_read(row.booking@) == Some(
            match self.log.booking {
                Some(booking) => Some(json_contents(booking)),
                None => None,
            },
        )
        &&& texts_read(row.compliance_flags@) == Some(texts_of(self.log.compliance_flags@))
        &&& self.log.transcript_url == row.transcript_url
        &&& self.log.recording_url == row.recording_url
    }
}

/// What is owed of a row: the record that it tells, or nothing where its JSON
/// cannot be read.
pub open spec fn recalls(row: CallRow, record: Option<CallRecord>) -> bool {
    match record {
        Some(record) => is_legible(row) && record.is_told_by(row),
        None => !is_legible(row),
    }
}

/// Reads the record that a row tells, where its JSON can be read.
pub fn recall(row: &CallRow) -> (record: Option<CallRecord>)
    ensures
        recalls(*row, record),
{
    let qualification = match value_from_json(row.qualification.as_str()) {
        Ok(qualification) => qualification,
        Err(_) => return None,
    };
    let booking = match option_from_json(row.booking.as_str()) {
        Ok(booking) => booking,
        Err(_) => return None,
    };
    let compliance_flags = match texts_from_json(row.compliance_flags.as_str()) {
        Ok(compliance_flags) => compliance_flags,
        Err(_) => return None,
    };
    Some(
        CallRecord {
            id: row.id.clone(),
            log: CallLog {
                timestamp: row.ts.clone(),
                caller_cli: row.caller_cli.clone(),
                summary: row.summary.clone(),
                qualification,
                booking,
                compliance_flags,
                transcript_url: clone_option(&row.transcript_url),
                recording_url: clone_option(&row.recording_url),
            },
        },
    )
}

/// The outcome that is owed to whoever asks for records with that
/// `Authorization` value: the refusal of the key, or the number of rows.
pub open spec fn recent_outcome(value: Option<Seq<u8>>, api_key: Seq<char>) -> Result<
    usize,
    Rejection,
> {
    match key_verdict(value, api_key) {
        Err(rejection) => Err(rejection),
        Ok(_) => Ok(RECENT_CALLS),
    }
}

/// How many of the newest rows to fetch for whoever has the key.
pub fn recent_calls(headers: &HeaderMap<HeaderValue>, api_key: &str) -> (outcome: Result<
    usize,
    Rejection,
>)
    ensures
        outcome == recent_outcome(authorization_of(*headers), api_key@),
{
    match require_key(headers, api_key) {
        Err(rejection) => Err(rejection),
        Ok(_) => Ok(RECENT_CALLS),
    }
}

/// The rows that can be read, in their order.
pub open spec fn legible_rows(rows: Seq<CallRow>) -> Seq<CallRow> {
    rows.filter(|row: CallRow| is_legible(row))
}

/// The records are what the rows tell, row by row.
pub open spec fn are_told_by(records: Seq<CallRecord>, rows: Seq<CallRow>) -> bool {
    &&& records.len() == rows.len()
    &&& forall|i: int| 0 <= i < rows.len() ==> records[i].is_told_by(#[trigger] rows[i])
}

/// Reads the records that rows tell. A row that cannot be read is left out.
pub fn recall_all(rows: &Vec<CallRow>) -> (records: Vec<CallRecord>)
    ensures
        are_told_by(records@, legible_rows(rows@)),
{
    let mut records: Vec<CallRecord> = Vec::new();
    let mut i: usize = 0;
    assert(legible_rows(rows@.take(0)) =~= Seq::<CallRow>::empty()) by {
        reveal(Seq::filter);
    }
    while i < rows.len()
        invariant
            i <= rows@.len(),
            are_told_by(records@, legible_rows(rows@.take(i as int))),
        decreases rows@.len() - i,
    {
        let row = &rows[i];
        proof {
            reveal(Seq::filter);
            assert(rows@.take(i + 1).drop_last() =~= rows@.take(i as int));
        }
        if let Some(record) = recall(row) {
            records.push(record);
        }
        i += 1;
    }
    assert(rows@.take(i as int) =~= rows@);
    records
}

/// The answer that is owed to whoever asks for records, by the rows that were
/// fetched: the records of those that can be read, or a database error where no
/// rows could be fetched.
pub open spec fn recent_reply(
    rows: Option<Vec<CallRow>>,
    outcome: Result<Vec<CallRecord>, Rejection>,
) -> bool {
    match rows {
        Some(rows) => outcome matches Ok(records) && are_told_by(records@, legible_rows(rows@)),
        None => outcome == Err::<Vec<CallRecord>, Rejection>(Rejection::DbError),
    }
}

/// The records to give out, once it is known whether rows were fetched.
pub fn recent_calls_reply(rows: Option<Vec<CallRow>>) -> (outcome: Result<
    Vec<CallRecord>,
    Rejection,
>)
    ensures
        recent_reply(rows, outcome),
{
    match rows {
        None => Err(Rejection::DbError),
        Some(rows) => Ok(recall_all(&rows)),
    }
}

impl CallLog {
    /// The log's JSON can be read once it is written: it is not nested too deep.
    pub open spec fn is_readable(self) -> bool {
        &&& is_readable(json_contents(self.qualification))
        &&& is_readable(option_contents(self.booking))
    }
}

impl CallRecord {
    /// The record gives back what the log reports: the time in Melbourne time, the
    /// JSON as far as it is kept, no booking for one that holds nothing, and all
    /// else as it is.
    pub open spec fn gives_back(self, log: CallLog) -> bool {
        &&& gives_in_melbourne_time(self.log.timestamp@, log.timestamp@)
        &&& self.log.caller_cli@ == log.caller_cli@
        &&& self.log.summary@ == log.summary@
        &&& is_kept(json_contents(log.qualification), json_contents(self.log.qualification))
        &&& match self.log.booking {
            Some(back) => is_kept(option_contents(log.booking), json_contents(back)),
            None => option_contents(log.booking) == Json::Null,
        }
        &&& option_contents(log.booking) == Json::Null ==> self.log.booking is None
        &&& texts_of(self.log.compliance_flags@) == texts_of(log.compliance_flags@)
        &&& self.log.transcript_url == log.transcript_url
        &&& self.log.recording_url == log.recording_url
    }
}

/// What was stored of a log can be recalled, and the record gives the log back
/// under the row's id.
pub proof fn law_stored_log_reads_back(log: CallLog, row: CallRow, recalled: Option<CallRecord>)
    requires
        row.keeps(log),
        recalls(row, recalled),
        log.is_readable(),
    ensures
        recalled matches Some(record) && record.id@ == row.id@ && record.gives_back(log),
{
    let record = recalled->0;
    lemma_integers_are_kept(
        json_contents(log.qualification),
        json_contents(record.log.qualification),
    );
    if let Some(back) = record.log.booking {
        lemma_integers_are_kept(option_contents(log.booking), json_contents(back));
    }
}

/// Where every row can be read, none is left out.
proof fn lemma_all_rows_are_legible(rows: Seq<CallRow>)
    requires
        forall|i: int| 0 <= i < rows.len() ==> is_legible(#[trigger] rows[i]),
    ensures
        legible_rows(rows) == rows,
    decreases rows.len(),
{
    reveal(Seq::filter);
    if rows.len() > 0 {
        let rest = rows.drop_last();
        assert forall|i: int| 0 <= i < rest.len() implies is_legible(#[trigger] rest[i]) by {
            assert(rest[i] == rows[i]);
        }
        lemma_all_rows_are_legible(rest);
        assert(is_legible(rows.last()));
        assert(rest.push(rows.last()) =~= rows);
    } else {
        assert(legible_rows(rows) =~= rows);
    }
}

/// Whoever asks for records gets those of the logs that were stored, one by one
/// and in the order of the rows.
pub proof fn law_stored_logs_are_given_out(
    logs: Seq<CallLog>,
    rows: Vec<CallRow>,
    outcome: Result<Vec<CallRecord>, Rejection>,
)
    requires
        logs.len() == rows@.len(),
        forall|i: int| 0 <= i < logs.len() ==> (#[trigger] rows@[i]).keeps(logs[i]),
        forall|i: int| 0 <= i < logs.len() ==> (#[trigger] logs[i]).is_readable(),
        recent_reply(Some(rows), outcome),
    ensures
        outcome matches Ok(records) && records@.len() == logs.len() && forall|i: int|
            0 <= i < logs.len() ==> (#[trigger] records@[i]).id@ == rows@[i].id@
                && records@[i].gives_back(logs[i]),
{
    assert forall|i: int| 0 <= i < logs.len() implies is_legible(#[trigger] rows@[i]) by {
        assert(rows@[i].keeps(logs[i]) && logs[i].is_readable());
    }
    lemma_all_rows_are_legible(rows@);
    let records = outcome->Ok_0@;
    assert forall|i: int| 0 <= i < logs.len() implies (#[trigger] records[i]).id@ == rows@[i].id@
        && records[i].gives_back(logs[i]) by {
        assert(rows@[i].keeps(logs[i]) && logs[i].is_readable());
        law_stored_log_reads_back(logs[i], rows@[i], Some(records[i]));
    }
}

/// A row that cannot be read takes nothing from the others: the records of all
/// that can be read are given out, and of those alone.
pub proof fn law_illegible_row_hides_no_other(
    before: Seq<CallRow>,
    row: CallRow,
    after: Seq<CallRow>,
)
    requires
        !is_legible(row),
    ensures
        legible_rows(before + seq![row] + after) == legible_rows(before + after),
{
    let legible = |row: CallRow| is_legible(row);
    Seq::filter_distributes_over_add(before + seq![row], after, legible);
    Seq::filter_distributes_over_add(before, seq![row], legible);
    Seq::filter_distributes_over_add(before, after, legible);
    reveal_with_fuel(Seq::filter, 2);
    assert(seq![row].drop_last() =~= Seq::<CallRow>::empty());
    assert(seq![row].filter(legible) =~= Seq::<CallRow>::empty());
    assert(before.filter(legible) + Seq::<CallRow>::empty() =~= before.filter(legible));
}

impl CallRow {
    /// The two rows hold the same in every column but the id.
    pub open spec fn is_copy_of(self, other: CallRow) -> bool {
        &&& self.ts@ == other.ts@
        &&& self.caller_cli@ == other.caller_cli@
        &&& self.summary@ == other.summary@
        &&& self.qualification@ == other.qualification@
        &&& self.booking@ == other.booking@
        &&& self.compliance_flags@ == other.compliance_flags@
        &&& self.transcript_url == other.transcript_url
        &&& self.recording_url == other.recording_url
    }
}

/// Two rows that keep one log hold the same in every column but the id.
pub proof fn law_rows_of_one_log_agree(log: CallLog, row: CallRow, other: CallRow)
    requires
        row.keeps(log),
        other.keeps(log),
    ensures
        row.is_copy_of(other),
{
}

/// A log that is handed in again gets a row of its own, which holds the same in
/// every column but the id.
pub proof fn law_same_log_is_stored_again(
    value: Option<Seq<u8>>,
    api_key: Seq<char>,
    log: CallLog,
    first: Result<CallRow, Rejection>,
    second: Result<CallRow, Rejection>,
)
    requires
        key_verdict(value, api_key) is Ok,
        log_outcome(value, api_key, log, first),
        log_outcome(value, api_key, log, second),
    ensures
        first matches Ok(row) && second matches Ok(other) && row.is_copy_of(other) && is_record_id(
            row.id@,
        ) && is_record_id(other.id@),
{
}

/// In a row that keeps a log, each field of the log stands in the column of its
/// name: the time in Melbourne time where it can be read, the JSON as text,
/// the flags in their order, and all else as it is.
pub proof fn law_kept_log_stands_in_its_columns(row: CallRow, log: CallLog)
    requires
        row.keeps(log),
    ensures
        row.ts@ == match instant_of(log.timestamp@) {
            Some(instant) => stamp_text(melbourne_local(instant.seconds), instant.nanos as int),
            None => log.timestamp@,
        },
        row.caller_cli@ == log.caller_cli@,
        row.summary@ == log.summary@,
        row.qualification@ == json_text(json_contents(log.qualification)),
        row.booking@ == match log.booking {
            Some(booking) => json_text(json_contents(booking)),
            None => "null"@,
        },
        texts_read(row.compliance_flags@) matches Some(flags) && flags.len()
            == log.compliance_flags@.len() && forall|i: int|
            0 <= i < flags.len() ==> #[trigger] flags[i] == log.compliance_flags@[i]@,
        row.transcript_url == log.transcript_url,
        row.recording_url == log.recording_url,
{
}

/// The row that is laid out for a log holds each field of it, under the id that was
/// given.
pub proof fn law_call_row_holds_every_field(id: String, log: CallLog, row: CallRow)
    requires
        call_ensures(call_row, (id, log), row),
    ensures
        row.id@ == id@,
        row.ts@ == match instant_of(log.timestamp@) {
            Some(instant) => stamp_text(melbourne_local(instant.seconds), instant.nanos as int),
            None => log.timestamp@,
        },
        row.caller_cli@ == log.caller_cli@,
        row.summary@ == log.summary@,
        row.qualification@ == json_text(json_contents(log.qualification)),
        row.booking@ == match log.booking {
            Some(booking) => json_text(json_contents(booking)),
            None => "null"@,
        },
        texts_read(row.compliance_flags@) matches Some(flags) && flags.len()
            == log.compliance_flags@.len() && forall|i: int|
            0 <= i < flags.len() ==> #[trigger] flags[i] == log.compliance_flags@[i]@,
        row.transcript_url == log.transcript_url,
        row.recording_url == log.recording_url,
{
    law_kept_log_stands_in_its_columns(row, log);
}

/// Whoever has the key gets a row that holds each field of the very log that was
/// handed in; anyone else is refused as the key is.
pub proof fn law_log_call_keeps_the_log(
    headers: &HeaderMap<HeaderValue>,
    api_key: &str,
    log: CallLog,
    verdict: Result<(), Rejection>,
    outcome: Result<CallRow, Rejection>,
)
    requires
        call_ensures(require_key, (headers, api_key), verdict),
        call_ensures(log_call, (headers, api_key, log), outcome),
    ensures
        verdict matches Err(rejection) ==> outcome == Err::<CallRow, Rejection>(rejection),
        verdict is Ok ==> outcome is Ok,
        outcome matches Ok(row) ==> {
            &&& is_drawn(row.id) && row.id@.len() == 36 && row.id@[14] == '4'
            &&& row.ts@ == match instant_of(log.timestamp@) {
                Some(instant) => stamp_text(melbourne_local(instant.seconds), instant.nanos as int),
                None => log.timestamp@,
            }
            &&& row.caller_cli@ == log.caller_cli@
            &&& row.summary@ == log.summary@
            &&& row.qualification@ == json_text(json_contents(log.qualification))
            &&& row.booking@ == match log.booking {
                Some(booking) => json_text(json_contents(booking)),
                None => "null"@,
            }
            &&& texts_read(row.compliance_flags@) == Some(
                Seq::new(log.compliance_flags@.len(), |i: int| log.compliance_flags@[i]@),
            )
            &&& row.transcript_url == log.transcript_url
            &&& row.recording_url == log.recording_url
        },
{
    if let Ok(row) = outcome {
        law_kept_log_stands_in_its_columns(row, log);
        assert(Seq::new(log.compliance_flags@.len(), |i: int| log.compliance_flags@[i]@)
            =~= texts_of(log.compliance_flags@));
    }
}

/// What is owed to a log with the right key is a row of the log itself.
pub proof fn law_admitted_log_is_kept(
    value: Option<Seq<u8>>,
    api_key: Seq<char>,
    log: CallLog,
    outcome: Result<CallRow, Rejection>,
)
    requires
        key_verdict(value, api_key) is Ok,
        log_outcome(value, api_key, log, outcome),
    ensures
        outcome matches Ok(row) && row.keeps(log) && row.caller_cli@ == log.caller_cli@
            && row.summary@ == log.summary@ && row.qualification@ == json_text(
            json_contents(log.qualification),
        ) && (log.booking matches Some(booking) ==> row.booking@ == json_text(
            json_contents(booking),
        )) && row.transcript_url == log.transcript_url && row.recording_url == log.recording_url,
{
}

/// A log that was taken in comes back when its row is recalled, field by field: a
/// booking that holds something is there again, the flags are the same in the same
/// order, and JSON differs at most in numbers that are no integers.
pub proof fn law_logged_call_is_recalled(
    headers: &HeaderMap<HeaderValue>,
    api_key: &str,
    log: CallLog,
    row: CallRow,
    recalled: Option<CallRecord>,
)
    requires
        call_ensures(log_call, (headers, api_key, log), Ok::<CallRow, Rejection>(row)),
        call_ensures(recall, (&row,), recalled),
        is_readable(json_contents(log.qualification)),
        log.booking matches Some(booking) ==> is_readable(json_contents(booking)),
    ensures
        recalled is Some,
        ({
            let record = recalled->0;
            let back = record.log;
            &&& record.id@ == row.id@
            &&& back.caller_cli@ == log.caller_cli@
            &&& back.summary@ == log.summary@
            &&& back.timestamp@ == match instant_of(log.timestamp@) {
                Some(instant) => stamp_text(melbourne_local(instant.seconds), instant.nanos as int),
                None => log.timestamp@,
            }
            &&& is_like(json_contents(log.qualification), json_contents(back.qualification))
            &&& holds_integers(json_contents(log.qualification)) ==> json_contents(
                back.qualification,
            ) == json_contents(log.qualification)
            &&& match log.booking {
                Some(booking) if json_contents(booking) != Json::Null => {
                    &&& back.booking is Some
                    &&& is_like(json_contents(booking), json_contents(back.booking->0))
                    &&& holds_integers(json_contents(booking)) ==> json_contents(back.booking->0)
                        == json_contents(booking)
                },
                _ => back.booking is None,
            }
            &&& back.compliance_flags@.len() == log.compliance_flags@.len()
            &&& forall|i: int|
                0 <= i < log.compliance_flags@.len() ==> (#[trigger] back.compliance_flags@[i])@
                    == log.compliance_flags@[i]@
            &&& back.transcript_url == log.transcript_url
            &&& back.recording_url == log.recording_url
        }),
{
    law_stored_log_reads_back(log, row, recalled);
    let back = recalled->0.log;
    let flags = texts_of(log.compliance_flags@);
    assert(texts_of(back.compliance_flags@) == flags);
    assert(texts_of(back.compliance_flags@).len() == back.compliance_flags@.len());
    assert forall|i: int| 0 <= i < log.compliance_flags@.len() implies (
    #[trigger] back.compliance_flags@[i])@ == log.compliance_flags@[i]@ by {
        assert(texts_of(back.compliance_flags@)[i] == flags[i]);
    }
}

/// A record that a row tells has each column of the row in the field of its name,
/// the JSON as it is read.
pub proof fn law_told_record_holds_every_column(row: CallRow, record: CallRecord)
    requires
        record.is_told_by(row),
    ensures
        record.id@ == row.id@,
        record.log.timestamp@ == row.ts@,
        record.log.caller_cli@ == row.caller_cli@,
        record.log.summary@ == row.summary@,
        value_read(row.qualification@) == Some(json_contents(record.log.qualification)),
        match record.log.booking {
            Some(booking) => option_read(row.booking@) == Some(Some(json_contents(booking))),
            None => option_read(row.booking@) == Some(None::<Json>),
        },
        texts_read(row.compliance_flags@) matches Some(flags) && flags.len()
            == record.log.compliance_flags@.len() && forall|i: int|
            0 <= i < flags.len() ==> #[trigger] flags[i] == record.log.compliance_flags@[i]@,
        record.log.transcript_url == row.transcript_url,
        record.log.recording_url == row.recording_url,
{
}

/// A row is recalled exactly where the JSON of all three columns can be read, and
/// as the record that it tells.
pub proof fn law_recall_tells_the_row(row: &CallRow, recalled: Option<CallRecord>)
    requires
        call_ensures(recall, (row,), recalled),
    ensures
        recalled is Some <==> value_read(row.qualification@) is Some && option_read(row.booking@)
            is Some && texts_read(row.compliance_flags@) is Some,
        recalled matches Some(record) ==> record.is_told_by(*row),
{
}

/// The answer to a log is an acknowledgement exactly where the row was stored, and
/// a database error where not.
pub proof fn law_stored_call_is_acknowledged(stored: bool, outcome: Result<Ack, Rejection>)
    requires
        call_ensures(log_call_reply, (stored,), outcome),
    ensures
        match outcome {
            Ok(ack) => stored && ack.ok,
            Err(rejection) => !stored && rejection == Rejection::DbError,
        },
{
}

/// Whoever has the key is given the twenty newest records at most, and anyone else
/// is refused as the key is.
pub proof fn law_recent_calls_are_twenty_at_most(
    headers: &HeaderMap<HeaderValue>,
    api_key: &str,
    verdict: Result<(), Rejection>,
    outcome: Result<usize, Rejection>,
)
    requires
        call_ensures(require_key, (headers, api_key), verdict),
        call_ensures(recent_calls, (headers, api_key), outcome),
    ensures
        match verdict {
            Err(rejection) => outcome == Err::<usize, Rejection>(rejection),
            Ok(_) => outcome == Ok::<usize, Rejection>(20usize),
        },
{
}

/// The places, in rising order, of all rows whose JSON can be read.
pub open spec fn are_legible_places(places: Seq<int>, rows: Seq<CallRow>) -> bool {
    &&& forall|j: int| 0 <= j < places.len() ==> 0 <= #[trigger] places[j] < rows.len()
    &&& forall|j: int, k: int|
        0 <= j < k < places.len() ==> #[trigger] places[j] < #[trigger] places[k]
    &&& forall|i: int|
        0 <= i < rows.len() ==> (places.contains(i) <==> value_read(
            (#[trigger] rows[i]).qualification@,
        ) is Some && option_read(rows[i].booking@) is Some && texts_read(
            rows[i].compliance_flags@,
        ) is Some)
}

/// The legible rows are those at the legible places.
proof fn lemma_legible_rows_stand_at_their_places(rows: Seq<CallRow>) -> (places: Seq<int>)
    ensures
        are_legible_places(places, rows),
        places.len() == legible_rows(rows).len(),
        forall|j: int|
            0 <= j < places.len() ==> legible_rows(rows)[j] == rows[#[trigger] places[j]],
    decreases rows.len(),
{
    reveal(Seq::filter);
    if rows.len() == 0 {
        Seq::empty()
    } else {
        let rest = rows.drop_last();
        let last = rows.len() - 1;
        let before = lemma_legible_rows_stand_at_their_places(rest);
        let places = if is_legible(rows[last]) {
            before.push(last)
        } else {
            before
        };
        assert forall|i: int| 0 <= i < rows.len() implies (places.contains(i) <==> value_read(
            (#[trigger] rows[i]).qualification@,
        ) is Some && option_read(rows[i].booking@) is Some && texts_read(
            rows[i].compliance_flags@,
        ) is Some) by {
            if i < last {
                assert(rest[i] == rows[i]);
                if before.contains(i) {
                    let j = choose|j: int| 0 <= j < before.len() && before[j] == i;
                    assert(places[j] == i);
                }
                if places.contains(i) {
                    let j = choose|j: int| 0 <= j < places.len() && places[j] == i;
                    assert(before[j] == i);
                }
            } else {
                if is_legible(rows[last]) {
                    assert(places[before.len() as int] == last);
                } else if places.contains(i) {
                    let j = choose|j: int| 0 <= j < places.len() && places[j] == i;
                    assert(before[j] < rest.len());
                }
            }
        }
        places
    }
}

/// The records that are given out are those of the rows that can be read, one for
/// each, in the order of the rows; where no rows could be fetched, there is a
/// database error.
pub proof fn law_every_legible_row_is_given_out(
    rows: Option<Vec<CallRow>>,
    outcome: Result<Vec<CallRecord>, Rejection>,
)
    requires
        call_ensures(recent_calls_reply, (rows,), outcome),
    ensures
        rows is None ==> outcome == Err::<Vec<CallRecord>, Rejection>(Rejection::DbError),
        rows matches Some(rows) ==> {
            &&& outcome is Ok
            &&& exists|places: Seq<int>|
                {
                    &&& #[trigger] are_legible_places(places, rows@)
                    &&& places.len() == outcome->Ok_0@.len()
                    &&& forall|j: int|
                        0 <= j < places.len() ==> outcome->Ok_0@[j].is_told_by(
                            rows@[#[trigger] places[j]],
                        )
                }
        },
{
    if let Some(rows) = rows {
        let places = lemma_legible_rows_stand_at_their_places(rows@);
        let records = outcome->Ok_0@;
        assert forall|j: int| 0 <= j < places.len() implies records[j].is_told_by(
            rows@[#[trigger] places[j]],
        ) by {
            assert(legible_rows(rows@)[j] == rows@[places[j]]);
        }
        assert(are_legible_places(places, rows@));
    }
}

/// All that can be recalled of rows is what is given out of them.
pub proof fn law_recalled_rows_are_given_out(
    rows: Vec<CallRow>,
    records: Vec<CallRecord>,
)
    requires
        call_ensures(recall_all, (&rows,), records),
    ensures
        exists|places: Seq<int>|
            {
                &&& #[trigger] are_legible_places(places, rows@)
                &&& places.len() == records@.len()
                &&& forall|j: int|
                    0 <= j < places.len() ==> records@[j].is_told_by(rows@[#[trigger] places[j]])
            },
{
    let places = lemma_legible_rows_stand_at_their_places(rows@);
    assert forall|j: int| 0 <= j < places.len() implies records@[j].is_told_by(
        rows@[#[trigger] places[j]],
    ) by {
        assert(legible_rows(rows@)[j] == rows@[places[j]]);
    }
    assert(are_legible_places(places, rows@));
}

/// What is owed to every report with the right key is the acknowledgement, and to
/// any other the refusal of the key.
pub proof fn law_admitted_report_is_acknowledged(value: Option<Seq<u8>>, api_key: Seq<char>)
    ensures
        key_verdict(value, api_key) is Ok ==> end_outcome(value, api_key) == Ok::<Ack, Rejection>(
            Ack { ok: true },
        ),
        key_verdict(value, api_key) matches Err(rejection) ==> end_outcome(value, api_key) == Err::<
            Ack,
            Rejection,
        >(rejection),
{
}

/// The end of a call is acknowledged to whoever has the key, whatever the key is
/// and whatever is reported; anyone else is refused as the key is.
pub proof fn law_end_of_call_is_acknowledged(
    headers: &HeaderMap<HeaderValue>,
    api_key: &str,
    payload: &EndPayload,
    verdict: Result<(), Rejection>,
    outcome: Result<Ack, Rejection>,
)
    requires
        call_ensures(require_key, (headers, api_key), verdict),
        call_ensures(webhook_call_ended, (headers, api_key, payload), outcome),
    ensures
        match verdict {
            Err(rejection) => outcome == Err::<Ack, Rejection>(rejection),
            Ok(_) => outcome matches Ok(ack) && ack.ok,
        },
{
}

/// What is reported when a call has ended.
pub struct EndPayload {
    /// Where the transcript is.
    pub transcript_url: Option<String>,
    /// Where the recording is.
    pub recording_url: Option<String>,
}

/// The outcome that is owed to a report with that `Authorization` value: the
/// refusal of the key, or the acknowledgement.
pub open spec fn end_outcome(value: Option<Seq<u8>>, api_key: Seq<char>) -> Result<Ack, Rejection> {
    match key_verdict(value, api_key) {
        Err(rejection) => Err(rejection),
        Ok(_) => Ok(Ack { ok: true }),
    }
}

/// Acknowledges the end of a call to whoever has the key, whatever is reported.
pub fn webhook_call_ended(
    headers: &HeaderMap<HeaderValue>,
    api_key: &str,
    _payload: &EndPayload,
) -> (outcome: Result<Ack, Rejection>)
    ensures
        outcome == end_outcome(authorization_of(*headers), api_key@),
{
    match require_key(headers, api_key) {
        Err(rejection) => Err(rejection),
        Ok(_) => Ok(Ack { ok: true }),
    }
}

} // verus!
