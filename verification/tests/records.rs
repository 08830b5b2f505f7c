use axum::http::header::AUTHORIZATION;
use axum::http::{HeaderMap, HeaderValue, StatusCode};
use chrono::{DateTime, FixedOffset};
use riverstone_voice_svc::booking::{book_appointment, BookReq};
use riverstone_voice_svc::calls::{
    call_row, log_call, log_call_reply, recall, recent_calls, recent_calls_reply,
    webhook_call_ended, Ack, CallLog, CallRow, EndPayload, RECENT_CALLS,
};
use riverstone_voice_svc::json::json_or;
use riverstone_voice_svc::rejection::Rejection;
use serde_json::Value;

fn headers(value: &'static str) -> HeaderMap {
    let mut headers = HeaderMap::new();
    headers.insert(AUTHORIZATION, HeaderValue::from_static(value));
    headers
}

fn json(text: &str) -> Value {
    serde_json::from_str(text).unwrap()
}

fn log() -> CallLog {
    CallLog {
        timestamp: "2025-01-01T10:00:00+10:00".to_string(),
        caller_cli: "+61400111222".to_string(),
        summary: "Discussed pricing".to_string(),
        qualification: json("{\"budget\": \"900k\"}"),
        booking: None,
        compliance_flags: vec!["identified".to_string()],
        transcript_url: Some("https://example.com/transcript".to_string()),
        recording_url: Some("https://example.com/recording".to_string()),
    }
}

fn row(log: CallLog) -> CallRow {
    call_row("one".to_string(), log)
}

fn payload() -> EndPayload {
    EndPayload {
        transcript_url: Some("https://example.com/transcript".to_string()),
        recording_url: None,
    }
}

#[test]
fn log_call_lays_out_the_row() {
    let row = log_call(&headers("Bearer test-key"), "test-key", log())
        .ok()
        .unwrap();
    assert_eq!(row.ts, "2025-01-01T11:00:00+11:00");
    assert_eq!(row.caller_cli, "+61400111222");
    assert_eq!(row.summary, "Discussed pricing");
    assert_eq!(row.qualification, "{\"budget\":\"900k\"}");
    assert_eq!(row.booking, "null");
    assert_eq!(row.compliance_flags, "[\"identified\"]");
    assert_eq!(row.transcript_url.as_deref(), Some("https://example.com/transcript"));
    assert_eq!(row.recording_url.as_deref(), Some("https://example.com/recording"));
}

#[test]
fn log_call_requires_authorization() {
    let rejection = log_call(&HeaderMap::new(), "test-key", log()).err().unwrap();
    assert_eq!(rejection.status(), StatusCode::UNAUTHORIZED.as_u16());
    let rejection = log_call(&headers("Bearer wrong-key"), "test-key", log())
        .err()
        .unwrap();
    assert_eq!(rejection.status(), StatusCode::FORBIDDEN.as_u16());
}

#[test]
fn json_is_stored_as_text() {
    let kept = row(CallLog {
        qualification: json("[1, true, null, \"a\\\"b\"]"),
        booking: Some(json("{ \"id\" : \"RS-1\" }")),
        compliance_flags: vec!["a\"b\n".to_string(), String::new()],
        transcript_url: None,
        recording_url: None,
        ..log()
    });
    assert_eq!(kept.qualification, "[1,true,null,\"a\\\"b\"]");
    assert_eq!(kept.booking, "{\"id\":\"RS-1\"}");
    assert_eq!(kept.compliance_flags, "[\"a\\\"b\\n\",\"\"]");
    assert_eq!(kept.transcript_url, None);
    assert_eq!(kept.recording_url, None);

    let empty = row(CallLog {
        qualification: Value::Null,
        booking: Some(Value::Null),
        compliance_flags: Vec::new(),
        ..log()
    });
    assert_eq!(empty.qualification, "null");
    assert_eq!(empty.booking, "null");
    assert_eq!(empty.compliance_flags, "[]");
}

#[test]
fn stored_json_reads_back() {
    let value = json("{\"budget\": 900000, \"beds\": [1, 2], \"note\": \"caf\u{e9} \\u0001\"}");
    let flags = vec!["identified".to_string(), "tab\there".to_string()];
    let kept = row(CallLog {
        qualification: value.clone(),
        compliance_flags: flags.clone(),
        ..log()
    });
    assert_eq!(json(&kept.qualification), value);
    let back: Vec<String> = serde_json::from_str(&kept.compliance_flags).unwrap();
    assert_eq!(back, flags);
}

#[test]
fn quotes_and_control_characters_are_escaped() {
    let flag = "\u{1}\u{8}\t\n\u{b}\u{c}\r\u{1f} \"\\/\u{7f}\u{e9}";
    let kept = row(CallLog {
        compliance_flags: vec![flag.to_string()],
        ..log()
    });
    assert_eq!(
        kept.compliance_flags,
        "[\"\\u0001\\b\\t\\n\\u000b\\f\\r\\u001f \\\"\\\\/\u{7f}\u{e9}\"]"
    );
}

#[test]
fn call_times_are_kept_in_melbourne_time() {
    for (given, kept) in [
        ("2025-01-01T10:00:00+10:00", "2025-01-01T11:00:00+11:00"),
        ("2025-07-01T00:00:00Z", "2025-07-01T10:00:00+10:00"),
        ("2025-12-31T23:30:00-05:00", "2026-01-01T15:30:00+11:00"),
        ("2025-01-01T11:00:00+11:00", "2025-01-01T11:00:00+11:00"),
        ("2025-01-01T00:00:00.25Z", "2025-01-01T11:00:00.250+11:00"),
        ("2025-01-01T00:00:00.000001Z", "2025-01-01T11:00:00.000001+11:00"),
        ("2025-01-01T00:00:00.123456789Z", "2025-01-01T11:00:00.123456789+11:00"),
        ("2016-12-31T23:59:60Z", "2017-01-01T10:59:60+11:00"),
        ("0987-06-15T12:00:00Z", "0987-06-15T21:39:52+09:40"),
        ("+12345-06-15T12:00:00Z", "+12345-06-15T23:00:00+11:00"),
        ("", ""),
        ("this morning", "this morning"),
        ("2025-01-01T10:00:00", "2025-01-01T10:00:00"),
    ] {
        let log = CallLog { timestamp: given.to_string(), ..log() };
        assert_eq!(row(log).ts, kept, "{given}");
    }
}

#[test]
fn a_time_past_the_last_year_is_kept_and_not_read() {
    let kept = row(CallLog { timestamp: "+262142-12-31T23:00:00Z".to_string(), ..log() }).ts;
    assert_eq!(kept, "+262143-01-01T10:00:00+11:00");
    assert!(kept.parse::<DateTime<FixedOffset>>().is_err());
}

#[test]
fn a_kept_time_names_the_same_instant() {
    for given in [
        "2025-01-01T10:00:00.5+10:00",
        "2025-04-05T15:30:00Z",
        "2025-04-05T16:30:00Z",
        "2016-12-31T23:59:60.25Z",
        "1895-02-01T00:00:00Z",
        "9999-12-31T23:00:00Z",
        "+12345-06-15T12:00:00Z",
        "+262142-12-31T00:00:00Z",
        "2024-02-28T13:00:00Z",
    ] {
        let kept = row(CallLog { timestamp: given.to_string(), ..log() }).ts;
        let named = |text: &str| text.parse::<DateTime<FixedOffset>>().unwrap();
        assert_eq!(named(&kept), named(given), "{given}");
        assert_eq!(
            named(&kept).timestamp_subsec_nanos(),
            named(given).timestamp_subsec_nanos()
        );
        let again = row(CallLog { timestamp: kept.clone(), ..log() }).ts;
        assert_eq!(again, kept);
    }
}

#[test]
fn a_record_gets_an_id_of_its_own() {
    let row = |_: usize| {
        log_call(&headers("Bearer test-key"), "test-key", log()).ok().unwrap()
    };
    let ids: Vec<String> = (0..50).map(row).map(|row| row.id).collect();
    for (i, id) in ids.iter().enumerate() {
        let parsed = uuid::Uuid::parse_str(id).unwrap();
        assert_eq!(parsed.get_version_num(), 4);
        assert_eq!(&parsed.to_string(), id);
        assert!(!ids[..i].contains(id));
    }
}

#[test]
fn a_stored_log_reads_back() {
    for (qualification, booking) in [
        ("null", None),
        ("{\"budget\": 900000, \"beds\": [1, -2, 18446744073709551615]}", None),
        ("[true, false, {}, []]", Some("{\"id\": \"RS-1\", \"ok\": true}")),
        ("\"caf\u{e9} \\u0001 \\\" \\\\\"", Some("-9223372036854775808")),
    ] {
        let given = CallLog {
            qualification: json(qualification),
            booking: booking.map(json),
            compliance_flags: ["b", "a", "", "b", "tab\there"].map(String::from).to_vec(),
            recording_url: None,
            ..log()
        };
        let record = recall(&row(given)).unwrap();
        assert_eq!(record.id, "one");
        assert_eq!(record.log.timestamp, "2025-01-01T11:00:00+11:00");
        assert_eq!(record.log.caller_cli, "+61400111222");
        assert_eq!(record.log.summary, "Discussed pricing");
        assert_eq!(record.log.qualification, json(qualification));
        assert_eq!(record.log.booking, booking.map(json));
        assert_eq!(record.log.compliance_flags, ["b", "a", "", "b", "tab\there"]);
        assert_eq!(
            record.log.transcript_url.as_deref(),
            Some("https://example.com/transcript")
        );
        assert_eq!(record.log.recording_url, None);
    }
}

#[test]
fn numbers_that_are_no_integers_can_be_read() {
    for number in [
        "0.1", "-0.0", "1e300", "5e-324", "2.2250738585072014e-308", "1.7976931348623157e308",
        "-1.7976931348623155e308", "123456789.125", "1e16", "0.3333333333333333",
    ] {
        let given = CallLog {
            qualification: json(&format!("{{\"a\": [{number}, 7, \"x\"]}}")),
            booking: Some(json(number)),
            ..log()
        };
        let back = recall(&row(given)).unwrap().log;
        assert!(back.qualification["a"][0].is_f64(), "{number}");
        assert_eq!(back.qualification["a"][1], json("7"));
        assert_eq!(back.qualification["a"][2], json("\"x\""));
        assert!(back.booking.unwrap().is_f64());
    }
}

#[test]
fn the_same_log_is_stored_again() {
    let store = || log_call(&headers("Bearer test-key"), "test-key", log()).ok().unwrap();
    let (first, second) = (store(), store());
    assert_ne!(first.id, second.id);
    assert_eq!(first.ts, second.ts);
    assert_eq!(first.caller_cli, second.caller_cli);
    assert_eq!(first.summary, second.summary);
    assert_eq!(first.qualification, second.qualification);
    assert_eq!(first.booking, second.booking);
    assert_eq!(first.compliance_flags, second.compliance_flags);
    assert_eq!(first.transcript_url, second.transcript_url);
    assert_eq!(first.recording_url, second.recording_url);
    assert_eq!(log_call_reply(true), Ok(Ack { ok: true }));
}

#[test]
fn an_empty_booking_reads_back_as_none() {
    let record = recall(&row(CallLog { booking: Some(Value::Null), ..log() })).unwrap();
    assert_eq!(record.log.booking, None);
}

#[test]
fn deep_json_reads_back_up_to_a_limit() {
    for (depth, legible) in [(1, true), (127, true), (128, false)] {
        let deep = (0..depth).fold(Value::Null, |inner, _| Value::Array(vec![inner]));
        let recalled = recall(&row(CallLog { qualification: deep.clone(), ..log() }));
        assert_eq!(recalled.is_some(), legible, "{depth}");
        if let Some(record) = recalled {
            assert_eq!(record.log.qualification, deep);
        }
    }
}

#[test]
fn a_row_that_cannot_be_read_tells_nothing() {
    let broken = [
        CallRow { qualification: "{".to_string(), ..row(log()) },
        CallRow { booking: String::new(), ..row(log()) },
        CallRow { compliance_flags: "{}".to_string(), ..row(log()) },
        CallRow { compliance_flags: "[1]".to_string(), ..row(log()) },
    ];
    for broken in broken {
        assert!(recall(&broken).is_none());
        let rows = vec![
            call_row("b".to_string(), log()),
            broken,
            call_row("a".to_string(), log()),
        ];
        let records = recent_calls_reply(Some(rows)).ok().unwrap();
        let ids: Vec<&str> = records.iter().map(|record| record.id.as_str()).collect();
        assert_eq!(ids, ["b", "a"]);
    }
}

#[test]
fn recent_calls_are_given_out_row_by_row() {
    let rows: Vec<CallRow> = ["c", "b", "a"]
        .map(|id| CallRow { summary: id.to_uppercase(), ..call_row(id.to_string(), log()) })
        .into_iter()
        .collect();
    let records = recent_calls_reply(Some(rows)).ok().unwrap();
    let told: Vec<(&str, &str)> = records
        .iter()
        .map(|record| (record.id.as_str(), record.log.summary.as_str()))
        .collect();
    assert_eq!(told, [("c", "C"), ("b", "B"), ("a", "A")]);
    assert!(recent_calls_reply(Some(Vec::new())).ok().unwrap().is_empty());
    assert_eq!(recent_calls_reply(None).err(), Some(Rejection::DbError));
}

#[test]
fn recent_calls_are_for_whoever_has_the_key() {
    assert_eq!(recent_calls(&headers("Bearer test-key"), "test-key"), Ok(RECENT_CALLS));
    assert_eq!(
        recent_calls(&headers("Bearer wrong-key"), "test-key"),
        Err(Rejection::BadAuth)
    );
    assert_eq!(recent_calls(&HeaderMap::new(), "test-key"), Err(Rejection::MissingAuth));
}

#[test]
fn a_failed_writing_leaves_the_stand_in() {
    let error = serde_json::from_str::<Value>("{").unwrap_err();
    assert_eq!(json_or(Err(error), "{}"), "{}");
    assert_eq!(json_or(Ok("[1]".to_string()), "{}"), "[1]");
}

#[test]
fn the_reply_tells_whether_the_row_was_stored() {
    assert_eq!(log_call_reply(true), Ok(Ack { ok: true }));
    let rejection = log_call_reply(false).unwrap_err();
    assert_eq!(rejection, Rejection::DbError);
    assert_eq!(rejection.status(), StatusCode::INTERNAL_SERVER_ERROR.as_u16());
    assert_eq!(rejection.message(), "db error");
}

#[test]
fn webhook_call_ended_acknowledges_payload() {
    assert_eq!(
        webhook_call_ended(&headers("Bearer test-key"), "test-key", &payload()),
        Ok(Ack { ok: true })
    );
}

#[test]
fn webhook_call_ended_rejects_invalid_key() {
    let rejection = webhook_call_ended(&headers("Bearer wrong-key"), "test-key", &payload())
        .unwrap_err();
    assert_eq!(rejection.status(), StatusCode::FORBIDDEN.as_u16());
}

#[test]
fn a_refused_key_is_refused_everywhere() {
    for (headers, refusal) in [
        (HeaderMap::new(), Rejection::MissingAuth),
        (headers("Bearer wrong-key"), Rejection::BadAuth),
    ] {
        for mode in ["video", "phone"] {
            let req = BookReq {
                name: String::new(),
                phone: String::new(),
                email: String::new(),
                slot_iso: "2025-09-26T10:00:00+10:00".to_string(),
                mode: mode.to_string(),
                notes: None,
            };
            assert_eq!(book_appointment(&headers, "test-key", &req).err(), Some(refusal));
        }
        assert_eq!(log_call(&headers, "test-key", log()).err(), Some(refusal));
        assert_eq!(recent_calls(&headers, "test-key"), Err(refusal));
        assert_eq!(
            webhook_call_ended(&headers, "test-key", &payload()),
            Err(refusal)
        );
    }
}
