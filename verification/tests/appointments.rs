use axum::http::header::AUTHORIZATION;
use axum::http::{HeaderMap, HeaderValue, StatusCode};
use chrono::{DateTime, Utc};
use riverstone_voice_svc::booking::{
    appointment_row, appointment_row_under, book_appointment, book_at, book_reply, compose,
    confirm_slot, is_mode_offered, BookReq, BookResp,
};
use riverstone_voice_svc::clock::{Instant, MAX_SECONDS, MIN_SECONDS, ZONE_TIME_START};
use riverstone_voice_svc::rejection::Rejection;

fn headers(value: &'static str) -> HeaderMap {
    let mut headers = HeaderMap::new();
    headers.insert(AUTHORIZATION, HeaderValue::from_static(value));
    headers
}

fn request(slot: &str, mode: &str) -> BookReq {
    BookReq {
        name: "Alice".to_string(),
        phone: "0400000000".to_string(),
        email: "alice@example.com".to_string(),
        slot_iso: slot.to_string(),
        mode: mode.to_string(),
        notes: Some("Bring brochure".to_string()),
    }
}

fn book(slot: &str) -> BookResp {
    match book_appointment(&headers("Bearer test-key"), "test-key", &request(slot, "video")) {
        Ok(resp) => resp,
        Err(rejection) => panic!("{rejection:?}"),
    }
}

fn at(seconds: i64) -> Instant {
    Instant { seconds, nanos: 0 }
}

fn texts(resp: BookResp) -> (String, String) {
    assert!(resp.ok);
    (resp.booking_id, resp.message)
}

fn expect(slot: &str, id: &str, message: &str) {
    assert_eq!(texts(book(slot)), (id.to_string(), message.to_string()), "{slot}");
}

#[test]
fn book_appointment_returns_booking_details() {
    let body = book("2025-09-26T10:00:00+10:00");
    assert!(body.ok);
    assert!(body.booking_id.starts_with("RS-"));
    assert!(body.message.starts_with("Booked "));
    assert_eq!(body.booking_id, "RS-20250926-1000");
    assert_eq!(body.message, "Booked Fri 26 Sep 10:00 AEST");
}

#[test]
fn book_appointment_rejects_invalid_mode() {
    let req = BookReq {
        name: "Bob".to_string(),
        phone: "0400000000".to_string(),
        email: "bob@example.com".to_string(),
        slot_iso: "2025-09-26T10:00:00+10:00".to_string(),
        mode: "phone".to_string(),
        notes: None,
    };
    let rejection = book_appointment(&headers("Bearer test-key"), "test-key", &req)
        .err()
        .unwrap();
    assert_eq!(rejection, Rejection::InvalidMode);
    assert_eq!(rejection.status(), StatusCode::UNPROCESSABLE_ENTITY.as_u16());
    assert_eq!(rejection.message(), "invalid mode");
}

#[test]
fn only_two_modes_are_offered() {
    for mode in ["video", "display-suite"] {
        assert!(is_mode_offered(&mode.to_string()));
        let req = request("2025-09-26T10:00:00+10:00", mode);
        assert!(book_appointment(&headers("Bearer k"), "k", &req).is_ok());
    }
    for mode in ["", "Video", "video ", "display suite", "displaysuite", "phone"] {
        assert!(!is_mode_offered(&mode.to_string()));
    }
}

#[test]
fn the_key_is_judged_before_the_mode() {
    let req = request("2025-09-26T10:00:00+10:00", "phone");
    assert_eq!(
        book_appointment(&HeaderMap::new(), "test-key", &req).err(),
        Some(Rejection::MissingAuth)
    );
    assert_eq!(
        book_appointment(&headers("Bearer wrong-key"), "test-key", &req).err(),
        Some(Rejection::BadAuth)
    );
}

#[test]
fn slots_are_shown_in_melbourne_time() {
    expect("2025-12-25T09:30:00+11:00", "RS-20251225-0930", "Booked Thu 25 Dec 09:30 AEDT");
    expect("2024-12-31T20:00:00-05:00", "RS-20250101-1200", "Booked Wed 01 Jan 12:00 AEDT");
    expect("2025-07-06T23:59:59.999Z", "RS-20250707-0959", "Booked Mon 07 Jul 09:59 AEST");
    expect("2016-12-31T23:59:60Z", "RS-20170101-1059", "Booked Sun 01 Jan 10:59 AEDT");
}

#[test]
fn the_same_instant_is_confirmed_alike() {
    let melbourne = texts(book("2025-09-26T10:00:00+10:00"));
    for slot in [
        "2025-09-26T00:00:00Z",
        "2025-09-25T20:00:00-04:00",
        "2025-09-26 05:30:00 +05:30",
        "2025-09-26T00:00:00 UTC",
    ] {
        assert_eq!(texts(book(slot)), melbourne, "{slot}");
    }
}

#[test]
fn a_booking_id_tells_the_minute() {
    // The clock goes back at three on 6 April 2025, and reads half past two twice.
    let summer = book("2025-04-05T15:30:00Z");
    let winter = book("2025-04-05T16:30:00Z");
    assert_eq!(summer.booking_id, "RS-20250406-0230");
    assert_eq!(winter.booking_id, summer.booking_id);
    assert_eq!(summer.message, "Booked Sun 06 Apr 02:30 AEDT");
    assert_eq!(winter.message, "Booked Sun 06 Apr 02:30 AEST");

    assert_eq!(book("2025-04-05T16:30:59Z").booking_id, winter.booking_id);
    assert_ne!(book("2025-04-05T16:31:00Z").booking_id, winter.booking_id);
}

#[test]
fn every_month_and_weekday_has_its_name() {
    let months = [
        "Jan", "Feb", "Mar", "Apr", "May", "Jun", "Jul", "Aug", "Sep", "Oct", "Nov", "Dec",
    ];
    for (i, name) in months.iter().enumerate() {
        let message = book(&format!("2025-{:02}-15T12:00:00+10:00", i + 1)).message;
        assert_eq!(&message[14..17], *name);
    }
    let days = ["Sun", "Mon", "Tue", "Wed", "Thu", "Fri", "Sat"];
    for (i, name) in days.iter().enumerate() {
        let message = book(&format!("2025-06-{:02}T12:00:00+10:00", i + 1)).message;
        assert_eq!(message, format!("Booked {name} {:02} Jun 12:00 AEST", i + 1));
    }
}

#[test]
fn far_years_are_written_with_a_sign() {
    expect("0987-06-15T12:00:00Z", "RS-09870615-2139", "Booked Fri 15 Jun 21:39 LMT");
    assert_eq!(book("-0005-06-15T12:00:00Z").booking_id, "RS--00050615-2139");
    assert_eq!(book("+12345-06-15T12:00:00Z").booking_id, "RS-+123450615-2300");
}

#[test]
fn the_bounds_are_those_of_the_calendar() {
    assert_eq!(DateTime::<Utc>::MIN_UTC.timestamp(), MIN_SECONDS);
    assert_eq!(DateTime::<Utc>::MAX_UTC.timestamp(), MAX_SECONDS);
    for seconds in [MIN_SECONDS, -2_000_000_000, -1, 0, 1_758_844_800, MAX_SECONDS] {
        let local = DateTime::<Utc>::from_timestamp(seconds, 0)
            .unwrap()
            .with_timezone(&chrono_tz::Australia::Melbourne);
        let resp = confirm_slot(at(seconds));
        assert_eq!(resp.booking_id, format!("RS-{}", local.format("%Y%m%d-%H%M")));
        assert_eq!(resp.message, format!("Booked {}", local.format("%a %d %b %H:%M %Z")));
    }
    assert_eq!(confirm_slot(at(MAX_SECONDS)).booking_id, "RS-+2621430101-1059");
    assert_eq!(confirm_slot(at(MIN_SECONDS)).booking_id, "RS--2621430101-0939");
}

#[test]
fn a_slot_that_cannot_be_read_is_booked_now() {
    for slot in ["", "tomorrow", "2025-09-26T10:00:00", "2025-13-01T10:00:00Z", "2025-09-26"] {
        let before = Utc::now().timestamp();
        let got = texts(book(slot));
        let after = Utc::now().timestamp();
        let possible = [texts(confirm_slot(at(before))), texts(confirm_slot(at(after)))];
        assert!(possible.contains(&got), "{slot}: {got:?}");
    }
}

#[test]
fn a_slot_that_cannot_be_read_is_booked_at_the_present() {
    // Noon on 26 September 2025 in Melbourne.
    let present = Instant { seconds: 1_758_852_000, nanos: 500_000_000 };
    let key = headers("Bearer test-key");
    for slot in ["", "tomorrow", "2025-09-26T10:00:00"] {
        let resp = book_at(&key, "test-key", &request(slot, "video"), present).ok().unwrap();
        assert_eq!(
            texts(resp),
            ("RS-20250926-1200".to_string(), "Booked Fri 26 Sep 12:00 AEST".to_string())
        );
    }
    let slot = "2025-12-25T09:30:00+11:00";
    let resp = book_at(&key, "test-key", &request(slot, "display-suite"), present).ok().unwrap();
    assert_eq!(resp.booking_id, "RS-20251225-0930");
    assert_eq!(
        book_at(&key, "test-key", &request("", "phone"), present).err(),
        Some(Rejection::InvalidMode)
    );
    assert_eq!(
        book_at(&key, "other-key", &request("", "phone"), present).err(),
        Some(Rejection::BadAuth)
    );
    assert_eq!(
        book_at(&HeaderMap::new(), "test-key", &request("", "video"), present).err(),
        Some(Rejection::MissingAuth)
    );
}

#[test]
fn the_words_end_with_the_zone_time() {
    for (slot, message) in [
        ("2025-10-04T15:59:59Z", "Booked Sun 05 Oct 01:59 AEST"),
        ("2025-10-04T16:00:00Z", "Booked Sun 05 Oct 03:00 AEDT"),
    ] {
        assert_eq!(book(slot).message, message);
    }
    assert!(confirm_slot(at(ZONE_TIME_START)).message.ends_with(" AEST"));
    assert!(confirm_slot(at(ZONE_TIME_START - 1)).message.ends_with(" LMT"));
}

#[test]
fn an_appointment_is_kept_with_its_confirmation() {
    let req = request("2025-01-01T10:00:00+10:00", "video");
    let resp = book("2025-01-01T10:00:00+10:00");
    let row = appointment_row_under("one".to_string(), &req, &resp);
    assert_eq!(row.id, "one");
    assert_eq!(row.booking_id, "RS-20250101-1100");
    assert_eq!(row.name, "Alice");
    assert_eq!(row.phone, "0400000000");
    assert_eq!(row.email, "alice@example.com");
    assert_eq!(row.slot, "2025-01-01T11:00:00+11:00");
    assert_eq!(row.mode, "video");
    assert_eq!(row.notes.as_deref(), Some("Bring brochure"));
    assert_eq!(row.message, "Booked Wed 01 Jan 11:00 AEDT");

    let unread = BookReq { notes: None, ..request("tomorrow", "display-suite") };
    let row = appointment_row_under("two".to_string(), &unread, &resp);
    assert_eq!(row.slot, "tomorrow");
    assert_eq!(row.mode, "display-suite");
    assert_eq!(row.notes, None);
}

#[test]
fn an_appointment_gets_an_id_of_its_own() {
    let req = request("2025-01-01T10:00:00+10:00", "video");
    let resp = book("2025-01-01T10:00:00+10:00");
    let row = appointment_row(&req, &resp);
    let other = appointment_row(&req, &resp);
    let id = uuid::Uuid::parse_str(&row.id).unwrap();
    assert_eq!(id.get_version_num(), 4);
    assert_eq!(id.to_string(), row.id);
    assert_ne!(row.id, other.id);
    assert_eq!(row.booking_id, other.booking_id);
    assert_eq!(row.slot, "2025-01-01T11:00:00+11:00");
}

#[test]
fn the_reply_tells_whether_the_appointment_was_stored() {
    let resp = book_reply(true, book("2025-01-01T10:00:00+10:00")).ok().unwrap();
    assert!(resp.ok);
    assert_eq!(resp.booking_id, "RS-20250101-1100");
    let rejection = book_reply(false, resp).err().unwrap();
    assert_eq!(rejection, Rejection::DbError);
}

#[test]
fn leap_days_are_those_of_the_calendar() {
    expect("2024-02-28T13:00:00Z", "RS-20240229-0000", "Booked Thu 29 Feb 00:00 AEDT");
    expect("2025-02-28T13:00:00Z", "RS-20250301-0000", "Booked Sat 01 Mar 00:00 AEDT");
    expect("2000-02-28T13:00:00Z", "RS-20000229-0000", "Booked Tue 29 Feb 00:00 AEDT");
    expect("2100-02-28T13:00:00Z", "RS-21000301-0000", "Booked Mon 01 Mar 00:00 AEDT");
}

#[test]
fn a_confirmation_is_composed_of_both_readings() {
    let resp = compose("20250926-1000", "Fri 26 Sep 10:00 AEST");
    assert!(resp.ok);
    assert_eq!(resp.booking_id, "RS-20250926-1000");
    assert_eq!(resp.message, "Booked Fri 26 Sep 10:00 AEST");
}

/// The days from the start of 1970 to a date.
fn day_number(year: i64, month: i64, day: i64) -> i64 {
    let y = if month <= 2 { year - 1 } else { year };
    let m = (month + 9) % 12;
    365 * y + y.div_euclid(4) - y.div_euclid(100) + y.div_euclid(400) + (153 * m + 2) / 5 + day
        - 719469
}

#[test]
fn a_booking_names_the_instant_and_its_weekday() {
    let days = ["Sun", "Mon", "Tue", "Wed", "Thu", "Fri", "Sat"];
    // About every third day, at changing times, from 1917 to 2096.
    for i in -6500..15500i64 {
        let seconds = i * 257_161;
        let resp = confirm_slot(at(seconds));
        let id = resp.booking_id;
        let part = |from: usize, to: usize| id[from..to].parse::<i64>().unwrap();
        assert_eq!(id.len(), 16);
        assert_eq!(&id[11..12], "-");
        let days_on = day_number(part(3, 7), part(7, 9), part(9, 11));
        let ahead = if resp.message.ends_with(" AEDT") { 39_600 } else { 36_000 };
        assert_eq!(
            days_on * 1440 + part(12, 14) * 60 + part(14, 16),
            (seconds + ahead).div_euclid(60),
            "{id}"
        );
        assert_eq!(&resp.message[7..10], days[(days_on + 4).rem_euclid(7) as usize]);
    }
}

#[test]
fn bookings_of_one_name_are_a_minute_apart_at_most() {
    // Half past two comes twice when the clock goes back: an hour apart, but not
    // equally far ahead of UTC.
    let start = 1_758_844_800;
    let name = confirm_slot(at(start)).booking_id;
    for i in -120..120i64 {
        let same = confirm_slot(at(start + i)).booking_id == name;
        assert_eq!(same, (0..60).contains(&i));
    }
}
