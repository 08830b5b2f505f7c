//! Appointments: which modes are offered, how a slot is confirmed in Melbourne
//! time, and what is stored of an appointment.
use vstd::prelude::*;
use axum::http::{HeaderMap, HeaderValue};
use crate::auth::{authorization_of, key_verdict, require_key};
use crate::clock::{
    compact_text, day_number, format_melbourne, gives_in_melbourne_time, in_melbourne_time,
    instant_of, is_present, is_reading, is_stamp, law_present_comes_from_the_clock,
    law_reading_follows_from_the_second, law_zone_time_is_eastern,
    lemma_year_text_tells_years_apart, melbourne_local, month_text, now, parse_instant,
    spoken_text, stamp_text, weekday_text, year_text, Instant, LocalTime, MAX_SECONDS, MIN_SECONDS,
    ZONE_TIME_START,
};
use crate::digits::{
    four_digits_at, lemma_four_digits_spell, lemma_two_digits_spell,
    lemma_two_digits_tell_numbers_apart, two_digits, two_digits_at,
};
use crate::record_id::{
    is_drawn, is_record_id, law_drawn_id_comes_from_the_draw, new_record_id,
};
use crate::rejection::Rejection;
use crate::text::clone_option;

verus! {

/// What a caller asks for.
pub struct BookReq {
    /// Who is asking.
    pub name: String,
    /// The caller's telephone number.
    pub phone: String,
    /// The caller's mail address.
    pub email: String,
    /// The wanted slot: an ISO 8601 date and time with an offset.
    pub slot_iso: String,
    /// How to meet.
    pub mode: String,
    /// Anything else.
    pub notes: Option<String>,
}

/// The confirmation of an appointment.
pub struct BookResp {
    /// Whether the appointment is booked.
    pub ok: bool,
    /// The name of the booking.
    pub booking_id: String,
    /// The confirmation in words.
    pub message: String,
}

impl BookResp {
    /// The response says that the appointment is booked, under that name and in
    /// those words.
    pub open spec fn says(self, id: Seq<char>, words: Seq<char>) -> bool {
        &&& self.ok
        &&& self.booking_id@ == "RS-"@ + id
        &&& self.message@ == "Booked "@ + words
    }

    /// The response confirms an appointment at a second counted from the start
    /// of 1970 in UTC, by what a Melbourne clock shows then.
    pub open spec fn confirms(self, seconds: i64) -> bool {
        let local = melbourne_local(seconds);
        &&& is_reading(local, seconds)
        &&& self.says(compact_text(local), spoken_text(local))
    }

    /// The response confirms an appointment at some second.
    pub open spec fn confirms_some_instant(self) -> bool {
        exists|seconds: i64|
            MIN_SECONDS <= seconds <= MAX_SECONDS && #[trigger] self.confirms(seconds)
    }

    /// The response confirms an appointment at what the clock gave as the present.
    pub open spec fn confirms_the_present(self) -> bool {
        exists|instant: Instant| #[trigger]
            is_present(instant) && self.confirms(instant.seconds)
    }
}

/// The modes in which one can meet.
pub open spec fn mode_offered(mode: Seq<char>) -> bool {
    mode == "video"@ || mode == "display-suite"@
}

/// Whether one can meet in that mode.
pub fn is_mode_offered(mode: &String) -> (offered: bool)
    ensures
        offered == mode_offered(mode@),
{
    *mode == "video".to_owned() || *mode == "display-suite".to_owned()
}

/// Words the confirmation of an appointment whose time reads `id` in the
/// compact layout and `words` in the spoken one.
pub fn compose(id: &str, words: &str) -> (resp: BookResp)
    ensures
        resp.says(id@, words@),
{
    BookResp {
        ok: true,
        booking_id: "RS-".to_owned().concat(id),
        message: "Booked ".to_owned().concat(words),
    }
}

/// Confirms an appointment at an instant.
pub fn confirm_slot(instant: Instant) -> (resp: BookResp)
    requires
        instant.valid(),
    ensures
        resp.confirms(instant.seconds),
{
    let id = format_melbourne(instant, "%Y%m%d-%H%M");
    let words = format_melbourne(instant, "%a %d %b %H:%M %Z");
    compose(id.as_str(), words.as_str())
}

/// The refusal that is owed to a request with that `Authorization` value, if any:
/// that of the key comes first, then that of a mode which is not offered.
pub open spec fn book_refusal(value: Option<Seq<u8>>, api_key: Seq<char>, req: BookReq) -> Option<
    Rejection,
> {
    match key_verdict(value, api_key) {
        Err(rejection) => Some(rejection),
        Ok(_) => if mode_offered(req.mode@) {
            None
        } else {
            Some(Rejection::InvalidMode)
        },
    }
}

/// The slot that an admitted request names, where it can be read.
pub fn wanted_slot(headers: &HeaderMap<HeaderValue>, api_key: &str, req: &BookReq) -> (outcome:
    Result<Option<Instant>, Rejection>)
    ensures
        outcome == match book_refusal(authorization_of(*headers), api_key@, *req) {
            Some(rejection) => Err::<Option<Instant>, Rejection>(rejection),
            None => Ok::<Option<Instant>, Rejection>(instant_of(req.slot_iso@)),
        },
        outcome matches Ok(Some(slot)) ==> slot.valid(),
{
    match require_key(headers, api_key) {
        Err(rejection) => Err(rejection),
        Ok(_) => if is_mode_offered(&req.mode) {
            Ok(parse_instant(req.slot_iso.as_str()))
        } else {
            Err(Rejection::InvalidMode)
        },
    }
}

/// The outcome that is owed at an instant to a request with that `Authorization`
/// value: a refusal, or else a confirmation, at the slot where it can be read and
/// at the present where not.
pub open spec fn book_outcome_at(
    value: Option<Seq<u8>>,
    api_key: Seq<char>,
    req: BookReq,
    present: Instant,
    outcome: Result<BookResp, Rejection>,
) -> bool {
    match book_refusal(value, api_key, req) {
        Some(rejection) => outcome == Err::<BookResp, Rejection>(rejection),
        None => {
            &&& outcome matches Ok(resp)
            &&& match instant_of(req.slot_iso@) {
                Some(slot) => resp.confirms(slot.seconds),
                None => resp.confirms(present.seconds),
            }
        },
    }
}

/// Books an appointment for whoever has the key, in an offered mode, at the slot
/// that the request names; a slot that cannot be read counts as the present.
pub fn book_at(
    headers: &HeaderMap<HeaderValue>,
    api_key: &str,
    req: &BookReq,
    present: Instant,
) -> (outcome: Result<BookResp, Rejection>)
    requires
        present.valid(),
    ensures
        book_outcome_at(authorization_of(*headers), api_key@, *req, present, outcome),
{
    match wanted_slot(headers, api_key, req) {
        Err(rejection) => Err(rejection),
        Ok(Some(slot)) => Ok(confirm_slot(slot)),
        Ok(None) => Ok(confirm_slot(present)),
    }
}

/// The outcome that is owed to a request with that `Authorization` value,
/// whatever the present is.
pub open spec fn book_outcome(
    value: Option<Seq<u8>>,
    api_key: Seq<char>,
    req: BookReq,
    outcome: Result<BookResp, Rejection>,
) -> bool {
    match book_refusal(value, api_key, req) {
        Some(rejection) => outcome == Err::<BookResp, Rejection>(rejection),
        None => {
            &&& outcome matches Ok(resp)
            &&& match instant_of(req.slot_iso@) {
                Some(slot) => resp.confirms(slot.seconds),
                None => resp.confirms_some_instant(),
            }
        },
    }
}

/// Books an appointment as `book_at` does, at the present by the machine's clock,
/// which is read only where the slot of an admitted request cannot be. That the
/// clock is right is not stated.
pub fn book_appointment(
    headers: &HeaderMap<HeaderValue>,
    api_key: &str,
    req: &BookReq,
) -> (outcome: Result<BookResp, Rejection>)
    ensures
        book_outcome(authorization_of(*headers), api_key@, *req, outcome),
        instant_of(req.slot_iso@) is None ==> (outcome matches Ok(resp)
            ==> resp.confirms_the_present()),
{
    match wanted_slot(headers, api_key, req) {
        Err(rejection) => Err(rejection),
        Ok(Some(slot)) => Ok(confirm_slot(slot)),
        Ok(None) => {
            let present = now();
            let outcome = book_at(headers, api_key, req, present);
            proof {
                law_present_comes_from_the_clock(present);
                assert(is_present(present) && outcome->Ok_0.confirms(present.seconds));
            }
            outcome
        },
    }
}

/// A row of the table of appointments.
pub struct AppointmentRow {
    /// The id of the record.
    pub id: String,
    /// The name of the booking.
    pub booking_id: String,
    /// Who asked.
    pub name: String,
    /// The caller's telephone number.
    pub phone: String,
    /// The caller's mail address.
    pub email: String,
    /// The slot that was asked for, in Melbourne time.
    pub slot: String,
    /// How to meet.
    pub mode: String,
    /// Anything else.
    pub notes: Option<String>,
    /// The confirmation in words.
    pub message: String,
}

impl AppointmentRow {
    /// The row keeps what was asked for, with the slot in Melbourne time, and what
    /// was confirmed.
    pub open spec fn keeps(self, req: BookReq, resp: BookResp) -> bool {
        &&& self.booking_id@ == resp.booking_id@
        &&& self.name@ == req.name@
        &&& self.phone@ == req.phone@
        &&& self.email@ == req.email@
        &&& gives_in_melbourne_time(self.slot@, req.slot_iso@)
        &&& self.mode@ == req.mode@
        &&& self.notes == req.notes
        &&& self.message@ == resp.message@
    }
}

/// Lays out the row of a confirmed request under an id.
pub fn appointment_row_under(id: String, req: &BookReq, resp: &BookResp) -> (row: AppointmentRow)
    ensures
        row.id == id,
        row.id@ == id@,
        row.keeps(*req, *resp),
{
    AppointmentRow {
        id,
        booking_id: resp.booking_id.clone(),
        name: req.name.clone(),
        phone: req.phone.clone(),
        email: req.email.clone(),
        slot: in_melbourne_time(req.slot_iso.as_str()),
        mode: req.mode.clone(),
        notes: clone_option(&req.notes),
        message: resp.message.clone(),
    }
}

/// The row to store for a confirmed request.
pub fn appointment_row(req: &BookReq, resp: &BookResp) -> (row: AppointmentRow)
    ensures
        is_record_id(row.id@),
        is_drawn(row.id),
        row.keeps(*req, *resp),
{
    let id = new_record_id();
    proof {
        law_drawn_id_comes_from_the_draw(id);
    }
    appointment_row_under(id, req, resp)
}

/// The answer to a request, once it is known whether the appointment was stored.
pub fn book_reply(stored: bool, resp: BookResp) -> (outcome: Result<BookResp, Rejection>)
    ensures
        outcome == if stored {
            Ok::<BookResp, Rejection>(resp)
        } else {
            Err::<BookResp, Rejection>(Rejection::DbError)
        },
{
    if stored {
        Ok(resp)
    } else {
        Err(Rejection::DbError)
    }
}

/// Every confirmation is recognised by the start of its name and of its words.
pub proof fn law_confirmations_are_recognised(resp: BookResp, seconds: i64)
    requires
        resp.confirms(seconds),
    ensures
        resp.ok,
        "RS-"@.is_prefix_of(resp.booking_id@),
        "Booked "@.is_prefix_of(resp.message@),
{
    assert(resp.booking_id@.take("RS-"@.len() as int) =~= "RS-"@);
    assert(resp.message@.take("Booked "@.len() as int) =~= "Booked "@);
}

/// Two slots that name the same second, in whatever offset they are written,
/// are confirmed in the same words.
pub proof fn law_same_instant_same_booking(
    a: BookResp,
    b: BookResp,
    slot: Seq<char>,
    other: Seq<char>,
)
    requires
        instant_of(slot) matches Some(instant) && a.confirms(instant.seconds),
        instant_of(other) matches Some(instant) && b.confirms(instant.seconds),
        instant_of(slot)->0.seconds == instant_of(other)->0.seconds,
    ensures
        a.ok == b.ok,
        a.booking_id@ == b.booking_id@,
        a.message@ == b.message@,
{
}

/// The name of a booking tells the minute that a Melbourne clock shows: two
/// bookings share a name exactly where the clock reads the same.
pub proof fn law_booking_id_tells_the_minute(a: BookResp, b: BookResp, seconds: i64, other: i64)
    requires
        a.confirms(seconds),
        b.confirms(other),
    ensures
        a.booking_id@ == b.booking_id@ <==> {
            let at = melbourne_local(seconds);
            let then = melbourne_local(other);
            &&& at.year == then.year
            &&& at.month == then.month
            &&& at.day == then.day
            &&& at.hour == then.hour
            &&& at.minute == then.minute
        },
{
    let at = melbourne_local(seconds);
    let then = melbourne_local(other);
    if a.booking_id@ == b.booking_id@ {
        let prefix = "RS-"@;
        let text = compact_text(at);
        let text_b = compact_text(then);
        assert(text =~= a.booking_id@.skip(prefix.len() as int));
        assert(text_b =~= b.booking_id@.skip(prefix.len() as int));
        let n = year_text(at.year).len() as int;
        assert(text.len() == n + 9);
        assert(year_text(at.year) =~= text.take(n));
        assert(year_text(then.year) =~= text_b.take(n));
        lemma_year_text_tells_years_apart(at.year, then.year);
        assert(two_digits(at.month) =~= text.subrange(n, n + 2));
        assert(two_digits(then.month) =~= text_b.subrange(n, n + 2));
        lemma_two_digits_tell_numbers_apart(at.month, then.month);
        assert(two_digits(at.day) =~= text.subrange(n + 2, n + 4));
        assert(two_digits(then.day) =~= text_b.subrange(n + 2, n + 4));
        lemma_two_digits_tell_numbers_apart(at.day, then.day);
        assert(two_digits(at.hour) =~= text.subrange(n + 5, n + 7));
        assert(two_digits(then.hour) =~= text_b.subrange(n + 5, n + 7));
        lemma_two_digits_tell_numbers_apart(at.hour, then.hour);
        assert(two_digits(at.minute) =~= text.subrange(n + 7, n + 9));
        assert(two_digits(then.minute) =~= text_b.subrange(n + 7, n + 9));
        lemma_two_digits_tell_numbers_apart(at.minute, then.minute);
    }
}

/// While the clock is equally far ahead of UTC, the name of a booking tells the
/// instant to the minute: bookings of one name are less than a minute apart.
pub proof fn law_booking_id_tells_the_instant(a: BookResp, b: BookResp, seconds: i64, other: i64)
    requires
        a.confirms(seconds),
        b.confirms(other),
        melbourne_local(seconds).offset == melbourne_local(other).offset,
        a.booking_id@ == b.booking_id@,
    ensures
        -60 < seconds - other < 60,
{
    law_booking_id_tells_the_minute(a, b, seconds, other);
}

/// The words of a booking name the weekday of the date in its name.
pub proof fn law_weekday_belongs_to_the_date(resp: BookResp, seconds: i64)
    requires
        resp.confirms(seconds),
    ensures
        ({
            let local = melbourne_local(seconds);
            let weekday = (day_number(local.year, local.month, local.day) + 4) % 7;
            resp.message@.subrange(7, 10) == weekday_text(weekday)
        }),
{
    reveal_strlit("Booked ");
    reveal_strlit("Sun");
    reveal_strlit("Mon");
    reveal_strlit("Tue");
    reveal_strlit("Wed");
    reveal_strlit("Thu");
    reveal_strlit("Fri");
    reveal_strlit("Sat");
    let local = melbourne_local(seconds);
    assert(weekday_text(local.weekday).len() == 3);
    assert(resp.message@.subrange(7, 10) =~= weekday_text(local.weekday));
}

/// The words of a booking end with the zone time in force: eastern standard time
/// where the clock is ten hours ahead of UTC, and daylight time where it is
/// eleven.
pub proof fn law_booking_names_the_zone_time(resp: BookResp, seconds: i64)
    requires
        resp.confirms(seconds),
        seconds >= ZONE_TIME_START,
    ensures
        ({
            let ending = resp.message@.skip(resp.message@.len() - 4);
            let offset = melbourne_local(seconds).offset;
            &&& ending == "AEST"@ || ending == "AEDT"@
            &&& ending == "AEST"@ <==> offset == 36000
            &&& ending == "AEDT"@ <==> offset == 39600
        }),
{
    let local = melbourne_local(seconds);
    law_zone_time_is_eastern(local, seconds);
    reveal_strlit("AEST");
    reveal_strlit("AEDT");
    assert(local.zone.len() == 4);
    assert(resp.message@.skip(resp.message@.len() - 4) =~= local.zone);
}

/// What is stored of an appointment tells one time: the slot is the stamp of the
/// instant that the name and the words of the booking confirm.
pub proof fn law_stored_slot_is_the_confirmed_one(
    req: BookReq,
    resp: BookResp,
    row: AppointmentRow,
    slot: Instant,
)
    requires
        instant_of(req.slot_iso@) == Some(slot),
        resp.confirms(slot.seconds),
        row.keeps(req, resp),
    ensures
        ({
            let local = melbourne_local(slot.seconds);
            &&& row.booking_id@ == "RS-"@ + compact_text(local)
            &&& row.message@ == "Booked "@ + spoken_text(local)
            &&& is_stamp(row.slot@, slot, local)
        }),
{
}

/// One can meet by video and in the display suite, under exactly these names, and
/// in no other way.
pub proof fn law_two_modes_are_offered(mode: &String, offered: bool)
    requires
        call_ensures(is_mode_offered, (mode,), offered),
    ensures
        offered <==> mode@ == "video"@ || mode@ == "display-suite"@,
{
}

/// A confirmation adds a start to each of the two readings, and changes nothing in
/// them.
pub proof fn law_confirmation_holds_both_readings(id: &str, words: &str, resp: BookResp)
    requires
        call_ensures(compose, (id, words), resp),
    ensures
        resp.ok,
        resp.booking_id@.len() == id@.len() + 3,
        resp.booking_id@.take(3) == seq!['R', 'S', '-'],
        resp.booking_id@.skip(3) == id@,
        resp.message@.len() == words@.len() + 7,
        resp.message@.take(7) == seq!['B', 'o', 'o', 'k', 'e', 'd', ' '],
        resp.message@.skip(7) == words@,
{
    reveal_strlit("RS-");
    reveal_strlit("Booked ");
    assert(resp.booking_id@.take(3) =~= seq!['R', 'S', '-']);
    assert(resp.booking_id@.skip(3) =~= id@);
    assert(resp.message@.take(7) =~= seq!['B', 'o', 'o', 'k', 'e', 'd', ' ']);
    assert(resp.message@.skip(7) =~= words@);
}

/// A confirmed instant is spelled out character by character, to the minute: the
/// name of the booking holds the date and the time that the Melbourne clock shows,
/// and the words hold the weekday, the date, the time and the zone time. What the
/// clock shows follows from the second by arithmetic.
#[verifier::spinoff_prover]
pub proof fn law_confirmation_spells_the_reading(instant: Instant, resp: BookResp)
    requires
        instant.valid(),
        call_ensures(confirm_slot, (instant,), resp),
        0 <= melbourne_local(instant.seconds).year <= 9999,
    ensures
        ({
            let local = melbourne_local(instant.seconds);
            let ahead = instant.seconds + local.offset;
            let id = resp.booking_id@;
            let words = resp.message@;
            &&& resp.ok
            &&& id.len() == 16
            &&& id[0] == 'R' && id[1] == 'S' && id[2] == '-' && id[11] == '-'
            &&& four_digits_at(id, 3) == local.year
            &&& two_digits_at(id, 7) == local.month
            &&& two_digits_at(id, 9) == local.day
            &&& two_digits_at(id, 12) * 60 + two_digits_at(id, 14) == ahead % 86400 / 60
            &&& words.take(7) == seq!['B', 'o', 'o', 'k', 'e', 'd', ' ']
            &&& words.subrange(7, 10) == weekday_text((ahead / 86400 + 4) % 7)
            &&& two_digits_at(words, 11) == local.day
            &&& words.subrange(14, 17) == month_text(local.month)
            &&& two_digits_at(words, 18) * 60 + two_digits_at(words, 21) == ahead % 86400 / 60
            &&& words[10] == ' ' && words[13] == ' ' && words[17] == ' ' && words[20] == ':'
            &&& words[23] == ' '
            &&& words.skip(24) == local.zone
            &&& day_number(local.year, local.month, local.day) == ahead / 86400
        }),
{
    let local = melbourne_local(instant.seconds);
    let ahead = instant.seconds + local.offset;
    law_reading_follows_from_the_second(instant.seconds);
    lemma_four_digits_spell(local.year as nat);
    lemma_two_digits_spell(local.month);
    lemma_two_digits_spell(local.day);
    lemma_two_digits_spell(local.hour);
    lemma_two_digits_spell(local.minute);
    assert(local.hour * 60 + local.minute == ahead % 86400 / 60);
    reveal_strlit("RS-");
    let id = resp.booking_id@;
    let year = year_text(local.year);
    assert(year.len() == 4);
    assert(id == "RS-"@ + compact_text(local));
    assert(compact_text(local).len() == 13);
    assert(id[3] == year[0] && id[4] == year[1] && id[5] == year[2] && id[6] == year[3]);
    assert(id[7] == two_digits(local.month)[0] && id[8] == two_digits(local.month)[1]);
    assert(id[9] == two_digits(local.day)[0] && id[10] == two_digits(local.day)[1]);
    assert(id[12] == two_digits(local.hour)[0] && id[13] == two_digits(local.hour)[1]);
    assert(id[14] == two_digits(local.minute)[0] && id[15] == two_digits(local.minute)[1]);
    lemma_words_spell_the_reading(resp.message@, local);
}

/// The parts of the words of a booking.
#[verifier::spinoff_prover]
proof fn lemma_words_spell_the_reading(words: Seq<char>, local: LocalTime)
    requires
        local.valid(),
        words == "Booked "@ + spoken_text(local),
    ensures
        words.take(7) == seq!['B', 'o', 'o', 'k', 'e', 'd', ' '],
        words.subrange(7, 10) == weekday_text(local.weekday),
        two_digits_at(words, 11) == local.day,
        words.subrange(14, 17) == month_text(local.month),
        two_digits_at(words, 18) == local.hour,
        two_digits_at(words, 21) == local.minute,
        words[10] == ' ' && words[13] == ' ' && words[17] == ' ' && words[20] == ':',
        words[23] == ' ',
        words.skip(24) == local.zone,
{
    reveal_strlit("Booked ");
    reveal_strlit("Sun");
    reveal_strlit("Mon");
    reveal_strlit("Tue");
    reveal_strlit("Wed");
    reveal_strlit("Thu");
    reveal_strlit("Fri");
    reveal_strlit("Sat");
    reveal_strlit("Jan");
    reveal_strlit("Feb");
    reveal_strlit("Mar");
    reveal_strlit("Apr");
    reveal_strlit("May");
    reveal_strlit("Jun");
    reveal_strlit("Jul");
    reveal_strlit("Aug");
    reveal_strlit("Sep");
    reveal_strlit("Oct");
    reveal_strlit("Nov");
    reveal_strlit("Dec");
    let weekday = weekday_text(local.weekday);
    let month = month_text(local.month);
    assert(weekday.len() == 3);
    assert(month.len() == 3);
    lemma_two_digits_spell(local.day);
    lemma_two_digits_spell(local.hour);
    lemma_two_digits_spell(local.minute);
    assert(words.take(7) =~= seq!['B', 'o', 'o', 'k', 'e', 'd', ' ']);
    assert(words.subrange(7, 10) =~= weekday);
    assert(words.subrange(14, 17) =~= month);
    assert(words[11] == two_digits(local.day)[0] && words[12] == two_digits(local.day)[1]);
    assert(words[18] == two_digits(local.hour)[0] && words[19] == two_digits(local.hour)[1]);
    assert(words[21] == two_digits(local.minute)[0] && words[22] == two_digits(local.minute)[1]);
    assert(words.skip(24) =~= local.zone);
}

/// Whoever has the key and asks for an offered mode is told the slot that the
/// request names, where it can be read; who has not the key is refused as the key
/// is, and any other mode as invalid.
pub proof fn law_wanted_slot_is_the_one_named(
    headers: &HeaderMap<HeaderValue>,
    api_key: &str,
    req: &BookReq,
    verdict: Result<(), Rejection>,
    outcome: Result<Option<Instant>, Rejection>,
)
    requires
        call_ensures(require_key, (headers, api_key), verdict),
        call_ensures(wanted_slot, (headers, api_key, req), outcome),
    ensures
        match verdict {
            Err(rejection) => outcome == Err::<Option<Instant>, Rejection>(rejection),
            Ok(_) => if req.mode@ == "video"@ || req.mode@ == "display-suite"@ {
                outcome == Ok::<Option<Instant>, Rejection>(instant_of(req.slot_iso@))
            } else {
                outcome == Err::<Option<Instant>, Rejection>(Rejection::InvalidMode)
            },
        },
{
}

/// A request with the right key and either mode is confirmed at exactly the second
/// that its slot names, and where the slot cannot be read at the present: by the
/// name and the words that confirm that instant, whatever else it holds. All
/// others are refused, as the key is or for the mode.
pub proof fn law_book_at_confirms_the_slot(
    headers: &HeaderMap<HeaderValue>,
    api_key: &str,
    req: &BookReq,
    present: Instant,
    verdict: Result<(), Rejection>,
    outcome: Result<BookResp, Rejection>,
)
    requires
        present.valid(),
        call_ensures(require_key, (headers, api_key), verdict),
        call_ensures(book_at, (headers, api_key, req, present), outcome),
    ensures
        match verdict {
            Err(rejection) => outcome == Err::<BookResp, Rejection>(rejection),
            Ok(_) => if req.mode@ == "video"@ || req.mode@ == "display-suite"@ {
                let seconds = match instant_of(req.slot_iso@) {
                    Some(slot) => slot.seconds,
                    None => present.seconds,
                };
                &&& outcome matches Ok(resp)
                &&& resp.ok
                &&& resp.booking_id@ == "RS-"@ + compact_text(melbourne_local(seconds))
                &&& resp.message@ == "Booked "@ + spoken_text(melbourne_local(seconds))
            } else {
                outcome == Err::<BookResp, Rejection>(Rejection::InvalidMode)
            },
        },
{
}

/// What is owed to a request with the right key in either mode is the confirmation
/// of the very second that its slot names.
pub proof fn law_readable_slot_is_confirmed(
    value: Option<Seq<u8>>,
    api_key: Seq<char>,
    req: BookReq,
    slot: Instant,
    outcome: Result<BookResp, Rejection>,
)
    requires
        key_verdict(value, api_key) is Ok,
        req.mode@ == "video"@ || req.mode@ == "display-suite"@,
        instant_of(req.slot_iso@) == Some(slot),
        book_outcome(value, api_key, req, outcome),
    ensures
        outcome matches Ok(resp) && resp.confirms(slot.seconds) && resp.ok && resp.booking_id@
            == "RS-"@ + compact_text(melbourne_local(slot.seconds)) && resp.message@ == "Booked "@ + spoken_text(melbourne_local(slot.seconds)),
{
}

/// A booking at the machine's present is the booking at any instant, wherever the
/// request is refused or its slot can be read; where not, it is confirmed at some
/// instant of the calendar.
pub proof fn law_present_matters_only_without_a_slot(
    headers: &HeaderMap<HeaderValue>,
    api_key: &str,
    req: &BookReq,
    present: Instant,
    outcome: Result<BookResp, Rejection>,
    outcome_at: Result<BookResp, Rejection>,
)
    requires
        present.valid(),
        call_ensures(book_appointment, (headers, api_key, req), outcome),
        call_ensures(book_at, (headers, api_key, req, present), outcome_at),
    ensures
        outcome is Ok <==> outcome_at is Ok,
        outcome matches Err(rejection) ==> outcome_at == Err::<BookResp, Rejection>(rejection),
        instant_of(req.slot_iso@) is Some ==> (outcome matches Ok(resp) ==> {
            &&& resp.ok == outcome_at->Ok_0.ok
            &&& resp.booking_id@ == outcome_at->Ok_0.booking_id@
            &&& resp.message@ == outcome_at->Ok_0.message@
        }),
        instant_of(req.slot_iso@) is None ==> (outcome matches Ok(resp) ==> resp.ok && exists|
            seconds: i64,
        |
            MIN_SECONDS <= seconds <= MAX_SECONDS && resp.booking_id@ == "RS-"@ + compact_text(
                #[trigger] melbourne_local(seconds),
            ) && resp.message@ == "Booked "@ + spoken_text(melbourne_local(seconds))),
{
    if outcome is Ok && instant_of(req.slot_iso@) is None {
        let resp = outcome->Ok_0;
        let seconds = choose|seconds: i64|
            MIN_SECONDS <= seconds <= MAX_SECONDS && #[trigger] resp.confirms(seconds);
        assert(resp.booking_id@ == "RS-"@ + compact_text(melbourne_local(seconds)));
    }
}

/// An admitted request whose slot cannot be read is confirmed at an instant that
/// the machine's clock gave as the present, and at no other.
pub proof fn law_unreadable_slot_is_booked_at_the_present(
    headers: &HeaderMap<HeaderValue>,
    api_key: &str,
    req: &BookReq,
    verdict: Result<(), Rejection>,
    outcome: Result<BookResp, Rejection>,
)
    requires
        call_ensures(require_key, (headers, api_key), verdict),
        call_ensures(book_appointment, (headers, api_key, req), outcome),
        verdict is Ok,
        req.mode@ == "video"@ || req.mode@ == "display-suite"@,
        instant_of(req.slot_iso@) is None,
    ensures
        outcome matches Ok(resp) && resp.ok && exists|instant: Instant| #[trigger]
            is_present(instant) && resp.booking_id@ == "RS-"@ + compact_text(
                melbourne_local(instant.seconds),
            ) && resp.message@ == "Booked "@ + spoken_text(melbourne_local(instant.seconds)),
{
    let resp = outcome->Ok_0;
    let instant = choose|instant: Instant| #[trigger]
        is_present(instant) && resp.confirms(instant.seconds);
    assert(is_present(instant) && resp.booking_id@ == "RS-"@ + compact_text(
        melbourne_local(instant.seconds),
    ));
}

/// Requests with the same key and slot, in whichever of the two modes and from
/// whomever, are confirmed alike.
pub proof fn law_only_the_slot_decides_the_confirmation(
    headers: &HeaderMap<HeaderValue>,
    api_key: &str,
    req: &BookReq,
    other: &BookReq,
    outcome: Result<BookResp, Rejection>,
    other_outcome: Result<BookResp, Rejection>,
)
    requires
        req.mode@ == "video"@ || req.mode@ == "display-suite"@,
        other.mode@ == "video"@ || other.mode@ == "display-suite"@,
        instant_of(req.slot_iso@) is Some,
        instant_of(req.slot_iso@) == instant_of(other.slot_iso@),
        call_ensures(book_appointment, (headers, api_key, req), outcome),
        call_ensures(book_appointment, (headers, api_key, other), other_outcome),
    ensures
        match (outcome, other_outcome) {
            (Ok(a), Ok(b)) => a.ok && b.ok && a.booking_id@ == b.booking_id@ && a.message@
                == b.message@,
            (Err(a), Err(b)) => a == b,
            _ => false,
        },
{
}

/// A row of an appointment holds every text of the request and of the
/// confirmation in a column of its own, unchanged but for a slot that can be read,
/// which is in Melbourne time.
pub proof fn law_appointment_row_holds_every_field(
    id: String,
    req: &BookReq,
    resp: &BookResp,
    row: AppointmentRow,
)
    requires
        call_ensures(appointment_row_under, (id, req, resp), row),
    ensures
        row.id@ == id@,
        row.booking_id@ == resp.booking_id@,
        row.name@ == req.name@,
        row.phone@ == req.phone@,
        row.email@ == req.email@,
        row.mode@ == req.mode@,
        match (row.notes, req.notes) {
            (Some(kept), Some(notes)) => kept@ == notes@,
            (None, None) => true,
            _ => false,
        },
        row.message@ == resp.message@,
        row.slot@ == match instant_of(req.slot_iso@) {
            Some(slot) => stamp_text(melbourne_local(slot.seconds), slot.nanos as int),
            None => req.slot_iso@,
        },
{
}

/// A row that is laid out under a drawn id is in all else the one laid out under
/// any other.
pub proof fn law_drawn_id_changes_nothing_else(
    req: &BookReq,
    resp: &BookResp,
    id: String,
    row: AppointmentRow,
    other: AppointmentRow,
)
    requires
        call_ensures(appointment_row, (req, resp), row),
        call_ensures(appointment_row_under, (id, req, resp), other),
    ensures
        is_drawn(row.id) && row.id@.len() == 36 && row.id@[14] == '4',
        row.booking_id@ == other.booking_id@,
        row.name@ == other.name@,
        row.phone@ == other.phone@,
        row.email@ == other.email@,
        row.slot@ == other.slot@,
        row.mode@ == other.mode@,
        row.notes == other.notes,
        row.message@ == other.message@,
{
}

/// The confirmation is given out unchanged exactly where the appointment was
/// stored, and is otherwise a database error.
pub proof fn law_stored_appointment_is_confirmed(
    stored: bool,
    resp: BookResp,
    outcome: Result<BookResp, Rejection>,
)
    requires
        call_ensures(book_reply, (stored, resp), outcome),
    ensures
        match outcome {
            Ok(given) => stored && given.ok == resp.ok && given.booking_id@ == resp.booking_id@
                && given.message@ == resp.message@,
            Err(rejection) => !stored && rejection == Rejection::DbError,
        },
{
}

/// Every instant of the calendar is confirmed by what the Melbourne clock shows at
/// its second, in whatever year.
pub proof fn law_confirmation_is_read_off_the_clock(instant: Instant, resp: BookResp)
    requires
        instant.valid(),
        call_ensures(confirm_slot, (instant,), resp),
    ensures
        resp.ok,
        resp.booking_id@ == "RS-"@ + compact_text(melbourne_local(instant.seconds)),
        resp.message@ == "Booked "@ + spoken_text(melbourne_local(instant.seconds)),
{
}

} // verus!
