//! JSON as the table of calls keeps it: what a value holds, how it is written and
//! that it reads back.
use vstd::prelude::*;
use crate::digits::{digit, padded};

verus! {

/// A JSON value.
#[verifier::external_type_specification]
#[verifier::external_body]
pub struct ExValue(serde_json::Value);

/// The error of writing or reading JSON.
#[verifier::external_type_specification]
#[verifier::external_body]
pub struct ExError(serde_json::Error);

/// What a JSON value can hold.
pub enum Json {
    /// Nothing.
    Null,
    /// A truth value.
    Bool(bool),
    /// An integer.
    Int(int),
    /// Any other number, by the text that it is written with.
    Float(Seq<char>),
    /// A text.
    Text(Seq<char>),
    /// A list of values.
    List(Seq<Json>),
    /// Names with a value each, in the order in which they are kept.
    Object(Seq<(Seq<char>, Json)>),
}

/// What a JSON value holds.
pub uninterp spec fn json_contents(value: serde_json::Value) -> Json;

/// What is read from a text as a JSON value, where it can be read as one.
pub uninterp spec fn value_read(text: Seq<char>) -> Option<Json>;

/// What is read from a text as an optional JSON value, where it can be read as
/// one.
pub uninterp spec fn option_read(text: Seq<char>) -> Option<Option<Json>>;

/// What is read from a text as a list of texts, where it can be read as one.
pub uninterp spec fn texts_read(text: Seq<char>) -> Option<Seq<Seq<char>>>;

/// What an optional JSON value holds: nothing where there is none.
pub open spec fn option_contents(value: Option<serde_json::Value>) -> Json {
    match value {
        Some(value) => json_contents(value),
        None => Json::Null,
    }
}

/// The contents of a list of texts.
pub open spec fn texts_of(texts: Seq<String>) -> Seq<Seq<char>> {
    texts.map_values(|text: String| text@)
}

/// A list of texts as JSON.
pub open spec fn texts_json(texts: Seq<Seq<char>>) -> Json {
    Json::List(texts.map_values(|text: Seq<char>| Json::Text(text)))
}

/// A hexadecimal digit in lower case.
pub open spec fn hex_digit(n: int) -> char {
    if n < 10 {
        digit(n)
    } else {
        (87 + n) as u8 as char
    }
}

/// A character as it stands in a JSON text: quotes, backslashes and control
/// characters are escaped.
pub open spec fn escaped(c: char) -> Seq<char> {
    if c == '"' || c == '\\' {
        seq!['\\', c]
    } else if c == '\n' {
        seq!['\\', 'n']
    } else if c == '\r' {
        seq!['\\', 'r']
    } else if c == '\t' {
        seq!['\\', 't']
    } else if c == '\x08' {
        seq!['\\', 'b']
    } else if c == '\x0c' {
        seq!['\\', 'f']
    } else if c <= '\x1f' {
        let code = c as int;
        seq!['\\', 'u', '0', '0', hex_digit(code / 16), hex_digit(code % 16)]
    } else {
        seq![c]
    }
}

/// A text in quotes.
pub open spec fn quoted(text: Seq<char>) -> Seq<char> {
    seq!['"'] + text.map_values(|c: char| escaped(c)).flatten() + seq!['"']
}

/// An integer in decimal digits.
pub open spec fn integer_text(n: int) -> Seq<char> {
    if n < 0 {
        seq!['-'] + padded((-n) as nat, 1)
    } else {
        padded(n as nat, 1)
    }
}

/// What a JSON value holds, written without spaces.
pub open spec fn json_text(json: Json) -> Seq<char>
    decreases json,
{
    match json {
        Json::Null => "null"@,
        Json::Bool(b) => if b {
            "true"@
        } else {
            "false"@
        },
        Json::Int(n) => integer_text(n),
        Json::Float(text) => text,
        Json::Text(text) => quoted(text),
        Json::List(items) => seq!['['] + items_text(items) + seq![']'],
        Json::Object(members) => seq!['{'] + members_text(members) + seq!['}'],
    }
}

/// The values of a list, with commas between them.
pub open spec fn items_text(items: Seq<Json>) -> Seq<char>
    decreases items,
{
    if items.len() == 0 {
        Seq::empty()
    } else if items.len() == 1 {
        json_text(items[0])
    } else {
        items_text(items.drop_last()) + seq![','] + json_text(items.last())
    }
}

/// The names and values of an object, with commas between them.
pub open spec fn members_text(members: Seq<(Seq<char>, Json)>) -> Seq<char>
    decreases members,
{
    if members.len() == 0 {
        Seq::empty()
    } else if members.len() == 1 {
        quoted(members[0].0) + seq![':'] + json_text(members[0].1)
    } else {
        members_text(members.drop_last()) + seq![','] + quoted(members.last().0) + seq![':']
            + json_text(members.last().1)
    }
}

/// Lists and objects are nested no deeper than `depth`, and no object starts with
/// the name by which serde_json marks unparsed JSON.
pub open spec fn is_plain(json: Json, depth: nat) -> bool
    decreases depth,
{
    match json {
        Json::List(items) => depth > 0 && forall|i: int|
            0 <= i < items.len() ==> is_plain(#[trigger] items[i], (depth - 1) as nat),
        Json::Object(members) => {
            &&& depth > 0
            &&& members.len() > 0 ==> members[0].0 != "$serde_json::private::RawValue"@
            &&& forall|i: int|
                0 <= i < members.len() ==> is_plain((#[trigger] members[i]).1, (depth - 1) as nat)
        },
        _ => true,
    }
}

/// JSON that can be read once it is written.
pub open spec fn is_readable(json: Json) -> bool {
    is_plain(json, 127)
}

/// Every number is an integer.
pub open spec fn holds_integers(json: Json) -> bool
    decreases json,
{
    match json {
        Json::Float(_) => false,
        Json::List(items) => forall|i: int|
            0 <= i < items.len() ==> holds_integers(#[trigger] items[i]),
        Json::Object(members) => forall|i: int|
            0 <= i < members.len() ==> holds_integers((#[trigger] members[i]).1),
        _ => true,
    }
}

/// The two are equal but for numbers that are no integers, which may differ.
pub open spec fn is_like(json: Json, other: Json) -> bool
    decreases json,
{
    match (json, other) {
        (Json::Float(_), Json::Float(_)) => true,
        (Json::List(items), Json::List(others)) => {
            &&& items.len() == others.len()
            &&& forall|i: int|
                0 <= i < items.len() ==> is_like(#[trigger] items[i], others[i])
        },
        (Json::Object(members), Json::Object(others)) => {
            &&& members.len() == others.len()
            &&& forall|i: int|
                0 <= i < members.len() ==> (#[trigger] members[i]).0 == others[i].0 && is_like(
                    members[i].1,
                    others[i].1,
                )
        },
        _ => json == other,
    }
}

/// The JSON that was read back is that which was written; where there are numbers
/// that are no integers, it is but for them.
pub open spec fn is_kept(json: Json, back: Json) -> bool {
    is_like(json, back) && (holds_integers(json) ==> back == json)
}

/// Where every number is an integer, JSON is like no other than itself.
pub proof fn lemma_integers_are_kept(json: Json, other: Json)
    requires
        is_like(json, other),
    ensures
        is_kept(json, other),
    decreases json,
{
    if holds_integers(json) {
        match (json, other) {
            (Json::List(items), Json::List(others)) => {
                assert forall|i: int| 0 <= i < items.len() implies #[trigger] items[i]
                    == others[i] by {
                    lemma_integers_are_kept(items[i], others[i]);
                }
                assert(items =~= others);
            },
            (Json::Object(members), Json::Object(others)) => {
                assert forall|i: int| 0 <= i < members.len() implies #[trigger] members[i]
                    == others[i] by {
                    lemma_integers_are_kept(members[i].1, others[i].1);
                }
                assert(members =~= others);
            },
            _ => {},
        }
    }
}

/// The text is what is written of a value. It can be read, unless the value holds
/// what cannot, and gives the like of what it holds.
pub open spec fn value_written(text: Seq<char>, value: serde_json::Value) -> bool {
    let json = json_contents(value);
    &&& text == json_text(json)
    &&& is_readable(json) ==> (value_read(text) matches Some(back) && is_like(json, back))
}

/// The text is what is written of an optional value. As far as that of a value, it
/// can be read, and a value that holds nothing is read as none.
pub open spec fn option_written(text: Seq<char>, value: Option<serde_json::Value>) -> bool {
    let json = option_contents(value);
    &&& text == json_text(json)
    &&& json == Json::Null ==> option_read(text) == Some(None::<Json>)
    &&& json != Json::Null && is_readable(json) ==> (option_read(text) matches Some(Some(back))
        && is_like(json, back))
}

/// The text is what is written of a list of texts, and reads back.
pub open spec fn texts_written(text: Seq<char>, texts: Seq<Seq<char>>) -> bool {
    &&& text == json_text(texts_json(texts))
    &&& texts_read(text) == Some(texts)
}

/// `serde_json::to_string` of a JSON value: the value in JSON, without spaces.
/// Unless it is nested too deep it can be read, and reads back but for numbers
/// that are no integers: they are read as such, and to which is not stated.
#[verifier::external_body]
pub(crate) fn value_to_json(value: &serde_json::Value) -> (attempt: Result<
    String,
    serde_json::Error,
>)
    ensures
        match attempt {
            Ok(text) => value_written(text@, *value),
            Err(_) => false,
        },
{
    serde_json::to_string(value)
}

/// `serde_json::to_string` of an optional JSON value: as for the value, and
/// `null` where there is none or one that holds nothing, which reads back as none.
#[verifier::external_body]
pub(crate) fn option_to_json(value: &Option<serde_json::Value>) -> (attempt: Result<
    String,
    serde_json::Error,
>)
    ensures
        match attempt {
            Ok(text) => option_written(text@, *value),
            Err(_) => false,
        },
{
    serde_json::to_string(value)
}

/// `serde_json::to_string` of a list of texts: the texts in JSON, without
/// spaces, which read back.
#[verifier::external_body]
pub(crate) fn texts_to_json(texts: &Vec<String>) -> (attempt: Result<String, serde_json::Error>)
    ensures
        match attempt {
            Ok(text) => texts_written(text@, texts_of(texts@)),
            Err(_) => false,
        },
{
    serde_json::to_string(texts)
}

/// `serde_json::from_str` into a JSON value. How JSON is read is not stated.
#[verifier::external_body]
pub(crate) fn value_from_json(text: &str) -> (attempt: Result<
    serde_json::Value,
    serde_json::Error,
>)
    ensures
        match attempt {
            Ok(value) => value_read(text@) == Some(json_contents(value)),
            Err(_) => value_read(text@) is None,
        },
{
    serde_json::from_str(text)
}

/// `serde_json::from_str` into an optional JSON value. How JSON is read is not
/// stated.
#[verifier::external_body]
pub(crate) fn option_from_json(text: &str) -> (attempt: Result<
    Option<serde_json::Value>,
    serde_json::Error,
>)
    ensures
        match attempt {
            Ok(Some(value)) => option_read(text@) == Some(Some(json_contents(value))),
            Ok(None) => option_read(text@) == Some(None::<Json>),
            Err(_) => option_read(text@) is None,
        },
{
    serde_json::from_str(text)
}

/// `serde_json::from_str` into a list of texts. How JSON is read is not stated.
#[verifier::external_body]
pub(crate) fn texts_from_json(text: &str) -> (attempt: Result<Vec<String>, serde_json::Error>)
    ensures
        match attempt {
            Ok(texts) => texts_read(text@) == Some(texts_of(texts@)),
            Err(_) => texts_read(text@) is None,
        },
{
    serde_json::from_str(text)
}

/// The text of a writing attempt, or a stand-in where it failed.
pub open spec fn written_or(attempt: Result<String, serde_json::Error>, stand_in: Seq<char>) -> Seq<
    char,
> {
    match attempt {
        Ok(text) => text@,
        Err(_) => stand_in,
    }
}

/// The text of a writing attempt, or a stand-in where it failed.
pub fn json_or(attempt: Result<String, serde_json::Error>, stand_in: &str) -> (text: String)
    ensures
        text@ == written_or(attempt, stand_in@),
{
    match attempt {
        Ok(text) => text,
        Err(_) => stand_in.to_owned(),
    }
}

/// Whatever was written is taken as it is, and the stand-in where nothing was.
pub proof fn law_written_text_is_taken(
    attempt: Result<String, serde_json::Error>,
    stand_in: &str,
    text: String,
)
    requires
        call_ensures(json_or, (attempt, stand_in), text),
    ensures
        match attempt {
            Ok(written) => text@ == written@,
            Err(_) => text@ == stand_in@,
        },
{
}

/// A text in quotes is built up character by character, each as it is or behind a
/// backslash.
pub proof fn law_quoted_text_grows_by_character(text: Seq<char>, c: char)
    ensures
        quoted(Seq::empty()) == seq!['"', '"'],
        quoted(text.push(c)) == quoted(text).drop_last() + escaped(c) + seq!['"'],
        ' ' <= c && c != '"' && c != '\\' ==> escaped(c) == seq![c],
        escaped(c).len() > 1 ==> escaped(c)[0] == '\\',
{
    let parts = text.map_values(|c: char| escaped(c));
    let more = text.push(c).map_values(|c: char| escaped(c));
    assert(more =~= parts.push(escaped(c)));
    parts.lemma_flatten_and_flatten_alt_are_equivalent();
    more.lemma_flatten_and_flatten_alt_are_equivalent();
    assert(more.drop_last() =~= parts);
    assert(more.flatten() =~= parts.flatten() + escaped(c));
    assert(quoted(text.push(c)) =~= quoted(text).drop_last() + escaped(c) + seq!['"']);
    let none = Seq::<char>::empty().map_values(|c: char| escaped(c));
    assert(none =~= Seq::<Seq<char>>::empty());
    assert(none.flatten() =~= Seq::<char>::empty());
    assert(quoted(Seq::empty()) =~= seq!['"', '"']);
}

/// An integer is written digit by digit, behind a minus where it is negative.
pub proof fn law_integer_text_grows_by_digit(n: int)
    requires
        n >= 0,
    ensures
        n < 10 ==> integer_text(n) == seq![digit(n)],
        n >= 10 ==> integer_text(n) == integer_text(n / 10).push(digit(n % 10)),
        n > 0 ==> integer_text(-n) == seq!['-'] + integer_text(n),
{
    reveal_with_fuel(padded, 3);
    if n < 10 {
        assert(integer_text(n) =~= seq![digit(n)]);
    } else {
        let rest = (n / 10) as nat;
        assert(padded(n as nat, 1) == padded(rest, 0).push(digit(n % 10)));
        assert(padded(rest, 0) == padded(rest / 10, 0).push(digit((rest % 10) as int)));
        assert(padded(rest, 1) == padded(rest / 10, 0).push(digit((rest % 10) as int)));
    }
}

/// A list is written in brackets, value by value with commas between, and an
/// object in braces, name by name with its value.
pub proof fn law_json_text_grows_by_item(
    items: Seq<Json>,
    item: Json,
    members: Seq<(Seq<char>, Json)>,
    name: Seq<char>,
)
    ensures
        json_text(Json::List(Seq::empty())) == seq!['[', ']'],
        json_text(Json::List(items.push(item))) == json_text(Json::List(items)).drop_last() + (
        if items.len() > 0 {
            seq![',']
        } else {
            Seq::empty()
        }) + json_text(item) + seq![']'],
        json_text(Json::Object(Seq::empty())) == seq!['{', '}'],
        json_text(Json::Object(members.push((name, item)))) == json_text(
            Json::Object(members),
        ).drop_last() + (if members.len() > 0 {
            seq![',']
        } else {
            Seq::empty()
        }) + quoted(name) + seq![':'] + json_text(item) + seq!['}'],
        json_text(Json::Text(name)) == quoted(name),
        json_text(Json::Null) == seq!['n', 'u', 'l', 'l'],
        json_text(Json::Bool(true)) == seq!['t', 'r', 'u', 'e'],
        json_text(Json::Bool(false)) == seq!['f', 'a', 'l', 's', 'e'],
{
    reveal_strlit("null");
    reveal_strlit("true");
    reveal_strlit("false");
    assert("null"@ =~= seq!['n', 'u', 'l', 'l']);
    assert("true"@ =~= seq!['t', 'r', 'u', 'e']);
    assert("false"@ =~= seq!['f', 'a', 'l', 's', 'e']);
    assert(json_text(Json::List(Seq::empty())) =~= seq!['[', ']']);
    assert(json_text(Json::Object(Seq::empty())) =~= seq!['{', '}']);
    let more = items.push(item);
    assert(more.drop_last() =~= items);
    assert(more.last() == item);
    assert(json_text(Json::List(more)) =~= json_text(Json::List(items)).drop_last() + (
    if items.len() > 0 {
        seq![',']
    } else {
        Seq::empty()
    }) + json_text(item) + seq![']']);
    let all = members.push((name, item));
    assert(all.drop_last() =~= members);
    assert(all.last() == (name, item));
    assert(json_text(Json::Object(all)) =~= json_text(Json::Object(members)).drop_last() + (
    if members.len() > 0 {
        seq![',']
    } else {
        Seq::empty()
    }) + quoted(name) + seq![':'] + json_text(item) + seq!['}']);
}

} // verus!
