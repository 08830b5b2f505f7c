//! The knowledge base: a fixed list of topics, each with the words that raise it
//! and one curated answer. A question gets the answer of the first topic that it
//! raises, and nothing that is not on the list.
use vstd::prelude::*;
use vstd::utf8::is_ascii_chars;
use crate::text::{
    ascii_lower, ascii_lowercase, contains, law_ascii_lower_case_settles, lemma_occurs_in_whole,
    lower_case_settles, lowercase, occurs, to_lowercase, unicode_lowercase,
};

verus! {

/// What a question can be about, in the order in which topics are considered.
#[derive(Clone, Copy, Debug, PartialEq, Eq, Structural)]
pub enum Topic {
    /// What residents share.
    Amenities,
    /// Where the building stands.
    Suburb,
    /// Who develops it.
    Developer,
    /// Who builds it.
    Builder,
    /// How it saves energy.
    Sustainability,
    /// Where and when it can be seen.
    DisplaySuite,
    /// How to write to the team.
    Contact,
    /// The price of one bedroom.
    OneBed,
    /// The price of two bedrooms.
    TwoBed,
    /// The price of three bedrooms.
    ThreeBed,
    /// What is paid up front.
    Deposit,
    /// The yearly fees.
    Strata,
    /// When building starts.
    Construction,
    /// When building ends.
    Completion,
    /// Where to park.
    Parking,
    /// What it may earn.
    Rental,
    /// What buyers from abroad face.
    Foreign,
    /// How to pay for it.
    Finance,
    /// What can be chosen.
    Finishes,
}

/// The number of topics.
pub const TOPICS: usize = 19;

impl Topic {
    /// The place of the topic in the order of consideration.
    pub open spec fn rank(self) -> int {
        match self {
            Topic::Amenities => 0,
            Topic::Suburb => 1,
            Topic::Developer => 2,
            Topic::Builder => 3,
            Topic::Sustainability => 4,
            Topic::DisplaySuite => 5,
            Topic::Contact => 6,
            Topic::OneBed => 7,
            Topic::TwoBed => 8,
            Topic::ThreeBed => 9,
            Topic::Deposit => 10,
            Topic::Strata => 11,
            Topic::Construction => 12,
            Topic::Completion => 13,
            Topic::Parking => 14,
            Topic::Rental => 15,
            Topic::Foreign => 16,
            Topic::Finance => 17,
            Topic::Finishes => 18,
        }
    }

    /// The words that raise the topic.
    pub open spec fn keywords(self) -> Seq<Seq<char>> {
        match self {
            Topic::Amenities => seq!["amenities"@],
            Topic::Suburb => seq!["suburb"@, "where is"@],
            Topic::Developer => seq!["developer"@],
            Topic::Builder => seq!["builder"@, "who is building"@],
            Topic::Sustainability => seq!["sustainability"@, "nathers"@, "solar"@],
            Topic::DisplaySuite => seq!["display suite"@, "display"@],
            Topic::Contact => seq!["contact"@, "email"@],
            Topic::OneBed => seq!["pricing 1"@, "price 1"@, "1-bed"@, "1 bedroom"@, "one bed"@],
            Topic::TwoBed => seq!["pricing 2"@, "price 2"@, "2-bed"@, "2 bedroom"@, "two bed"@],
            Topic::ThreeBed => seq!["pricing 3"@, "price 3"@, "3-bed"@, "3 bedroom"@, "three bed"@],
            Topic::Deposit => seq!["deposit"@, "holding"@],
            Topic::Strata => seq!["strata"@, "owners corp"@],
            Topic::Construction => seq!["construction"@, "start date"@],
            Topic::Completion => seq!["completion"@],
            Topic::Parking => seq!["parking"@],
            Topic::Rental => seq!["rental"@, "yield"@, "guarantee"@],
            Topic::Foreign => seq!["foreign"@, "firb"@, "stamp duty"@],
            Topic::Finance => seq!["finance"@, "broker"@, "loan"@],
            Topic::Finishes => seq!["finish"@, "custom"@],
        }
    }

    /// The curated answer.
    pub open spec fn text(self) -> Seq<char> {
        match self {
            Topic::Amenities => "Rooftop pool, gym, co-working lounge, residents' dining, parcel lockers, EV chargers, bike storage."@,
            Topic::Suburb => "Riverstone Place is in Abbotsford, VIC."@,
            Topic::Developer => "Riverstone Place is by Harbourline Developments with Apex Construct as builder."@,
            Topic::Builder => "Apex Construct is delivering construction for Harbourline Developments."@,
            Topic::Sustainability => "Targeting 7.5+ NatHERS, solar-assisted common power, and an optional green energy tariff."@,
            Topic::DisplaySuite => "Display suite: 123 Swan St, Richmond — Sat/Sun 10:00-16:00; weekdays by appointment."@,
            Topic::Contact => "Email handover (test only): sales@riverstoneplace.example."@,
            Topic::OneBed => "1-Bed (50-55 m²) from $585k; optional car space +$65k (limited supply)."@,
            Topic::TwoBed => "2-Bed (75-85 m²) from $845k; most include one car space."@,
            Topic::ThreeBed => "3-Bed (105-120 m²) from $1.28m; includes two car spaces (limited)."@,
            Topic::Deposit => "10% deposit on exchange. Optional 1% holding (max $10k) can reserve an apartment for 14 days before topping up, subject to approval."@,
            Topic::Strata => "Indicative strata: 1-Bed ~$2.8-3.6k/yr, 2-Bed ~$3.6-4.6k/yr, 3-Bed ~$4.8-6.2k/yr (not a quote)."@,
            Topic::Construction => "Construction start targeted for late 2025 with completion in Q4 2027 (indicative)."@,
            Topic::Completion => "Completion targeted Q4 2027 (indicative)."@,
            Topic::Parking => "Parking for 1-Beds is limited and paid extra (+$65k) so not guaranteed; larger homes include parking as noted."@,
            Topic::Rental => "No rental guarantees are offered; we can refer you to a property manager for market guidance."@,
            Topic::Foreign => "Foreign buyers may face extra approvals or surcharges; we can't advise but can refer you to a specialist."@,
            Topic::Finance => "We can refer you to a broker; the team can't provide personal finance advice."@,
            Topic::Finishes => "Finishes have limited customisation windows, subject to availability and cost."@,
        }
    }

    /// One of the topic's words occurs in the question.
    pub open spec fn raised_in(self, question: Seq<char>) -> bool {
        exists|k: int|
            0 <= k < self.keywords().len() && occurs(question, #[trigger] self.keywords()[k])
    }

    /// The topic at a place of the order.
    pub fn at(rank: usize) -> (topic: Topic)
        requires
            rank < TOPICS,
        ensures
            topic.rank() == rank,
    {
        match rank {
            0 => Topic::Amenities,
            1 => Topic::Suburb,
            2 => Topic::Developer,
            3 => Topic::Builder,
            4 => Topic::Sustainability,
            5 => Topic::DisplaySuite,
            6 => Topic::Contact,
            7 => Topic::OneBed,
            8 => Topic::TwoBed,
            9 => Topic::ThreeBed,
            10 => Topic::Deposit,
            11 => Topic::Strata,
            12 => Topic::Construction,
            13 => Topic::Completion,
            14 => Topic::Parking,
            15 => Topic::Rental,
            16 => Topic::Foreign,
            17 => Topic::Finance,
            _ => Topic::Finishes,
        }
    }

    /// The words that raise the topic.
    pub fn words(&self) -> (words: Vec<&'static str>)
        ensures
            words@.map_values(|word: &'static str| word@) == self.keywords(),
    {
        let words: Vec<&'static str> = match self {
            Topic::Amenities => vec!["amenities"],
            Topic::Suburb => vec!["suburb", "where is"],
            Topic::Developer => vec!["developer"],
            Topic::Builder => vec!["builder", "who is building"],
            Topic::Sustainability => vec!["sustainability", "nathers", "solar"],
            Topic::DisplaySuite => vec!["display suite", "display"],
            Topic::Contact => vec!["contact", "email"],
            Topic::OneBed => vec!["pricing 1", "price 1", "1-bed", "1 bedroom", "one bed"],
            Topic::TwoBed => vec!["pricing 2", "price 2", "2-bed", "2 bedroom", "two bed"],
            Topic::ThreeBed => vec!["pricing 3", "price 3", "3-bed", "3 bedroom", "three bed"],
            Topic::Deposit => vec!["deposit", "holding"],
            Topic::Strata => vec!["strata", "owners corp"],
            Topic::Construction => vec!["construction", "start date"],
            Topic::Completion => vec!["completion"],
            Topic::Parking => vec!["parking"],
            Topic::Rental => vec!["rental", "yield", "guarantee"],
            Topic::Foreign => vec!["foreign", "firb", "stamp duty"],
            Topic::Finance => vec!["finance", "broker", "loan"],
            Topic::Finishes => vec!["finish", "custom"],
        };
        assert(words@.map_values(|word: &'static str| word@) =~= self.keywords());
        words
    }

    /// The curated answer.
    pub fn answer(&self) -> (answer: &'static str)
        ensures
            answer@ == self.text(),
    {
        match self {
            Topic::Amenities => "Rooftop pool, gym, co-working lounge, residents' dining, parcel lockers, EV chargers, bike storage.",
            Topic::Suburb => "Riverstone Place is in Abbotsford, VIC.",
            Topic::Developer => "Riverstone Place is by Harbourline Developments with Apex Construct as builder.",
            Topic::Builder => "Apex Construct is delivering construction for Harbourline Developments.",
            Topic::Sustainability => "Targeting 7.5+ NatHERS, solar-assisted common power, and an optional green energy tariff.",
            Topic::DisplaySuite => "Display suite: 123 Swan St, Richmond — Sat/Sun 10:00-16:00; weekdays by appointment.",
            Topic::Contact => "Email handover (test only): sales@riverstoneplace.example.",
            Topic::OneBed => "1-Bed (50-55 m²) from $585k; optional car space +$65k (limited supply).",
            Topic::TwoBed => "2-Bed (75-85 m²) from $845k; most include one car space.",
            Topic::ThreeBed => "3-Bed (105-120 m²) from $1.28m; includes two car spaces (limited).",
            Topic::Deposit => "10% deposit on exchange. Optional 1% holding (max $10k) can reserve an apartment for 14 days before topping up, subject to approval.",
            Topic::Strata => "Indicative strata: 1-Bed ~$2.8-3.6k/yr, 2-Bed ~$3.6-4.6k/yr, 3-Bed ~$4.8-6.2k/yr (not a quote).",
            Topic::Construction => "Construction start targeted for late 2025 with completion in Q4 2027 (indicative).",
            Topic::Completion => "Completion targeted Q4 2027 (indicative).",
            Topic::Parking => "Parking for 1-Beds is limited and paid extra (+$65k) so not guaranteed; larger homes include parking as noted.",
            Topic::Rental => "No rental guarantees are offered; we can refer you to a property manager for market guidance.",
            Topic::Foreign => "Foreign buyers may face extra approvals or surcharges; we can't advise but can refer you to a specialist.",
            Topic::Finance => "We can refer you to a broker; the team can't provide personal finance advice.",
            Topic::Finishes => "Finishes have limited customisation windows, subject to availability and cost.",
        }
    }
}

/// The question raises the topic and none that is considered before it.
pub open spec fn is_first(question: Seq<char>, topic: Topic) -> bool {
    &&& topic.raised_in(question)
    &&& forall|other: Topic|
        other.rank() < topic.rank() ==> !#[trigger] other.raised_in(question)
}

/// The first topic that the question raises.
pub open spec fn topic_in(question: Seq<char>) -> Option<Topic> {
    if exists|topic: Topic| topic.raised_in(question) {
        Some(choose|topic: Topic| is_first(question, topic))
    } else {
        None
    }
}

/// The answer where no topic is raised.
pub open spec fn fallback() -> Seq<char> {
    "Sorry, I can refer this to a specialist or book a follow-up."@
}

/// The answer to a question in lower case.
pub open spec fn answer_to(question: Seq<char>) -> Seq<char> {
    match topic_in(question) {
        Some(topic) => topic.text(),
        None => fallback(),
    }
}

/// The place of what a question in lower case is answered with, in the order of
/// consideration: that of the topic, and for the fallback the one after all
/// topics.
pub open spec fn place(question: Seq<char>) -> int {
    match topic_in(question) {
        Some(topic) => topic.rank(),
        None => TOPICS as int,
    }
}

/// The answer to a question, in whatever case it is asked.
pub open spec fn answer_for(question: Seq<char>) -> Seq<char> {
    answer_to(lowercase(question))
}

/// Whether one of the words occurs in the text.
fn contains_any(text: &str, words: &Vec<&'static str>) -> (found: bool)
    ensures
        found == exists|k: int| 0 <= k < words@.len() && occurs(text@, #[trigger] words@[k]@),
{
    let mut i: usize = 0;
    while i < words.len()
        invariant
            i <= words@.len(),
            forall|k: int| 0 <= k < i ==> !occurs(text@, #[trigger] words@[k]@),
        decreases words@.len() - i,
    {
        if contains(text, words[i]) {
            assert(occurs(text@, words@[i as int]@));
            return true;
        }
        i += 1;
    }
    false
}

/// The first topic that a question in lower case raises.
pub fn find_topic(question: &str) -> (topic: Option<Topic>)
    ensures
        topic == topic_in(question@),
{
    let mut rank: usize = 0;
    while rank < TOPICS
        invariant
            rank <= TOPICS,
            forall|other: Topic|
                other.rank() < rank ==> !#[trigger] other.raised_in(question@),
        decreases TOPICS - rank,
    {
        let topic = Topic::at(rank);
        let words = topic.words();
        let ghost views = words@.map_values(|word: &'static str| word@);
        let found = contains_any(question, &words);
        proof {
            assert forall|k: int| 0 <= k < words@.len() implies #[trigger] words@[k]@
                == topic.keywords()[k] by {
                assert(views[k] == words@[k]@);
            }
            if found {
                let k = choose|k: int|
                    0 <= k < words@.len() && occurs(question@, #[trigger] words@[k]@);
                assert(occurs(question@, topic.keywords()[k]));
            } else if topic.raised_in(question@) {
                let k = choose|k: int|
                    0 <= k < topic.keywords().len() && occurs(
                        question@,
                        #[trigger] topic.keywords()[k],
                    );
                assert(occurs(question@, words@[k]@));
            }
            assert(found == topic.raised_in(question@));
        }
        if found {
            proof {
                assert(is_first(question@, topic));
                law_first_topic_wins(question@, topic);
            }
            return Some(topic);
        }
        rank += 1;
    }
    None
}

/// The answer of the knowledge base to a question, in whatever case it is
/// written.
pub fn riverstone_kb(q: &str) -> (answer: String)
    ensures
        answer@ == answer_for(q@),
{
    let question = to_lowercase(q);
    match find_topic(question.as_str()) {
        Some(topic) => topic.answer().to_owned(),
        None => "Sorry, I can refer this to a specialist or book a follow-up.".to_owned(),
    }
}

/// What the knowledge base endpoint answers with.
pub struct KbResp {
    /// The answer.
    pub answer: String,
}

/// The value of the first parameter of that name.
pub open spec fn param(params: Seq<(String, String)>, name: Seq<char>) -> Option<Seq<char>>
    decreases params.len(),
{
    if params.len() == 0 {
        None
    } else if params[0].0@ == name {
        Some(params[0].1@)
    } else {
        param(params.skip(1), name)
    }
}

/// The value of the first parameter of that name.
fn find_param<'a>(params: &'a Vec<(String, String)>, name: &str) -> (value: Option<&'a str>)
    ensures
        match value {
            Some(value) => param(params@, name@) == Some(value@),
            None => param(params@, name@) is None,
        },
{
    let wanted = name.to_owned();
    let mut i: usize = 0;
    assert(params@.skip(0) =~= params@);
    while i < params.len()
        invariant
            i <= params@.len(),
            wanted@ == name@,
            param(params@, name@) == param(params@.skip(i as int), name@),
        decreases params@.len() - i,
    {
        if params[i].0 == wanted {
            return Some(params[i].1.as_str());
        }
        assert(params@.skip(i as int).skip(1) =~= params@.skip(i + 1));
        i += 1;
    }
    None
}

/// The question that the query parameter `q` asks; without one, the empty
/// question.
pub open spec fn question_in(params: Seq<(String, String)>) -> Seq<char> {
    match param(params, "q"@) {
        Some(q) => q,
        None => Seq::empty(),
    }
}

/// The answer to the question in the query parameters, which is put in lower case
/// before it is asked.
pub open spec fn lookup_answer(params: Seq<(String, String)>) -> Seq<char> {
    answer_for(lowercase(question_in(params)))
}

/// Answers the question that the query parameter `q` asks; without one, the
/// empty question.
pub fn kb_lookup(params: &Vec<(String, String)>) -> (resp: KbResp)
    ensures
        resp.answer@ == lookup_answer(params@),
        param(params@, "q"@) is None ==> resp.answer@ == fallback(),
{
    let q = match find_param(params, "q") {
        Some(q) => q,
        None => "",
    };
    let lower = to_lowercase(q);
    proof {
        reveal_strlit("");
        assert(""@ =~= Seq::<char>::empty());
        if q@.len() == 0 {
            assert(lowercase(q@) =~= Seq::<char>::empty());
            lemma_empty_question_raises_nothing();
        }
    }
    KbResp { answer: riverstone_kb(lower.as_str()) }
}

/// Among the topics that a question raises there is a first one.
proof fn lemma_some_topic_is_first(question: Seq<char>, topic: Topic)
    requires
        topic.raised_in(question),
    ensures
        exists|first: Topic| is_first(question, first),
    decreases topic.rank(),
{
    if !is_first(question, topic) {
        let earlier = choose|other: Topic|
            other.rank() < topic.rank() && #[trigger] other.raised_in(question);
        lemma_some_topic_is_first(question, earlier);
    }
}

/// Where a question raises several topics, the first in the order is answered: a
/// topic that is raised is answered with, or one that is considered before it.
pub proof fn law_first_topic_wins(question: Seq<char>, topic: Topic)
    ensures
        topic_in(question) == Some(topic) <==> is_first(question, topic),
        topic.raised_in(question) ==> place(question) <= topic.rank(),
{
    if exists|any: Topic| any.raised_in(question) {
        let any = choose|any: Topic| any.raised_in(question);
        lemma_some_topic_is_first(question, any);
        let first = choose|first: Topic| is_first(question, first);
        if is_first(question, topic) {
            assert(first.rank() == topic.rank()) by {
                assert(topic.raised_in(question) && first.raised_in(question));
            }
            assert(first == topic);
        }
    }
}

/// Whatever is asked, the answer is one of the curated ones or the fallback.
pub proof fn law_answers_are_curated(question: Seq<char>)
    ensures
        answer_to(question) == fallback() || exists|topic: Topic|
            answer_to(question) == #[trigger] topic.text(),
{
}

/// The fallback is given exactly where no word of any topic occurs.
pub proof fn law_fallback_only_without_topic(question: Seq<char>)
    ensures
        topic_in(question) is None <==> forall|topic: Topic, k: int|
            0 <= k < topic.keywords().len() ==> !occurs(
                question,
                #[trigger] topic.keywords()[k],
            ),
{
    if topic_in(question) is None {
        assert forall|topic: Topic, k: int| 0 <= k < topic.keywords().len() implies !occurs(
            question,
            #[trigger] topic.keywords()[k],
        ) by {
            assert(!topic.raised_in(question));
        }
    }
}

/// In lower case, a text is answered with a topic that is considered no later
/// than that of any part of it; what no topic is raised in comes last.
pub proof fn law_whole_is_placed_no_later(whole: Seq<char>, part: Seq<char>)
    requires
        occurs(whole, part),
    ensures
        place(whole) <= place(part),
{
    if topic_in(part) is Some {
        let topic = topic_in(part).unwrap();
        law_first_topic_wins(part, topic);
        let k = choose|k: int|
            0 <= k < topic.keywords().len() && occurs(part, #[trigger] topic.keywords()[k]);
        lemma_occurs_in_whole(whole, part, topic.keywords()[k]);
        assert(topic.raised_in(whole));
        law_first_topic_wins(whole, topic);
    }
}

/// More words before and after a question, in whatever case they are asked, can
/// only move the answer to a topic that is considered no later: in ASCII, and in
/// any text whose lower case holds that of the question.
pub proof fn law_more_words_move_forward(
    before: Seq<char>,
    question: Seq<char>,
    after: Seq<char>,
)
    requires
        is_ascii_chars(before + question + after) || occurs(
            lowercase(before + question + after),
            lowercase(question),
        ),
    ensures
        place(lowercase(before + question + after)) <= place(lowercase(question)),
{
    let all = before + question + after;
    let part = lowercase(question);
    let whole = lowercase(all);
    if is_ascii_chars(all) {
        let at = before.len() as int;
        assert forall|i: int| 0 <= i < question.len() implies (0 <= #[trigger] question[i]
            < 128) by {
            assert(question[i] == all[at + i]);
        }
        assert(whole.subrange(at, at + part.len()) =~= part);
    }
    law_whole_is_placed_no_later(whole, part);
}

/// Every keyword is a word in lower-case ASCII, so that a question in lower
/// case can hold it.
pub proof fn law_keywords_are_lower_case(topic: Topic, k: int)
    requires
        0 <= k < topic.keywords().len(),
    ensures
        topic.keywords()[k].len() > 0,
        is_ascii_chars(topic.keywords()[k]),
        ascii_lowercase(topic.keywords()[k]) == topic.keywords()[k],
{
    match topic {
        Topic::Amenities => {
            reveal_strlit("amenities");
        },
        Topic::Suburb => {
            reveal_strlit("suburb");
            reveal_strlit("where is");
        },
        Topic::Developer => {
            reveal_strlit("developer");
        },
        Topic::Builder => {
            reveal_strlit("builder");
            reveal_strlit("who is building");
        },
        Topic::Sustainability => {
            reveal_strlit("sustainability");
            reveal_strlit("nathers");
            reveal_strlit("solar");
        },
        Topic::DisplaySuite => {
            reveal_strlit("display suite");
            reveal_strlit("display");
        },
        Topic::Contact => {
            reveal_strlit("contact");
            reveal_strlit("email");
        },
        Topic::OneBed => {
            reveal_strlit("pricing 1");
            reveal_strlit("price 1");
            reveal_strlit("1-bed");
            reveal_strlit("1 bedroom");
            reveal_strlit("one bed");
        },
        Topic::TwoBed => {
            reveal_strlit("pricing 2");
            reveal_strlit("price 2");
            reveal_strlit("2-bed");
            reveal_strlit("2 bedroom");
            reveal_strlit("two bed");
        },
        Topic::ThreeBed => {
            reveal_strlit("pricing 3");
            reveal_strlit("price 3");
            reveal_strlit("3-bed");
            reveal_strlit("3 bedroom");
            reveal_strlit("three bed");
        },
        Topic::Deposit => {
            reveal_strlit("deposit");
            reveal_strlit("holding");
        },
        Topic::Strata => {
            reveal_strlit("strata");
            reveal_strlit("owners corp");
        },
        Topic::Construction => {
            reveal_strlit("construction");
            reveal_strlit("start date");
        },
        Topic::Completion => {
            reveal_strlit("completion");
        },
        Topic::Parking => {
            reveal_strlit("parking");
        },
        Topic::Rental => {
            reveal_strlit("rental");
            reveal_strlit("yield");
            reveal_strlit("guarantee");
        },
        Topic::Foreign => {
            reveal_strlit("foreign");
            reveal_strlit("firb");
            reveal_strlit("stamp duty");
        },
        Topic::Finance => {
            reveal_strlit("finance");
            reveal_strlit("broker");
            reveal_strlit("loan");
        },
        Topic::Finishes => {
            reveal_strlit("finish");
            reveal_strlit("custom");
        },
    }
    assert(ascii_lowercase(topic.keywords()[k]) =~= topic.keywords()[k]);
}

/// Questions with the same lower case get the same answer.
pub proof fn law_equal_lower_case_equal_answers(a: Seq<char>, b: Seq<char>)
    requires
        lowercase(a) == lowercase(b),
    ensures
        answer_for(a) == answer_for(b),
{
}

/// Two ASCII questions that differ in case alone get the same answer.
pub proof fn law_case_does_not_matter(a: Seq<char>, b: Seq<char>)
    requires
        is_ascii_chars(a),
        is_ascii_chars(b),
        a.len() == b.len(),
        forall|i: int|
            0 <= i < a.len() ==> ascii_lower(#[trigger] a[i]) == ascii_lower(#[trigger] b[i]),
    ensures
        answer_for(a) == answer_for(b),
{
    assert(ascii_lowercase(a) =~= ascii_lowercase(b)) by {
        assert forall|i: int| 0 <= i < a.len() implies ascii_lowercase(a)[i] == ascii_lowercase(
            b,
        )[i] by {
            assert(ascii_lower(a[i]) == ascii_lower(b[i]));
        }
    }
}

/// A question that is put in lower case is answered as it was: in ASCII, and in
/// any text whose lower case is in lower case.
pub proof fn law_lower_case_is_answered_alike(question: Seq<char>)
    requires
        is_ascii_chars(question) || lower_case_settles(question),
    ensures
        answer_for(lowercase(question)) == answer_for(question),
{
    if is_ascii_chars(question) {
        law_ascii_lower_case_settles(question);
    }
}

/// The lookup answers as the knowledge base does on the question that is asked.
pub proof fn law_lookup_answers_the_question(params: Seq<(String, String)>)
    requires
        is_ascii_chars(question_in(params)) || lower_case_settles(question_in(params)),
    ensures
        lookup_answer(params) == answer_for(question_in(params)),
{
    law_lower_case_is_answered_alike(question_in(params));
}

/// Parameters that ask the same question, in whatever case, get the same answer,
/// whatever else they hold.
pub proof fn law_only_the_question_counts(a: Seq<(String, String)>, b: Seq<(String, String)>)
    requires
        lowercase(question_in(a)) == lowercase(question_in(b)),
    ensures
        lookup_answer(a) == lookup_answer(b),
{
}

/// The empty question raises no topic.
proof fn lemma_empty_question_raises_nothing()
    ensures
        topic_in(Seq::empty()) is None,
        answer_to(Seq::empty()) == fallback(),
{
    let empty = Seq::<char>::empty();
    assert forall|topic: Topic, k: int| 0 <= k < topic.keywords().len() implies !occurs(
        empty,
        #[trigger] topic.keywords()[k],
    ) by {
        law_keywords_are_lower_case(topic, k);
    }
    law_fallback_only_without_topic(empty);
}

/// A word of the topic stands somewhere in the text: from some place on, the
/// characters are those of the word.
pub open spec fn mentions(text: Seq<char>, topic: Topic) -> bool {
    exists|k: int, i: int|
        0 <= k < topic.keywords().len() && 0 <= i && i + topic.keywords()[k].len() <= text.len()
            && #[trigger] text.subrange(i, i + topic.keywords()[k].len()) == topic.keywords()[k]
}

/// The text is the other one in lower case: in ASCII character by character, and
/// else by Unicode's rules.
pub open spec fn is_lower_case_of(lower: Seq<char>, text: Seq<char>) -> bool {
    if is_ascii_chars(text) {
        &&& lower.len() == text.len()
        &&& forall|i: int|
            0 <= i < text.len() ==> #[trigger] lower[i] == if 'A' <= text[i] <= 'Z' {
                (text[i] as u8 + 32) as char
            } else {
                text[i]
            }
    } else {
        lower == unicode_lowercase(text)
    }
}

/// A topic is raised where one of its words is mentioned.
proof fn lemma_mentioned_topics_are_raised(text: Seq<char>, topic: Topic)
    ensures
        mentions(text, topic) == topic.raised_in(text),
{
    if mentions(text, topic) {
        let (k, i) = choose|k: int, i: int|
            0 <= k < topic.keywords().len() && 0 <= i && i + topic.keywords()[k].len() <= text.len()
                && #[trigger] text.subrange(i, i + topic.keywords()[k].len())
                == topic.keywords()[k];
        assert(occurs(text, topic.keywords()[k]));
    }
    if topic.raised_in(text) {
        let k = choose|k: int|
            0 <= k < topic.keywords().len() && occurs(text, #[trigger] topic.keywords()[k]);
        let word = topic.keywords()[k];
        let i = choose|i: int|
            0 <= i <= text.len() - word.len() && #[trigger] text.subrange(i, i + word.len())
                == word;
        assert(text.subrange(i, i + topic.keywords()[k].len()) == topic.keywords()[k]);
    }
}

/// The lower case of a text is the lower case.
proof fn lemma_lower_case_is_one(lower: Seq<char>, text: Seq<char>)
    requires
        is_lower_case_of(lower, text),
    ensures
        lower == lowercase(text),
{
    if is_ascii_chars(text) {
        assert(lower =~= ascii_lowercase(text));
    }
}

/// The answer to a question in lower case is that of the topic that is mentioned
/// first in the order, anywhere in the question; where none is, the fallback.
proof fn lemma_first_mentioned_topic_answers(lower: Seq<char>, topic: Topic)
    ensures
        topic_in(lower) == Some(topic) <==> mentions(lower, topic) && forall|other: Topic|
            other.rank() < topic.rank() ==> !#[trigger] mentions(lower, other),
        topic_in(lower) is None <==> forall|other: Topic| !#[trigger] mentions(lower, other),
{
    law_first_topic_wins(lower, topic);
    lemma_mentioned_topics_are_raised(lower, topic);
    assert forall|other: Topic| #[trigger] mentions(lower, other) == other.raised_in(lower) by {
        lemma_mentioned_topics_are_raised(lower, other);
    }
    assert forall|other: Topic| #[trigger] other.raised_in(lower) == mentions(lower, other) by {
        lemma_mentioned_topics_are_raised(lower, other);
    }
}

/// The topic that is found is mentioned in the question and none before it is, and
/// none is found exactly where none is mentioned, at whatever place.
pub proof fn law_found_topic_is_mentioned_first(
    question: &str,
    found: Option<Topic>,
    topic: Topic,
)
    requires
        call_ensures(find_topic, (question,), found),
    ensures
        found == Some(topic) <==> mentions(question@, topic) && forall|other: Topic|
            other.rank() < topic.rank() ==> !#[trigger] mentions(question@, other),
        found is None <==> forall|other: Topic| !#[trigger] mentions(question@, other),
{
    lemma_first_mentioned_topic_answers(question@, topic);
}

/// A question is owed the answer of the topic that its lower case mentions first in
/// the order, at whatever place, and the fallback where it mentions none.
pub proof fn law_whole_question_is_considered(
    question: Seq<char>,
    lower: Seq<char>,
    topic: Topic,
)
    requires
        is_lower_case_of(lower, question),
    ensures
        mentions(lower, topic) && (forall|other: Topic|
            other.rank() < topic.rank() ==> !#[trigger] mentions(lower, other)) ==> answer_for(
            question,
        ) == topic.text(),
        (forall|other: Topic| !#[trigger] mentions(lower, other)) ==> answer_for(question)
            == "Sorry, I can refer this to a specialist or book a follow-up."@,
{
    lemma_lower_case_is_one(lower, question);
    lemma_first_mentioned_topic_answers(lower, topic);
}

/// The knowledge base answers a question, as long as it may be, with the answer of
/// the topic that its lower case mentions first in the order, and with the fallback
/// where it mentions none.
pub proof fn law_answer_is_of_the_topic_mentioned_first(
    q: &str,
    lower: Seq<char>,
    topic: Topic,
    answer: String,
)
    requires
        call_ensures(riverstone_kb, (q,), answer),
        is_lower_case_of(lower, q@),
    ensures
        mentions(lower, topic) && (forall|other: Topic|
            other.rank() < topic.rank() ==> !#[trigger] mentions(lower, other)) ==> answer@
            == topic.text(),
        (forall|other: Topic| !#[trigger] mentions(lower, other)) ==> answer@
            == "Sorry, I can refer this to a specialist or book a follow-up."@,
{
    law_whole_question_is_considered(q@, lower, topic);
}

/// The first parameter of a name is the one before which there is none of that
/// name.
proof fn lemma_first_parameter_counts(params: Seq<(String, String)>, name: Seq<char>, at: int)
    requires
        0 <= at <= params.len(),
        forall|j: int| 0 <= j < at ==> (#[trigger] params[j]).0@ != name,
        at < params.len() ==> params[at].0@ == name,
    ensures
        param(params, name) == if at < params.len() {
            Some(params[at].1@)
        } else {
            None
        },
    decreases at,
{
    if at > 0 {
        let rest = params.skip(1);
        assert(params[0].0@ != name);
        assert forall|j: int| 0 <= j < at - 1 implies (#[trigger] rest[j]).0@ != name by {
            assert(rest[j] == params[j + 1]);
        }
        if at < params.len() {
            assert(rest[at - 1] == params[at]);
        }
        lemma_first_parameter_counts(rest, name, at - 1);
    }
}

/// The lookup asks the knowledge base for the value of the first parameter that is
/// named `q`, in lower case, and gives out its answer, whatever other parameters
/// there are.
pub proof fn law_lookup_asks_the_knowledge_base(
    params: &Vec<(String, String)>,
    at: int,
    resp: KbResp,
    question: &str,
    answer: String,
)
    requires
        call_ensures(kb_lookup, (params,), resp),
        0 <= at < params@.len(),
        params@[at].0@ == seq!['q'],
        forall|j: int| 0 <= j < at ==> (#[trigger] params@[j]).0@ != seq!['q'],
        call_ensures(riverstone_kb, (question,), answer),
        is_lower_case_of(question@, params@[at].1@) || is_ascii_chars(question@) && question@
            == params@[at].1@,
    ensures
        resp.answer@ == answer@,
{
    reveal_strlit("q");
    assert("q"@ =~= seq!['q']);
    lemma_first_parameter_counts(params@, "q"@, at);
    let asked = params@[at].1@;
    if is_lower_case_of(question@, asked) {
        lemma_lower_case_is_one(question@, asked);
    } else {
        law_ascii_lower_case_settles(asked);
    }
}

/// Without a parameter that is named `q`, the lookup gives the fallback.
pub proof fn law_lookup_without_a_question_falls_back(
    params: &Vec<(String, String)>,
    resp: KbResp,
)
    requires
        call_ensures(kb_lookup, (params,), resp),
        forall|j: int| 0 <= j < params@.len() ==> (#[trigger] params@[j]).0@ != seq!['q'],
    ensures
        resp.answer@ == "Sorry, I can refer this to a specialist or book a follow-up."@,
{
    reveal_strlit("q");
    assert("q"@ =~= seq!['q']);
    lemma_first_parameter_counts(params@, "q"@, params@.len() as int);
}

} // verus!
