use riverstone_voice_svc::kb::{find_topic, kb_lookup, riverstone_kb, Topic, TOPICS};

const FALLBACK: &str = "Sorry, I can refer this to a specialist or book a follow-up.";

fn params(pairs: &[(&str, &str)]) -> Vec<(String, String)> {
    pairs
        .iter()
        .map(|(name, value)| (name.to_string(), value.to_string()))
        .collect()
}

#[test]
fn riverstone_kb_matches_known_topics() {
    let cases = [
        ("Tell me about amenities", "Rooftop pool"),
        ("Where is Riverstone Place located?", "Abbotsford"),
        ("Who is the developer?", "Harbourline"),
        ("Who is building it?", "Apex Construct"),
        ("What sustainability features are there?", "7.5+"),
        ("display suite hours", "123 Swan St"),
        ("What's the contact email?", "sales@riverstoneplace.example"),
        ("How much is a 1-bed?", "$585k"),
        ("2-bed pricing", "$845k"),
        ("3 bedroom price", "$1.28m"),
        ("Do I pay a deposit?", "10%"),
        ("What are the strata fees?", "2.8"),
        ("When does construction start?", "late 2025"),
        ("When is completion?", "Q4 2027"),
        ("Is parking included?", "Parking for 1-Beds"),
        ("Do you offer rental guarantees?", "No rental guarantees"),
        ("I'm a foreign buyer", "approvals"),
        ("Can you help with finance?", "broker"),
        ("Can I customise finishes?", "customisation"),
    ];

    for (query, expected) in cases {
        let answer = riverstone_kb(query);
        assert!(
            answer.contains(expected),
            "query `{query}` did not yield expected snippet `{expected}`; got `{answer}`"
        );
    }
}

#[test]
fn riverstone_kb_defaults_when_no_match() {
    let answer = riverstone_kb("random question");
    assert_eq!(
        answer,
        "Sorry, I can refer this to a specialist or book a follow-up."
    );
}

#[test]
fn kb_lookup_returns_curated_answer() {
    let body = kb_lookup(&params(&[("q", "amenities")]));
    assert!(body.answer.contains("Rooftop pool"));
}

#[test]
fn kb_lookup_handles_unknown_queries() {
    let body = kb_lookup(&params(&[("q", "unlisted")]));
    assert_eq!(
        body.answer,
        "Sorry, I can refer this to a specialist or book a follow-up."
    );
}

#[test]
fn kb_lookup_without_question_falls_back() {
    assert_eq!(kb_lookup(&params(&[])).answer, FALLBACK);
    assert_eq!(kb_lookup(&params(&[("query", "amenities")])).answer, FALLBACK);
    assert_eq!(kb_lookup(&params(&[("Q", "amenities")])).answer, FALLBACK);
    assert_eq!(kb_lookup(&params(&[("q", "")])).answer, FALLBACK);
}

#[test]
fn kb_lookup_reads_the_parameter_among_others() {
    let body = kb_lookup(&params(&[("lang", "email"), ("q", "COMPLETION"), ("x", "solar")]));
    assert_eq!(body.answer, "Completion targeted Q4 2027 (indicative).");
}

#[test]
fn every_keyword_raises_its_topic() {
    let cases: [(&[&str], &str); 19] = [
        (&["amenities"], "Rooftop pool, gym, co-working lounge, residents' dining, parcel lockers, EV chargers, bike storage."),
        (&["suburb", "where is"], "Riverstone Place is in Abbotsford, VIC."),
        (&["developer"], "Riverstone Place is by Harbourline Developments with Apex Construct as builder."),
        (&["builder", "who is building"], "Apex Construct is delivering construction for Harbourline Developments."),
        (&["sustainability", "nathers", "solar"], "Targeting 7.5+ NatHERS, solar-assisted common power, and an optional green energy tariff."),
        (&["display suite", "display"], "Display suite: 123 Swan St, Richmond \u{2014} Sat/Sun 10:00-16:00; weekdays by appointment."),
        (&["contact", "email"], "Email handover (test only): sales@riverstoneplace.example."),
        (&["pricing 1", "price 1", "1-bed", "1 bedroom", "one bed"], "1-Bed (50-55 m\u{b2}) from $585k; optional car space +$65k (limited supply)."),
        (&["pricing 2", "price 2", "2-bed", "2 bedroom", "two bed"], "2-Bed (75-85 m\u{b2}) from $845k; most include one car space."),
        (&["pricing 3", "price 3", "3-bed", "3 bedroom", "three bed"], "3-Bed (105-120 m\u{b2}) from $1.28m; includes two car spaces (limited)."),
        (&["deposit", "holding"], "10% deposit on exchange. Optional 1% holding (max $10k) can reserve an apartment for 14 days before topping up, subject to approval."),
        (&["strata", "owners corp"], "Indicative strata: 1-Bed ~$2.8-3.6k/yr, 2-Bed ~$3.6-4.6k/yr, 3-Bed ~$4.8-6.2k/yr (not a quote)."),
        (&["construction", "start date"], "Construction start targeted for late 2025 with completion in Q4 2027 (indicative)."),
        (&["completion"], "Completion targeted Q4 2027 (indicative)."),
        (&["parking"], "Parking for 1-Beds is limited and paid extra (+$65k) so not guaranteed; larger homes include parking as noted."),
        (&["rental", "yield", "guarantee"], "No rental guarantees are offered; we can refer you to a property manager for market guidance."),
        (&["foreign", "firb", "stamp duty"], "Foreign buyers may face extra approvals or surcharges; we can't advise but can refer you to a specialist."),
        (&["finance", "broker", "loan"], "We can refer you to a broker; the team can't provide personal finance advice."),
        (&["finish", "custom"], "Finishes have limited customisation windows, subject to availability and cost."),
    ];
    assert_eq!(TOPICS, cases.len());
    for (rank, (keywords, answer)) in cases.iter().enumerate() {
        let topic = Topic::at(rank);
        assert_eq!(topic.words().as_slice(), *keywords);
        assert_eq!(topic.answer(), *answer);
        for keyword in keywords.iter() {
            assert_eq!(find_topic(keyword), Some(topic), "{keyword}");
            assert_eq!(riverstone_kb(&format!("about {keyword}, please")), *answer);
        }
    }
}

#[test]
fn the_first_topic_wins() {
    // Both topics are raised; the developer is considered before the loan.
    assert_eq!(find_topic("a loan from the developer"), Some(Topic::Developer));
    assert_eq!(find_topic("construction completion"), Some(Topic::Construction));
    assert_eq!(find_topic("completion"), Some(Topic::Completion));
    assert_eq!(find_topic("email about amenities"), Some(Topic::Amenities));
}

#[test]
fn more_words_move_the_answer_forward() {
    assert_eq!(find_topic("parking"), Some(Topic::Parking));
    assert_eq!(find_topic("parking and solar"), Some(Topic::Sustainability));
    assert_eq!(find_topic("parking and custom paint"), Some(Topic::Parking));
    assert_eq!(riverstone_kb("PARKING?"), Topic::Parking.answer());
    assert_eq!(riverstone_kb("Solar PARKING?"), Topic::Sustainability.answer());
    assert_eq!(riverstone_kb("PARKING? And Amenities"), Topic::Amenities.answer());
}

#[test]
fn questions_in_other_scripts_are_answered_in_any_case() {
    // The Kelvin sign is a k in lower case.
    let kelvin = "PAR\u{212a}ING";
    assert_eq!(riverstone_kb(kelvin), Topic::Parking.answer());
    for question in [kelvin, "\u{395}\u{3a3} SOLAR", "\u{130} Loan", "stra\u{df}e", "\u{c9}MAIL"] {
        let lower = question.to_lowercase();
        assert_eq!(riverstone_kb(&lower), riverstone_kb(question));
        assert_eq!(
            kb_lookup(&params(&[("q", question)])).answer,
            riverstone_kb(question)
        );
    }
}

#[test]
fn only_the_question_counts() {
    let answer = kb_lookup(&params(&[("q", "Parking")])).answer;
    assert_eq!(answer, Topic::Parking.answer());
    assert_eq!(kb_lookup(&params(&[("p", "solar"), ("q", "PARKING")])).answer, answer);
    assert_eq!(kb_lookup(&params(&[("q", "parking"), ("Q", "solar")])).answer, answer);
}

#[test]
fn case_does_not_matter() {
    let plain = riverstone_kb("where is it?");
    assert_eq!(plain, "Riverstone Place is in Abbotsford, VIC.");
    assert_eq!(riverstone_kb("WHERE IS it?"), plain);
    assert_eq!(riverstone_kb("wHeRe Is IT?"), plain);
    // A Kelvin sign is a capital k.
    assert_eq!(
        riverstone_kb("PAR\u{212a}ING"),
        "Parking for 1-Beds is limited and paid extra (+$65k) so not guaranteed; larger homes include parking as noted."
    );
}

#[test]
fn topics_are_sought_in_lower_case() {
    assert_eq!(find_topic("SOLAR"), None);
    assert_eq!(find_topic("solar"), Some(Topic::Sustainability));
}

#[test]
fn broken_words_raise_nothing() {
    assert_eq!(riverstone_kb(""), FALLBACK);
    assert_eq!(riverstone_kb("park ing"), FALLBACK);
    assert_eq!(riverstone_kb("pricing"), FALLBACK);
    assert_eq!(riverstone_kb("where  is it"), FALLBACK);
}
