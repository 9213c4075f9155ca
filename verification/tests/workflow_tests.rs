use jpdb_flow::request::Method;
use jpdb_flow::workflow::{
    decide_detail_fetch, judge_detail_fetch, judge_search, judge_step, plan_steps,
    resolve_open_url, search_request, Config, Fields, RunError, StepAction, StepError, StepKind,
    VocabCard, VocabId,
};

fn config_all_off() -> Config {
    Config {
        session_id: Some(String::from("sid")),
        auto_add: None,
        auto_unlock: false,
        auto_forq: false,
        auto_forget: false,
        add_mined_sentences: false,
        add_custom_definition: false,
        auto_open: false,
    }
}

fn cat_fields() -> Fields {
    Fields {
        word: String::from("猫"),
        reading: Some(String::from("ねこ")),
        sentence: String::from(""),
        definition: None,
    }
}

fn triple() -> VocabId {
    VocabId { v: String::from("1"), s: String::from("2"), r: String::from("3") }
}

#[test]
fn scenario_detail_found_all_flags_off_issues_two_requests() {
    let config = config_all_off();
    let fields = cat_fields();
    let detail = Some(String::from("/vocabulary/1442/neko"));

    let mut requests: usize = 0;

    let search = search_request(&fields.word);
    requests += 1;
    assert!(matches!(search.method, Method::Get));
    assert_eq!(search.url, "https://jpdb.io/search?q=猫&lang=english#a");
    assert!(search.form_body.is_none());

    assert_eq!(decide_detail_fetch(&config, detail.is_some()), Ok(true));
    requests += 1; // the detail fetch

    let card = VocabCard { id: Some(triple()) };
    let plan = plan_steps(&config, &fields, &card, detail.as_deref().unwrap());
    for step in &plan {
        if let StepAction::Send(_) = step.action {
            requests += 1;
        }
    }
    assert_eq!(requests, 2);

    let open_url = resolve_open_url(&fields.word, &detail);
    assert_eq!(open_url, "https://jpdb.io/vocabulary/1442/neko");
}

#[test]
fn scenario_add_to_deck_issues_third_request() {
    let mut config = config_all_off();
    config.auto_add = Some(5);
    let fields = cat_fields();
    let detail = String::from("/vocabulary/1442/neko");

    let card = VocabCard { id: Some(triple()) };
    let plan = plan_steps(&config, &fields, &card, &detail);

    let sends: Vec<_> = plan
        .iter()
        .filter_map(|p| match &p.action {
            StepAction::Send(fr) => Some((p.kind, fr)),
            _ => None,
        })
        .collect();
    assert_eq!(sends.len(), 1);
    let (kind, fr) = &sends[0];
    assert_eq!(*kind, StepKind::AddToDeck);
    assert_eq!(fr.path, "/deck/5/add");
    let expected: Vec<(String, String)> = vec![
        ("v".into(), "1".into()),
        ("r".into(), "3".into()),
        ("s".into(), "2".into()),
        ("origin".into(), detail.clone()),
    ];
    assert_eq!(fr.fields, expected);

    let http = fr.to_http();
    assert!(matches!(http.method, Method::Post));
    assert_eq!(http.url, "https://jpdb.io/deck/5/add");
    assert_eq!(
        http.form_body.as_deref(),
        Some("v=1&r=3&s=2&origin=%2Fvocabulary%2F1442%2Fneko")
    );
}

#[test]
fn no_detail_and_no_options_returns_search_url() {
    let config = config_all_off();
    let fields = cat_fields();
    assert_eq!(decide_detail_fetch(&config, false), Ok(false));
    let open_url = resolve_open_url(&fields.word, &None);
    assert_eq!(open_url, "https://jpdb.io/search?q=猫&lang=english#a");
}

#[test]
fn no_detail_without_credential_skips_even_with_options() {
    let mut config = config_all_off();
    config.session_id = None;
    config.auto_forq = true;
    assert_eq!(decide_detail_fetch(&config, false), Ok(false));
}

#[test]
fn no_detail_with_option_enabled_is_a_conflict() {
    let mut config = config_all_off();
    config.auto_forq = true;
    assert_eq!(decide_detail_fetch(&config, false), Err(RunError::CardNotFound));

    let mut config2 = config_all_off();
    config2.auto_add = Some(1);
    assert_eq!(decide_detail_fetch(&config2, false), Err(RunError::CardNotFound));
}

#[test]
fn missing_identifier_fails_every_enabled_step() {
    let config = Config {
        session_id: Some(String::from("sid")),
        auto_add: Some(5),
        auto_unlock: true,
        auto_forq: true,
        auto_forget: true,
        add_mined_sentences: true,
        add_custom_definition: true,
        auto_open: true,
    };
    let fields = Fields {
        word: String::from("猫"),
        reading: None,
        sentence: String::from("猫がいる。"),
        definition: Some(String::from("a cat")),
    };
    let card = VocabCard { id: None };
    let plan = plan_steps(&config, &fields, &card, "/vocabulary/1442/neko");
    assert_eq!(plan.len(), 6);
    for step in &plan {
        assert!(matches!(step.action, StepAction::MissingId));
    }
    // The open phase needs no identifier: its URL still resolves.
    let open_url = resolve_open_url(&fields.word, &Some(String::from("/vocabulary/1442/neko")));
    assert_eq!(open_url, "https://jpdb.io/vocabulary/1442/neko");
}

#[test]
fn add_to_deck_twice_plans_identical_requests() {
    let origin = "/vocabulary/1442/neko";
    let card_first = VocabCard { id: Some(triple()) };
    let card_second = VocabCard { id: Some(triple()) };
    let a = card_first.add_to_deck(7, origin);
    let b = card_second.add_to_deck(7, origin);
    match (a, b) {
        (StepAction::Send(fa), StepAction::Send(fb)) => {
            assert_eq!(fa.path, fb.path);
            assert_eq!(fa.fields, fb.fields);
        }
        _ => panic!("both runs must plan a submission"),
    }
}

#[test]
fn empty_sentence_and_definition_are_skipped() {
    let card = VocabCard { id: Some(triple()) };
    assert!(matches!(card.set_custom_sentence(""), StepAction::Skip));
    assert!(matches!(card.set_custom_definition(""), StepAction::Skip));

    // Even without an identifier the guard comes first: nothing fails.
    let bare = VocabCard { id: None };
    assert!(matches!(bare.set_custom_sentence(""), StepAction::Skip));
    assert!(matches!(bare.set_custom_definition(""), StepAction::Skip));

    // An absent definition text skips the step under the configuration gate.
    let mut config = config_all_off();
    config.add_custom_definition = true;
    config.add_mined_sentences = true;
    let fields = cat_fields(); // empty sentence, no definition
    let plan = plan_steps(&config, &fields, &card, "/x");
    assert!(matches!(plan[4].action, StepAction::Skip));
    assert!(matches!(plan[5].action, StepAction::Skip));
}

#[test]
fn sentence_and_definition_submissions_carry_identifier_scoped_paths() {
    let card = VocabCard { id: Some(triple()) };
    match card.set_custom_sentence("猫がいる。") {
        StepAction::Send(fr) => {
            assert_eq!(fr.path, "/edit-shown-sentence?v=1&s=2&r=3");
            let expected: Vec<(String, String)> = vec![
                ("sentence".into(), "猫がいる。".into()),
                ("translation".into(), "".into()),
            ];
            assert_eq!(fr.fields, expected);
        }
        _ => panic!("a non-empty sentence must plan a submission"),
    }
    match card.set_custom_definition("a cat") {
        StepAction::Send(fr) => {
            assert_eq!(fr.path, "/edit_shown_meanings?v=1&s=2&r=3");
            assert_eq!(fr.fields.len(), 8);
            assert_eq!(fr.fields[0], ("language-select".into(), "default".into()));
            assert_eq!(fr.fields[7], ("custom-definition".into(), "a cat".into()));
        }
        _ => panic!("a non-empty definition must plan a submission"),
    }
}

#[test]
fn unlock_forq_and_mark_unknown_share_the_simple_shape() {
    let card = VocabCard { id: Some(triple()) };
    let origin = "/vocabulary/1442/neko";
    let expected: Vec<(String, String)> = vec![
        ("v".into(), "1".into()),
        ("s".into(), "2".into()),
        ("origin".into(), origin.into()),
    ];
    for (action, path) in [
        (card.force_unlock(origin), "/force-unlock"),
        (card.forq(origin), "/prioritize"),
        (card.mark_unknown(origin), "/mark-as-not-known"),
    ] {
        match action {
            StepAction::Send(fr) => {
                assert_eq!(fr.path, path);
                assert_eq!(fr.fields, expected);
            }
            _ => panic!("an extracted identifier must plan a submission"),
        }
    }
}

#[test]
fn find_id_surfaces_the_missing_identifier_error() {
    let card = VocabCard { id: Some(triple()) };
    let id = card.find_id().expect("identifier present");
    assert_eq!(id.v, "1");
    assert_eq!(id.s, "2");
    assert_eq!(id.r, "3");
    let bare = VocabCard { id: None };
    match bare.find_id() {
        Err(e) => assert_eq!(e, StepError::MissingId),
        Ok(_) => panic!("no identifier was present"),
    }
}

#[test]
fn status_classification() {
    assert_eq!(judge_step(200), Ok(()));
    assert_eq!(judge_step(204), Ok(()));
    assert_eq!(judge_step(301), Ok(()));
    assert_eq!(judge_step(399), Ok(()));
    assert_eq!(judge_step(199), Err(StepError::Rejected(199)));
    assert_eq!(judge_step(400), Err(StepError::Rejected(400)));
    assert_eq!(judge_step(404), Err(StepError::Rejected(404)));
    assert_eq!(judge_step(500), Err(StepError::Rejected(500)));

    assert_eq!(judge_detail_fetch(Some(200)), Ok(()));
    assert_eq!(judge_detail_fetch(Some(302)), Ok(()));
    assert_eq!(judge_detail_fetch(Some(404)), Err(RunError::DetailFetchFailed));
    assert_eq!(judge_detail_fetch(None), Err(RunError::DetailFetchFailed));

    assert_eq!(judge_search(true), Ok(()));
    assert_eq!(judge_search(false), Err(RunError::SearchFailed));
}
