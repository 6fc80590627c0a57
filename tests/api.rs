use wordle_api::documents::{Daily, Dictionary, Previous};
use wordle_api::replies::{
    answer_past, answer_today, answer_today_now, answer_version, answer_words, is_supported,
    plan, store_key, Body, Doc, Lookup, Reply, Step,
};
use wordle_api::routes::{is_segment_text, route, Route};
use wordle_api::text::{same_text, starts_with};

fn step_for(path: &str) -> Step {
    plan(&route("GET", path))
}

fn text_of(r: &Reply) -> &str {
    match &r.body {
        Body::Text(t) => t.as_str(),
        other => panic!("expected a text body, got {:?}", other),
    }
}

fn answered(step: Step) -> Reply {
    match step {
        Step::Answer(r) => r,
        other => panic!("expected an answer, got {:?}", other),
    }
}

fn fetched(step: Step) -> (Doc, String) {
    match step {
        Step::Fetch(d, k) => (d, k),
        other => panic!("expected a fetch, got {:?}", other),
    }
}

fn words_of(r: &Reply) -> Vec<String> {
    match &r.body {
        Body::Words(d) => d.words.clone(),
        other => panic!("expected a dictionary, got {:?}", other),
    }
}

fn daily_of(r: &Reply) -> (String, i64) {
    match &r.body {
        Body::Today(d) => (d.word.clone(), d.date),
        other => panic!("expected a day's word, got {:?}", other),
    }
}

fn previous_of(r: &Reply) -> Vec<(String, i64)> {
    match &r.body {
        Body::Past(p) => p.previous.iter().map(|d| (d.word.clone(), d.date)).collect(),
        other => panic!("expected earlier words, got {:?}", other),
    }
}

#[test]
fn unsupported_language_is_not_found_on_every_route() {
    for lang in ["en", "de", "TR", "tr2", "trr", "t"] {
        for prefix in ["/words/", "/word/today/", "/word/previous/"] {
            let path = format!("{}{}", prefix, lang);
            let r = answered(step_for(&path));
            assert_eq!(r.status, 404);
            assert_eq!(text_of(&r), "Language not found");
        }
    }
}

#[test]
fn dictionary_missing_gives_empty_words() {
    assert_eq!(fetched(step_for("/words/tr")), (Doc::Words, "dictionary".to_string()));
    let r = answer_words(Lookup::Missing);
    assert_eq!(r.status, 200);
    assert!(words_of(&r).is_empty());
}

#[test]
fn dictionary_stored_is_returned() {
    let d = Dictionary { words: vec!["elma".to_string(), "armut".to_string()] };
    let r = answer_words(Lookup::Found(d));
    assert_eq!(r.status, 200);
    assert_eq!(words_of(&r), vec!["elma".to_string(), "armut".to_string()]);
}

#[test]
fn today_missing_gives_empty_word_dated_now() {
    assert_eq!(fetched(step_for("/word/today/tr")), (Doc::Today, "today_tr".to_string()));
    let before = chrono::Utc::now().timestamp_millis();
    let r = answer_today_now(Lookup::Missing);
    let after = chrono::Utc::now().timestamp_millis();
    assert_eq!(r.status, 200);
    let (word, date) = daily_of(&r);
    assert_eq!(word, "");
    assert!(before <= date && date <= after);
}

#[test]
fn today_missing_at_given_instant() {
    let r = answer_today(Lookup::Missing, 1700000000123);
    assert_eq!(r.status, 200);
    assert_eq!(daily_of(&r), (String::new(), 1700000000123));
}

#[test]
fn today_stored_is_returned() {
    let d = Daily { word: "masa".to_string(), date: 1700000000000 };
    let r = answer_today(Lookup::Found(d), 5);
    assert_eq!(r.status, 200);
    assert_eq!(daily_of(&r), ("masa".to_string(), 1700000000000));
    let d = Daily { word: "masa".to_string(), date: 1700000000000 };
    let r = answer_today_now(Lookup::Found(d));
    assert_eq!(daily_of(&r), ("masa".to_string(), 1700000000000));
}

#[test]
fn previous_missing_gives_empty_list() {
    assert_eq!(fetched(step_for("/word/previous/tr")), (Doc::Past, "previous_tr".to_string()));
    let r = answer_past(Lookup::Missing);
    assert_eq!(r.status, 200);
    assert!(previous_of(&r).is_empty());
}

#[test]
fn previous_stored_is_returned_in_order() {
    let p = Previous {
        previous: vec![
            Daily { word: "kalem".to_string(), date: 1699913600000 },
            Daily { word: "masa".to_string(), date: 1700000000000 },
        ],
    };
    let r = answer_past(Lookup::Found(p));
    assert_eq!(r.status, 200);
    assert_eq!(
        previous_of(&r),
        vec![("kalem".to_string(), 1699913600000), ("masa".to_string(), 1700000000000)]
    );
}

#[test]
fn unmatched_path_is_bad_request() {
    for path in ["/anything/unmatched", "/words/", "/words/tr/x", "/word/today/", "/word", "", "/wordstr"] {
        let r = answered(step_for(path));
        assert_eq!(r.status, 404);
        assert_eq!(text_of(&r), "Bad request");
    }
}

#[test]
fn other_methods_are_bad_request() {
    let r = answered(plan(&route("POST", "/words/tr")));
    assert_eq!(r.status, 404);
    assert_eq!(text_of(&r), "Bad request");
    assert!(matches!(route("get", "/"), Route::Unknown));
}

#[test]
fn greeting_and_version() {
    let r = answered(step_for("/"));
    assert_eq!(r.status, 200);
    assert_eq!(text_of(&r), "Hello from Wordle!");
    assert!(matches!(step_for("/worker-version"), Step::ReadVersion));
    let r = answer_version(Some("0.0.18".to_string()));
    assert_eq!(r.status, 200);
    assert_eq!(text_of(&r), "0.0.18");
    let r = answer_version(None);
    assert_eq!(r.status, 500);
    assert_eq!(text_of(&r), "WORKERS_RS_VERSION is not set");
}

#[test]
fn routes_carry_the_language() {
    match route("GET", "/word/today/en") {
        Route::Today(l) => assert_eq!(l, "en"),
        other => panic!("unexpected {:?}", other),
    }
    match route("GET", "/words/çş") {
        Route::Words(l) => assert_eq!(l, "çş"),
        other => panic!("unexpected {:?}", other),
    }
    match route("GET", "/word/previous/tr") {
        Route::Past(l) => assert_eq!(l, "tr"),
        other => panic!("unexpected {:?}", other),
    }
    assert!(matches!(route("GET", "/worker-version"), Route::Version));
}

#[test]
fn unreadable_and_failed_lookups_are_server_errors() {
    let r = answer_words(Lookup::Unreadable);
    assert_eq!(r.status, 500);
    assert_eq!(text_of(&r), "can not serialize dictionary kv value");
    let r = answer_today(Lookup::Unreadable, 0);
    assert_eq!(r.status, 500);
    assert_eq!(text_of(&r), "can not serialize todays word kv value");
    let r = answer_past(Lookup::Unreadable);
    assert_eq!(r.status, 500);
    assert_eq!(text_of(&r), "can not serialize previous_words kv value");
    for r in [answer_words(Lookup::Failed), answer_today(Lookup::Failed, 0), answer_past(Lookup::Failed)] {
        assert_eq!(r.status, 500);
        assert_eq!(text_of(&r), "Store lookup failed");
    }
}

#[test]
fn store_keys() {
    assert_eq!(store_key(Doc::Words, "en"), "dictionary");
    assert_eq!(store_key(Doc::Today, "en"), "today_en");
    assert_eq!(store_key(Doc::Past, "tr"), "previous_tr");
}

#[test]
fn text_helpers() {
    assert!(is_supported("tr"));
    assert!(!is_supported("t"));
    assert!(!is_supported(""));
    assert!(same_text("ab", "ab"));
    assert!(!same_text("ab", "abc"));
    assert!(starts_with("/words/x", "/words/"));
    assert!(!starts_with("/word", "/words/"));
    assert!(is_segment_text("tr"));
    assert!(!is_segment_text(""));
    assert!(!is_segment_text("a/b"));
}
