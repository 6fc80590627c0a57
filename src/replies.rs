use vstd::prelude::*;
use vstd::string::*;
use crate::documents::{Daily, DailyView, Dictionary, Previous};
use crate::routes::{Route, RouteView};
use crate::text::same_text;

verus! {

/// The three kinds of stored document.
#[derive(Clone, Copy, PartialEq, Eq, Structural, Debug)]
pub enum Doc {
    Words,
    Today,
    Past,
}

/// What a response carries: plain text, or one of the documents as JSON.
#[derive(Debug)]
pub enum Body {
    Text(String),
    Words(Dictionary),
    Today(Daily),
    Past(Previous),
}

/// What a `Body` means, over the views of its contents.
pub enum BodyView {
    Text(Seq<char>),
    Words(Seq<Seq<char>>),
    Today(DailyView),
    Past(Seq<DailyView>),
}

/// A response: its HTTP status and its body.
#[derive(Debug)]
pub struct Reply {
    pub status: u16,
    pub body: Body,
}

/// What a `Reply` means.
pub struct ReplyView {
    pub status: u16,
    pub body: BodyView,
}

/// What reading a key from the store gave: no value, a value of the
/// expected shape, a value of another shape, or a failed read.
#[derive(Debug)]
pub enum Lookup<T> {
    Missing,
    Found(T),
    Unreadable,
    Failed,
}

/// What to do with a routed request: answer at once, read the configured
/// version, or read a document from the store under a key.
#[derive(Debug)]
pub enum Step {
    Answer(Reply),
    ReadVersion,
    Fetch(Doc, String),
}

/// What a `Step` means, with the store key as characters.
pub enum StepView {
    Answer(ReplyView),
    ReadVersion,
    Fetch(Doc, Seq<char>),
}

impl View for Body {
    type V = BodyView;

    open spec fn view(&self) -> BodyView {
        match self {
            Body::Text(t) => BodyView::Text(t@),
            Body::Words(d) => BodyView::Words(d@),
            Body::Today(d) => BodyView::Today(d@),
            Body::Past(p) => BodyView::Past(p@),
        }
    }
}

impl View for Reply {
    type V = ReplyView;

    open spec fn view(&self) -> ReplyView {
        ReplyView { status: self.status, body: self.body@ }
    }
}

impl<T: View> View for Lookup<T> {
    type V = Lookup<T::V>;

    open spec fn view(&self) -> Lookup<T::V> {
        match self {
            Lookup::Missing => Lookup::Missing,
            Lookup::Found(v) => Lookup::Found(v@),
            Lookup::Unreadable => Lookup::Unreadable,
            Lookup::Failed => Lookup::Failed,
        }
    }
}

impl View for Step {
    type V = StepView;

    open spec fn view(&self) -> StepView {
        match self {
            Step::Answer(r) => StepView::Answer(r@),
            Step::ReadVersion => StepView::ReadVersion,
            Step::Fetch(d, k) => StepView::Fetch(*d, k@),
        }
    }
}

/// The one language served.
pub open spec fn supported(lang: Seq<char>) -> bool {
    lang == "tr"@
}

/// The store key of a document for a language. The dictionary is kept
/// under one key for every language.
pub open spec fn key_of(doc: Doc, lang: Seq<char>) -> Seq<char> {
    match doc {
        Doc::Words => "dictionary"@,
        Doc::Today => "today_"@ + lang,
        Doc::Past => "previous_"@ + lang,
    }
}

pub open spec fn text_reply(status: u16, text: Seq<char>) -> ReplyView {
    ReplyView { status, body: BodyView::Text(text) }
}

pub open spec fn greeting() -> ReplyView {
    text_reply(200, "Hello from Wordle!"@)
}

pub open spec fn language_not_found() -> ReplyView {
    text_reply(404, "Language not found"@)
}

pub open spec fn bad_request() -> ReplyView {
    text_reply(404, "Bad request"@)
}

pub open spec fn lookup_failed() -> ReplyView {
    text_reply(500, "Store lookup failed"@)
}

pub open spec fn version_unset() -> ReplyView {
    text_reply(500, "WORKERS_RS_VERSION is not set"@)
}

/// The step for a language-scoped route.
pub open spec fn scoped_plan(doc: Doc, lang: Seq<char>) -> StepView {
    if supported(lang) {
        StepView::Fetch(doc, key_of(doc, lang))
    } else {
        StepView::Answer(language_not_found())
    }
}

/// What each route leads to.
pub open spec fn plan_of(r: RouteView) -> StepView {
    match r {
        RouteView::Greeting => StepView::Answer(greeting()),
        RouteView::Version => StepView::ReadVersion,
        RouteView::Words(l) => scoped_plan(Doc::Words, l),
        RouteView::Today(l) => scoped_plan(Doc::Today, l),
        RouteView::Past(l) => scoped_plan(Doc::Past, l),
        RouteView::Unknown => StepView::Answer(bad_request()),
    }
}

/// The answer to the version route, from the configured value if any.
pub open spec fn version_answer(v: Option<Seq<char>>) -> ReplyView {
    match v {
        Some(t) => text_reply(200, t),
        None => version_unset(),
    }
}

/// The answer to the dictionary route: what is stored, or an empty
/// dictionary where nothing is.
pub open spec fn words_answer(l: Lookup<Seq<Seq<char>>>) -> ReplyView {
    match l {
        Lookup::Missing => ReplyView { status: 200, body: BodyView::Words(Seq::empty()) },
        Lookup::Found(d) => ReplyView { status: 200, body: BodyView::Words(d) },
        Lookup::Unreadable => text_reply(500, "can not serialize dictionary kv value"@),
        Lookup::Failed => lookup_failed(),
    }
}

/// The answer to the day's word route: what is stored, or an empty word
/// dated `now_ms` where nothing is.
pub open spec fn today_answer(l: Lookup<DailyView>, now_ms: i64) -> ReplyView {
    match l {
        Lookup::Missing => ReplyView {
            status: 200,
            body: BodyView::Today(DailyView { word: Seq::empty(), date: now_ms }),
        },
        Lookup::Found(d) => ReplyView { status: 200, body: BodyView::Today(d) },
        Lookup::Unreadable => text_reply(500, "can not serialize todays word kv value"@),
        Lookup::Failed => lookup_failed(),
    }
}

/// The answer to the earlier words route: what is stored, or an empty
/// list where nothing is.
pub open spec fn past_answer(l: Lookup<Seq<DailyView>>) -> ReplyView {
    match l {
        Lookup::Missing => ReplyView { status: 200, body: BodyView::Past(Seq::empty()) },
        Lookup::Found(p) => ReplyView { status: 200, body: BodyView::Past(p) },
        Lookup::Unreadable => text_reply(500, "can not serialize previous_words kv value"@),
        Lookup::Failed => lookup_failed(),
    }
}

/// Whether the reply to the day's word route fits `l` for some instant of
/// the missing word.
pub open spec fn today_answer_at_some_time(l: Lookup<DailyView>, r: ReplyView) -> bool {
    exists|t: i64| r == #[trigger] today_answer(l, t)
}

/// Whether a language is served.
pub fn is_supported(lang: &str) -> (r: bool)
    ensures
        r == supported(lang@),
{
    same_text(lang, "tr")
}

/// The store key of a document for a language.
pub fn store_key(doc: Doc, lang: &str) -> (r: String)
    ensures
        r@ == key_of(doc, lang@),
{
    match doc {
        Doc::Words => "dictionary".to_owned(),
        Doc::Today => {
            let mut k = "today_".to_owned();
            k.append(lang);
            k
        },
        Doc::Past => {
            let mut k = "previous_".to_owned();
            k.append(lang);
            k
        },
    }
}

fn text(status: u16, t: &str) -> (r: Reply)
    ensures
        r@ == text_reply(status, t@),
{
    Reply { status, body: Body::Text(t.to_owned()) }
}

fn plan_scoped(doc: Doc, lang: &str) -> (r: Step)
    ensures
        r@ == scoped_plan(doc, lang@),
{
    if is_supported(lang) {
        Step::Fetch(doc, store_key(doc, lang))
    } else {
        Step::Answer(text(404, "Language not found"))
    }
}

/// Decides what a routed request needs.
pub fn plan(route: &Route) -> (r: Step)
    ensures
        r@ == plan_of(route@),
{
    match route {
        Route::Greeting => Step::Answer(text(200, "Hello from Wordle!")),
        Route::Version => Step::ReadVersion,
        Route::Words(l) => plan_scoped(Doc::Words, l.as_str()),
        Route::Today(l) => plan_scoped(Doc::Today, l.as_str()),
        Route::Past(l) => plan_scoped(Doc::Past, l.as_str()),
        Route::Unknown => Step::Answer(text(404, "Bad request")),
    }
}

/// Answers the version route from the configured value, if any.
pub fn answer_version(configured: Option<String>) -> (r: Reply)
    ensures
        r@ == version_answer(match configured {
            Some(t) => Some(t@),
            None => None,
        }),
{
    match configured {
        Some(t) => Reply { status: 200, body: Body::Text(t) },
        None => text(500, "WORKERS_RS_VERSION is not set"),
    }
}

/// Answers the dictionary route from what the store gave.
pub fn answer_words(found: Lookup<Dictionary>) -> (r: Reply)
    ensures
        r@ == words_answer(found@),
{
    match found {
        Lookup::Missing => Reply { status: 200, body: Body::Words(Dictionary::default()) },
        Lookup::Found(d) => Reply { status: 200, body: Body::Words(d) },
        Lookup::Unreadable => text(500, "can not serialize dictionary kv value"),
        Lookup::Failed => text(500, "Store lookup failed"),
    }
}

/// Answers the day's word route from what the store gave; a missing word
/// is answered as an empty one dated `now_ms`.
pub fn answer_today(found: Lookup<Daily>, now_ms: i64) -> (r: Reply)
    ensures
        r@ == today_answer(found@, now_ms),
{
    match found {
        Lookup::Missing => Reply { status: 200, body: Body::Today(Daily::unset(now_ms)) },
        Lookup::Found(d) => Reply { status: 200, body: Body::Today(d) },
        Lookup::Unreadable => text(500, "can not serialize todays word kv value"),
        Lookup::Failed => text(500, "Store lookup failed"),
    }
}

/// Answers the day's word route from what the store gave, dating a
/// missing word with the current time.
pub fn answer_today_now(found: Lookup<Daily>) -> (r: Reply)
    ensures
        today_answer_at_some_time(found@, r@),
        !(found is Missing) ==> r@ == today_answer(found@, 0),
{
    let now_ms = now_millis();
    let r = answer_today(found, now_ms);
    assert(r@ == today_answer(found@, now_ms));
    r
}

/// Answers the earlier words route from what the store gave.
pub fn answer_past(found: Lookup<Previous>) -> (r: Reply)
    ensures
        r@ == past_answer(found@),
{
    match found {
        Lookup::Missing => Reply { status: 200, body: Body::Past(Previous::default()) },
        Lookup::Found(p) => Reply { status: 200, body: Body::Past(p) },
        Lookup::Unreadable => text(500, "can not serialize previous_words kv value"),
        Lookup::Failed => text(500, "Store lookup failed"),
    }
}

/// Relies on chrono's `Utc::now` and `DateTime::timestamp_millis`: the
/// current instant, in milliseconds since the Unix epoch. Nothing is
/// promised of its value.
#[verifier::external_body]
fn now_millis() -> (r: i64) {
    chrono::Utc::now().timestamp_millis()
}

} // verus!
