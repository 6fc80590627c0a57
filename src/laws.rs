use vstd::prelude::*;
use crate::documents::DailyView;
use crate::replies::{
    past_answer, plan_of, today_answer, words_answer, BodyView, Doc, Lookup, ReplyView, StepView,
    language_not_found, supported,
};
use crate::routes::{get_method, is_segment, past_prefix, root_path, route_of, today_prefix, version_path, words_prefix, RouteView};

verus! {

/// The language served, as characters.
pub open spec fn turkish() -> Seq<char> {
    seq!['t', 'r']
}

proof fn lemma_scoped_routes(lang: Seq<char>)
    requires
        is_segment(lang),
    ensures
        route_of(get_method(), words_prefix() + lang) == RouteView::Words(lang),
        route_of(get_method(), today_prefix() + lang) == RouteView::Today(lang),
        route_of(get_method(), past_prefix() + lang) == RouteView::Past(lang),
{
    let w = words_prefix() + lang;
    let t = today_prefix() + lang;
    let p = past_prefix() + lang;
    assert(w.skip(7) =~= lang);
    assert(t.skip(12) =~= lang);
    assert(p.skip(15) =~= lang);
    assert(words_prefix().is_prefix_of(w)) by {
        assert(w.subrange(0, 7) =~= words_prefix());
    }
    assert(today_prefix().is_prefix_of(t)) by {
        assert(t.subrange(0, 12) =~= today_prefix());
    }
    assert(past_prefix().is_prefix_of(p)) by {
        assert(p.subrange(0, 15) =~= past_prefix());
    }
    assert(w != root_path()) by {
        assert(w.len() != root_path().len());
    }
    assert(w != version_path()) by {
        assert(w[4] != version_path()[4]);
    }
    assert(t != root_path()) by {
        assert(t.len() != root_path().len());
    }
    assert(t != version_path()) by {
        assert(t[4] != version_path()[4]);
    }
    assert(!words_prefix().is_prefix_of(t)) by {
        assert(t[5] != words_prefix()[5]);
    }
    assert(p != root_path()) by {
        assert(p.len() != root_path().len());
    }
    assert(p != version_path()) by {
        assert(p[4] != version_path()[4]);
    }
    assert(!words_prefix().is_prefix_of(p)) by {
        assert(p[5] != words_prefix()[5]);
    }
    assert(!today_prefix().is_prefix_of(p)) by {
        assert(p[6] != today_prefix()[6]);
    }
}

/// On each of the three language-scoped routes, a language other than the
/// one served is answered with 404 "Language not found".
pub proof fn lemma_unsupported_language(lang: Seq<char>)
    requires
        is_segment(lang),
        !supported(lang),
    ensures
        plan_of(route_of(get_method(), words_prefix() + lang)) == StepView::Answer(
            language_not_found(),
        ),
        plan_of(route_of(get_method(), today_prefix() + lang)) == StepView::Answer(
            language_not_found(),
        ),
        plan_of(route_of(get_method(), past_prefix() + lang)) == StepView::Answer(
            language_not_found(),
        ),
{
    lemma_scoped_routes(lang);
}

/// A dictionary found in the store is answered as it was stored, and it is
/// looked up under the dictionary key.
pub proof fn lemma_stored_dictionary_returned(d: Seq<Seq<char>>)
    ensures
        plan_of(route_of(get_method(), words_prefix() + turkish())) == StepView::Fetch(
            Doc::Words,
            "dictionary"@,
        ),
        words_answer(Lookup::Found(d)) == (ReplyView { status: 200, body: BodyView::Words(d) }),
{
    reveal_strlit("tr");
    assert(turkish() =~= "tr"@);
    lemma_scoped_routes(turkish());
}

/// A day's word found in the store is answered as it was stored, whatever
/// the time, and it is looked up under the day's key of the language.
pub proof fn lemma_stored_daily_returned(d: DailyView, now_ms: i64)
    ensures
        plan_of(route_of(get_method(), today_prefix() + turkish())) == StepView::Fetch(
            Doc::Today,
            "today_"@ + "tr"@,
        ),
        today_answer(Lookup::Found(d), now_ms) == (ReplyView {
            status: 200,
            body: BodyView::Today(d),
        }),
{
    reveal_strlit("tr");
    assert(turkish() =~= "tr"@);
    lemma_scoped_routes(turkish());
}

/// The earlier words found in the store are answered as they were stored,
/// and they are looked up under the language's key for them.
pub proof fn lemma_stored_previous_returned(p: Seq<DailyView>)
    ensures
        plan_of(route_of(get_method(), past_prefix() + turkish())) == StepView::Fetch(
            Doc::Past,
            "previous_"@ + "tr"@,
        ),
        past_answer(Lookup::Found(p)) == (ReplyView { status: 200, body: BodyView::Past(p) }),
{
    reveal_strlit("tr");
    assert(turkish() =~= "tr"@);
    lemma_scoped_routes(turkish());
}

} // verus!
