use vstd::prelude::*;

verus! {

/// The words a player may guess.
#[derive(Debug)]
pub struct Dictionary {
    pub words: Vec<String>,
}

/// A day's word, with the moment it was chosen in milliseconds since the
/// Unix epoch (UTC).
#[derive(Debug)]
pub struct Daily {
    pub word: String,
    pub date: i64,
}

/// The words of earlier days, oldest first.
#[derive(Debug)]
pub struct Previous {
    pub previous: Vec<Daily>,
}

/// What a `Daily` means: its word as characters and its instant.
pub struct DailyView {
    pub word: Seq<char>,
    pub date: i64,
}

impl View for Dictionary {
    type V = Seq<Seq<char>>;

    open spec fn view(&self) -> Seq<Seq<char>> {
        self.words@.map_values(|w: String| w@)
    }
}

impl View for Daily {
    type V = DailyView;

    open spec fn view(&self) -> DailyView {
        DailyView { word: self.word@, date: self.date }
    }
}

impl View for Previous {
    type V = Seq<DailyView>;

    open spec fn view(&self) -> Seq<DailyView> {
        self.previous@.map_values(|d: Daily| d@)
    }
}

impl Default for Dictionary {
    fn default() -> (r: Dictionary)
        ensures
            r@ == Seq::<Seq<char>>::empty(),
    {
        let r = Dictionary { words: Vec::new() };
        assert(r@ =~= Seq::<Seq<char>>::empty());
        r
    }
}

impl Default for Previous {
    fn default() -> (r: Previous)
        ensures
            r@ == Seq::<DailyView>::empty(),
    {
        let r = Previous { previous: Vec::new() };
        assert(r@ =~= Seq::<DailyView>::empty());
        r
    }
}

impl Daily {
    /// The placeholder answered when no word has been chosen yet: an empty
    /// word at the given instant.
    pub fn unset(now_ms: i64) -> (r: Daily)
        ensures
            r@ == (DailyView { word: Seq::empty(), date: now_ms }),
    {
        Daily { word: String::new(), date: now_ms }
    }
}

} // verus!
