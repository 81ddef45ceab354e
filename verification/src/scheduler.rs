//! The settings of the background fetches.

use crate::arxiv::ArxivClient;
use crate::paper::{Paper, PaperView, UserPreferences, copy_strings, papers_view, strs};
use vstd::prelude::*;

verus! {

/// The fewest minutes between two background fetches.
pub const MIN_INTERVAL_MINUTES: u64 = 30;

/// How many papers each background search asks for.
pub const PAPERS_PER_SEARCH: usize = 3;

/// The seconds waited after each background search.
pub const PAUSE_SECS: u64 = 2;

/// The categories watched when none are chosen.
pub open spec fn default_categories() -> Seq<Seq<char>> {
    seq!["cs.RO"@, "cs.AI"@, "cs.CV"@]
}

/// The keywords searched when none are chosen.
pub open spec fn default_keywords() -> Seq<Seq<char>> {
    seq!["robotics"@]
}

/// What the background fetches watch, and how often.
pub struct Scheduler {
    interval_minutes: u64,
    categories: Vec<String>,
    keywords: Vec<String>,
}

/// The content of a scheduler.
pub struct SchedulerView {
    pub interval_minutes: u64,
    pub categories: Seq<Seq<char>>,
    pub keywords: Seq<Seq<char>>,
}

impl View for Scheduler {
    type V = SchedulerView;

    closed spec fn view(&self) -> SchedulerView {
        SchedulerView {
            interval_minutes: self.interval_minutes,
            categories: strs(self.categories@),
            keywords: strs(self.keywords@),
        }
    }
}

/// `n`, raised to the minimum interval.
pub open spec fn at_least_min(n: u64) -> u64 {
    if n >= MIN_INTERVAL_MINUTES {
        n
    } else {
        MIN_INTERVAL_MINUTES
    }
}

fn default_category_list() -> (r: Vec<String>)
    ensures
        strs(r@) == default_categories(),
{
    let mut r: Vec<String> = Vec::new();
    r.push("cs.RO".to_owned());
    r.push("cs.AI".to_owned());
    r.push("cs.CV".to_owned());
    assert(strs(r@) =~= default_categories());
    r
}

fn default_keyword_list() -> (r: Vec<String>)
    ensures
        strs(r@) == default_keywords(),
{
    let mut r: Vec<String> = Vec::new();
    r.push("robotics".to_owned());
    assert(strs(r@) =~= default_keywords());
    r
}

impl Scheduler {
    /// A scheduler of the default categories and keywords, every `interval_minutes`
    /// minutes but not more often than every thirty.
    pub fn new(interval_minutes: u64) -> (s: Scheduler)
        ensures
            s@.interval_minutes == at_least_min(interval_minutes),
            s@.interval_minutes >= MIN_INTERVAL_MINUTES,
            s@.categories == default_categories(),
            s@.keywords == default_keywords(),
    {
        Scheduler {
            interval_minutes: if interval_minutes >= MIN_INTERVAL_MINUTES {
                interval_minutes
            } else {
                MIN_INTERVAL_MINUTES
            },
            categories: default_category_list(),
            keywords: default_keyword_list(),
        }
    }

    /// A scheduler of the user's interval, categories and keywords; empty lists
    /// fall back to the defaults.
    pub fn from_preferences(prefs: &UserPreferences) -> (s: Scheduler)
        ensures
            s@.interval_minutes == at_least_min(prefs.fetch_interval_minutes),
            s@.interval_minutes >= MIN_INTERVAL_MINUTES,
            s@.categories.len() > 0,
            s@.keywords.len() > 0,
            s@.categories == if prefs@.categories.len() == 0 {
                default_categories()
            } else {
                prefs@.categories
            },
            s@.keywords == if prefs@.keywords.len() == 0 {
                default_keywords()
            } else {
                prefs@.keywords
            },
    {
        Scheduler {
            interval_minutes: if prefs.fetch_interval_minutes >= MIN_INTERVAL_MINUTES {
                prefs.fetch_interval_minutes
            } else {
                MIN_INTERVAL_MINUTES
            },
            categories: if prefs.categories.len() == 0 {
                default_category_list()
            } else {
                copy_strings(&prefs.categories)
            },
            keywords: if prefs.keywords.len() == 0 {
                default_keyword_list()
            } else {
                copy_strings(&prefs.keywords)
            },
        }
    }

    pub fn interval_minutes(&self) -> (r: u64)
        ensures
            r == self@.interval_minutes,
    {
        self.interval_minutes
    }

    /// The interval in seconds.
    pub fn interval_secs(&self) -> (r: u64)
        requires
            self@.interval_minutes * 60 <= u64::MAX,
        ensures
            r == self@.interval_minutes * 60,
    {
        self.interval_minutes * 60
    }

    pub fn categories(&self) -> (r: Vec<String>)
        ensures
            strs(r@) == self@.categories,
    {
        copy_strings(&self.categories)
    }

    pub fn keywords(&self) -> (r: Vec<String>)
        ensures
            strs(r@) == self@.keywords,
    {
        copy_strings(&self.keywords)
    }

    /// The arXiv queries of the watched categories, in order.
    pub fn arxiv_queries(&self) -> (r: Vec<String>)
        ensures
            strs(r@) == self@.categories.map_values(|c: Seq<char>| "cat:"@ + c),
    {
        let ghost cs = strs(self.categories@);
        let mut r: Vec<String> = Vec::new();
        let mut i: usize = 0;
        while i < self.categories.len()
            invariant
                i <= self.categories.len(),
                cs == strs(self.categories@),
                strs(r@) == cs.take(i as int).map_values(|c: Seq<char>| "cat:"@ + c),
            decreases self.categories.len() - i,
        {
            let q = ArxivClient::category_query(self.categories[i].as_str());
            let ghost before = strs(r@);
            r.push(q);
            assert(strs(r@) =~= before.push("cat:"@ + cs[i as int]));
            assert(cs.take(i + 1).map_values(|c: Seq<char>| "cat:"@ + c) =~= cs.take(i as int).map_values(
                |c: Seq<char>| "cat:"@ + c,
            ).push("cat:"@ + cs[i as int]));
            i += 1;
        }
        assert(cs.take(i as int) =~= cs);
        r
    }
}

/// What a background fetch waits for.
pub enum FetchPhase {
    /// The results of the current search.
    Searching,
    /// Whether the store already holds this paper.
    Looking(Paper),
    /// Whether this paper was saved.
    Saving(Paper),
    /// The pause after a search.
    Waiting,
    /// Nothing: the fetch is over.
    Finished,
}

/// Where a background fetch stands.
pub struct FetchState {
    /// The current search: the categories first, in order, then the keywords.
    pub search: usize,
    /// The papers of the current search not handled yet.
    pub pending: Vec<Paper>,
    pub phase: FetchPhase,
    /// How many papers were saved so far.
    pub count: usize,
}

/// What the outside world answered.
pub enum FetchEvent {
    /// The papers a search found, or `None` when it failed.
    Results(Option<Vec<Paper>>),
    /// Whether the store holds the paper asked about.
    Known(bool),
    /// Whether the paper was saved.
    Saved(bool),
    /// The pause is over.
    Waited,
}

/// What a background fetch asks of the outside world next.
pub enum FetchAction {
    /// Search arXiv for the newest `max` papers of a category.
    SearchArxiv { category: String, max: usize },
    /// Search Semantic Scholar for `max` papers on a keyword.
    SearchScholar { keyword: String, max: usize },
    /// Ask whether the store holds the paper with this identifier.
    Lookup(String),
    /// Save the paper.
    Save(Paper),
    /// Pause for this many seconds.
    Wait(u64),
    /// The fetch is over; this many papers were saved.
    Done(usize),
}

/// The content of a phase.
pub enum PhaseView {
    Searching,
    Looking(PaperView),
    Saving(PaperView),
    Waiting,
    Finished,
}

/// The content of a fetch state.
pub struct FetchStateView {
    pub search: usize,
    pub pending: Seq<PaperView>,
    pub phase: PhaseView,
    pub count: usize,
}

/// The content of an event.
pub enum EventView {
    Results(Option<Seq<PaperView>>),
    Known(bool),
    Saved(bool),
    Waited,
}

/// The content of an action.
pub enum ActionView {
    SearchArxiv(Seq<char>, usize),
    SearchScholar(Seq<char>, usize),
    Lookup(Seq<char>),
    Save(PaperView),
    Wait(u64),
    Done(usize),
}

impl View for FetchState {
    type V = FetchStateView;

    open spec fn view(&self) -> FetchStateView {
        FetchStateView {
            search: self.search,
            pending: papers_view(self.pending@),
            phase: match self.phase {
                FetchPhase::Searching => PhaseView::Searching,
                FetchPhase::Looking(p) => PhaseView::Looking(p@),
                FetchPhase::Saving(p) => PhaseView::Saving(p@),
                FetchPhase::Waiting => PhaseView::Waiting,
                FetchPhase::Finished => PhaseView::Finished,
            },
            count: self.count,
        }
    }
}

impl View for FetchEvent {
    type V = EventView;

    open spec fn view(&self) -> EventView {
        match self {
            FetchEvent::Results(r) => EventView::Results(
                match r {
                    Some(ps) => Some(papers_view(ps@)),
                    None => None,
                },
            ),
            FetchEvent::Known(b) => EventView::Known(*b),
            FetchEvent::Saved(b) => EventView::Saved(*b),
            FetchEvent::Waited => EventView::Waited,
        }
    }
}

impl View for FetchAction {
    type V = ActionView;

    open spec fn view(&self) -> ActionView {
        match self {
            FetchAction::SearchArxiv { category, max } => ActionView::SearchArxiv(category@, *max),
            FetchAction::SearchScholar { keyword, max } => ActionView::SearchScholar(keyword@, *max),
            FetchAction::Lookup(id) => ActionView::Lookup(id@),
            FetchAction::Save(p) => ActionView::Save(p@),
            FetchAction::Wait(secs) => ActionView::Wait(*secs),
            FetchAction::Done(n) => ActionView::Done(*n),
        }
    }
}

/// How many searches a fetch makes: one per category, then one per keyword.
pub open spec fn search_count(v: SchedulerView) -> int {
    (v.categories.len() + v.keywords.len()) as int
}

/// Search `i` of a fetch: the categories in order, then the keywords, each for
/// three papers; past the last search, the end of the fetch.
pub open spec fn search_action(v: SchedulerView, i: int, count: usize) -> ActionView {
    if 0 <= i < v.categories.len() {
        ActionView::SearchArxiv(v.categories[i], PAPERS_PER_SEARCH)
    } else if v.categories.len() <= i < search_count(v) {
        ActionView::SearchScholar(v.keywords[i - v.categories.len()], PAPERS_PER_SEARCH)
    } else {
        ActionView::Done(count)
    }
}

/// The count after one more save, kept at the largest `usize`.
pub open spec fn one_more(count: usize) -> usize {
    if count < usize::MAX {
        (count + 1) as usize
    } else {
        count
    }
}

/// Going on with the papers left of search `search`: ask about the first one,
/// or pause when none is left.
pub open spec fn next_paper(search: usize, pending: Seq<PaperView>, count: usize) -> (FetchStateView, ActionView) {
    if pending.len() == 0 {
        (FetchStateView { search, pending, phase: PhaseView::Waiting, count }, ActionView::Wait(PAUSE_SECS))
    } else {
        (
            FetchStateView { search, pending: pending.drop_first(), phase: PhaseView::Looking(pending[0]), count },
            ActionView::Lookup(pending[0].id),
        )
    }
}

/// The request a state is waiting on.
pub open spec fn awaited(v: SchedulerView, s: FetchStateView) -> ActionView {
    match s.phase {
        PhaseView::Searching => search_action(v, s.search as int, s.count),
        PhaseView::Looking(p) => ActionView::Lookup(p.id),
        PhaseView::Saving(p) => ActionView::Save(p),
        PhaseView::Waiting => ActionView::Wait(PAUSE_SECS),
        PhaseView::Finished => ActionView::Done(s.count),
    }
}

/// One step of a background fetch. The results of a search are handled paper
/// by paper: the store is asked whether it holds the paper, and the paper is
/// saved only when it does not. A failed search, like a finished one, is
/// followed by the pause and then the next search; after the last one the
/// fetch ends with the number of papers saved (searches are counted in `usize`).
/// An answer the state does not
/// wait for changes nothing, and the awaited request is made again.
pub open spec fn fetch_transition(v: SchedulerView, s: FetchStateView, e: EventView) -> (FetchStateView, ActionView) {
    match (s.phase, e) {
        (PhaseView::Searching, EventView::Results(None)) => (
            FetchStateView { pending: Seq::empty(), phase: PhaseView::Waiting, ..s },
            ActionView::Wait(PAUSE_SECS),
        ),
        (PhaseView::Searching, EventView::Results(Some(ps))) => next_paper(s.search, ps, s.count),
        (PhaseView::Looking(p), EventView::Known(true)) => next_paper(s.search, s.pending, s.count),
        (PhaseView::Looking(p), EventView::Known(false)) => (
            FetchStateView { phase: PhaseView::Saving(p), ..s },
            ActionView::Save(p),
        ),
        (PhaseView::Saving(p), EventView::Saved(ok)) => next_paper(
            s.search,
            s.pending,
            if ok {
                one_more(s.count)
            } else {
                s.count
            },
        ),
        (PhaseView::Waiting, EventView::Waited) => if s.search + 1 < search_count(v) && s.search < usize::MAX {
            (
                FetchStateView { search: (s.search + 1) as usize, pending: Seq::empty(), phase: PhaseView::Searching, count: s.count },
                search_action(v, s.search + 1, s.count),
            )
        } else {
            (FetchStateView { phase: PhaseView::Finished, ..s }, ActionView::Done(s.count))
        },
        _ => (s, awaited(v, s)),
    }
}

/// A paper is saved only right after the store answered that it does not hold
/// it, or again while that save is still unanswered.
pub proof fn lemma_fetch_saves_only_unknown(v: SchedulerView, s: FetchStateView, e: EventView)
    ensures
        fetch_transition(v, s, e).1 matches ActionView::Save(p) ==> (s.phase == PhaseView::Looking(p) && e
            == EventView::Known(false)) || (s.phase == PhaseView::Saving(p) && !(e is Saved)),
{
}

/// A paper the store already holds is never saved again: after `Known(true)`
/// the fetch asks about the next paper or pauses, and its count stays.
pub proof fn lemma_fetch_known_not_saved(v: SchedulerView, s: FetchStateView)
    requires
        s.phase is Looking,
    ensures
        !(fetch_transition(v, s, EventView::Known(true)).1 is Save),
        fetch_transition(v, s, EventView::Known(true)).0.count == s.count,
{
}

/// The count of a fetch grows by one exactly on a confirmed save.
pub proof fn lemma_fetch_counts_saves(v: SchedulerView, s: FetchStateView, e: EventView)
    ensures
        fetch_transition(v, s, e).0.count == if s.phase is Saving && e == EventView::Saved(true) {
            one_more(s.count)
        } else {
            s.count
        },
{
}

/// A failed search does not stop the fetch: after the pause comes the next
/// search, or the end of the fetch after the last one.
pub proof fn lemma_fetch_failed_search_goes_on(v: SchedulerView, s: FetchStateView)
    requires
        s.phase is Searching,
    ensures
        fetch_transition(v, s, EventView::Results(None)).0.phase is Waiting,
        fetch_transition(v, s, EventView::Results(None)).0.search == s.search,
        s.search < usize::MAX ==> fetch_transition(v, fetch_transition(v, s, EventView::Results(None)).0, EventView::Waited).1
            == search_action(v, s.search + 1, s.count),
{
}

impl Scheduler {
    fn search_action_exec(&self, i: usize, count: usize) -> (r: FetchAction)
        ensures
            r@ == search_action(self@, i as int, count),
    {
        if i < self.categories.len() {
            FetchAction::SearchArxiv { category: self.categories[i].clone(), max: PAPERS_PER_SEARCH }
        } else if i - self.categories.len() < self.keywords.len() {
            FetchAction::SearchScholar {
                keyword: self.keywords[i - self.categories.len()].clone(),
                max: PAPERS_PER_SEARCH,
            }
        } else {
            FetchAction::Done(count)
        }
    }

    fn next_paper_exec(search: usize, pending: Vec<Paper>, count: usize) -> (r: (FetchState, FetchAction))
        ensures
            (r.0@, r.1@) == next_paper(search, papers_view(pending@), count),
    {
        let mut pending = pending;
        if pending.len() == 0 {
            (FetchState { search, pending, phase: FetchPhase::Waiting, count }, FetchAction::Wait(PAUSE_SECS))
        } else {
            let ghost before = pending@;
            let p = pending.remove(0);
            assert(papers_view(pending@) =~= papers_view(before).drop_first());
            let id = p.id.clone();
            (FetchState { search, pending, phase: FetchPhase::Looking(p), count }, FetchAction::Lookup(id))
        }
    }

    /// The first step of a background fetch: the first search, or the end when
    /// there is nothing to search.
    pub fn fetch_start(&self) -> (r: (FetchState, FetchAction))
        ensures
            r.0@ == (FetchStateView {
                search: 0,
                pending: Seq::empty(),
                phase: if search_count(self@) > 0 { PhaseView::Searching } else { PhaseView::Finished },
                count: 0,
            }),
            r.1@ == search_action(self@, 0, 0),
    {
        let pending: Vec<Paper> = Vec::new();
        assert(papers_view(pending@) =~= Seq::<PaperView>::empty());
        let phase = if self.categories.len() > 0 || self.keywords.len() > 0 {
            FetchPhase::Searching
        } else {
            FetchPhase::Finished
        };
        (FetchState { search: 0, pending, phase, count: 0 }, self.search_action_exec(0, 0))
    }

    /// The step of a background fetch after an answer.
    pub fn fetch_step(&self, s: FetchState, e: FetchEvent) -> (r: (FetchState, FetchAction))
        ensures
            (r.0@, r.1@) == fetch_transition(self@, s@, e@),
    {
        let ghost sv = s@;
        let FetchState { search, pending, phase, count } = s;
        match (phase, e) {
            (FetchPhase::Searching, FetchEvent::Results(None)) => {
                let empty: Vec<Paper> = Vec::new();
                assert(papers_view(empty@) =~= Seq::<PaperView>::empty());
                (FetchState { search, pending: empty, phase: FetchPhase::Waiting, count }, FetchAction::Wait(PAUSE_SECS))
            },
            (FetchPhase::Searching, FetchEvent::Results(Some(ps))) => Self::next_paper_exec(search, ps, count),
            (FetchPhase::Looking(p), FetchEvent::Known(true)) => Self::next_paper_exec(search, pending, count),
            (FetchPhase::Looking(p), FetchEvent::Known(false)) => {
                let q = p.copy();
                (FetchState { search, pending, phase: FetchPhase::Saving(p), count }, FetchAction::Save(q))
            },
            (FetchPhase::Saving(p), FetchEvent::Saved(ok)) => {
                let c = if ok && count < usize::MAX {
                    count + 1
                } else {
                    count
                };
                Self::next_paper_exec(search, pending, c)
            },
            (FetchPhase::Waiting, FetchEvent::Waited) => {
                let more = if search < self.categories.len() {
                    search + 1 < self.categories.len() || self.keywords.len() > 0
                } else {
                    search - self.categories.len() < self.keywords.len()
                        && search - self.categories.len() + 1 < self.keywords.len()
                };
                if more && search < usize::MAX {
                    let empty: Vec<Paper> = Vec::new();
                    assert(papers_view(empty@) =~= Seq::<PaperView>::empty());
                    let a = self.search_action_exec(search + 1, count);
                    (FetchState { search: search + 1, pending: empty, phase: FetchPhase::Searching, count }, a)
                } else {
                    (FetchState { search, pending, phase: FetchPhase::Finished, count }, FetchAction::Done(count))
                }
            },
            (phase, _) => {
                let a = match &phase {
                    FetchPhase::Searching => self.search_action_exec(search, count),
                    FetchPhase::Looking(p) => FetchAction::Lookup(p.id.clone()),
                    FetchPhase::Saving(p) => FetchAction::Save(p.copy()),
                    FetchPhase::Waiting => FetchAction::Wait(PAUSE_SECS),
                    FetchPhase::Finished => FetchAction::Done(count),
                };
                (FetchState { search, pending, phase, count }, a)
            },
        }
    }
}

} // verus!
