//! Navigation state: where the user currently is in the remote hierarchy,
//! what is on screen, and the transitions that move between locations.
//!
//! Every transition that needs the network is split in two verified halves:
//! a *request* function that says which path must be fetched, and a
//! transition that takes the outcome of that fetch as a plain value and
//! produces the next state. The dispatcher performs the fetch in between,
//! so each transition is verified for every outcome the network can hand
//! back.

use vstd::prelude::*;

use crate::text::count_lines;
use crate::text::ends_with_slash;
use crate::text::prefix_of;
use crate::text::rfind_slash;
use crate::text::spec_ends_with_slash;
use crate::text::spec_lines_count;
use crate::text::spec_rfind_slash;
use crate::text::spec_strip_trailing_slashes;
use crate::text::strip_trailing_slashes;

verus! {

/// One row of a remote directory listing. A `size` of -1 marks a directory;
/// any other value is a file's byte count.
#[derive(Debug)]
pub struct Item {
    pub name: String,
    pub size: i64,
}

/// Mathematical value of an [`Item`].
pub struct ItemModel {
    pub name: Seq<char>,
    pub size: int,
}

impl View for Item {
    type V = ItemModel;

    open spec fn view(&self) -> ItemModel {
        ItemModel { name: self.name@, size: self.size as int }
    }
}

impl DeepView for Item {
    type V = ItemModel;

    open spec fn deep_view(&self) -> ItemModel {
        self.view()
    }
}

impl Clone for Item {
    fn clone(&self) -> (r: Self)
        ensures
            r == *self,
    {
        Item { name: self.name.clone(), size: self.size }
    }
}

impl Item {
    /// Whether this entry names a directory (size sentinel -1).
    pub fn is_dir(&self) -> (r: bool)
        ensures
            r == (self@.size == -1),
    {
        self.size == -1
    }
}

/// Which kind of content the current location holds.
#[derive(Debug, Clone, Copy, PartialEq, Eq, Structural)]
pub enum ContentState {
    /// A directory listing.
    ItemList,
    /// Line-oriented file text.
    FileChunk,
}

/// What is currently displayed: a directory listing or a file's text.
/// The two are mutually exclusive by construction.
#[derive(Debug)]
pub enum Content {
    Listing(Vec<Item>),
    Text(String),
}

/// Mathematical value of a [`Content`].
pub enum ContentModel {
    Listing(Seq<ItemModel>),
    Text(Seq<char>),
}

impl View for Content {
    type V = ContentModel;

    open spec fn view(&self) -> ContentModel {
        match self {
            Content::Listing(items) => ContentModel::Listing(items.deep_view()),
            Content::Text(s) => ContentModel::Text(s@),
        }
    }
}

/// Number of cursor rows the content offers: entries of a listing, or
/// display lines of a text.
pub open spec fn spec_content_count(c: ContentModel) -> int {
    match c {
        ContentModel::Listing(rows) => rows.len() as int,
        ContentModel::Text(t) => spec_lines_count(t) as int,
    }
}

/// Counts the cursor rows of `c`; see [`spec_content_count`].
pub fn content_rows(c: &Content) -> (n: usize)
    ensures
        n as int == spec_content_count(c@),
{
    match c {
        Content::Listing(items) => items.len(),
        Content::Text(s) => count_lines(s.as_str()),
    }
}

/// Why a fetch failed.
#[derive(Debug, Clone, Copy, PartialEq, Eq, Structural)]
pub enum FetchError {
    /// Connection failure or a non-success HTTP status.
    Transport,
    /// The response body was not a well-formed listing.
    Decode,
}

/// The result of one network fetch, as the dispatcher hands it to a
/// transition: a listing, a text body, or a typed failure.
#[derive(Debug)]
pub enum FetchOutcome {
    Listing(Vec<Item>),
    Text(String),
    Failed(FetchError),
}

/// Mathematical value of a [`FetchOutcome`].
pub enum OutcomeModel {
    Listing(Seq<ItemModel>),
    Text(Seq<char>),
    Failed(FetchError),
}

impl View for FetchOutcome {
    type V = OutcomeModel;

    open spec fn view(&self) -> OutcomeModel {
        match self {
            FetchOutcome::Listing(items) => OutcomeModel::Listing(items.deep_view()),
            FetchOutcome::Text(s) => OutcomeModel::Text(s@),
            FetchOutcome::Failed(e) => OutcomeModel::Failed(*e),
        }
    }
}

/// An outcome's content fits the state's cursor arithmetic: row counts stay
/// within `i32` so indices can be reported alongside the -1 "no state"
/// sentinel.
pub open spec fn spec_outcome_fits(o: OutcomeModel) -> bool {
    match o {
        OutcomeModel::Listing(rows) => rows.len() <= i32::MAX,
        OutcomeModel::Text(t) => spec_lines_count(t) <= i32::MAX,
        OutcomeModel::Failed(_) => true,
    }
}

/// Decides [`spec_outcome_fits`] for a concrete outcome, so an unverified
/// caller can establish it before handing the outcome to a transition.
pub fn outcome_fits(o: &FetchOutcome) -> (r: bool)
    ensures
        r == spec_outcome_fits(o@),
{
    match o {
        FetchOutcome::Listing(items) => items.len() <= i32::MAX as usize,
        FetchOutcome::Text(s) => count_lines(s.as_str()) <= i32::MAX as usize,
        FetchOutcome::Failed(_) => true,
    }
}

/// One fetch the dispatcher must perform: which path, and whether a listing
/// or a file body is expected there.
#[derive(Debug)]
pub struct FetchRequest {
    pub url: String,
    pub kind: ContentState,
}

/// The fields of the `Initialized` navigation state.
#[derive(Debug)]
pub struct NavState {
    /// Seconds between dispatcher ticks, clamped to `[1, 10]`.
    pub duration_secs: u64,
    /// How many `Sleep` commands have completed.
    pub counter_sleep: u32,
    /// How many render ticks have elapsed.
    pub counter_tick: u64,
    /// Logical address of the node whose content is displayed.
    pub current_url: String,
    /// Cursor row inside the content.
    pub current_index: usize,
    /// The cursor row before the last move, kept for highlight transitions.
    pub last_index: usize,
    /// What the current node holds.
    pub content: Content,
    /// First visible content row.
    pub frame_start: usize,
    /// One past the last visible content row.
    pub frame_end: usize,
}

/// Mathematical value of a [`NavState`].
pub struct NavModel {
    pub duration: int,
    pub sleeps: int,
    pub ticks: int,
    pub url: Seq<char>,
    pub cursor: int,
    pub last: int,
    pub content: ContentModel,
    pub frame_start: int,
    pub frame_end: int,
}

impl View for NavState {
    type V = NavModel;

    open spec fn view(&self) -> NavModel {
        NavModel {
            duration: self.duration_secs as int,
            sleeps: self.counter_sleep as int,
            ticks: self.counter_tick as int,
            url: self.current_url@,
            cursor: self.current_index as int,
            last: self.last_index as int,
            content: self.content@,
            frame_start: self.frame_start as int,
            frame_end: self.frame_end as int,
        }
    }
}

impl NavModel {
    /// Number of cursor rows of the current content.
    pub open spec fn count(self) -> int {
        spec_content_count(self.content)
    }

    /// Internal consistency of a located state: the delay is clamped, the
    /// cursor and the remembered cursor address an existing row (or 0 when
    /// the content is empty), and the viewport is an in-bounds window.
    pub open spec fn wf(self) -> bool {
        &&& 1 <= self.duration <= 10
        &&& self.count() <= i32::MAX
        &&& (if self.count() == 0 {
            self.cursor == 0 && self.last == 0
        } else {
            0 <= self.cursor < self.count() && 0 <= self.last < self.count()
        })
        &&& 0 <= self.frame_start <= self.frame_end <= self.count()
    }
}

/// Mathematical value of an [`AppState`].
pub enum StateModel {
    Init,
    Located(NavModel),
}

impl StateModel {
    /// The located fields; meaningful only under `self is Located`.
    pub open spec fn nav(self) -> NavModel
        recommends
            self is Located,
    {
        match self {
            StateModel::Located(nv) => nv,
            StateModel::Init => arbitrary(),
        }
    }

    /// Internal consistency; `Init` is always consistent.
    pub open spec fn wf(self) -> bool {
        match self {
            StateModel::Init => true,
            StateModel::Located(nv) => nv.wf(),
        }
    }
}

/// The navigation state machine: either nothing has been located yet, or a
/// located node with its content, cursor and viewport.
#[derive(Debug)]
pub enum AppState {
    Init,
    Initialized(NavState),
}

impl View for AppState {
    type V = StateModel;

    open spec fn view(&self) -> StateModel {
        match self {
            AppState::Init => StateModel::Init,
            AppState::Initialized(ns) => StateModel::Located(ns@),
        }
    }
}

/// Cursor position after one move by `delta`, clamped into `[0, n-1]`
/// (or pinned to 0 when the content is empty).
pub open spec fn spec_clamped_step(cursor: int, delta: int, n: int) -> int {
    if n <= 0 {
        0
    } else if cursor + delta < 0 {
        0
    } else if cursor + delta > n - 1 {
        n - 1
    } else {
        cursor + delta
    }
}

/// One cursor move by `delta` (+1 down, -1 up). Purely local: the cursor is
/// clamped, the previous cursor is remembered, and a sized viewport slides
/// by `delta` when the cursor leaves it — but only while the window is
/// strictly smaller than the content. An empty content or an unlocated
/// state is left untouched.
pub open spec fn spec_move(s: StateModel, delta: int) -> StateModel {
    match s {
        StateModel::Init => s,
        StateModel::Located(nv) => {
            let n = nv.count();
            if n == 0 {
                s
            } else {
                let cursor = spec_clamped_step(nv.cursor, delta, n);
                let sized = nv.frame_start < nv.frame_end;
                let scrollable = sized && n > nv.frame_end - nv.frame_start;
                let shift = if scrollable && delta > 0 && cursor >= nv.frame_end {
                    1int
                } else if scrollable && delta < 0 && cursor < nv.frame_start {
                    -1int
                } else {
                    0int
                };
                StateModel::Located(
                    NavModel {
                        cursor,
                        last: nv.cursor,
                        frame_start: nv.frame_start + shift,
                        frame_end: nv.frame_end + shift,
                        ..nv
                    },
                )
            }
        },
    }
}

/// The same located state with `url` and `content` swapped in and the
/// cursor and viewport reset; delay and counters are kept. This is the
/// atomic replacement a successful descend or ascend performs.
pub open spec fn spec_replace(nv: NavModel, url: Seq<char>, c: ContentModel) -> NavModel {
    NavModel { url, content: c, cursor: 0, last: 0, frame_start: 0, frame_end: 0, ..nv }
}

/// The state an initialize transition produces: a location is entered only
/// when the fetched content kind agrees with what the path's shape asked
/// for (a trailing separator means a listing); anything else leaves the
/// session unlocated.
pub open spec fn spec_initialized(url: Seq<char>, o: OutcomeModel) -> StateModel {
    let fresh = NavModel {
        duration: 1,
        sleeps: 0,
        ticks: 0,
        url: url,
        cursor: 0,
        last: 0,
        content: ContentModel::Listing(Seq::empty()),
        frame_start: 0,
        frame_end: 0,
    };
    match o {
        OutcomeModel::Listing(rows) => if spec_ends_with_slash(url) {
            StateModel::Located(NavModel { content: ContentModel::Listing(rows), ..fresh })
        } else {
            StateModel::Init
        },
        OutcomeModel::Text(t) => if !spec_ends_with_slash(url) {
            StateModel::Located(NavModel { content: ContentModel::Text(t), ..fresh })
        } else {
            StateModel::Init
        },
        OutcomeModel::Failed(_) => StateModel::Init,
    }
}

/// The path a descend from `nv` would fetch, with `true` for a directory
/// target: the entry under the cursor appended to the current path, plus a
/// trailing separator when the entry is a directory. `None` when the
/// current content is not a listing or the listing is empty.
pub open spec fn spec_step_target(nv: NavModel) -> Option<(Seq<char>, bool)> {
    match nv.content {
        ContentModel::Listing(rows) => if rows.len() == 0 || !(0 <= nv.cursor < rows.len()) {
            None
        } else {
            let entry = rows[nv.cursor];
            if entry.size == -1 {
                Some((nv.url + entry.name + seq!['/'], true))
            } else {
                Some((nv.url + entry.name, false))
            }
        },
        ContentModel::Text(_) => None,
    }
}

/// One descend step given the fetch outcome for its target: on a matching
/// successful outcome the content and path are replaced and cursor and
/// viewport reset; on a failure, a mismatched outcome, or when there is
/// nothing to descend into, the state is unchanged.
pub open spec fn spec_step_into(s: StateModel, o: OutcomeModel) -> StateModel {
    match s {
        StateModel::Init => s,
        StateModel::Located(nv) => match spec_step_target(nv) {
            None => s,
            Some((target, is_dir)) => match o {
                OutcomeModel::Listing(rows) => if is_dir {
                    StateModel::Located(spec_replace(nv, target, ContentModel::Listing(rows)))
                } else {
                    s
                },
                OutcomeModel::Text(t) => if !is_dir {
                    StateModel::Located(spec_replace(nv, target, ContentModel::Text(t)))
                } else {
                    s
                },
                OutcomeModel::Failed(_) => s,
            },
        },
    }
}

/// The parent path of `url`: trailing separators dropped, then everything
/// after the last remaining separator cut off, keeping that separator.
/// `None` when no separator remains — the path is already at its root.
pub open spec fn spec_parent(url: Seq<char>) -> Option<Seq<char>> {
    let base = spec_strip_trailing_slashes(url);
    let i = spec_rfind_slash(base);
    if i < 0 {
        None
    } else {
        Some(base.subrange(0, i + 1))
    }
}

/// One ascend step given the fetch outcome for the parent path. An ascend
/// always returns to a directory listing; any other outcome, or a path
/// already at its root, leaves the state unchanged.
pub open spec fn spec_back(s: StateModel, o: OutcomeModel) -> StateModel {
    match s {
        StateModel::Init => s,
        StateModel::Located(nv) => match spec_parent(nv.url) {
            None => s,
            Some(parent) => match o {
                OutcomeModel::Listing(rows) => StateModel::Located(
                    spec_replace(nv, parent, ContentModel::Listing(rows)),
                ),
                _ => s,
            },
        },
    }
}

/// A refresh of the current path given its fetch outcome: the content is
/// replaced in place, cursor and viewport reset, the delay returns to its
/// initial second and the sleep counter to zero; the tick counter and the
/// path survive. A failure leaves the state unchanged.
pub open spec fn spec_update(s: StateModel, o: OutcomeModel) -> StateModel {
    match s {
        StateModel::Init => s,
        StateModel::Located(nv) => match o {
            OutcomeModel::Listing(rows) => StateModel::Located(
                NavModel {
                    duration: 1,
                    sleeps: 0,
                    ..spec_replace(nv, nv.url, ContentModel::Listing(rows))
                },
            ),
            OutcomeModel::Text(t) => StateModel::Located(
                NavModel { duration: 1, sleeps: 0, ..spec_replace(nv, nv.url, ContentModel::Text(t)) },
            ),
            OutcomeModel::Failed(_) => s,
        },
    }
}

/// The delay after one adjustment by `delta` seconds, clamped into
/// `[1, 10]` at both ends.
pub open spec fn spec_adjusted_delay(duration: int, delta: int) -> int {
    if duration + delta < 1 {
        1
    } else if duration + delta > 10 {
        10
    } else {
        duration + delta
    }
}

/// One completed sleep: the sleep counter bumped, everything else
/// unchanged; an unlocated state is left untouched.
pub open spec fn spec_slept(s: StateModel) -> StateModel {
    match s {
        StateModel::Init => s,
        StateModel::Located(nv) => StateModel::Located(NavModel { sleeps: nv.sleeps + 1, ..nv }),
    }
}

/// One render tick: the tick counter bumped, everything else unchanged;
/// an unlocated state is left untouched.
pub open spec fn spec_ticked(s: StateModel) -> StateModel {
    match s {
        StateModel::Init => s,
        StateModel::Located(nv) => StateModel::Located(NavModel { ticks: nv.ticks + 1, ..nv }),
    }
}

/// One delay adjustment by `delta` seconds; everything else is unchanged,
/// and an unlocated state is left untouched.
pub open spec fn spec_adjust_delay(s: StateModel, delta: int) -> StateModel {
    match s {
        StateModel::Init => s,
        StateModel::Located(nv) => StateModel::Located(
            NavModel { duration: spec_adjusted_delay(nv.duration, delta), ..nv },
        ),
    }
}

impl Default for AppState {
    /// A fresh session starts with nothing located.
    fn default() -> (r: Self)
        ensures
            r@ is Init,
    {
        AppState::Init
    }
}

impl AppState {
    /// Whether a location has been entered.
    pub fn is_initialized(&self) -> (r: bool)
        ensures
            r == (self@ is Located),
    {
        matches!(self, AppState::Initialized(_))
    }

    /// Bumps the completed-sleeps counter; nothing else changes.
    pub fn incr_sleep(&mut self)
        requires
            old(self)@ is Located ==> old(self)@.nav().sleeps < u32::MAX,
        ensures
            final(self)@ == spec_slept(old(self)@),
    {
        match self {
            AppState::Init => {},
            AppState::Initialized(ns) => {
                ns.counter_sleep = ns.counter_sleep + 1;
            },
        }
    }

    /// Bumps the render-tick counter; nothing else changes.
    pub fn incr_tick(&mut self)
        requires
            old(self)@ is Located ==> old(self)@.nav().ticks < u64::MAX,
        ensures
            final(self)@ == spec_ticked(old(self)@),
    {
        match self {
            AppState::Init => {},
            AppState::Initialized(ns) => {
                ns.counter_tick = ns.counter_tick + 1;
            },
        }
    }

    /// The cursor row, or -1 when nothing is located.
    pub fn get_index(&self) -> (r: i32)
        requires
            self@.wf(),
        ensures
            r as int == match self@ {
                StateModel::Init => -1,
                StateModel::Located(nv) => nv.cursor,
            },
    {
        match self {
            AppState::Init => -1,
            AppState::Initialized(ns) => ns.current_index as i32,
        }
    }

    /// The cursor row before the last move, or -1 when nothing is located.
    pub fn get_last_index(&self) -> (r: i32)
        requires
            self@.wf(),
        ensures
            r as int == match self@ {
                StateModel::Init => -1,
                StateModel::Located(nv) => nv.last,
            },
    {
        match self {
            AppState::Init => -1,
            AppState::Initialized(ns) => ns.last_index as i32,
        }
    }

    /// Sets the viewport window; the renderer calls this once it knows the
    /// available height. Ignored while nothing is located.
    pub fn set_frame(&mut self, start: usize, end: usize)
        requires
            old(self)@.wf(),
            old(self)@ is Located ==> start <= end <= old(self)@.nav().count(),
        ensures
            final(self)@ == match old(self)@ {
                StateModel::Init => old(self)@,
                StateModel::Located(nv) => StateModel::Located(
                    NavModel { frame_start: start as int, frame_end: end as int, ..nv },
                ),
            },
            final(self)@.wf(),
    {
        match self {
            AppState::Init => {},
            AppState::Initialized(ns) => {
                ns.frame_start = start;
                ns.frame_end = end;
            },
        }
    }

    /// The viewport window, or `(0, 0)` when nothing is located.
    pub fn get_frame(&self) -> (r: (usize, usize))
        ensures
            (r.0 as int, r.1 as int) == match self@ {
                StateModel::Init => (0int, 0int),
                StateModel::Located(nv) => (nv.frame_start, nv.frame_end),
            },
    {
        match self {
            AppState::Init => (0, 0),
            AppState::Initialized(ns) => (ns.frame_start, ns.frame_end),
        }
    }

    /// The rows of the current listing, or an empty vector when the current
    /// content is a file text or nothing is located.
    pub fn rows(&self) -> (r: Vec<Item>)
        ensures
            r.deep_view() == match self@ {
                StateModel::Located(nv) => match nv.content {
                    ContentModel::Listing(rows) => rows,
                    ContentModel::Text(_) => Seq::<ItemModel>::empty(),
                },
                StateModel::Init => Seq::<ItemModel>::empty(),
            },
    {
        match self {
            AppState::Initialized(ns) => match &ns.content {
                Content::Listing(items) => {
                    let r = items.clone();
                    proof {
                        assert(r.deep_view() =~= items.deep_view());
                    }
                    r
                },
                Content::Text(_) => {
                    let r = Vec::new();
                    proof {
                        assert(r.deep_view() =~= Seq::<ItemModel>::empty());
                    }
                    r
                },
            },
            AppState::Init => {
                let r = Vec::new();
                proof {
                    assert(r.deep_view() =~= Seq::<ItemModel>::empty());
                }
                r
            },
        }
    }

    /// How many sleeps have completed, when located.
    pub fn count_sleep(&self) -> (r: Option<u32>)
        ensures
            match self@ {
                StateModel::Init => r is None,
                StateModel::Located(nv) => r matches Some(c) && c as int == nv.sleeps,
            },
    {
        match self {
            AppState::Init => None,
            AppState::Initialized(ns) => Some(ns.counter_sleep),
        }
    }

    /// How many render ticks have elapsed, when located.
    pub fn count_tick(&self) -> (r: Option<u64>)
        ensures
            match self@ {
                StateModel::Init => r is None,
                StateModel::Located(nv) => r matches Some(c) && c as int == nv.ticks,
            },
    {
        match self {
            AppState::Init => None,
            AppState::Initialized(ns) => Some(ns.counter_tick),
        }
    }

    /// The request delay in seconds, when located.
    pub fn duration(&self) -> (r: Option<u64>)
        ensures
            match self@ {
                StateModel::Init => r is None,
                StateModel::Located(nv) => r matches Some(d) && d as int == nv.duration,
            },
    {
        match self {
            AppState::Init => None,
            AppState::Initialized(ns) => Some(ns.duration_secs),
        }
    }

    /// Lengthens the request delay by one second, clamped at ten.
    pub fn increment_delay(&mut self)
        requires
            old(self)@.wf(),
        ensures
            final(self)@ == spec_adjust_delay(old(self)@, 1),
            final(self)@.wf(),
    {
        match self {
            AppState::Init => {},
            AppState::Initialized(ns) => {
                let secs = ns.duration_secs + 1;
                ns.duration_secs = if secs > 10 {
                    10
                } else {
                    secs
                };
            },
        }
    }

    /// Shortens the request delay by one second, clamped at one.
    pub fn decrement_delay(&mut self)
        requires
            old(self)@.wf(),
        ensures
            final(self)@ == spec_adjust_delay(old(self)@, -1),
            final(self)@.wf(),
    {
        match self {
            AppState::Init => {},
            AppState::Initialized(ns) => {
                if ns.duration_secs > 1 {
                    ns.duration_secs = ns.duration_secs - 1;
                }
            },
        }
    }

    /// Puts the cursor back on the first row and marks the viewport as not
    /// yet sized, so the renderer recomputes it on the next draw.
    pub fn reset_frame(&mut self)
        requires
            old(self)@.wf(),
        ensures
            final(self)@ == match old(self)@ {
                StateModel::Init => old(self)@,
                StateModel::Located(nv) => StateModel::Located(
                    NavModel { cursor: 0, frame_start: 0, frame_end: 0, ..nv },
                ),
            },
            final(self)@.wf(),
    {
        match self {
            AppState::Init => {},
            AppState::Initialized(ns) => {
                ns.current_index = 0;
                ns.frame_start = 0;
                ns.frame_end = 0;
            },
        }
    }

    /// The logical address of the node whose content is displayed, when
    /// located.
    pub fn current_path(&self) -> (r: Option<String>)
        ensures
            match self@ {
                StateModel::Init => r is None,
                StateModel::Located(nv) => r matches Some(url) && url@ == nv.url,
            },
    {
        match self {
            AppState::Init => None,
            AppState::Initialized(ns) => Some(ns.current_url.clone()),
        }
    }

    /// Which kind of content is displayed. Meaningful only once located.
    pub fn get_state(&self) -> (r: ContentState)
        requires
            self@ is Located,
        ensures
            r == ContentState::ItemList <==> self@.nav().content is Listing,
    {
        match self {
            AppState::Initialized(ns) => match &ns.content {
                Content::Listing(_) => ContentState::ItemList,
                Content::Text(_) => ContentState::FileChunk,
            },
            AppState::Init => ContentState::FileChunk,
        }
    }

    /// The fetch an initialize transition needs for `url`: a listing when
    /// the path ends in the separator, a file body otherwise.
    pub fn initial_request(url: &str) -> (r: FetchRequest)
        ensures
            r.url@ == url@,
            r.kind == ContentState::ItemList <==> spec_ends_with_slash(url@),
    {
        let kind = if ends_with_slash(url) {
            ContentState::ItemList
        } else {
            ContentState::FileChunk
        };
        FetchRequest { url: url.to_owned(), kind }
    }

    /// Enters the starting location, given the outcome of the fetch that
    /// [`AppState::initial_request`] asked for; see [`spec_initialized`].
    pub fn initialized(url: String, outcome: FetchOutcome) -> (s: Self)
        requires
            spec_outcome_fits(outcome@),
        ensures
            s@ == spec_initialized(url@, outcome@),
            s@.wf(),
    {
        let is_listing = ends_with_slash(url.as_str());
        match outcome {
            FetchOutcome::Listing(items) => {
                if is_listing {
                    AppState::Initialized(
                        NavState {
                            duration_secs: 1,
                            counter_sleep: 0,
                            counter_tick: 0,
                            current_url: url,
                            current_index: 0,
                            last_index: 0,
                            content: Content::Listing(items),
                            frame_start: 0,
                            frame_end: 0,
                        },
                    )
                } else {
                    AppState::Init
                }
            },
            FetchOutcome::Text(chunk) => {
                if !is_listing {
                    AppState::Initialized(
                        NavState {
                            duration_secs: 1,
                            counter_sleep: 0,
                            counter_tick: 0,
                            current_url: url,
                            current_index: 0,
                            last_index: 0,
                            content: Content::Text(chunk),
                            frame_start: 0,
                            frame_end: 0,
                        },
                    )
                } else {
                    AppState::Init
                }
            },
            FetchOutcome::Failed(_) => AppState::Init,
        }
    }

    /// Swaps `url` and `content` into a located state and resets cursor and
    /// viewport; delay and counters survive.
    fn replace_content(&mut self, url: String, content: Content)
        requires
            old(self)@ is Located,
            spec_content_count(content@) <= i32::MAX,
        ensures
            final(self)@ == StateModel::Located(
                spec_replace(old(self)@.nav(), url@, content@),
            ),
            final(self)@.nav().wf() == (1 <= old(self)@.nav().duration <= 10),
    {
        match self {
            AppState::Init => {},
            AppState::Initialized(ns) => {
                ns.current_url = url;
                ns.content = content;
                ns.current_index = 0;
                ns.last_index = 0;
                ns.frame_start = 0;
                ns.frame_end = 0;
            },
        }
    }

    /// The fetch a descend from the current state needs: the path of the
    /// entry under the cursor, expecting a listing for a directory entry
    /// and a file body otherwise. `None` when the current content is not a
    /// listing, the listing is empty, or nothing is located — descending is
    /// then a no-op.
    pub fn step_into_request(&self) -> (r: Option<FetchRequest>)
        requires
            self@.wf(),
        ensures
            match self@ {
                StateModel::Init => r is None,
                StateModel::Located(nv) => match spec_step_target(nv) {
                    None => r is None,
                    Some((target, is_dir)) => r matches Some(req) && req.url@ == target && (
                    req.kind == ContentState::ItemList <==> is_dir),
                },
            },
    {
        match self {
            AppState::Init => None,
            AppState::Initialized(ns) => match &ns.content {
                Content::Text(_) => None,
                Content::Listing(items) => {
                    if items.len() == 0 {
                        None
                    } else {
                        let entry = &items[ns.current_index];
                        let mut url = ns.current_url.clone();
                        url.append(entry.name.as_str());
                        if entry.is_dir() {
                            url.append("/");
                            proof {
                                reveal_strlit("/");
                                assert(url@ =~= ns.current_url@ + entry.name@ + seq!['/']);
                            }
                            Some(FetchRequest { url, kind: ContentState::ItemList })
                        } else {
                            Some(FetchRequest { url, kind: ContentState::FileChunk })
                        }
                    }
                },
            },
        }
    }

    /// One descend step, given the outcome of the fetch that
    /// [`AppState::step_into_request`] asked for; see [`spec_step_into`].
    pub fn step_into(&mut self, outcome: FetchOutcome)
        requires
            old(self)@.wf(),
            spec_outcome_fits(outcome@),
        ensures
            final(self)@ == spec_step_into(old(self)@, outcome@),
            final(self)@.wf(),
    {
        let req = self.step_into_request();
        match req {
            None => {},
            Some(req) => {
                match outcome {
                    FetchOutcome::Listing(items) => {
                        if matches!(req.kind, ContentState::ItemList) {
                            self.replace_content(req.url, Content::Listing(items));
                        }
                    },
                    FetchOutcome::Text(chunk) => {
                        if matches!(req.kind, ContentState::FileChunk) {
                            self.replace_content(req.url, Content::Text(chunk));
                        }
                    },
                    FetchOutcome::Failed(_) => {},
                }
            },
        }
    }

    /// The fetch an ascend from the current state needs: the parent path,
    /// always expecting a listing. `None` when the path is already at its
    /// root or nothing is located — ascending is then a no-op.
    pub fn back_request(&self) -> (r: Option<FetchRequest>)
        ensures
            match self@ {
                StateModel::Init => r is None,
                StateModel::Located(nv) => match spec_parent(nv.url) {
                    None => r is None,
                    Some(parent) => r matches Some(req) && req.url@ == parent && req.kind
                        == ContentState::ItemList,
                },
            },
    {
        match self {
            AppState::Init => None,
            AppState::Initialized(ns) => {
                let base = strip_trailing_slashes(ns.current_url.as_str());
                match rfind_slash(base.as_str()) {
                    None => None,
                    Some(i) => {
                        proof {
                            crate::text::lemma_rfind_slash_in_range(base@);
                        }
                        let url = prefix_of(base.as_str(), i + 1);
                        Some(FetchRequest { url, kind: ContentState::ItemList })
                    },
                }
            },
        }
    }

    /// One ascend step, given the outcome of the fetch that
    /// [`AppState::back_request`] asked for; see [`spec_back`].
    pub fn back_to_previours(&mut self, outcome: FetchOutcome)
        requires
            old(self)@.wf(),
            spec_outcome_fits(outcome@),
        ensures
            final(self)@ == spec_back(old(self)@, outcome@),
            final(self)@.wf(),
    {
        let req = self.back_request();
        match (req, outcome) {
            (Some(req), FetchOutcome::Listing(items)) => {
                self.replace_content(req.url, Content::Listing(items));
            },
            _ => {},
        }
    }

    /// The fetch a refresh of the current location needs: the current path
    /// with its current content kind. `None` while nothing is located.
    pub fn refetch_request(&self) -> (r: Option<FetchRequest>)
        ensures
            match self@ {
                StateModel::Init => r is None,
                StateModel::Located(nv) => r matches Some(req) && req.url@ == nv.url && (req.kind
                    == ContentState::ItemList <==> nv.content is Listing),
            },
    {
        match self {
            AppState::Init => None,
            AppState::Initialized(ns) => {
                let kind = match &ns.content {
                    Content::Listing(_) => ContentState::ItemList,
                    Content::Text(_) => ContentState::FileChunk,
                };
                Some(FetchRequest { url: ns.current_url.clone(), kind })
            },
        }
    }

    /// Re-installs freshly fetched content for the current path; see
    /// [`spec_update`].
    pub fn update_state(&mut self, outcome: FetchOutcome)
        requires
            old(self)@.wf(),
            spec_outcome_fits(outcome@),
        ensures
            final(self)@ == spec_update(old(self)@, outcome@),
            final(self)@.wf(),
    {
        match self {
            AppState::Init => {},
            AppState::Initialized(ns) => {
                match outcome {
                    FetchOutcome::Listing(items) => {
                        ns.content = Content::Listing(items);
                        ns.current_index = 0;
                        ns.last_index = 0;
                        ns.frame_start = 0;
                        ns.frame_end = 0;
                        ns.duration_secs = 1;
                        ns.counter_sleep = 0;
                    },
                    FetchOutcome::Text(chunk) => {
                        ns.content = Content::Text(chunk);
                        ns.current_index = 0;
                        ns.last_index = 0;
                        ns.frame_start = 0;
                        ns.frame_end = 0;
                        ns.duration_secs = 1;
                        ns.counter_sleep = 0;
                    },
                    FetchOutcome::Failed(_) => {},
                }
            },
        }
    }

    /// Moves the cursor one row up; see [`spec_move`].
    pub fn move_up(&mut self)
        requires
            old(self)@.wf(),
        ensures
            final(self)@ == spec_move(old(self)@, -1),
            final(self)@.wf(),
    {
        match self {
            AppState::Init => {},
            AppState::Initialized(ns) => {
                let n = content_rows(&ns.content);
                if n > 0 {
                    ns.last_index = ns.current_index;
                    let cursor = if ns.current_index > 0 {
                        ns.current_index - 1
                    } else {
                        0
                    };
                    ns.current_index = cursor;
                    if ns.frame_start < ns.frame_end && n > ns.frame_end - ns.frame_start && cursor
                        < ns.frame_start {
                        ns.frame_start = ns.frame_start - 1;
                        ns.frame_end = ns.frame_end - 1;
                    }
                }
            },
        }
    }

    /// Moves the cursor one row down; see [`spec_move`].
    pub fn move_down(&mut self)
        requires
            old(self)@.wf(),
        ensures
            final(self)@ == spec_move(old(self)@, 1),
            final(self)@.wf(),
    {
        match self {
            AppState::Init => {},
            AppState::Initialized(ns) => {
                let n = content_rows(&ns.content);
                if n > 0 {
                    ns.last_index = ns.current_index;
                    let cursor = if ns.current_index + 1 > n - 1 {
                        n - 1
                    } else {
                        ns.current_index + 1
                    };
                    ns.current_index = cursor;
                    if ns.frame_start < ns.frame_end && n > ns.frame_end - ns.frame_start && cursor
                        >= ns.frame_end {
                        ns.frame_start = ns.frame_start + 1;
                        ns.frame_end = ns.frame_end + 1;
                    }
                }
            },
        }
    }

    /// Sizes a not-yet-sized viewport to at most `rows` visible rows,
    /// starting at the top. A window that is already sized, an empty
    /// content, and an unlocated state are left untouched.
    pub fn fit_frame(&mut self, rows: usize)
        requires
            old(self)@.wf(),
        ensures
            final(self)@ == match old(self)@ {
                StateModel::Init => old(self)@,
                StateModel::Located(nv) => if nv.frame_start == 0 && nv.frame_end == 0 {
                    StateModel::Located(
                        NavModel {
                            frame_end: if nv.count() < rows as int {
                                nv.count()
                            } else {
                                rows as int
                            },
                            ..nv
                        },
                    )
                } else {
                    old(self)@
                },
            },
            final(self)@.wf(),
    {
        match self {
            AppState::Init => {},
            AppState::Initialized(ns) => {
                if ns.frame_start == 0 && ns.frame_end == 0 {
                    let n = content_rows(&ns.content);
                    ns.frame_end = if n < rows {
                        n
                    } else {
                        rows
                    };
                }
            },
        }
    }

    /// The displayed file text. Callable only while a file is displayed.
    pub fn get_file_chunk(&self) -> (r: String)
        requires
            self@ is Located,
            self@.nav().content is Text,
        ensures
            self@.nav().content matches ContentModel::Text(t) && r@ == t,
    {
        match self {
            AppState::Initialized(ns) => match &ns.content {
                Content::Text(s) => s.clone(),
                Content::Listing(_) => String::new(),
            },
            AppState::Init => String::new(),
        }
    }
}

} // verus!
