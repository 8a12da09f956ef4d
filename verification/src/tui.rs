//! The view's state machine: what is shown while scores are gathered, what
//! is shown once they can be browsed, and how events move between the two.

use crate::fragment::{line_displays, Fragment};
use crate::fragment_evaluation::FragmentEvaluation;
use crate::fx_filter::{cleared, filled, FxFilter};
use crate::geometry::{divides, split, Area, Constraint, Direction, Margin};
use crate::score::{three_decimals, Score};
use crate::text::{decimal, to_decimal, views};
use crate::theme::Theme;
use ratatui::text::Line;
use std::collections::VecDeque;
use vstd::prelude::*;
use vstd::string::StringExecFns;
use vstd::utf8::encode_utf8;

verus! {

/// The number of scores that are kept for the chart: one for every column
/// that the widest chart has inside its border. A chart never shows more.
pub const HISTORY_CAPACITY: usize = 65_533;

/// The rows of the terminal that a page of the list does not cover.
pub const PAGE_CHROME: u16 = 2;

/// The number of regions that a frame has at most.
pub const REGIONS: usize = 3;

/// A move of the selection in the list of results.
#[derive(Debug, Clone, Copy, PartialEq, Eq, Structural)]
pub enum Nav {
    Up,
    Down,
    PageUp,
    PageDown,
    Home,
    End,
}

/// What reaches the view: progress of the scoring, the change to browsing,
/// moves of the selection, requests to draw and the end of the run.
#[derive(Debug, Clone)]
pub enum TuiEvent {
    Render,
    GatherNextFragment(Fragment),
    GatherNextValue(Score),
    GatherIncrementCount,
    SwitchToDisplayData(Vec<FragmentEvaluation>),
    Nav(Nav),
    Quit,
}

/// An event that the view cannot take in the phase it is in, or a frame
/// with more regions than the effect filter holds.
#[derive(Debug, Clone, Copy, PartialEq, Eq, Structural)]
pub enum TuiError {
    /// The view is browsing, and this belongs to gathering.
    GatherDataStateExpected,
    /// The view is gathering, and this belongs to browsing.
    DisplayDataStateExpected,
    /// Every region of the effect filter has been assigned already.
    NoMoreRects,
}

/// What the loop that feeds the view does after an event.
#[derive(Debug, Clone, Copy, PartialEq, Eq, Structural)]
pub enum Step {
    /// Wait for the next event.
    Continue,
    /// Draw a frame, then wait for the next event.
    Render,
    /// Leave the loop: the run is over.
    Exit,
}

/// Where the list of results is scrolled to and which row is marked.
#[derive(Debug, Clone, Copy, PartialEq, Eq, Structural)]
pub struct ListState {
    pub offset: usize,
    pub selected: Option<usize>,
}

/// The view while scores are gathered.
#[derive(Debug, Clone)]
pub struct GatherDataState {
    value_history: VecDeque<Score>,
    current_fragment: Option<Fragment>,
    count: usize,
    count_max: usize,
}

/// The view while the results are browsed.
#[derive(Debug)]
pub struct DisplayDataState {
    eval: Vec<FragmentEvaluation>,
    current_idx: usize,
    list_state: ListState,
}

/// The two phases of the view. It starts gathering, and once it is browsing
/// it stays so.
#[derive(Debug)]
pub enum TuiDeepState {
    GatherData(GatherDataState),
    DisplayData(DisplayDataState),
}

/// The gathering view as a value: the scores kept for the chart, oldest
/// first, the fragment that is being scored, and how many of how many
/// fragments are done.
pub ghost struct GatherView {
    pub history: Seq<Score>,
    pub current: Option<Fragment>,
    pub count: nat,
    pub total: nat,
}

/// The browsing view as a value: the results in the order in which they are
/// listed, the selected row, and the scroll state of the list.
pub ghost struct DisplayView {
    pub evaluations: Seq<FragmentEvaluation>,
    pub selected: nat,
    pub list: ListState,
}

/// The view as a value.
pub ghost enum PhaseView {
    Gathering(GatherView),
    Browsing(DisplayView),
}

/// `history` with `value` at its end, and without its oldest score where it
/// would else hold more than `HISTORY_CAPACITY` scores.
pub open spec fn remembered(history: Seq<Score>, value: Score) -> Seq<Score> {
    let longer = history.push(value);
    if longer.len() > HISTORY_CAPACITY {
        longer.subrange(1, longer.len() as int)
    } else {
        longer
    }
}

/// The number of rows that the selection moves by on a page key, in a
/// terminal of the given height.
pub open spec fn page_rows(viewport_height: u16) -> nat {
    if viewport_height >= PAGE_CHROME {
        (viewport_height - PAGE_CHROME) as nat
    } else {
        0
    }
}

/// The row that is selected after `nav`, when `selected` of `len` rows was
/// selected before and a page has `page` rows. The selection does not leave
/// the list, and nothing moves in an empty list.
pub open spec fn moved(nav: Nav, selected: nat, len: nat, page: nat) -> nat {
    if len == 0 {
        selected
    } else {
        match nav {
            Nav::Up => if selected >= 1 {
                (selected - 1) as nat
            } else {
                0
            },
            Nav::Down => if selected + 1 <= len - 1 {
                selected + 1
            } else {
                (len - 1) as nat
            },
            Nav::PageUp => if selected >= page {
                (selected - page) as nat
            } else {
                0
            },
            Nav::PageDown => if selected + page <= len - 1 {
                selected + page
            } else {
                (len - 1) as nat
            },
            Nav::Home => 0,
            Nav::End => (len - 1) as nat,
        }
    }
}

/// The view after `event`, or why the view cannot take the event. Progress
/// of the scoring belongs to gathering and is an error while browsing. The
/// change to browsing starts a list with its first row selected. A move of
/// the selection does nothing while gathering.
pub open spec fn applied(phase: PhaseView, event: TuiEvent, page: nat) -> Result<
    PhaseView,
    TuiError,
> {
    match event {
        TuiEvent::Render | TuiEvent::Quit => Ok(phase),
        TuiEvent::GatherNextFragment(fragment) => match phase {
            PhaseView::Gathering(gather) => Ok(
                PhaseView::Gathering(GatherView { current: Some(fragment), ..gather }),
            ),
            PhaseView::Browsing(_) => Err(TuiError::GatherDataStateExpected),
        },
        TuiEvent::GatherNextValue(value) => match phase {
            PhaseView::Gathering(gather) => Ok(
                PhaseView::Gathering(
                    GatherView { history: remembered(gather.history, value), ..gather },
                ),
            ),
            PhaseView::Browsing(_) => Err(TuiError::GatherDataStateExpected),
        },
        TuiEvent::GatherIncrementCount => match phase {
            PhaseView::Gathering(gather) => Ok(
                PhaseView::Gathering(
                    GatherView {
                        count: if gather.count < gather.total {
                            gather.count + 1
                        } else {
                            gather.count
                        },
                        ..gather
                    },
                ),
            ),
            PhaseView::Browsing(_) => Err(TuiError::GatherDataStateExpected),
        },
        TuiEvent::SwitchToDisplayData(data) => Ok(
            PhaseView::Browsing(
                DisplayView {
                    evaluations: data@,
                    selected: 0,
                    list: ListState { offset: 0, selected: None },
                },
            ),
        ),
        TuiEvent::Nav(nav) => match phase {
            PhaseView::Gathering(_) => Ok(phase),
            PhaseView::Browsing(display) => Ok(
                PhaseView::Browsing(
                    DisplayView {
                        selected: moved(nav, display.selected, display.evaluations.len(), page),
                        ..display
                    },
                ),
            ),
        },
    }
}

/// What the loop does after an event that the view took, or after the
/// channel was closed (`None`).
pub open spec fn step_after(event: Option<TuiEvent>) -> Step {
    match event {
        Some(TuiEvent::Render) => Step::Render,
        Some(TuiEvent::Quit) | None => Step::Exit,
        Some(_) => Step::Continue,
    }
}

/// Whether the event reports progress of the scoring.
pub open spec fn is_progress(event: TuiEvent) -> bool {
    event is GatherNextFragment || event is GatherNextValue || event is GatherIncrementCount
}

/// Progress of the scoring is refused while browsing, whatever it reports.
pub proof fn progress_is_refused_while_browsing(display: DisplayView, event: TuiEvent, page: nat)
    requires
        is_progress(event),
    ensures
        applied(PhaseView::Browsing(display), event, page) == Err::<PhaseView, TuiError>(
            TuiError::GatherDataStateExpected,
        ),
{
}

/// Once the view is browsing, no event that it takes brings it back to
/// gathering.
pub proof fn browsing_is_final(display: DisplayView, event: TuiEvent, page: nat)
    ensures
        applied(PhaseView::Browsing(display), event, page) matches Ok(next) ==> next is Browsing,
{
}

/// A move of the selection keeps it inside the list, and changes nothing in
/// an empty list.
pub proof fn selection_stays_in_list(nav: Nav, selected: nat, len: nat, page: nat)
    requires
        len > 0 ==> selected < len,
    ensures
        len == 0 ==> moved(nav, selected, len, page) == selected,
        len > 0 ==> moved(nav, selected, len, page) <= len - 1,
{
}

impl ListState {
    /// The state of a list that has not been scrolled and has no row marked.
    pub open spec fn spec_default() -> ListState {
        ListState { offset: 0, selected: None }
    }

    /// Marks the row `index`, or no row. The list goes back to its top when no
    /// row is marked.
    pub fn select(&mut self, index: Option<usize>)
        ensures
            final(self).selected == index,
            final(self).offset == if index is None {
                0
            } else {
                old(self).offset
            },
    {
        self.selected = index;
        if index.is_none() {
            self.offset = 0;
        }
    }
}

impl Default for ListState {
    fn default() -> (state: ListState)
        ensures
            state == ListState::spec_default(),
    {
        ListState { offset: 0, selected: None }
    }
}

impl TuiError {
    /// The words for the error.
    pub open spec fn spec_message(self) -> Seq<char> {
        match self {
            TuiError::GatherDataStateExpected => "GatherData state expected"@,
            TuiError::DisplayDataStateExpected => "DisplayData state expected"@,
            TuiError::NoMoreRects => "No more rects available"@,
        }
    }

    /// Whether the error reports an event in the wrong phase.
    pub open spec fn is_protocol_violation(self) -> bool {
        self != TuiError::NoMoreRects
    }

    /// The words for the error.
    pub fn message(&self) -> (text: String)
        ensures
            text@ == self.spec_message(),
    {
        match self {
            TuiError::GatherDataStateExpected => "GatherData state expected".to_owned(),
            TuiError::DisplayDataStateExpected => "DisplayData state expected".to_owned(),
            TuiError::NoMoreRects => "No more rects available".to_owned(),
        }
    }
}

impl GatherDataState {
    /// The view as a value.
    pub closed spec fn view(&self) -> GatherView {
        GatherView {
            history: self.value_history@,
            current: self.current_fragment,
            count: self.count as nat,
            total: self.count_max as nat,
        }
    }

    /// The view before anything was scored, with `count_max` fragments to
    /// go.
    pub fn new(count_max: usize) -> (state: GatherDataState)
        ensures
            state@ == (GatherView {
                history: Seq::empty(),
                current: None,
                count: 0,
                total: count_max as nat,
            }),
    {
        GatherDataState {
            value_history: VecDeque::new(),
            current_fragment: None,
            count: 0,
            count_max,
        }
    }

    /// How many fragments are done, and how many there are.
    pub fn progress(&self) -> (progress: (usize, usize))
        ensures
            progress.0 == self@.count,
            progress.1 == self@.total,
    {
        (self.count, self.count_max)
    }

    /// Shows `fragment` as the one that is being scored.
    pub fn select(&mut self, fragment: Fragment)
        ensures
            final(self)@ == (GatherView { current: Some(fragment), ..old(self)@ }),
    {
        self.current_fragment = Some(fragment);
    }

    /// Adds `value` to the scores kept for the chart, and drops the oldest
    /// one where there are too many.
    pub fn remember(&mut self, value: Score)
        ensures
            final(self)@ == (GatherView {
                history: remembered(old(self)@.history, value),
                ..old(self)@
            }),
    {
        self.value_history.push_back(value);
        if self.value_history.len() > HISTORY_CAPACITY {
            let _ = self.value_history.pop_front();
        }
    }

    /// Counts one more fragment as done, up to the number of fragments.
    pub fn increment(&mut self)
        ensures
            final(self)@ == (GatherView {
                count: if old(self)@.count < old(self)@.total {
                    old(self)@.count + 1
                } else {
                    old(self)@.count
                },
                ..old(self)@
            }),
    {
        if self.count < self.count_max {
            self.count = self.count + 1;
        }
    }
}

impl DisplayDataState {
    #[verifier::type_invariant]
    spec fn selects_a_row(self) -> bool {
        if self.eval@.len() == 0 {
            self.current_idx == 0
        } else {
            self.current_idx < self.eval@.len()
        }
    }

    /// The view as a value.
    pub closed spec fn view(&self) -> DisplayView {
        DisplayView {
            evaluations: self.eval@,
            selected: self.current_idx as nat,
            list: self.list_state,
        }
    }

    /// The list of `eval` with its first row selected.
    pub fn new(eval: Vec<FragmentEvaluation>) -> (state: DisplayDataState)
        ensures
            state@ == (DisplayView {
                evaluations: eval@,
                selected: 0,
                list: ListState::spec_default(),
            }),
    {
        DisplayDataState { eval, current_idx: 0, list_state: ListState::default() }
    }

    /// The index of the selected row: a row of the list, unless the list is
    /// empty.
    pub fn selected(&self) -> (index: usize)
        ensures
            index == self@.selected,
            self@.evaluations.len() > 0 ==> index < self@.evaluations.len(),
            self@.evaluations.len() == 0 ==> index == 0,
    {
        proof {
            use_type_invariant(self);
        }
        self.current_idx
    }

    /// The results, in the order in which they are listed.
    pub fn evaluations(&self) -> (evaluations: &Vec<FragmentEvaluation>)
        ensures
            evaluations@ == self@.evaluations,
    {
        &self.eval
    }

    /// Moves the selection, by `page` rows on a page key.
    pub fn navigate(&mut self, nav: Nav, page: usize)
        ensures
            final(self)@ == (DisplayView {
                selected: moved(
                    nav,
                    old(self)@.selected,
                    old(self)@.evaluations.len(),
                    page as nat,
                ),
                ..old(self)@
            }),
            old(self)@.evaluations.len() > 0 ==> final(self)@.selected < old(self)@.evaluations.len(),
    {
        proof {
            use_type_invariant(&*self);
        }
        let len = self.eval.len();
        if len == 0 {
            return ;
        }
        let last = len - 1;
        let target = match nav {
            Nav::Up => self.current_idx.saturating_sub(1),
            Nav::Down => self.current_idx.saturating_add(1),
            Nav::PageUp => self.current_idx.saturating_sub(page),
            Nav::PageDown => self.current_idx.saturating_add(page),
            Nav::Home => 0,
            Nav::End => last,
        };
        self.current_idx = if target < last {
            target
        } else {
            last
        };
    }
}

impl TuiDeepState {
    /// The view as a value.
    pub open spec fn view(&self) -> PhaseView {
        match self {
            TuiDeepState::GatherData(gather) => PhaseView::Gathering(gather@),
            TuiDeepState::DisplayData(display) => PhaseView::Browsing(display@),
        }
    }

    /// Takes `event`, where `page` is the number of rows that a page key
    /// moves the selection by. An event that the phase cannot take changes
    /// nothing.
    pub fn apply(&mut self, event: TuiEvent, page: usize) -> (done: Result<(), TuiError>)
        ensures
            match applied(old(self)@, event, page as nat) {
                Ok(next) => done is Ok && final(self)@ == next,
                Err(error) => done == Err::<(), TuiError>(error) && *final(self) == *old(self),
            },
    {
        match event {
            TuiEvent::Render | TuiEvent::Quit => Ok(()),
            TuiEvent::GatherNextFragment(fragment) => match self {
                TuiDeepState::GatherData(state) => {
                    state.select(fragment);
                    Ok(())
                },
                TuiDeepState::DisplayData(_) => Err(TuiError::GatherDataStateExpected),
            },
            TuiEvent::GatherNextValue(value) => match self {
                TuiDeepState::GatherData(state) => {
                    state.remember(value);
                    Ok(())
                },
                TuiDeepState::DisplayData(_) => Err(TuiError::GatherDataStateExpected),
            },
            TuiEvent::GatherIncrementCount => match self {
                TuiDeepState::GatherData(state) => {
                    state.increment();
                    Ok(())
                },
                TuiDeepState::DisplayData(_) => Err(TuiError::GatherDataStateExpected),
            },
            TuiEvent::SwitchToDisplayData(data) => {
                *self = TuiDeepState::DisplayData(DisplayDataState::new(data));
                Ok(())
            },
            TuiEvent::Nav(nav) => match self {
                TuiDeepState::GatherData(_) => Ok(()),
                TuiDeepState::DisplayData(state) => {
                    state.navigate(nav, page);
                    Ok(())
                },
            },
        }
    }
}

/// The panel that shows source text: a fragment under its location, or a
/// title alone while there is no fragment.
#[derive(Debug, Clone)]
pub enum CodePanel {
    Fragment { title: String, lines: Vec<Line<'static>> },
    Placeholder { title: String },
}

/// What is drawn while scores are gathered, from top to bottom: the fragment
/// that is being scored, a chart of the latest scores, and a gauge of the
/// fragments done.
#[derive(Debug, Clone)]
pub struct GatherFrame {
    pub code_area: Area,
    pub code: CodePanel,
    pub chart_area: Area,
    /// The scores in the chart, oldest first.
    pub samples: Vec<Score>,
    /// The number of scores that the chart has room for.
    pub columns: usize,
    pub gauge_area: Area,
    pub count: usize,
    pub count_max: usize,
    /// The number of parts of the gauge that are filled.
    pub filled: usize,
    /// The number of parts of the gauge, which is not 0.
    pub parts: usize,
    pub label: String,
}

/// What is drawn while the results are browsed, from left to right: the
/// selected fragment, and the list of all results.
#[derive(Debug, Clone)]
pub struct DisplayFrame {
    pub code_area: Area,
    pub code: CodePanel,
    pub list_area: Area,
    pub items: Vec<String>,
    pub list_state: ListState,
}

/// The panels of a frame, by phase.
#[derive(Debug, Clone)]
pub enum Panels {
    GatherData(GatherFrame),
    DisplayData(DisplayFrame),
}

/// A frame: its panels, the regions that the effects are confined to, and
/// the time since the frame before it.
#[derive(Debug, Clone)]
pub struct Scene {
    pub panels: Panels,
    pub regions: Vec<Area>,
    pub elapsed: u64,
}

/// The view, the time of the last frame if there was one, and the regions of
/// the current frame.
#[derive(Debug)]
pub struct TuiState {
    pub state: TuiDeepState,
    pub last_instant: Option<u64>,
    pub fx_filter: FxFilter,
}

/// The view with the palette it is drawn in.
#[derive(Debug)]
pub struct Tui {
    pub tui_state: TuiState,
    pub theme: Theme,
}

/// The title of the panel without a fragment.
pub open spec fn placeholder_title() -> Seq<char> {
    " Current code fragment "@
}

/// Whether `panel` shows `fragment`: its lines under its location between
/// two spaces, or the placeholder where there is none.
pub open spec fn shows(panel: CodePanel, fragment: Option<Fragment>) -> bool {
    match fragment {
        Some(fragment) => panel matches CodePanel::Fragment { title, lines } && title@ == seq![
            ' ',
        ] + fragment.spec_location() + seq![' '] && lines@ == line_displays(fragment.lines()),
        None => panel matches CodePanel::Placeholder { title } && title@ == placeholder_title(),
    }
}

/// The margin between a panel and the region that effects may touch.
pub open spec fn border() -> Margin {
    Margin { horizontal: 1, vertical: 1 }
}

/// The regions inside the borders of the panels of `layout`.
pub open spec fn insets(layout: Seq<Area>) -> Seq<Area> {
    layout.map_values(|panel: Area| panel.spec_inner(border()))
}

/// How a frame is divided while gathering: the chart takes four rows and
/// the gauge five, and the fragment what is left above them.
pub open spec fn gather_constraints() -> Seq<Constraint> {
    seq![Constraint::Fill(1), Constraint::Length(4), Constraint::Length(5)]
}

/// How a frame is divided while browsing: the list takes `list_width`
/// columns, and the fragment what is left beside it.
pub open spec fn display_constraints(list_width: u16) -> Seq<Constraint> {
    seq![Constraint::Fill(1), Constraint::Length(list_width)]
}

/// The number of scores that a chart of the given width has room for: one
/// in every column inside its border.
pub open spec fn chart_columns(width: u16) -> nat {
    if width >= 2 {
        (width - 2) as nat
    } else {
        0
    }
}

/// The part of the gauge that is filled, as a count of parts that are filled
/// and the count of all parts, which is not 0: the fragments done of all
/// fragments, and nothing of a run without fragments.
pub open spec fn filled_parts(count: nat, total: nat) -> (nat, nat) {
    if total == 0 {
        (0, 1)
    } else if count <= total {
        (count, total)
    } else {
        (total, total)
    }
}

/// The latest `columns` scores of `history`, or all of them if there are
/// fewer.
pub open spec fn recent(history: Seq<Score>, columns: nat) -> Seq<Score> {
    if history.len() > columns {
        history.subrange(history.len() - columns, history.len() as int)
    } else {
        history
    }
}

/// The scores that are kept never exceed the capacity, once they are within
/// it.
pub proof fn history_stays_bounded(history: Seq<Score>, value: Score)
    requires
        history.len() <= HISTORY_CAPACITY,
    ensures
        remembered(history, value).len() <= HISTORY_CAPACITY,
{
}

/// Forgetting the oldest score changes nothing on a chart: the chart has no
/// room for more scores than are kept.
pub proof fn charts_miss_nothing(history: Seq<Score>, value: Score, width: u16)
    ensures
        recent(remembered(history, value), chart_columns(width)) == recent(
            history.push(value),
            chart_columns(width),
        ),
{
}

/// The words on the gauge: the fragments done, a slash, and the number of
/// fragments.
pub open spec fn progress_label(count: nat, total: nat) -> Seq<char> {
    decimal(count) + seq!['/'] + decimal(total)
}

/// The row of the list for one result: the fragment's location, a space,
/// and the score with three decimals.
pub open spec fn row_of(evaluation: FragmentEvaluation) -> Seq<char> {
    evaluation.fragment.spec_location() + seq![' '] + three_decimals(
        evaluation.value.spec_bits(),
    )
}

/// The rows of the list.
pub open spec fn rows_of(evaluations: Seq<FragmentEvaluation>) -> Seq<Seq<char>> {
    evaluations.map_values(|evaluation: FragmentEvaluation| row_of(evaluation))
}

/// The greatest number of bytes that one of `items` takes.
pub open spec fn widest(items: Seq<Seq<char>>) -> nat
    decreases items.len(),
{
    if items.len() == 0 {
        0
    } else {
        let before = widest(items.drop_last());
        let last = encode_utf8(items.last()).len();
        if before >= last {
            before
        } else {
            last
        }
    }
}

/// The width of the list: the widest row and its border, held at the
/// greatest width there is.
pub open spec fn list_width(items: Seq<Seq<char>>) -> u16 {
    if widest(items) + 2 > u16::MAX {
        u16::MAX
    } else {
        (widest(items) + 2) as u16
    }
}

/// Whether `frame` shows the gathering view `gather` in the panels of
/// `layout`.
pub open spec fn shows_gathering(frame: GatherFrame, gather: GatherView, layout: Seq<Area>) -> bool {
    &&& frame.code_area == layout[0]
    &&& shows(frame.code, gather.current)
    &&& frame.chart_area == layout[1]
    &&& frame.columns == chart_columns(layout[1].width)
    &&& frame.samples@ == recent(gather.history, chart_columns(layout[1].width))
    &&& frame.gauge_area == layout[2]
    &&& frame.count == gather.count
    &&& frame.count_max == gather.total
    &&& (frame.filled as nat, frame.parts as nat) == filled_parts(gather.count, gather.total)
    &&& frame.label@ == progress_label(gather.count, gather.total)
}

/// Whether `frame` shows the browsing view `display` in the panels of
/// `layout`, with the selected row marked.
pub open spec fn shows_browsing(frame: DisplayFrame, display: DisplayView, layout: Seq<Area>) -> bool {
    &&& frame.code_area == layout[0]
    &&& shows(
        frame.code,
        if display.selected < display.evaluations.len() {
            Some(display.evaluations[display.selected as int].fragment)
        } else {
            None
        },
    )
    &&& frame.list_area == layout[1]
    &&& views(frame.items@) == rows_of(display.evaluations)
    &&& frame.list_state == (ListState {
        offset: display.list.offset,
        selected: Some(display.selected as usize),
    })
}

/// The panel for `current_fragment`.
pub fn make_code(current_fragment: Option<&Fragment>) -> (panel: CodePanel)
    ensures
        shows(
            panel,
            match current_fragment {
                Some(fragment) => Some(*fragment),
                None => None,
            },
        ),
{
    match current_fragment {
        Some(fragment) => {
            let lines = fragment.highlighted_content();
            proof {
                reveal_strlit(" ");
            }
            let mut title = " ".to_owned();
            title.append(fragment.location().as_str());
            title.append(" ");
            assert(" "@ == seq![' ']);
            CodePanel::Fragment { title, lines }
        },
        None => CodePanel::Placeholder { title: " Current code fragment ".to_owned() },
    }
}

/// The regions inside the borders of the panels of `layout`.
pub fn inner_regions(layout: &Vec<Area>) -> (regions: Vec<Area>)
    ensures
        regions@ == insets(layout@),
{
    let mut regions: Vec<Area> = Vec::new();
    let mut index: usize = 0;
    while index < layout.len()
        invariant
            index <= layout@.len(),
            regions@ == insets(layout@.take(index as int)),
        decreases layout@.len() - index,
    {
        regions.push(layout[index].inner(Margin { horizontal: 1, vertical: 1 }));
        index = index + 1;
    }
    regions
}

/// The width of a list of `items`.
pub fn width_of_list(items: &Vec<String>) -> (width: u16)
    ensures
        width == list_width(views(items@)),
{
    let mut max_len: usize = 0;
    let mut index: usize = 0;
    while index < items.len()
        invariant
            index <= items@.len(),
            max_len == widest(views(items@).take(index as int)),
        decreases items@.len() - index,
    {
        let len = items[index].as_str().as_bytes().len();
        assert(views(items@).take(index + 1).drop_last() == views(items@).take(index as int));
        if len > max_len {
            max_len = len;
        }
        index = index + 1;
    }
    assert(views(items@).take(index as int) == views(items@));
    if max_len > 0xfffd {
        0xffff
    } else {
        (max_len + 2) as u16
    }
}

/// The part of the gauge that is filled when `count` of `count_max` fragments
/// are done: never more than all of it, and nothing of it in a run without
/// fragments.
pub fn gauge_parts(count: usize, count_max: usize) -> (parts: (usize, usize))
    ensures
        (parts.0 as nat, parts.1 as nat) == filled_parts(count as nat, count_max as nat),
        parts.0 <= parts.1,
        parts.1 > 0,
{
    if count_max == 0 {
        (0, 1)
    } else if count <= count_max {
        (count, count_max)
    } else {
        (count_max, count_max)
    }
}

impl GatherDataState {
    /// The frame for this view in the three panels of `layout`.
    pub fn frame(&self, layout: &Vec<Area>) -> (frame: GatherFrame)
        requires
            layout@.len() == 3,
        ensures
            shows_gathering(frame, self@, layout@),
    {
        let code = make_code(self.current_fragment.as_ref());
        let chart_area = layout[1];
        let columns: usize = if chart_area.width >= 2 {
            (chart_area.width - 2) as usize
        } else {
            0
        };
        let len = self.value_history.len();
        let first = if len > columns {
            len - columns
        } else {
            0
        };
        let mut samples: Vec<Score> = Vec::new();
        let mut index = first;
        while index < len
            invariant
                first <= index <= len == self.value_history@.len(),
                samples@ == self.value_history@.subrange(first as int, index as int),
            decreases len - index,
        {
            samples.push(self.value_history[index]);
            index = index + 1;
        }
        assert(self.value_history@.subrange(0, len as int) == self.value_history@);
        proof {
            reveal_strlit("/");
        }
        let parts = gauge_parts(self.count, self.count_max);
        let mut label = to_decimal(self.count as u128);
        label.append("/");
        label.append(to_decimal(self.count_max as u128).as_str());
        assert("/"@ == seq!['/']);
        GatherFrame {
            code_area: layout[0],
            code,
            chart_area,
            samples,
            columns,
            gauge_area: layout[2],
            count: self.count,
            count_max: self.count_max,
            filled: parts.0,
            parts: parts.1,
            label,
        }
    }
}

impl DisplayDataState {
    /// The rows of the list, one for each result.
    pub fn items(&self) -> (items: Vec<String>)
        ensures
            views(items@) == rows_of(self@.evaluations),
    {
        let mut items: Vec<String> = Vec::new();
        let mut index: usize = 0;
        while index < self.eval.len()
            invariant
                index <= self.eval@.len(),
                views(items@) == rows_of(self.eval@.take(index as int)),
            decreases self.eval@.len() - index,
        {
            let evaluation = &self.eval[index];
            proof {
                reveal_strlit(" ");
            }
            let mut row = evaluation.fragment.location();
            row.append(" ");
            row.append(evaluation.value.three_decimals().as_str());
            assert(row@ == row_of(self.eval@[index as int]));
            let ghost before = items@;
            items.push(row);
            index = index + 1;
            assert(rows_of(self.eval@.take(index as int)) == rows_of(
                self.eval@.take(index - 1),
            ).push(row_of(self.eval@[index - 1])));
        }
        items
    }

    /// The frame for this view in the two panels of `layout`, with `items`
    /// as the rows of the list. The selected row is marked in the list.
    pub fn frame(&mut self, layout: &Vec<Area>, items: Vec<String>) -> (frame: DisplayFrame)
        requires
            layout@.len() == 2,
            views(items@) == rows_of(old(self)@.evaluations),
        ensures
            shows_browsing(frame, old(self)@, layout@),
            final(self)@ == (DisplayView { list: frame.list_state, ..old(self)@ }),
    {
        proof {
            use_type_invariant(&*self);
        }
        let code = if self.current_idx < self.eval.len() {
            make_code(Some(&self.eval[self.current_idx].fragment))
        } else {
            make_code(None)
        };
        let mut list_state = self.list_state;
        list_state.select(Some(self.current_idx));
        self.list_state = list_state;
        DisplayFrame { code_area: layout[0], code, list_area: layout[1], items, list_state }
    }

    /// Keeps the position that the list was scrolled to when it was drawn.
    pub fn scrolled(&mut self, offset: usize)
        ensures
            final(self)@ == (DisplayView {
                list: ListState { offset, ..old(self)@.list },
                ..old(self)@
            }),
    {
        proof {
            use_type_invariant(&*self);
        }
        self.list_state = ListState { offset, selected: self.list_state.selected };
    }
}

/// The time from `last` to `now`, on a clock that does not go back: nothing
/// when there was no frame before.
pub open spec fn elapsed_since(last: Option<u64>, now: u64) -> u64 {
    match last {
        Some(last) => if now >= last {
            (now - last) as u64
        } else {
            0
        },
        None => 0,
    }
}

/// Whether the gathering view `before` was framed in the panels of
/// `layout`: the regions inside the panels' borders were assigned in the
/// effect filter, and the outcome is the frame, or `NoMoreRects` where the
/// filter has too few free regions. A browsing view is left as it is and
/// reported.
pub open spec fn framed_gathering(
    before: TuiState,
    layout: Seq<Area>,
    done: Result<GatherFrame, TuiError>,
    after: TuiState,
) -> bool {
    match before.state@ {
        PhaseView::Browsing(_) => done matches Err(error) && error
            == TuiError::GatherDataStateExpected && after == before,
        PhaseView::Gathering(gather) => {
            &&& after.state == before.state
            &&& after.last_instant == before.last_instant
            &&& after.fx_filter.rects() == filled(
                before.fx_filter.rects(),
                before.fx_filter.assigned(),
                insets(layout),
            )
            &&& if before.fx_filter.assigned() + layout.len() <= before.fx_filter.rects().len() {
                &&& done matches Ok(frame) && shows_gathering(frame, gather, layout)
                &&& after.fx_filter.assigned() == before.fx_filter.assigned() + layout.len()
            } else {
                done matches Err(error) && error == TuiError::NoMoreRects
            }
        },
    }
}

/// Whether the browsing view `before` was framed in the panels of `layout`:
/// the regions inside the panels' borders were assigned in the effect filter,
/// and the outcome is the frame, with the selected row marked in the list,
/// or `NoMoreRects` where the filter has too few free regions. A gathering
/// view is left as it is and reported.
pub open spec fn framed_browsing(
    before: TuiState,
    layout: Seq<Area>,
    done: Result<DisplayFrame, TuiError>,
    after: TuiState,
) -> bool {
    match before.state@ {
        PhaseView::Gathering(_) => done matches Err(error) && error
            == TuiError::DisplayDataStateExpected && after == before,
        PhaseView::Browsing(display) => {
            &&& after.last_instant == before.last_instant
            &&& after.fx_filter.rects() == filled(
                before.fx_filter.rects(),
                before.fx_filter.assigned(),
                insets(layout),
            )
            &&& if before.fx_filter.assigned() + layout.len() <= before.fx_filter.rects().len() {
                &&& done matches Ok(frame) && shows_browsing(frame, display, layout)
                    && after.state@ == PhaseView::Browsing(
                    DisplayView { list: frame.list_state, ..display },
                )
                &&& after.fx_filter.assigned() == before.fx_filter.assigned() + layout.len()
            } else {
                &&& done matches Err(error) && error == TuiError::NoMoreRects
                &&& after.state == before.state
            }
        },
    }
}

/// The phase's division of `area` into panels.
pub open spec fn is_layout_of(phase: PhaseView, layout: Seq<Area>, area: Area) -> bool {
    match phase {
        PhaseView::Gathering(_) => divides(layout, area, Direction::Vertical, gather_constraints()),
        PhaseView::Browsing(display) => divides(
            layout,
            area,
            Direction::Horizontal,
            display_constraints(list_width(rows_of(display.evaluations))),
        ),
    }
}

/// Whether the view `before` was drawn at the time `now` in the panels of
/// `layout`. The effect filter holds the regions inside the borders of these
/// panels and nothing of an earlier frame. The outcome is the scene: the
/// phase's frame, those regions, and the time since the last frame, which is
/// now this one; or `NoMoreRects` where the filter has too few regions, and
/// then the time of the last frame stays.
pub open spec fn rendered(
    before: TuiState,
    layout: Seq<Area>,
    now: u64,
    done: Result<Scene, TuiError>,
    after: TuiState,
) -> bool {
    let regions = filled(cleared(before.fx_filter.rects().len()), 0, insets(layout));
    &&& after.fx_filter.rects() == regions
    &&& if layout.len() <= before.fx_filter.rects().len() {
        &&& done matches Ok(scene) && scene.regions@ == regions && scene.elapsed == elapsed_since(
            before.last_instant,
            now,
        ) && match before.state@ {
            PhaseView::Gathering(gather) => scene.panels matches Panels::GatherData(frame)
                && shows_gathering(frame, gather, layout) && after.state == before.state,
            PhaseView::Browsing(display) => scene.panels matches Panels::DisplayData(frame)
                && shows_browsing(frame, display, layout) && after.state@ == PhaseView::Browsing(
                DisplayView { list: frame.list_state, ..display },
            ),
        }
        &&& after.last_instant == Some(now)
        &&& after.fx_filter.assigned() == layout.len()
    } else {
        &&& done matches Err(error) && error == TuiError::NoMoreRects
        &&& after.state == before.state
        &&& after.last_instant == before.last_instant
    }
}

impl TuiState {
    /// The view before anything was scored, with `count_max` fragments to
    /// go, no frame drawn yet and no region assigned.
    pub fn new(count_max: usize) -> (state: TuiState)
        ensures
            state.state@ == PhaseView::Gathering(
                GatherView {
                    history: Seq::empty(),
                    current: None,
                    count: 0,
                    total: count_max as nat,
                },
            ),
            state.last_instant is None,
            state.fx_filter.rects() == cleared(REGIONS as nat),
            state.fx_filter.assigned() == 0,
    {
        TuiState {
            state: TuiDeepState::GatherData(GatherDataState::new(count_max)),
            last_instant: None,
            fx_filter: FxFilter::new(REGIONS),
        }
    }

    /// Frames the gathering view in the three panels of `layout`.
    pub fn gather_frame(&mut self, layout: &Vec<Area>) -> (done: Result<GatherFrame, TuiError>)
        requires
            layout@.len() == 3,
        ensures
            framed_gathering(*old(self), layout@, done, *final(self)),
    {
        let frame = match &self.state {
            TuiDeepState::GatherData(state) => state.frame(layout),
            TuiDeepState::DisplayData(_) => {
                return Err(TuiError::GatherDataStateExpected);
            },
        };
        let regions = inner_regions(layout);
        match self.fx_filter.assign_all(&regions) {
            Ok(()) => Ok(frame),
            Err(_) => Err(TuiError::NoMoreRects),
        }
    }

    /// Frames the browsing view in the two panels of `layout`, with `items`
    /// as the rows of the list.
    pub fn display_frame(&mut self, layout: &Vec<Area>, items: Vec<String>) -> (done: Result<
        DisplayFrame,
        TuiError,
    >)
        requires
            layout@.len() == 2,
            old(self).state@ matches PhaseView::Browsing(display) ==> views(items@) == rows_of(
                display.evaluations,
            ),
        ensures
            framed_browsing(*old(self), layout@, done, *final(self)),
    {
        if let TuiDeepState::GatherData(_) = &self.state {
            return Err(TuiError::DisplayDataStateExpected);
        }
        let regions = inner_regions(layout);
        if self.fx_filter.assign_all(&regions).is_err() {
            return Err(TuiError::NoMoreRects);
        }
        match &mut self.state {
            TuiDeepState::DisplayData(state) => Ok(state.frame(layout, items)),
            TuiDeepState::GatherData(_) => Err(TuiError::DisplayDataStateExpected),
        }
    }

    /// Divides `area` for the gathering view and frames the view in it.
    pub fn render_gather_data(&mut self, area: Area) -> (done: Result<GatherFrame, TuiError>)
        ensures
            old(self).state is DisplayData ==> done == Err::<GatherFrame, TuiError>(
                TuiError::GatherDataStateExpected,
            ) && *final(self) == *old(self),
            old(self).state is GatherData ==> exists|layout: Seq<Area>|
                #[trigger] is_layout_of(old(self).state@, layout, area) && framed_gathering(
                    *old(self),
                    layout,
                    done,
                    *final(self),
                ),
    {
        if let TuiDeepState::DisplayData(_) = &self.state {
            return Err(TuiError::GatherDataStateExpected);
        }
        let mut constraints: Vec<Constraint> = Vec::new();
        constraints.push(Constraint::Fill(1));
        constraints.push(Constraint::Length(4));
        constraints.push(Constraint::Length(5));
        let layout = split(area, Direction::Vertical, &constraints);
        assert(is_layout_of(self.state@, layout@, area));
        self.gather_frame(&layout)
    }

    /// Divides `area` for the browsing view, with a list as wide as its
    /// widest row, and frames the view in it.
    pub fn render_display_data(&mut self, area: Area) -> (done: Result<DisplayFrame, TuiError>)
        ensures
            old(self).state is GatherData ==> done == Err::<DisplayFrame, TuiError>(
                TuiError::DisplayDataStateExpected,
            ) && *final(self) == *old(self),
            old(self).state is DisplayData ==> exists|layout: Seq<Area>|
                #[trigger] is_layout_of(old(self).state@, layout, area) && framed_browsing(
                    *old(self),
                    layout,
                    done,
                    *final(self),
                ),
    {
        let items = match &self.state {
            TuiDeepState::DisplayData(state) => state.items(),
            TuiDeepState::GatherData(_) => {
                return Err(TuiError::DisplayDataStateExpected);
            },
        };
        let mut constraints: Vec<Constraint> = Vec::new();
        constraints.push(Constraint::Fill(1));
        constraints.push(Constraint::Length(width_of_list(&items)));
        let layout = split(area, Direction::Horizontal, &constraints);
        assert(is_layout_of(self.state@, layout@, area));
        self.display_frame(&layout, items)
    }

    /// Draws the view at the time `now`, in nanoseconds on a clock that does
    /// not go back: clears the regions of the frame before, frames the
    /// phase's view in `area`, and measures the time since the last frame.
    pub fn render(&mut self, area: Area, now: u64) -> (done: Result<Scene, TuiError>)
        ensures
            exists|layout: Seq<Area>|
                #[trigger] is_layout_of(old(self).state@, layout, area) && rendered(
                    *old(self),
                    layout,
                    now,
                    done,
                    *final(self),
                ),
    {
        self.fx_filter.reset();
        let is_gathering = match &self.state {
            TuiDeepState::GatherData(_) => true,
            TuiDeepState::DisplayData(_) => false,
        };
        let panels = if is_gathering {
            match self.render_gather_data(area) {
                Ok(frame) => Panels::GatherData(frame),
                Err(error) => {
                    return Err(error);
                },
            }
        } else {
            match self.render_display_data(area) {
                Ok(frame) => Panels::DisplayData(frame),
                Err(error) => {
                    return Err(error);
                },
            }
        };
        let elapsed = match self.last_instant {
            Some(last) => now.saturating_sub(last),
            None => 0,
        };
        self.last_instant = Some(now);
        let regions = match self.fx_filter.main_filter() {
            crate::fx_filter::CellFilter::AnyOf(rects) => rects,
            crate::fx_filter::CellFilter::NoneOf(rects) => rects,
        };
        Ok(Scene { panels, regions, elapsed })
    }
}

impl Tui {
    /// The view of a run over `count_max` fragments, drawn in `theme`.
    pub fn new(count_max: usize, theme: Theme) -> (tui: Tui)
        ensures
            tui.theme == theme,
            tui.tui_state.state@ == PhaseView::Gathering(
                GatherView {
                    history: Seq::empty(),
                    current: None,
                    count: 0,
                    total: count_max as nat,
                },
            ),
            tui.tui_state.last_instant is None,
            tui.tui_state.fx_filter.rects() == cleared(REGIONS as nat),
            tui.tui_state.fx_filter.assigned() == 0,
    {
        Tui { tui_state: TuiState::new(count_max), theme }
    }

    /// Takes what came from the channel, in a terminal of the given height,
    /// and says what the loop does next. The end of the channel ends the loop
    /// as `Quit` does. An event that the phase cannot take is an error and
    /// changes nothing.
    pub fn handle(&mut self, event: Option<TuiEvent>, viewport_height: u16) -> (done: Result<
        Step,
        TuiError,
    >)
        ensures
            final(self).theme == old(self).theme,
            final(self).tui_state.last_instant == old(self).tui_state.last_instant,
            final(self).tui_state.fx_filter == old(self).tui_state.fx_filter,
            match event {
                None => done == Ok::<Step, TuiError>(Step::Exit) && *final(self) == *old(self),
                Some(event) => match applied(
                    old(self).tui_state.state@,
                    event,
                    page_rows(viewport_height),
                ) {
                    Ok(next) => done == Ok::<Step, TuiError>(step_after(Some(event))) && final(self).tui_state.state@ == next,
                    Err(error) => done == Err::<Step, TuiError>(error) && *final(self) == *old(self),
                },
            },
    {
        match event {
            None => Ok(Step::Exit),
            Some(event) => {
                let step = match &event {
                    TuiEvent::Render => Step::Render,
                    TuiEvent::Quit => Step::Exit,
                    _ => Step::Continue,
                };
                let page: u16 = viewport_height.saturating_sub(PAGE_CHROME);
                match self.tui_state.state.apply(event, page as usize) {
                    Ok(()) => Ok(step),
                    Err(error) => Err(error),
                }
            },
        }
    }

    /// Draws the view in `area` at the time `now`.
    pub fn render(&mut self, area: Area, now: u64) -> (done: Result<Scene, TuiError>)
        ensures
            final(self).theme == old(self).theme,
            exists|layout: Seq<Area>|
                #[trigger] is_layout_of(old(self).tui_state.state@, layout, area) && rendered(
                    old(self).tui_state,
                    layout,
                    now,
                    done,
                    final(self).tui_state,
                ),
    {
        self.tui_state.render(area, now)
    }

    /// Keeps the position that the list was scrolled to when it was drawn.
    /// Nothing is kept while gathering.
    pub fn scrolled(&mut self, offset: usize)
        ensures
            final(self).theme == old(self).theme,
            final(self).tui_state.last_instant == old(self).tui_state.last_instant,
            final(self).tui_state.fx_filter == old(self).tui_state.fx_filter,
            final(self).tui_state.state@ == match old(self).tui_state.state@ {
                PhaseView::Gathering(gather) => PhaseView::Gathering(gather),
                PhaseView::Browsing(display) => PhaseView::Browsing(
                    DisplayView { list: ListState { offset, ..display.list }, ..display },
                ),
            },
    {
        match &mut self.tui_state.state {
            TuiDeepState::DisplayData(state) => {
                state.scrolled(offset);
            },
            TuiDeepState::GatherData(_) => {},
        }
    }
}

} // verus!
