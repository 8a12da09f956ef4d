//! The scoring run, one step at a time: which event goes to the view next,
//! when the next fragment is scored, and how the run ends.

use crate::fragment::{line_texts, Fragment};
use crate::fragment_evaluation::{keys_of, ranked, ranking, sort_by_value, FragmentEvaluation};
use crate::score::Score;
use crate::text::joined;
use crate::tui::{applied, PhaseView, TuiEvent};
use vstd::prelude::*;

verus! {

/// Where the run stands: what its next step is.
#[derive(Debug, Clone, Copy)]
pub enum Stage {
    /// Show the next fragment to the view, or the last gathering frame
    /// when all are scored.
    Select,
    /// Have the view draw the fragment just shown.
    ShowSelection,
    /// Ask for the score of the fragment.
    Ask,
    /// The score was asked for: report it to the view when it comes.
    Await,
    /// Count the fragment as done and keep its score.
    Count(Score),
    /// Hand the sorted results to the view.
    Switch,
    /// Have the view draw the results.
    LastRender,
    /// The run is complete.
    Done,
    /// The run was given up.
    Aborted,
}

/// What the caller reports when it asks for the next step.
#[derive(Debug, Clone, Copy)]
pub enum Reply {
    /// The step before was carried out, or there was none.
    Ready,
    /// The score that was asked for.
    Scored(Score),
    /// The step before could not be carried out: no score came, or the
    /// view no longer listens.
    Failed,
}

/// What the caller does next.
#[derive(Debug, Clone)]
pub enum Action {
    /// Send the event to the view, then report `Ready`.
    Send(TuiEvent),
    /// Have the text scored, then report the score.
    Query(String),
    /// Nothing: the run is complete.
    Finished,
    /// Nothing: the run was given up.
    Aborted,
}

/// A scoring run over fragments, in their order.
#[derive(Debug)]
pub struct Pipeline {
    fragments: Vec<Fragment>,
    evaluations: Vec<FragmentEvaluation>,
    stage: Stage,
}

/// The run as a value: the fragments, the results so far, and the stage.
pub ghost struct PipelineView {
    pub fragments: Seq<Fragment>,
    pub evaluations: Seq<FragmentEvaluation>,
    pub stage: Stage,
}

/// The text of a fragment.
pub open spec fn text_of(fragment: Fragment) -> Seq<char> {
    joined(line_texts(fragment.lines()))
}

impl PipelineView {
    /// The number of fragments that have been scored.
    pub open spec fn scored(self) -> int {
        self.evaluations.len() as int
    }

    /// Whether a fragment is left to score.
    pub open spec fn has_next(self) -> bool {
        self.scored() < self.fragments.len()
    }

    /// The stage after the step that `reply` asks for. Any failure, a
    /// score that was not asked for and a missing score give the run up.
    pub open spec fn next_stage(self, reply: Reply) -> Stage {
        match (self.stage, reply) {
            (Stage::Done, _) => Stage::Done,
            (Stage::Await, Reply::Scored(value)) => if self.has_next() {
                Stage::Count(value)
            } else {
                Stage::Aborted
            },
            (Stage::Select, Reply::Ready) => if self.has_next() {
                Stage::ShowSelection
            } else {
                Stage::Switch
            },
            (Stage::ShowSelection, Reply::Ready) => Stage::Ask,
            (Stage::Ask, Reply::Ready) => if self.has_next() {
                Stage::Await
            } else {
                Stage::Aborted
            },
            (Stage::Count(_), Reply::Ready) => if self.has_next() {
                Stage::Select
            } else {
                Stage::Aborted
            },
            (Stage::Switch, Reply::Ready) => Stage::LastRender,
            (Stage::LastRender, Reply::Ready) => Stage::Done,
            _ => Stage::Aborted,
        }
    }

    /// The results after the step: one more when a fragment is counted as
    /// done, none once they have been handed to the view.
    pub open spec fn next_evaluations(self, reply: Reply) -> Seq<FragmentEvaluation> {
        match (self.stage, reply) {
            (Stage::Count(value), Reply::Ready) => if self.has_next() {
                self.evaluations.push(
                    FragmentEvaluation { fragment: self.fragments[self.scored()], value },
                )
            } else {
                self.evaluations
            },
            (Stage::Switch, Reply::Ready) => Seq::empty(),
            _ => self.evaluations,
        }
    }

    /// The run after the step that `reply` asks for.
    pub open spec fn next(self, reply: Reply) -> PipelineView {
        PipelineView {
            fragments: self.fragments,
            evaluations: self.next_evaluations(reply),
            stage: self.next_stage(reply),
        }
    }

    /// Whether `action` is what the step asks of the caller. In the order of
    /// a run: for every fragment, the fragment goes to the view, the view
    /// draws, the fragment's text is scored, the score goes to the view, and
    /// the view counts; then the view draws, takes the results from the
    /// highest score to the lowest, and draws again.
    pub open spec fn emits(self, reply: Reply, action: Action) -> bool {
        match self.next_stage(reply) {
            Stage::Aborted => action is Aborted,
            Stage::ShowSelection => action matches Action::Send(
                TuiEvent::GatherNextFragment(fragment),
            ) && fragment == self.fragments[self.scored()],
            Stage::Ask => action matches Action::Send(TuiEvent::Render),
            Stage::Await => action matches Action::Query(text) && text@ == text_of(
                self.fragments[self.scored()],
            ),
            Stage::Count(value) => action matches Action::Send(TuiEvent::GatherNextValue(sent))
                && sent == value,
            Stage::Select => action matches Action::Send(TuiEvent::GatherIncrementCount),
            Stage::Switch => action matches Action::Send(TuiEvent::Render),
            Stage::LastRender => action matches Action::Send(TuiEvent::SwitchToDisplayData(data))
                && data@ == ranked(self.evaluations, ranking(keys_of(self.evaluations))),
            Stage::Done => if self.stage is Done {
                action is Finished
            } else {
                action matches Action::Send(TuiEvent::Render)
            },
        }
    }

    /// Whether the run is in a state that a run from the start can be in:
    /// the results are those of the first fragments, in their order, and the
    /// stage fits their number.
    pub open spec fn consistent(self) -> bool {
        &&& self.scored() <= self.fragments.len()
        &&& forall|k: int|
            0 <= k < self.scored() ==> (#[trigger] self.evaluations[k]).fragment
                == self.fragments[k]
        &&& match self.stage {
            Stage::ShowSelection | Stage::Ask | Stage::Await | Stage::Count(_) => self.has_next(),
            Stage::Switch => !self.has_next(),
            Stage::LastRender | Stage::Done => self.scored() == 0,
            Stage::Select | Stage::Aborted => true,
        }
    }
}

/// The run over `fragments` after the caller has reported `replies`, one
/// with each step.
pub open spec fn run_after(fragments: Seq<Fragment>, replies: Seq<Reply>) -> PipelineView
    decreases replies.len(),
{
    if replies.len() == 0 {
        PipelineView { fragments, evaluations: Seq::empty(), stage: Stage::Select }
    } else {
        run_after(fragments, replies.drop_last()).next(replies.last())
    }
}

/// Whatever the caller reports, a run from the start keeps the results of
/// the first fragments in their order, at a stage that fits their number.
pub proof fn every_run_is_consistent(fragments: Seq<Fragment>, replies: Seq<Reply>)
    ensures
        run_after(fragments, replies).consistent(),
    decreases replies.len(),
{
    if replies.len() > 0 {
        every_run_is_consistent(fragments, replies.drop_last());
        steps_keep_consistency(run_after(fragments, replies.drop_last()), replies.last());
    }
}

/// A run that can be reached from the start stays so with every step.
pub proof fn steps_keep_consistency(run: PipelineView, reply: Reply)
    requires
        run.consistent(),
    ensures
        run.next(reply).consistent(),
{
}

/// A run that can be reached from the start is not given up as long as the
/// caller reports what was asked of it: a score after a query, and `Ready`
/// after everything else.
pub proof fn orderly_runs_go_on(run: PipelineView, reply: Reply)
    requires
        run.consistent(),
        run.stage !is Aborted,
        if run.stage is Await {
            reply is Scored
        } else {
            reply is Ready
        },
    ensures
        run.next(reply).stage !is Aborted,
{
}

/// A failure gives the run up, whatever its stage, unless the run was
/// complete; and a run that was given up stays so. Nothing is handed to the
/// view on the way.
pub proof fn failure_gives_the_run_up(run: PipelineView, reply: Reply, action: Action)
    requires
        run.stage !is Done,
        reply is Failed || run.stage is Aborted,
        run.emits(reply, action),
    ensures
        run.next(reply).stage is Aborted,
        action is Aborted,
{
}

/// The results go to the view only when every fragment has been scored, and
/// then they are the results of all fragments, from the highest score to the
/// lowest.
pub proof fn results_are_complete(run: PipelineView, reply: Reply, action: Action)
    requires
        run.consistent(),
        run.emits(reply, action),
        action matches Action::Send(TuiEvent::SwitchToDisplayData(_)),
    ensures
        run.evaluations.len() == run.fragments.len(),
        action matches Action::Send(TuiEvent::SwitchToDisplayData(data)) && data@ == ranked(
            run.evaluations,
            ranking(keys_of(run.evaluations)),
        ),
{
}

/// Whether a view in `phase` has followed a run up to `stage`: it is
/// browsing once the results have been handed over, and gathering before.
pub open spec fn in_step(stage: Stage, phase: PhaseView) -> bool {
    if stage is LastRender || stage is Done {
        phase is Browsing
    } else {
        phase is Gathering
    }
}

/// A view that has followed a run takes whatever the run sends next, and has
/// then followed the run by one more step: the run never sends progress to
/// a view that is browsing.
pub proof fn the_view_takes_what_a_run_sends(
    run: PipelineView,
    reply: Reply,
    action: Action,
    phase: PhaseView,
    page: nat,
)
    requires
        run.emits(reply, action),
        action is Send,
        in_step(run.stage, phase),
    ensures
        applied(phase, action->Send_0, page) matches Ok(next) && in_step(
            run.next(reply).stage,
            next,
        ),
{
}

impl Pipeline {
    /// The run as a value.
    pub closed spec fn view(&self) -> PipelineView {
        PipelineView {
            fragments: self.fragments@,
            evaluations: self.evaluations@,
            stage: self.stage,
        }
    }

    /// A run over `fragments`, before its first step.
    pub fn new(fragments: Vec<Fragment>) -> (run: Pipeline)
        ensures
            run@ == (PipelineView {
                fragments: fragments@,
                evaluations: Seq::empty(),
                stage: Stage::Select,
            }),
            run@.consistent(),
    {
        Pipeline { fragments, evaluations: Vec::new(), stage: Stage::Select }
    }

    /// Takes the step that `reply` asks for and says what the caller does
    /// next.
    pub fn advance(&mut self, reply: Reply) -> (action: Action)
        ensures
            final(self)@ == old(self)@.next(reply),
            old(self)@.emits(reply, action),
    {
        let scored = self.evaluations.len();
        let has_next = scored < self.fragments.len();
        match (self.stage, reply) {
            (Stage::Done, _) => Action::Finished,
            (Stage::Await, Reply::Scored(value)) => {
                if has_next {
                    self.stage = Stage::Count(value);
                    Action::Send(TuiEvent::GatherNextValue(value))
                } else {
                    self.stage = Stage::Aborted;
                    Action::Aborted
                }
            },
            (Stage::Select, Reply::Ready) => {
                if has_next {
                    self.stage = Stage::ShowSelection;
                    Action::Send(TuiEvent::GatherNextFragment(self.fragments[scored].clone()))
                } else {
                    self.stage = Stage::Switch;
                    Action::Send(TuiEvent::Render)
                }
            },
            (Stage::ShowSelection, Reply::Ready) => {
                self.stage = Stage::Ask;
                Action::Send(TuiEvent::Render)
            },
            (Stage::Ask, Reply::Ready) => {
                if has_next {
                    self.stage = Stage::Await;
                    Action::Query(self.fragments[scored].content())
                } else {
                    self.stage = Stage::Aborted;
                    Action::Aborted
                }
            },
            (Stage::Count(value), Reply::Ready) => {
                if has_next {
                    let fragment = self.fragments[scored].clone();
                    self.evaluations.push(FragmentEvaluation { fragment, value });
                    self.stage = Stage::Select;
                    Action::Send(TuiEvent::GatherIncrementCount)
                } else {
                    self.stage = Stage::Aborted;
                    Action::Aborted
                }
            },
            (Stage::Switch, Reply::Ready) => {
                let mut evaluations: Vec<FragmentEvaluation> = Vec::new();
                core::mem::swap(&mut evaluations, &mut self.evaluations);
                self.stage = Stage::LastRender;
                Action::Send(TuiEvent::SwitchToDisplayData(sort_by_value(evaluations)))
            },
            (Stage::LastRender, Reply::Ready) => {
                self.stage = Stage::Done;
                Action::Send(TuiEvent::Render)
            },
            _ => {
                self.stage = Stage::Aborted;
                Action::Aborted
            },
        }
    }
}

} // verus!
