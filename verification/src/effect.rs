//! The animated effects of the view, as a plan of timed steps.

use vstd::prelude::*;

verus! {

/// How long the glint takes to cross the screen, in milliseconds.
pub const EFFECT_MILLIS: u32 = 2500;

/// The pause between two glints, in milliseconds.
pub const EFFECT_DELAY_MILLIS: u32 = 7500;

/// How long the text takes to appear when the program starts, in
/// milliseconds.
pub const INITIAL_EFFECT_MILLIS: u32 = 500;

/// The pause before the first glint, in milliseconds.
pub const INITIAL_EFFECT_DELAY_MILLIS: u32 = 4000;

/// The width of the glint, in cells along the diagonal.
pub const EFFECT_WIDTH: u16 = 50;

/// By how much the glint brightens a cell at its centre, in percent of
/// lightness.
pub const EFFECT_STRENGTH: u16 = 50;

/// The time between two frames when nothing else asks for one, in
/// milliseconds.
pub const EXTRA_RENDER_INTERVAL_MILLIS: u64 = 15;

/// What a step of the plan does.
#[derive(Debug, Clone, Copy, PartialEq, Eq, Structural)]
pub enum EffectKind {
    /// The text forms out of scattered characters.
    Coalesce,
    /// A band of light runs across the cells, against its usual direction.
    Glint,
    /// Nothing is changed.
    Sleep,
}

/// The cells that a step may change.
#[derive(Debug, Clone, Copy, PartialEq, Eq, Structural)]
pub enum Region {
    /// The cells inside the panels.
    Main,
    /// The cells of the borders and titles.
    Border,
    /// All cells.
    Everywhere,
}

/// A step of the plan: what it does, for how long, and where.
#[derive(Debug, Clone, Copy, PartialEq, Eq, Structural)]
pub struct EffectStep {
    pub kind: EffectKind,
    pub millis: u32,
    pub region: Region,
}

/// The plan: the steps of `intro` are played once, in their order, and
/// after them the steps of `cycle` again and again.
#[derive(Debug, Clone)]
pub struct EffectPlan {
    pub intro: Vec<EffectStep>,
    pub cycle: Vec<EffectStep>,
}

/// The time that `steps` take one after the other, in milliseconds.
pub open spec fn duration(steps: Seq<EffectStep>) -> nat
    decreases steps.len(),
{
    if steps.len() == 0 {
        0
    } else {
        duration(steps.drop_last()) + steps.last().millis as nat
    }
}

/// The steps that are played once: the text appears inside the panels, and
/// a pause follows.
pub open spec fn standard_intro() -> Seq<EffectStep> {
    seq![
        EffectStep {
            kind: EffectKind::Coalesce,
            millis: INITIAL_EFFECT_MILLIS,
            region: Region::Main,
        },
        EffectStep {
            kind: EffectKind::Sleep,
            millis: INITIAL_EFFECT_DELAY_MILLIS,
            region: Region::Main,
        },
    ]
}

/// The steps that are repeated: a glint runs over the borders, and a pause
/// follows.
pub open spec fn standard_cycle() -> Seq<EffectStep> {
    seq![
        EffectStep { kind: EffectKind::Glint, millis: EFFECT_MILLIS, region: Region::Border },
        EffectStep {
            kind: EffectKind::Sleep,
            millis: EFFECT_DELAY_MILLIS,
            region: Region::Everywhere,
        },
    ]
}

impl EffectPlan {
    /// The plan of the view.
    pub fn standard() -> (plan: EffectPlan)
        ensures
            plan.intro@ == standard_intro(),
            plan.cycle@ == standard_cycle(),
    {
        let mut intro: Vec<EffectStep> = Vec::new();
        intro.push(
            EffectStep {
                kind: EffectKind::Coalesce,
                millis: INITIAL_EFFECT_MILLIS,
                region: Region::Main,
            },
        );
        intro.push(
            EffectStep {
                kind: EffectKind::Sleep,
                millis: INITIAL_EFFECT_DELAY_MILLIS,
                region: Region::Main,
            },
        );
        let mut cycle: Vec<EffectStep> = Vec::new();
        cycle.push(
            EffectStep { kind: EffectKind::Glint, millis: EFFECT_MILLIS, region: Region::Border },
        );
        cycle.push(
            EffectStep {
                kind: EffectKind::Sleep,
                millis: EFFECT_DELAY_MILLIS,
                region: Region::Everywhere,
            },
        );
        EffectPlan { intro, cycle }
    }

    /// The time after which the repeated steps start for the first time, in
    /// milliseconds.
    pub fn intro_millis(&self) -> (millis: u128)
        ensures
            millis == duration(self.intro@),
    {
        total_millis(&self.intro)
    }

    /// The time from one start of the repeated steps to the next, in
    /// milliseconds.
    pub fn period_millis(&self) -> (millis: u128)
        ensures
            millis == duration(self.cycle@),
    {
        total_millis(&self.cycle)
    }
}

/// The time that `steps` take one after the other, in milliseconds.
pub fn total_millis(steps: &Vec<EffectStep>) -> (millis: u128)
    ensures
        millis == duration(steps@),
{
    let mut millis: u128 = 0;
    let mut index: usize = 0;
    while index < steps.len()
        invariant
            index <= steps@.len(),
            millis == duration(steps@.take(index as int)),
            millis <= index * u32::MAX,
        decreases steps@.len() - index,
    {
        assert(steps@.take(index + 1).drop_last() == steps@.take(index as int));
        millis = millis + steps[index].millis as u128;
        index = index + 1;
    }
    assert(steps@.take(index as int) == steps@);
    millis
}

/// The view's glints start every ten seconds, the first one four and a half
/// seconds after the program.
pub proof fn standard_plan_timing()
    ensures
        duration(standard_intro()) == 4500,
        duration(standard_cycle()) == 10000,
{
    reveal_with_fuel(duration, 3);
}

} // verus!
