//! The screen regions that animated effects are confined to.

use crate::geometry::Area;
use vstd::prelude::*;

verus! {

/// The regions of the current frame: a fixed number of rectangles, of which
/// the first ones have been assigned since the last reset and the others are
/// empty.
#[derive(Debug)]
pub struct FxFilter {
    main_rects: Vec<Area>,
    assign_idx: usize,
}

/// A choice of screen cells.
#[derive(Debug)]
pub enum CellFilter {
    /// The cells inside at least one of the rectangles.
    AnyOf(Vec<Area>),
    /// The cells inside none of the rectangles.
    NoneOf(Vec<Area>),
}

/// All rectangles of an `FxFilter` have been assigned already.
#[derive(Clone, Copy, Debug, PartialEq, Eq, Structural)]
pub struct NoMoreRects;

/// Whether the cell at column `x` and row `y` lies in one of `rects`.
pub open spec fn covered(rects: Seq<Area>, x: int, y: int) -> bool {
    exists|i: int| 0 <= i < rects.len() && (#[trigger] rects[i]).contains(x, y)
}

/// `count` empty rectangles.
pub open spec fn cleared(count: nat) -> Seq<Area> {
    Seq::new(count, |i: int| Area::spec_zero())
}

/// `rects` after `new` was assigned to the rectangles from the index
/// `assigned` on, as far as there are rectangles.
pub open spec fn filled(rects: Seq<Area>, assigned: nat, new: Seq<Area>) -> Seq<Area> {
    Seq::new(
        rects.len(),
        |i: int|
            if assigned <= i < assigned + new.len() {
                new[i - assigned]
            } else {
                rects[i]
            },
    )
}

/// The words that report `NoMoreRects`.
pub open spec fn no_more_rects_message() -> Seq<char> {
    "No more rects available"@
}

impl NoMoreRects {
    /// The words for the error.
    pub fn message(&self) -> (text: String)
        ensures
            text@ == no_more_rects_message(),
    {
        "No more rects available".to_owned()
    }
}

impl CellFilter {
    /// Whether the filter lets an effect touch the cell at column `x` and
    /// row `y`.
    pub open spec fn selects(self, x: int, y: int) -> bool {
        match self {
            CellFilter::AnyOf(rects) => covered(rects@, x, y),
            CellFilter::NoneOf(rects) => !covered(rects@, x, y),
        }
    }
}

impl FxFilter {
    /// The rectangles, assigned or empty.
    pub closed spec fn rects(&self) -> Seq<Area> {
        self.main_rects@
    }

    /// How many rectangles have been assigned since the last reset.
    pub closed spec fn assigned(&self) -> nat {
        self.assign_idx as nat
    }

    /// A filter of `size` rectangles, all empty.
    pub fn new(size: usize) -> (filter: FxFilter)
        ensures
            filter.rects() == cleared(size as nat),
            filter.assigned() == 0,
    {
        let mut main_rects: Vec<Area> = Vec::new();
        while main_rects.len() < size
            invariant
                main_rects@.len() <= size,
                main_rects@ == cleared(main_rects@.len()),
            decreases size - main_rects@.len(),
        {
            main_rects.push(Area::zero());
        }
        FxFilter { main_rects, assign_idx: 0 }
    }

    /// The cells inside the assigned rectangles.
    pub fn main_filter(&self) -> (filter: CellFilter)
        ensures
            filter matches CellFilter::AnyOf(rects) && rects@ == self.rects(),
    {
        CellFilter::AnyOf(self.main_rects.clone())
    }

    /// The cells outside the assigned rectangles.
    pub fn border_filter(&self) -> (filter: CellFilter)
        ensures
            filter matches CellFilter::NoneOf(rects) && rects@ == self.rects(),
    {
        CellFilter::NoneOf(self.main_rects.clone())
    }

    /// Empties every rectangle, so that nothing of an earlier frame stays.
    pub fn reset(&mut self)
        ensures
            final(self).rects() == cleared(old(self).rects().len()),
            final(self).assigned() == 0,
    {
        self.assign_idx = 0;
        let mut index: usize = 0;
        while index < self.main_rects.len()
            invariant
                self.assign_idx == 0,
                self.main_rects@.len() == old(self).main_rects@.len(),
                index <= self.main_rects@.len(),
                forall|i: int| 0 <= i < index ==> self.main_rects@[i] == Area::spec_zero(),
            decreases self.main_rects@.len() - index,
        {
            self.main_rects.set(index, Area::zero());
            index = index + 1;
        }
    }

    /// Assigns `rect` to the first rectangle that is still free. Fails, and
    /// changes nothing, when all have been assigned.
    pub fn assign(&mut self, rect: Area) -> (done: Result<(), NoMoreRects>)
        ensures
            done is Ok <==> old(self).assigned() < old(self).rects().len(),
            done is Ok ==> final(self).rects() == old(self).rects().update(
                old(self).assigned() as int,
                rect,
            ) && final(self).assigned() == old(self).assigned() + 1,
            done is Err ==> *final(self) == *old(self),
    {
        if self.assign_idx >= self.main_rects.len() {
            return Err(NoMoreRects);
        }
        self.main_rects.set(self.assign_idx, rect);
        self.assign_idx = self.assign_idx + 1;
        Ok(())
    }
}

impl FxFilter {
    /// Assigns `rects` in their order, until all are assigned or no
    /// rectangle is free.
    pub fn assign_all(&mut self, rects: &Vec<Area>) -> (done: Result<(), NoMoreRects>)
        ensures
            done is Ok <==> rects@.len() == 0 || old(self).assigned() + rects@.len() <= old(
                self,
            ).rects().len(),
            final(self).rects() == filled(old(self).rects(), old(self).assigned(), rects@),
            done is Ok ==> final(self).assigned() == old(self).assigned() + rects@.len(),
            done is Err ==> final(self).assigned() >= final(self).rects().len(),
            final(self).assigned() >= old(self).assigned(),
    {
        let mut index: usize = 0;
        while index < rects.len()
            invariant
                index <= rects@.len(),
                self.assigned() == old(self).assigned() + index,
                index > 0 ==> self.assigned() <= self.rects().len(),
                self.rects().len() == old(self).rects().len(),
                self.rects() == filled(
                    old(self).rects(),
                    old(self).assigned(),
                    rects@.take(index as int),
                ),
            decreases rects@.len() - index,
        {
            if self.assign(rects[index]).is_err() {
                return Err(NoMoreRects);
            }
            index = index + 1;
        }
        Ok(())
    }
}

/// A cell is selected by exactly one of the two filters of the same
/// rectangles.
pub proof fn filters_are_complementary(main: CellFilter, border: CellFilter, x: int, y: int)
    requires
        main is AnyOf,
        border is NoneOf,
        main->AnyOf_0@ == border->NoneOf_0@,
    ensures
        main.selects(x, y) != border.selects(x, y),
{
}

} // verus!
