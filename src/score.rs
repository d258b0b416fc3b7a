use vstd::prelude::*;

verus! {

/// The court edge the ball left through.
#[derive(Clone, Copy, Debug, PartialEq, Eq, Structural)]
pub enum Side {
    Left,
    Right,
}

/// What a tracker counts: one point per exit, for each side.
pub ghost struct ScoreModel {
    pub left: nat,
    pub right: nat,
}

impl ScoreModel {
    /// The counts after a tick in which the ball left through the right edge
    /// (`right_exit`) and/or the left edge (`left_exit`): the side opposite to
    /// each exit gains one point.
    pub open spec fn credit(self, right_exit: bool, left_exit: bool) -> ScoreModel {
        ScoreModel {
            left: self.left + if right_exit { 1nat } else { 0nat },
            right: self.right + if left_exit { 1nat } else { 0nat },
        }
    }
}

/// Two counters, one per side, that only ever grow by one per exit.
#[derive(Debug)]
pub struct ScoreTracker {
    left: u64,
    right: u64,
}

impl View for ScoreTracker {
    type V = ScoreModel;

    closed spec fn view(&self) -> ScoreModel {
        ScoreModel { left: self.left as nat, right: self.right as nat }
    }
}

impl ScoreTracker {
    /// Neither counter may overflow on the next point.
    pub open spec fn has_room(&self) -> bool {
        self@.left < u64::MAX && self@.right < u64::MAX
    }

    pub fn new() -> (s: ScoreTracker)
        ensures
            s@ == (ScoreModel { left: 0, right: 0 }),
    {
        ScoreTracker { left: 0, right: 0 }
    }

    /// Points of the left side.
    pub fn left(&self) -> (r: u64)
        ensures
            r == self@.left,
    {
        self.left
    }

    /// Points of the right side.
    pub fn right(&self) -> (r: u64)
        ensures
            r == self@.right,
    {
        self.right
    }

    /// Counts an exit through `side`: the opposite side scores.
    pub fn record_exit(&mut self, side: Side)
        requires
            old(self).has_room(),
        ensures
            final(self)@ == old(self)@.credit(side == Side::Right, side == Side::Left),
    {
        match side {
            Side::Right => self.left = self.left + 1,
            Side::Left => self.right = self.right + 1,
        }
    }
}

} // verus!
