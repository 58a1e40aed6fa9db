//! Per-question reveal-phase machines.
//!
//! A question of either type walks an ordered sequence of reveal states:
//! a count-in, one "N clues shown" state per revealed clue, an optional
//! `PassedOver` state once control has passed to the other team, and the
//! terminal `AnswerShown` state. Each state carries the score value a correct
//! answer earns there. Connection questions reveal up to four clues, sequence
//! questions up to three.

use vstd::prelude::*;

verus! {

/// Reveal phase of a connection question (four clues).
#[derive(Clone, Copy, PartialEq, Eq, Structural, Debug)]
pub enum ConnectionPhase {
    CountIn,
    OneClueShown,
    TwoCluesShown,
    ThreeCluesShown,
    FourCluesShown,
    PassedOver,
    AnswerShown,
}

impl ConnectionPhase {
    /// Score awarded for a correct answer in this state. Only the clue-shown
    /// states and `PassedOver` carry a point value.
    pub open spec fn spec_points(self) -> int {
        match self {
            ConnectionPhase::CountIn => 0,
            ConnectionPhase::OneClueShown => 5,
            ConnectionPhase::TwoCluesShown => 3,
            ConnectionPhase::ThreeCluesShown => 2,
            ConnectionPhase::FourCluesShown => 1,
            ConnectionPhase::PassedOver => 1,
            ConnectionPhase::AnswerShown => 0,
        }
    }

    /// One reveal step; saturates at the last clue-shown state.
    pub open spec fn spec_next(self) -> ConnectionPhase {
        match self {
            ConnectionPhase::CountIn => ConnectionPhase::OneClueShown,
            ConnectionPhase::OneClueShown => ConnectionPhase::TwoCluesShown,
            ConnectionPhase::TwoCluesShown => ConnectionPhase::ThreeCluesShown,
            ConnectionPhase::ThreeCluesShown => ConnectionPhase::FourCluesShown,
            ConnectionPhase::FourCluesShown => ConnectionPhase::FourCluesShown,
            ConnectionPhase::PassedOver => ConnectionPhase::PassedOver,
            ConnectionPhase::AnswerShown => ConnectionPhase::AnswerShown,
        }
    }

    /// Number of clues revealed in this state.
    pub open spec fn spec_clues_to_show(self) -> int {
        match self {
            ConnectionPhase::CountIn => 0,
            ConnectionPhase::OneClueShown => 1,
            ConnectionPhase::TwoCluesShown => 2,
            ConnectionPhase::ThreeCluesShown => 3,
            ConnectionPhase::FourCluesShown => 4,
            ConnectionPhase::PassedOver => 4,
            ConnectionPhase::AnswerShown => 4,
        }
    }

    /// True in the states where the offering team is still guessing.
    pub open spec fn spec_is_first_team_guess(self) -> bool {
        match self {
            ConnectionPhase::OneClueShown
            | ConnectionPhase::TwoCluesShown
            | ConnectionPhase::ThreeCluesShown
            | ConnectionPhase::FourCluesShown => true,
            ConnectionPhase::CountIn
            | ConnectionPhase::PassedOver
            | ConnectionPhase::AnswerShown => false,
        }
    }

    pub fn get_points(&self) -> (p: i32)
        requires
            !(self is CountIn),
            !(self is AnswerShown),
        ensures
            p == self.spec_points(),
    {
        match self {
            ConnectionPhase::CountIn => 0,
            ConnectionPhase::OneClueShown => 5,
            ConnectionPhase::TwoCluesShown => 3,
            ConnectionPhase::ThreeCluesShown => 2,
            ConnectionPhase::FourCluesShown => 1,
            ConnectionPhase::PassedOver => 1,
            ConnectionPhase::AnswerShown => 0,
        }
    }

    /// Hand the question to the other team; valid only while clues are shown.
    pub fn pass_over(&mut self)
        requires
            old(self).spec_is_first_team_guess(),
        ensures
            *final(self) == ConnectionPhase::PassedOver,
    {
        *self = ConnectionPhase::PassedOver;
    }

    /// Reveal the answer; valid from any state past the count-in except the
    /// terminal state itself.
    pub fn show_answer(&mut self)
        requires
            !(*old(self) is CountIn),
            !(*old(self) is AnswerShown),
        ensures
            *final(self) == ConnectionPhase::AnswerShown,
    {
        *self = ConnectionPhase::AnswerShown;
    }

    /// Advance the clue-reveal counter by one step; saturates at four clues.
    pub fn next(&mut self)
        requires
            !(*old(self) is PassedOver),
            !(*old(self) is AnswerShown),
        ensures
            *final(self) == old(self).spec_next(),
    {
        match self {
            ConnectionPhase::CountIn => *self = ConnectionPhase::OneClueShown,
            ConnectionPhase::OneClueShown => *self = ConnectionPhase::TwoCluesShown,
            ConnectionPhase::TwoCluesShown => *self = ConnectionPhase::ThreeCluesShown,
            ConnectionPhase::ThreeCluesShown => *self = ConnectionPhase::FourCluesShown,
            ConnectionPhase::FourCluesShown => *self = ConnectionPhase::FourCluesShown,
            ConnectionPhase::PassedOver => *self = ConnectionPhase::PassedOver,
            ConnectionPhase::AnswerShown => *self = ConnectionPhase::AnswerShown,
        }
    }

    pub fn is_passed_over(&self) -> (r: bool)
        ensures
            r == (self is PassedOver),
    {
        if let ConnectionPhase::PassedOver = self {
            true
        } else {
            false
        }
    }

    pub fn is_answer_shown(&self) -> (r: bool)
        ensures
            r == (self is AnswerShown),
    {
        if let ConnectionPhase::AnswerShown = self {
            true
        } else {
            false
        }
    }

    pub fn clues_to_show(&self) -> (n: usize)
        ensures
            n == self.spec_clues_to_show(),
    {
        match self {
            ConnectionPhase::CountIn => 0,
            ConnectionPhase::OneClueShown => 1,
            ConnectionPhase::TwoCluesShown => 2,
            ConnectionPhase::ThreeCluesShown => 3,
            ConnectionPhase::FourCluesShown => 4,
            ConnectionPhase::PassedOver => 4,
            ConnectionPhase::AnswerShown => 4,
        }
    }

    /// The answer-time progress bar shows while clues are on screen,
    /// including after a pass; never during count-in or once answered.
    pub fn is_progress_bar_shown(&self) -> (r: bool)
        ensures
            r == (self.spec_is_first_team_guess() || self is PassedOver),
    {
        match self {
            ConnectionPhase::OneClueShown
            | ConnectionPhase::TwoCluesShown
            | ConnectionPhase::ThreeCluesShown
            | ConnectionPhase::FourCluesShown
            | ConnectionPhase::PassedOver => true,
            ConnectionPhase::CountIn | ConnectionPhase::AnswerShown => false,
        }
    }

    pub fn is_count_in(&self) -> (r: bool)
        ensures
            r == (self is CountIn),
    {
        if let ConnectionPhase::CountIn = self {
            true
        } else {
            false
        }
    }

    pub fn is_first_team_guess(&self) -> (r: bool)
        ensures
            r == self.spec_is_first_team_guess(),
    {
        match self {
            ConnectionPhase::OneClueShown
            | ConnectionPhase::TwoCluesShown
            | ConnectionPhase::ThreeCluesShown
            | ConnectionPhase::FourCluesShown => true,
            ConnectionPhase::CountIn
            | ConnectionPhase::PassedOver
            | ConnectionPhase::AnswerShown => false,
        }
    }
}

/// Reveal phase of a sequence question (three clues; the fourth tile is the
/// hidden continuation of the sequence and only appears with the answer).
#[derive(Clone, Copy, PartialEq, Eq, Structural, Debug)]
pub enum SequencePhase {
    CountIn,
    OneClueShown,
    TwoCluesShown,
    ThreeCluesShown,
    PassedOver,
    AnswerShown,
}

impl SequencePhase {
    /// Score awarded for a correct answer in this state.
    pub open spec fn spec_points(self) -> int {
        match self {
            SequencePhase::CountIn => 0,
            SequencePhase::OneClueShown => 5,
            SequencePhase::TwoCluesShown => 3,
            SequencePhase::ThreeCluesShown => 2,
            SequencePhase::PassedOver => 1,
            SequencePhase::AnswerShown => 0,
        }
    }

    /// One reveal step; saturates at the last clue-shown state.
    pub open spec fn spec_next(self) -> SequencePhase {
        match self {
            SequencePhase::CountIn => SequencePhase::OneClueShown,
            SequencePhase::OneClueShown => SequencePhase::TwoCluesShown,
            SequencePhase::TwoCluesShown => SequencePhase::ThreeCluesShown,
            SequencePhase::ThreeCluesShown => SequencePhase::ThreeCluesShown,
            SequencePhase::PassedOver => SequencePhase::PassedOver,
            SequencePhase::AnswerShown => SequencePhase::AnswerShown,
        }
    }

    /// Number of clue tiles shown in this state. Once the answer is shown the
    /// fourth tile (the sequence's continuation) appears too, so the terminal
    /// state reports four although only three clues are ever revealed for
    /// guessing.
    pub open spec fn spec_clues_to_show(self) -> int {
        match self {
            SequencePhase::CountIn => 0,
            SequencePhase::OneClueShown => 1,
            SequencePhase::TwoCluesShown => 2,
            SequencePhase::ThreeCluesShown => 3,
            SequencePhase::PassedOver => 3,
            SequencePhase::AnswerShown => 4,
        }
    }

    /// True in the states where the offering team is still guessing.
    pub open spec fn spec_is_first_team_guess(self) -> bool {
        match self {
            SequencePhase::OneClueShown
            | SequencePhase::TwoCluesShown
            | SequencePhase::ThreeCluesShown => true,
            SequencePhase::CountIn | SequencePhase::PassedOver | SequencePhase::AnswerShown => false,
        }
    }

    pub fn get_points(&self) -> (p: i32)
        requires
            !(self is CountIn),
            !(self is AnswerShown),
        ensures
            p == self.spec_points(),
    {
        match self {
            SequencePhase::CountIn => 0,
            SequencePhase::OneClueShown => 5,
            SequencePhase::TwoCluesShown => 3,
            SequencePhase::ThreeCluesShown => 2,
            SequencePhase::PassedOver => 1,
            SequencePhase::AnswerShown => 0,
        }
    }

    /// Hand the question to the other team; valid only while clues are shown.
    pub fn pass_over(&mut self)
        requires
            old(self).spec_is_first_team_guess(),
        ensures
            *final(self) == SequencePhase::PassedOver,
    {
        *self = SequencePhase::PassedOver;
    }

    /// Reveal the answer; valid from any state past the count-in except the
    /// terminal state itself.
    pub fn show_answer(&mut self)
        requires
            !(*old(self) is CountIn),
            !(*old(self) is AnswerShown),
        ensures
            *final(self) == SequencePhase::AnswerShown,
    {
        *self = SequencePhase::AnswerShown;
    }

    /// Advance the clue-reveal counter by one step; saturates at three clues.
    pub fn next(&mut self)
        requires
            !(*old(self) is PassedOver),
            !(*old(self) is AnswerShown),
        ensures
            *final(self) == old(self).spec_next(),
    {
        match self {
            SequencePhase::CountIn => *self = SequencePhase::OneClueShown,
            SequencePhase::OneClueShown => *self = SequencePhase::TwoCluesShown,
            SequencePhase::TwoCluesShown => *self = SequencePhase::ThreeCluesShown,
            SequencePhase::ThreeCluesShown => *self = SequencePhase::ThreeCluesShown,
            SequencePhase::PassedOver => *self = SequencePhase::PassedOver,
            SequencePhase::AnswerShown => *self = SequencePhase::AnswerShown,
        }
    }

    pub fn is_passed_over(&self) -> (r: bool)
        ensures
            r == (self is PassedOver),
    {
        if let SequencePhase::PassedOver = self {
            true
        } else {
            false
        }
    }

    pub fn is_answer_shown(&self) -> (r: bool)
        ensures
            r == (self is AnswerShown),
    {
        if let SequencePhase::AnswerShown = self {
            true
        } else {
            false
        }
    }

    pub fn clues_to_show(&self) -> (n: usize)
        ensures
            n == self.spec_clues_to_show(),
    {
        match self {
            SequencePhase::CountIn => 0,
            SequencePhase::OneClueShown => 1,
            SequencePhase::TwoCluesShown => 2,
            SequencePhase::ThreeCluesShown => 3,
            SequencePhase::PassedOver => 3,
            SequencePhase::AnswerShown => 4,
        }
    }

    /// The answer-time progress bar shows while clues are on screen,
    /// including after a pass; never during count-in or once answered.
    pub fn is_progress_bar_shown(&self) -> (r: bool)
        ensures
            r == (self.spec_is_first_team_guess() || self is PassedOver),
    {
        match self {
            SequencePhase::OneClueShown
            | SequencePhase::TwoCluesShown
            | SequencePhase::ThreeCluesShown
            | SequencePhase::PassedOver => true,
            SequencePhase::CountIn | SequencePhase::AnswerShown => false,
        }
    }

    pub fn is_count_in(&self) -> (r: bool)
        ensures
            r == (self is CountIn),
    {
        if let SequencePhase::CountIn = self {
            true
        } else {
            false
        }
    }

    pub fn is_first_team_guess(&self) -> (r: bool)
        ensures
            r == self.spec_is_first_team_guess(),
    {
        match self {
            SequencePhase::OneClueShown
            | SequencePhase::TwoCluesShown
            | SequencePhase::ThreeCluesShown => true,
            SequencePhase::CountIn | SequencePhase::PassedOver | SequencePhase::AnswerShown => false,
        }
    }
}

/// Closed sum over the two phase variants; the session controller holds one of
/// these and dispatches by exhaustive matching.
#[derive(Clone, Copy, PartialEq, Eq, Structural, Debug)]
pub enum Phase {
    Connection(ConnectionPhase),
    Sequence(SequencePhase),
}

impl Phase {
    pub open spec fn spec_points(self) -> int {
        match self {
            Phase::Connection(p) => p.spec_points(),
            Phase::Sequence(p) => p.spec_points(),
        }
    }

    pub open spec fn spec_next(self) -> Phase {
        match self {
            Phase::Connection(p) => Phase::Connection(p.spec_next()),
            Phase::Sequence(p) => Phase::Sequence(p.spec_next()),
        }
    }

    pub open spec fn spec_passed_over(self) -> Phase {
        match self {
            Phase::Connection(_) => Phase::Connection(ConnectionPhase::PassedOver),
            Phase::Sequence(_) => Phase::Sequence(SequencePhase::PassedOver),
        }
    }

    pub open spec fn spec_answer_shown(self) -> Phase {
        match self {
            Phase::Connection(_) => Phase::Connection(ConnectionPhase::AnswerShown),
            Phase::Sequence(_) => Phase::Sequence(SequencePhase::AnswerShown),
        }
    }

    pub open spec fn spec_clues_to_show(self) -> int {
        match self {
            Phase::Connection(p) => p.spec_clues_to_show(),
            Phase::Sequence(p) => p.spec_clues_to_show(),
        }
    }

    pub open spec fn spec_is_count_in(self) -> bool {
        match self {
            Phase::Connection(p) => p is CountIn,
            Phase::Sequence(p) => p is CountIn,
        }
    }

    pub open spec fn spec_is_passed_over(self) -> bool {
        match self {
            Phase::Connection(p) => p is PassedOver,
            Phase::Sequence(p) => p is PassedOver,
        }
    }

    pub open spec fn spec_is_answer_shown(self) -> bool {
        match self {
            Phase::Connection(p) => p is AnswerShown,
            Phase::Sequence(p) => p is AnswerShown,
        }
    }

    pub open spec fn spec_is_first_team_guess(self) -> bool {
        match self {
            Phase::Connection(p) => p.spec_is_first_team_guess(),
            Phase::Sequence(p) => p.spec_is_first_team_guess(),
        }
    }

    pub open spec fn spec_is_progress_bar_shown(self) -> bool {
        self.spec_is_first_team_guess() || self.spec_is_passed_over()
    }

    pub fn get_points(&self) -> (p: i32)
        requires
            !self.spec_is_count_in(),
            !self.spec_is_answer_shown(),
        ensures
            p == self.spec_points(),
    {
        match self {
            Phase::Connection(p) => p.get_points(),
            Phase::Sequence(p) => p.get_points(),
        }
    }

    pub fn pass_over(&mut self)
        requires
            old(self).spec_is_first_team_guess(),
        ensures
            *final(self) == old(self).spec_passed_over(),
    {
        match self {
            Phase::Connection(p) => p.pass_over(),
            Phase::Sequence(p) => p.pass_over(),
        }
    }

    pub fn show_answer(&mut self)
        requires
            !old(self).spec_is_count_in(),
            !old(self).spec_is_answer_shown(),
        ensures
            *final(self) == old(self).spec_answer_shown(),
    {
        match self {
            Phase::Connection(p) => p.show_answer(),
            Phase::Sequence(p) => p.show_answer(),
        }
    }

    pub fn next(&mut self)
        requires
            !old(self).spec_is_passed_over(),
            !old(self).spec_is_answer_shown(),
        ensures
            *final(self) == old(self).spec_next(),
    {
        match self {
            Phase::Connection(p) => p.next(),
            Phase::Sequence(p) => p.next(),
        }
    }

    pub fn is_passed_over(&self) -> (r: bool)
        ensures
            r == self.spec_is_passed_over(),
    {
        match self {
            Phase::Connection(p) => p.is_passed_over(),
            Phase::Sequence(p) => p.is_passed_over(),
        }
    }

    pub fn is_answer_shown(&self) -> (r: bool)
        ensures
            r == self.spec_is_answer_shown(),
    {
        match self {
            Phase::Connection(p) => p.is_answer_shown(),
            Phase::Sequence(p) => p.is_answer_shown(),
        }
    }

    pub fn clues_to_show(&self) -> (n: usize)
        ensures
            n == self.spec_clues_to_show(),
    {
        match self {
            Phase::Connection(p) => p.clues_to_show(),
            Phase::Sequence(p) => p.clues_to_show(),
        }
    }

    pub fn is_progress_bar_shown(&self) -> (r: bool)
        ensures
            r == self.spec_is_progress_bar_shown(),
    {
        match self {
            Phase::Connection(p) => p.is_progress_bar_shown(),
            Phase::Sequence(p) => p.is_progress_bar_shown(),
        }
    }

    pub fn is_count_in(&self) -> (r: bool)
        ensures
            r == self.spec_is_count_in(),
    {
        match self {
            Phase::Connection(p) => p.is_count_in(),
            Phase::Sequence(p) => p.is_count_in(),
        }
    }

    pub fn is_first_team_guess(&self) -> (r: bool)
        ensures
            r == self.spec_is_first_team_guess(),
    {
        match self {
            Phase::Connection(p) => p.is_first_team_guess(),
            Phase::Sequence(p) => p.is_first_team_guess(),
        }
    }
}

/// Clue reveal is monotone: a reveal step never lowers the clue count, and at
/// the type's maximum (four for connection, three for sequence) a further step
/// leaves the phase unchanged.
pub proof fn lemma_clues_to_show_nondecreasing(p: Phase)
    requires
        !p.spec_is_passed_over(),
        !p.spec_is_answer_shown(),
    ensures
        p.spec_next().spec_clues_to_show() >= p.spec_clues_to_show(),
        p matches Phase::Connection(_) && p.spec_clues_to_show() == 4 ==> p.spec_next() == p,
        p matches Phase::Sequence(_) && p.spec_clues_to_show() == 3 ==> p.spec_next() == p,
{
}

/// The point schedule: a question passed over is always worth exactly one
/// point, and among the clue-shown states the value strictly decreases as
/// more clues are revealed (5, 3, 2, 1 for connection; 5, 3, 2 for sequence).
pub proof fn lemma_points_schedule(p: Phase, q: Phase)
    requires
        p.spec_is_first_team_guess(),
        q.spec_is_first_team_guess(),
        p matches Phase::Connection(_) <==> q matches Phase::Connection(_),
        p.spec_clues_to_show() < q.spec_clues_to_show(),
    ensures
        p.spec_points() > q.spec_points(),
        p.spec_passed_over().spec_points() == 1,
{
}

} // verus!
