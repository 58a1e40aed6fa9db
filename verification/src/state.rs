//! Per-tick state machine over the presentation pages.
//!
//! `QuestionState` is the current page: the start banner, a round's title
//! page, an active question, or the end page. Once per tick the game loop
//! feeds `update` the aggregated keyboard signals and the current instant (in
//! milliseconds); `update` returns the score deltas and whether to advance to
//! the next page. Timing is sampled from the injected instant, never read
//! from a clock inside the core.

use vstd::prelude::*;

use crate::phase::Phase;
use crate::questions::Clue;

verus! {

/// Total time a team has to answer once the clues start showing.
pub const TIME_PER_QUESTION_MILLIS: u64 = 45000;

/// On-screen countdown before the first clue of a question is revealed.
pub const COUNT_IN_MILLIS: u64 = 3000;

/// Threshold under which the remaining answer time is painted as a final
/// countdown.
pub const COUNTDOWN_MILLIS: u64 = 5000;

/// Milliseconds from `started` to `now`, clamped to zero if `now` is earlier.
pub open spec fn spec_elapsed(started: u64, now: u64) -> int {
    if now >= started {
        now - started
    } else {
        0
    }
}

/// The four independent input signals of one tick, aggregated from raw key
/// events by the excluded event loop.
#[derive(Debug, Clone, Copy, PartialEq, Eq, Structural)]
pub struct KeyboardInput {
    pub next: bool,
    pub stop: bool,
    pub correct: bool,
    pub incorrect: bool,
}

impl Default for KeyboardInput {
    /// No key pressed.
    fn default() -> (r: Self)
        ensures
            r == (KeyboardInput { next: false, stop: false, correct: false, incorrect: false }),
    {
        KeyboardInput { next: false, stop: false, correct: false, incorrect: false }
    }
}

/// What one `update` call decided: whether to pull the next page, and the
/// score delta of each team. At most one delta is non-zero, and never for a
/// call that advances.
#[derive(Debug, Clone, Copy, PartialEq, Eq, Structural)]
pub struct UpdateResult {
    pub next_question: bool,
    pub red_points_change: i32,
    pub blue_points_change: i32,
}

/// Result of a tick that neither advances nor scores.
pub open spec fn spec_no_change() -> UpdateResult {
    UpdateResult { next_question: false, red_points_change: 0, blue_points_change: 0 }
}

/// Result of a tick that advances to the next page without scoring.
pub open spec fn spec_next_question() -> UpdateResult {
    UpdateResult { next_question: true, red_points_change: 0, blue_points_change: 0 }
}

/// Result of a tick that awards `points` to one team.
pub open spec fn spec_points_result(points: i32, to_red_team: bool) -> UpdateResult {
    if to_red_team {
        UpdateResult { next_question: false, red_points_change: points, blue_points_change: 0 }
    } else {
        UpdateResult { next_question: false, red_points_change: 0, blue_points_change: points }
    }
}

impl UpdateResult {
    pub fn no_change() -> (r: Self)
        ensures
            r == spec_no_change(),
    {
        Self { next_question: false, red_points_change: 0, blue_points_change: 0 }
    }

    pub fn next_question() -> (r: Self)
        ensures
            r == spec_next_question(),
    {
        Self { next_question: true, red_points_change: 0, blue_points_change: 0 }
    }

    pub fn points(points: i32, to_red_team: bool) -> (r: Self)
        ensures
            r == spec_points_result(points, to_red_team),
    {
        if to_red_team {
            Self { next_question: false, red_points_change: points, blue_points_change: 0 }
        } else {
            Self { next_question: false, red_points_change: 0, blue_points_change: points }
        }
    }
}

/// Background wash of the whole window: the offering team's colour while a
/// question is live, the other team's once it has passed over, neutral grey
/// everywhere else.
#[derive(Debug, Clone, Copy, PartialEq, Eq, Structural)]
pub enum BackgroundColour {
    Red,
    Blue,
    Grey,
}

/// The current presentation page.
#[derive(Debug)]
pub enum QuestionState {
    StartPage,
    TitlePage { title: String },
    Question {
        clues: Vec<Clue>,
        connection: String,
        phase: Phase,
        /// question initially given to the red team
        offered_to_red: bool,
        /// instant (milliseconds) at which the count-in ends and answer time
        /// starts
        started: u64,
        /// instant at which the clock was stopped for a first-team guess
        stopped: Option<u64>,
    },
    EndPage,
}

impl QuestionState {
    /// Which team the active question was offered to; false off a question
    /// page.
    pub open spec fn spec_offered_to_red(self) -> bool {
        match self {
            QuestionState::Question { offered_to_red, .. } => offered_to_red,
            _ => false,
        }
    }

    /// The transition table of one tick, in the priority order of the checks:
    /// count-in auto-reveal beats everything, then the terminal page waits
    /// for `next`, then passed-over guessing, then stopped-clock guessing,
    /// then the running clock (where the timeout beats any simultaneous
    /// input).
    pub open spec fn spec_update(self, input: KeyboardInput, now: u64) -> (QuestionState, UpdateResult) {
        match self {
            QuestionState::StartPage | QuestionState::TitlePage { .. } => (
                self,
                if input.next {
                    spec_next_question()
                } else {
                    spec_no_change()
                },
            ),
            QuestionState::Question { clues, connection, phase, offered_to_red, started, stopped } => {
                if phase.spec_is_count_in() {
                    // timer-triggered: the first clue appears as soon as the
                    // count-in has elapsed, no input required
                    let phase2 = if started <= now {
                        phase.spec_next()
                    } else {
                        phase
                    };
                    (
                        QuestionState::Question {
                            clues,
                            connection,
                            phase: phase2,
                            offered_to_red,
                            started,
                            stopped,
                        },
                        spec_no_change(),
                    )
                } else if phase.spec_is_answer_shown() {
                    // no way out but an explicit advance
                    (
                        self,
                        if input.next {
                            spec_next_question()
                        } else {
                            spec_no_change()
                        },
                    )
                } else if phase.spec_is_passed_over() {
                    // the non-offering team is guessing
                    if input.correct {
                        (
                            QuestionState::Question {
                                clues,
                                connection,
                                phase: phase.spec_answer_shown(),
                                offered_to_red,
                                started,
                                stopped,
                            },
                            spec_points_result(phase.spec_points() as i32, !offered_to_red),
                        )
                    } else if input.incorrect {
                        (
                            QuestionState::Question {
                                clues,
                                connection,
                                phase: phase.spec_answer_shown(),
                                offered_to_red,
                                started,
                                stopped,
                            },
                            spec_no_change(),
                        )
                    } else {
                        (self, spec_no_change())
                    }
                } else if stopped is Some {
                    // the clock has been stopped: the offering team answers
                    if input.correct {
                        (
                            QuestionState::Question {
                                clues,
                                connection,
                                phase: phase.spec_answer_shown(),
                                offered_to_red,
                                started,
                                stopped,
                            },
                            spec_points_result(phase.spec_points() as i32, offered_to_red),
                        )
                    } else if input.incorrect {
                        (
                            QuestionState::Question {
                                clues,
                                connection,
                                phase: phase.spec_passed_over(),
                                offered_to_red,
                                started,
                                stopped,
                            },
                            spec_no_change(),
                        )
                    } else {
                        (self, spec_no_change())
                    }
                } else {
                    // clock is still running
                    if spec_elapsed(started, now) >= TIME_PER_QUESTION_MILLIS {
                        // out of time: passes over, beats any simultaneous input
                        (
                            QuestionState::Question {
                                clues,
                                connection,
                                phase: phase.spec_passed_over(),
                                offered_to_red,
                                started,
                                stopped,
                            },
                            spec_no_change(),
                        )
                    } else if input.next {
                        (
                            QuestionState::Question {
                                clues,
                                connection,
                                phase: phase.spec_next(),
                                offered_to_red,
                                started,
                                stopped,
                            },
                            spec_no_change(),
                        )
                    } else if input.stop {
                        (
                            QuestionState::Question {
                                clues,
                                connection,
                                phase,
                                offered_to_red,
                                started,
                                stopped: Some(now),
                            },
                            spec_no_change(),
                        )
                    } else {
                        (self, spec_no_change())
                    }
                }
            },
            QuestionState::EndPage => (self, spec_no_change()),
        }
    }

    /// One tick. Applies the transition table above; the caller owns the
    /// score totals and the page sequence and acts on the returned record.
    pub fn update(&mut self, input: KeyboardInput, now: u64) -> (r: UpdateResult)
        ensures
            ({
                let (state2, r2) = old(self).spec_update(input, now);
                *final(self) == state2 && r == r2
            }),
            r.red_points_change == 0 || r.blue_points_change == 0,
            0 <= r.red_points_change <= 5,
            0 <= r.blue_points_change <= 5,
            r.next_question ==> r.red_points_change == 0 && r.blue_points_change == 0,
    {
        let mut taken = QuestionState::StartPage;
        core::mem::swap(self, &mut taken);
        match taken {
            QuestionState::StartPage | QuestionState::TitlePage { .. } => {
                *self = taken;
                if input.next {
                    UpdateResult::next_question()
                } else {
                    UpdateResult::no_change()
                }
            },
            QuestionState::Question { clues, connection, phase, offered_to_red, started, stopped } => {
                let mut phase = phase;
                let mut stopped = stopped;
                let r;
                if phase.is_count_in() {
                    if started <= now {
                        phase.next();
                    }
                    r = UpdateResult::no_change();
                } else if phase.is_answer_shown() {
                    if input.next {
                        r = UpdateResult::next_question();
                    } else {
                        r = UpdateResult::no_change();
                    }
                } else if phase.is_passed_over() {
                    if input.correct {
                        let points = phase.get_points();
                        phase.show_answer();
                        r = UpdateResult::points(points, !offered_to_red);
                    } else if input.incorrect {
                        phase.show_answer();
                        r = UpdateResult::no_change();
                    } else {
                        r = UpdateResult::no_change();
                    }
                } else if stopped.is_some() {
                    // the clock has been stopped
                    if input.correct {
                        let points = phase.get_points();
                        phase.show_answer();
                        r = UpdateResult::points(points, offered_to_red);
                    } else if input.incorrect {
                        phase.pass_over();
                        r = UpdateResult::no_change();
                    } else {
                        r = UpdateResult::no_change();
                    }
                } else {
                    // clock is still running
                    let elapsed: u64 = if now >= started {
                        now - started
                    } else {
                        0
                    };
                    if elapsed >= TIME_PER_QUESTION_MILLIS {
                        // out of time
                        phase.pass_over();
                        r = UpdateResult::no_change();
                    } else if input.next {
                        phase.next();
                        r = UpdateResult::no_change();
                    } else if input.stop {
                        stopped = Some(now);
                        r = UpdateResult::no_change();
                    } else {
                        r = UpdateResult::no_change();
                    }
                }
                *self = QuestionState::Question {
                    clues,
                    connection,
                    phase,
                    offered_to_red,
                    started,
                    stopped,
                };
                r
            },
            QuestionState::EndPage => {
                *self = taken;
                UpdateResult::no_change()
            },  // no way out!
        }
    }

    /// Derived view, not state: the wash behind the current page.
    pub open spec fn spec_background_colour(self) -> BackgroundColour {
        match self {
            QuestionState::StartPage | QuestionState::TitlePage { .. } | QuestionState::EndPage => BackgroundColour::Grey,
            QuestionState::Question { phase, offered_to_red, .. } => {
                if phase.spec_is_answer_shown() {
                    BackgroundColour::Grey
                } else if phase.spec_is_passed_over() {
                    if offered_to_red {
                        BackgroundColour::Blue
                    } else {
                        BackgroundColour::Red
                    }
                } else {
                    if offered_to_red {
                        BackgroundColour::Red
                    } else {
                        BackgroundColour::Blue
                    }
                }
            },
        }
    }

    pub fn get_background_colour(&self) -> (c: BackgroundColour)
        ensures
            c == self.spec_background_colour(),
    {
        match self {
            QuestionState::StartPage | QuestionState::TitlePage { .. } | QuestionState::EndPage => BackgroundColour::Grey,
            QuestionState::Question { phase, offered_to_red, .. } => {
                if phase.is_answer_shown() {
                    BackgroundColour::Grey
                } else if phase.is_passed_over() {
                    if *offered_to_red {
                        BackgroundColour::Blue
                    } else {
                        BackgroundColour::Red
                    }
                } else {
                    if *offered_to_red {
                        BackgroundColour::Red
                    } else {
                        BackgroundColour::Blue
                    }
                }
            },
        }
    }
}

/// Answer time spent, in milliseconds, as the renderer shows it: frozen at
/// the stop instant once the clock was stopped, clamped at zero before the
/// count-in has ended.
pub fn time_elapsed_millis(started: u64, stopped: Option<u64>, now: u64) -> (r: u64)
    ensures
        r == spec_elapsed(started, if stopped is Some { stopped->0 } else { now }),
{
    let end = match stopped {
        Some(t) => t,
        None => now,
    };
    if end >= started {
        end - started
    } else {
        0
    }
}

/// Answer time left on a running clock, in milliseconds; zero once the
/// question has timed out.
pub fn time_remaining_millis(started: u64, now: u64) -> (r: u64)
    requires
        started <= u64::MAX - TIME_PER_QUESTION_MILLIS,
    ensures
        r == if now <= started + TIME_PER_QUESTION_MILLIS {
            started + TIME_PER_QUESTION_MILLIS - now
        } else {
            0
        },
{
    let deadline = started + TIME_PER_QUESTION_MILLIS;
    if deadline >= now {
        deadline - now
    } else {
        0
    }
}

/// Milliseconds of count-in still to paint; zero once the clues are due.
pub fn count_in_remaining_millis(started: u64, now: u64) -> (r: u64)
    ensures
        r == if started >= now {
            started - now
        } else {
            0
        },
{
    if started >= now {
        started - now
    } else {
        0
    }
}

} // verus!
