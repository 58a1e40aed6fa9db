//! The question session controller.
//!
//! A `Session` owns the full flattened page sequence — start banner, then for
//! each round its title page followed by its questions, then the end page —
//! together with the two running score totals and the turn-parity flag that
//! decides which team is offered the next question. One call of `update` per
//! tick drives the active page's state machine, applies the returned score
//! deltas, and on an advance signal moves the cursor to the next page.

use vstd::prelude::*;

use crate::phase::{ConnectionPhase, Phase, SequencePhase};
use crate::questions::{QuestionSet, QuestionType};
use crate::state::{
    spec_next_question, spec_no_change, BackgroundColour, KeyboardInput, QuestionState,
    UpdateResult, COUNT_IN_MILLIS,
};

verus! {

/// Cap on the number of questions of a session, so that the score totals
/// (at most five points a question) provably fit an `i32`.
pub const MAX_TOTAL_QUESTIONS: usize = 400000000;

/// Number of questions held by the rounds before index `s`.
pub open spec fn spec_questions_before(sets: Seq<QuestionSet>, s: int) -> int
    decreases s,
{
    if s <= 0 {
        0
    } else {
        spec_questions_before(sets, s - 1) + sets[s - 1].questions.len()
    }
}

/// Number of questions of the whole session.
pub open spec fn spec_total_questions(sets: Seq<QuestionSet>) -> int {
    spec_questions_before(sets, sets.len() as int)
}

pub proof fn lemma_questions_before_nonneg(sets: Seq<QuestionSet>, s: int)
    ensures
        spec_questions_before(sets, s) >= 0,
    decreases s,
{
    if s > 0 {
        lemma_questions_before_nonneg(sets, s - 1);
    }
}

pub proof fn lemma_questions_before_monotone(sets: Seq<QuestionSet>, s1: int, s2: int)
    requires
        0 <= s1 <= s2,
    ensures
        spec_questions_before(sets, s1) <= spec_questions_before(sets, s2),
    decreases s2,
{
    if s1 < s2 {
        lemma_questions_before_monotone(sets, s1, s2 - 1);
    }
}

/// Does the phase variant fit the question type?
pub open spec fn spec_phase_matches(phase: Phase, question_type: QuestionType) -> bool {
    match question_type {
        QuestionType::Connection => phase is Connection,
        QuestionType::Sequence => phase is Sequence,
    }
}

/// The fresh phase for a newly entered question.
pub open spec fn spec_initial_phase(question_type: QuestionType) -> Phase {
    match question_type {
        QuestionType::Connection => Phase::Connection(ConnectionPhase::CountIn),
        QuestionType::Sequence => Phase::Sequence(SequencePhase::CountIn),
    }
}

/// One in-memory game: the rounds, the cursor over the flattened page
/// sequence, the scores, and the turn-parity flag. The flattened position is
/// carried by `state` itself; `set_idx` and `q_idx` locate a title or
/// question page within the rounds.
#[derive(Debug)]
pub struct Session {
    pub sets: Vec<QuestionSet>,
    pub set_idx: usize,
    pub q_idx: usize,
    pub state: QuestionState,
    pub red_points: i32,
    pub blue_points: i32,
    /// the team the next question will be offered to
    pub team_is_red: bool,
}

impl Session {
    /// Points the session can have handed out so far: five per question
    /// completed or being scored. The bound steps up as soon as the active
    /// question's answer is shown, since scoring and showing the answer
    /// happen in the same tick.
    pub open spec fn spec_score_budget(self) -> int {
        match self.state {
            QuestionState::StartPage => 0,
            QuestionState::TitlePage { .. } => 5 * spec_questions_before(
                self.sets@,
                self.set_idx as int,
            ),
            QuestionState::Question { phase, .. } => {
                let before = spec_questions_before(self.sets@, self.set_idx as int)
                    + self.q_idx as int;
                if phase.spec_is_answer_shown() {
                    5 * (before + 1)
                } else {
                    5 * before
                }
            },
            QuestionState::EndPage => 5 * spec_total_questions(self.sets@),
        }
    }

    /// Session invariant: the cursor points into the rounds, the active page
    /// mirrors the data it was built from, every question carries four clues,
    /// the parity flag is one toggle ahead of the active question's offer,
    /// and the scores stay within the five-points-a-question budget.
    pub open spec fn wf(self) -> bool {
        &&& forall|i: int| 0 <= i < self.sets@.len() ==> (#[trigger] self.sets@[i]).wf()
        &&& spec_total_questions(self.sets@) <= MAX_TOTAL_QUESTIONS as int
        &&& match self.state {
            QuestionState::StartPage => self.set_idx == 0 && self.q_idx == 0,
            QuestionState::TitlePage { title } => {
                &&& self.set_idx < self.sets@.len()
                &&& self.q_idx == 0
                &&& title@ == self.sets@[self.set_idx as int].title@
            },
            QuestionState::Question { clues, connection, phase, offered_to_red, .. } => {
                let q = self.sets@[self.set_idx as int].questions@[self.q_idx as int];
                &&& self.set_idx < self.sets@.len()
                &&& self.q_idx < self.sets@[self.set_idx as int].questions@.len()
                &&& clues@.len() == q.clues@.len()
                &&& forall|j: int| 0 <= j < clues@.len() ==> clues@[j]@ == #[trigger] q.clues@[j]@
                &&& connection@ == q.connection@
                &&& spec_phase_matches(phase, q.question_type)
                &&& offered_to_red == !self.team_is_red
            },
            QuestionState::EndPage => true,
        }
        &&& 0 <= self.red_points
        &&& 0 <= self.blue_points
        &&& self.red_points + self.blue_points <= self.spec_score_budget()
    }

    /// A fresh session on the given rounds; the first question will be
    /// offered to red iff `first_offered_to_red` (the game loop draws this
    /// at random).
    pub fn new(sets: Vec<QuestionSet>, first_offered_to_red: bool) -> (s: Session)
        requires
            forall|i: int| 0 <= i < sets@.len() ==> (#[trigger] sets@[i]).wf(),
            spec_total_questions(sets@) <= MAX_TOTAL_QUESTIONS as int,
        ensures
            s.wf(),
            s.sets == sets,
            s.state is StartPage,
            s.red_points == 0,
            s.blue_points == 0,
            s.team_is_red == first_offered_to_red,
    {
        Session {
            sets,
            set_idx: 0,
            q_idx: 0,
            state: QuestionState::StartPage,
            red_points: 0,
            blue_points: 0,
            team_is_red: first_offered_to_red,
        }
    }

    /// Show the title page of round `s`.
    fn enter_title(&mut self, s: usize)
        requires
            s < old(self).sets@.len(),
        ensures
            final(self).sets == old(self).sets,
            final(self).red_points == old(self).red_points,
            final(self).blue_points == old(self).blue_points,
            final(self).team_is_red == old(self).team_is_red,
            final(self).set_idx == s,
            final(self).q_idx == 0,
            final(self).state matches QuestionState::TitlePage { title } && title@ == old(
                self,
            ).sets@[s as int].title@,
    {
        self.set_idx = s;
        self.q_idx = 0;
        let title = self.sets[s].title.clone();
        self.state = QuestionState::TitlePage { title };
    }

    /// Enter question `i` of round `s`: build its count-in state, offer it to
    /// the team the parity flag names, and toggle the flag — the one toggle
    /// this question will ever cause.
    fn enter_question(&mut self, s: usize, i: usize, now: u64)
        requires
            s < old(self).sets@.len(),
            i < old(self).sets@[s as int].questions@.len(),
            now <= u64::MAX - COUNT_IN_MILLIS,
        ensures
            final(self).sets == old(self).sets,
            final(self).red_points == old(self).red_points,
            final(self).blue_points == old(self).blue_points,
            final(self).team_is_red == !old(self).team_is_red,
            final(self).set_idx == s,
            final(self).q_idx == i,
            ({
                let q = old(self).sets@[s as int].questions@[i as int];
                final(self).state matches QuestionState::Question {
                    clues,
                    connection,
                    phase,
                    offered_to_red,
                    started,
                    stopped,
                } && {
                    &&& clues@.len() == q.clues@.len()
                    &&& forall|j: int|
                        0 <= j < clues@.len() ==> clues@[j]@ == #[trigger] q.clues@[j]@
                    &&& connection@ == q.connection@
                    &&& phase == spec_initial_phase(q.question_type)
                    &&& offered_to_red == old(self).team_is_red
                    &&& started == now + COUNT_IN_MILLIS
                    &&& stopped is None
                }
            }),
    {
        let q = &self.sets[s].questions[i];
        let clues = q.clues.clone();
        let connection = q.connection.clone();
        let phase = match q.question_type {
            QuestionType::Connection => Phase::Connection(ConnectionPhase::CountIn),
            QuestionType::Sequence => Phase::Sequence(SequencePhase::CountIn),
        };
        let offered_to_red = self.team_is_red;
        self.team_is_red = !self.team_is_red;
        self.set_idx = s;
        self.q_idx = i;
        self.state = QuestionState::Question {
            clues,
            connection,
            phase,
            offered_to_red,
            started: now + COUNT_IN_MILLIS,
            stopped: None,
        };
    }

    /// Move the cursor to the next page of the flattened sequence. Only
    /// called on an advance signal, so an active question has already shown
    /// its answer.
    fn advance(&mut self, now: u64)
        requires
            old(self).wf(),
            !(old(self).state is EndPage),
            old(self).state matches QuestionState::Question { phase, .. }
                ==> phase.spec_is_answer_shown(),
            now <= u64::MAX - COUNT_IN_MILLIS,
        ensures
            final(self).wf(),
            spec_is_advanced(*old(self), *final(self), now),
    {
        proof {
            lemma_questions_before_nonneg(self.sets@, self.set_idx as int);
        }
        let at_start = matches!(&self.state, QuestionState::StartPage);
        let at_title = matches!(&self.state, QuestionState::TitlePage { .. });
        if at_start {
            if self.sets.len() == 0 {
                self.state = QuestionState::EndPage;
            } else {
                self.enter_title(0);
            }
        } else if at_title {
            proof {
                assert(self.state is TitlePage);
            }
            let s = self.set_idx;
            let n_sets = self.sets.len();
            if self.q_idx < self.sets[s].questions.len() {
                self.enter_question(s, 0, now);
            } else {
                proof {
                    lemma_questions_before_monotone(
                        self.sets@,
                        self.set_idx as int + 1,
                        self.sets@.len() as int,
                    );
                }
                if s + 1 < n_sets {
                    self.enter_title(s + 1);
                } else {
                    self.state = QuestionState::EndPage;
                }
            }
        } else {
            proof {
                assert(self.state is Question);
            }
            let s = self.set_idx;
            let i = self.q_idx;
            let n_sets = self.sets.len();
            let n_questions = self.sets[s].questions.len();
            if i + 1 < n_questions {
                self.enter_question(s, i + 1, now);
            } else {
                proof {
                    lemma_questions_before_monotone(
                        self.sets@,
                        self.set_idx as int + 1,
                        self.sets@.len() as int,
                    );
                }
                if s + 1 < n_sets {
                    self.enter_title(s + 1);
                } else {
                    self.state = QuestionState::EndPage;
                }
            }
        }
    }

    /// One tick of the whole session: drive the active page's state machine,
    /// apply the score deltas, and follow an advance signal to the next page.
    ///
    /// The turn-parity clauses say that the flag alternates exactly once per
    /// question: a tick that stays on the current page never touches it (no
    /// matter how many phase transitions happen within the question), and the
    /// single toggle happens in the tick that enters a question, whose offer
    /// it decides.
    pub fn update(&mut self, input: KeyboardInput, now: u64) -> (r: UpdateResult)
        requires
            old(self).wf(),
            now <= u64::MAX - COUNT_IN_MILLIS,
        ensures
            final(self).wf(),
            ({
                let (state2, r2) = old(self).state.spec_update(input, now);
                &&& r == r2
                &&& final(self).red_points == old(self).red_points + r.red_points_change
                &&& final(self).blue_points == old(self).blue_points + r.blue_points_change
                &&& final(self).sets == old(self).sets
                &&& !r.next_question ==> {
                    &&& final(self).state == state2
                    &&& final(self).set_idx == old(self).set_idx
                    &&& final(self).q_idx == old(self).q_idx
                    &&& final(self).team_is_red == old(self).team_is_red
                }
                &&& r.next_question ==> spec_is_advanced(*old(self), *final(self), now)
            }),
            // turn parity (see above)
            !r.next_question ==> {
                &&& final(self).team_is_red == old(self).team_is_red
                &&& final(self).state.spec_offered_to_red()
                    == old(self).state.spec_offered_to_red()
            },
            r.next_question && final(self).state is Question ==> {
                &&& final(self).state.spec_offered_to_red() == old(self).team_is_red
                &&& final(self).team_is_red == !old(self).team_is_red
            },
            r.next_question && !(final(self).state is Question) ==> final(self).team_is_red
                == old(self).team_is_red,
    {
        let r = self.state.update(input, now);
        proof {
            lemma_questions_before_nonneg(self.sets@, self.set_idx as int);
            if self.state matches QuestionState::Question { .. } {
                lemma_questions_before_monotone(
                    self.sets@,
                    self.set_idx as int + 1,
                    self.sets@.len() as int,
                );
            }
        }
        self.red_points = self.red_points + r.red_points_change;
        self.blue_points = self.blue_points + r.blue_points_change;
        if r.next_question {
            self.advance(now);
        }
        r
    }

    pub fn get_red_points(&self) -> (p: i32)
        ensures
            p == self.red_points,
    {
        self.red_points
    }

    pub fn get_blue_points(&self) -> (p: i32)
        ensures
            p == self.blue_points,
    {
        self.blue_points
    }

    /// Read-only view of the active page, for the renderer.
    pub fn current_state(&self) -> (s: &QuestionState)
        ensures
            s == &self.state,
    {
        &self.state
    }

    pub fn get_background_colour(&self) -> (c: BackgroundColour)
        ensures
            c == self.state.spec_background_colour(),
    {
        self.state.get_background_colour()
    }
}

/// Relation between a session and its successor after one advance of the
/// cursor: from the start banner to the first round's title (or straight to
/// the end page of an empty session), from a title into its round's first
/// question or past an empty round, from a question to the next question of
/// its round, the next round's title, or the end page. Entering a question
/// offers it to the team the parity flag names and toggles the flag; every
/// other advance leaves the flag alone. Scores and rounds never change.
pub open spec fn spec_is_advanced(pre: Session, post: Session, now: u64) -> bool {
    &&& post.sets == pre.sets
    &&& post.red_points == pre.red_points
    &&& post.blue_points == pre.blue_points
    &&& match pre.state {
        QuestionState::StartPage => {
            if pre.sets@.len() == 0 {
                post.state is EndPage && post.team_is_red == pre.team_is_red
            } else {
                spec_entered_title(pre, post, 0)
            }
        },
        QuestionState::TitlePage { .. } => {
            if pre.sets@[pre.set_idx as int].questions@.len() > 0 {
                spec_entered_question(pre, post, pre.set_idx as int, 0, now)
            } else if pre.set_idx + 1 < pre.sets@.len() {
                spec_entered_title(pre, post, pre.set_idx as int + 1)
            } else {
                post.state is EndPage && post.team_is_red == pre.team_is_red
            }
        },
        QuestionState::Question { .. } => {
            if pre.q_idx + 1 < pre.sets@[pre.set_idx as int].questions@.len() {
                spec_entered_question(pre, post, pre.set_idx as int, pre.q_idx as int + 1, now)
            } else if pre.set_idx + 1 < pre.sets@.len() {
                spec_entered_title(pre, post, pre.set_idx as int + 1)
            } else {
                post.state is EndPage && post.team_is_red == pre.team_is_red
            }
        },
        QuestionState::EndPage => false,
    }
}

/// `post` shows the title page of round `s`, everything else as in `pre`.
pub open spec fn spec_entered_title(pre: Session, post: Session, s: int) -> bool {
    &&& post.set_idx == s
    &&& post.q_idx == 0
    &&& post.team_is_red == pre.team_is_red
    &&& post.state matches QuestionState::TitlePage { title } && title@ == pre.sets@[s].title@
}

/// `post` shows question `i` of round `s` in its count-in state, offered to
/// the team `pre`'s parity flag names, with the flag toggled.
pub open spec fn spec_entered_question(pre: Session, post: Session, s: int, i: int, now: u64) -> bool {
    let q = pre.sets@[s].questions@[i];
    &&& post.set_idx == s
    &&& post.q_idx == i
    &&& post.team_is_red == !pre.team_is_red
    &&& post.state matches QuestionState::Question {
        clues,
        connection,
        phase,
        offered_to_red,
        started,
        stopped,
    } && {
        &&& clues@.len() == q.clues@.len()
        &&& forall|j: int| 0 <= j < clues@.len() ==> clues@[j]@ == #[trigger] q.clues@[j]@
        &&& connection@ == q.connection@
        &&& phase == spec_initial_phase(q.question_type)
        &&& offered_to_red == pre.team_is_red
        &&& started == now + COUNT_IN_MILLIS
        &&& stopped is None
    }
}

} // verus!
