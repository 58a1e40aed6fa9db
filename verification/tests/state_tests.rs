use only_connect::phase::{ConnectionPhase, Phase};
use only_connect::questions::Clue;
use only_connect::state::{
    count_in_remaining_millis, time_elapsed_millis, time_remaining_millis, BackgroundColour,
    KeyboardInput, QuestionState, UpdateResult, COUNT_IN_MILLIS, TIME_PER_QUESTION_MILLIS,
};

fn four_clues() -> Vec<Clue> {
    vec![
        Clue::TextClue(String::from("alpha")),
        Clue::TextClue(String::from("beta")),
        Clue::TextClue(String::from("gamma")),
        Clue::PictureClue(0, String::from("delta")),
    ]
}

fn connection_question(phase: Phase, started: u64, stopped: Option<u64>) -> QuestionState {
    QuestionState::Question {
        clues: four_clues(),
        connection: String::from("greek letters"),
        phase,
        offered_to_red: true,
        started,
        stopped,
    }
}

fn no_input() -> KeyboardInput {
    KeyboardInput { next: false, stop: false, correct: false, incorrect: false }
}

fn press_next() -> KeyboardInput {
    KeyboardInput { next: true, ..no_input() }
}

fn press_stop() -> KeyboardInput {
    KeyboardInput { stop: true, ..no_input() }
}

fn press_correct() -> KeyboardInput {
    KeyboardInput { correct: true, ..no_input() }
}

fn press_incorrect() -> KeyboardInput {
    KeyboardInput { incorrect: true, ..no_input() }
}

fn phase_of(state: &QuestionState) -> Phase {
    match state {
        QuestionState::Question { phase, .. } => *phase,
        _ => panic!("not on a question page"),
    }
}

fn assert_no_change(r: &UpdateResult) {
    assert!(!r.next_question);
    assert_eq!(r.red_points_change, 0);
    assert_eq!(r.blue_points_change, 0);
}

#[test]
fn scenario_advance_through_clues() {
    // count-in elapses, then repeated advance presses reveal clues one by
    // one with no score change
    let started = COUNT_IN_MILLIS;
    let mut state = connection_question(Phase::Connection(ConnectionPhase::CountIn), started, None);
    // during the count-in nothing happens, input or not
    let r = state.update(press_next(), started - 1);
    assert_no_change(&r);
    assert_eq!(phase_of(&state), Phase::Connection(ConnectionPhase::CountIn));
    // the tick after the count-in ends reveals the first clue by itself
    let r = state.update(press_next(), started);
    assert_no_change(&r);
    assert_eq!(phase_of(&state), Phase::Connection(ConnectionPhase::OneClueShown));
    // two more presses: two, then three clues shown
    let r = state.update(press_next(), started + 1000);
    assert_no_change(&r);
    assert_eq!(phase_of(&state), Phase::Connection(ConnectionPhase::TwoCluesShown));
    let r = state.update(press_next(), started + 2000);
    assert_no_change(&r);
    assert_eq!(phase_of(&state), Phase::Connection(ConnectionPhase::ThreeCluesShown));
}

#[test]
fn scenario_stop_then_correct_scores_offering_team() {
    // clock stopped, then correct: the offering team earns the current
    // phase's value and the answer shows
    let mut state =
        connection_question(Phase::Connection(ConnectionPhase::TwoCluesShown), 3000, None);
    let r = state.update(press_stop(), 20000);
    assert_no_change(&r);
    let r = state.update(press_correct(), 20500);
    assert!(!r.next_question);
    assert_eq!(r.red_points_change, 3);
    assert_eq!(r.blue_points_change, 0);
    assert_eq!(phase_of(&state), Phase::Connection(ConnectionPhase::AnswerShown));
    assert_eq!(state.get_background_colour(), BackgroundColour::Grey);
}

#[test]
fn scenario_timeout_passes_over() {
    // 45 s elapse with no input: the question passes over by itself, no
    // score change, and the background flips to the non-offering team
    let started = 3000;
    let mut state =
        connection_question(Phase::Connection(ConnectionPhase::OneClueShown), started, None);
    assert_eq!(state.get_background_colour(), BackgroundColour::Red);
    let r = state.update(no_input(), started + TIME_PER_QUESTION_MILLIS);
    assert_no_change(&r);
    assert_eq!(phase_of(&state), Phase::Connection(ConnectionPhase::PassedOver));
    assert_eq!(state.get_background_colour(), BackgroundColour::Blue);
}

#[test]
fn scenario_passed_over_incorrect_shows_answer() {
    // both teams failed: the answer shows and nobody scores
    let mut state =
        connection_question(Phase::Connection(ConnectionPhase::PassedOver), 3000, None);
    let r = state.update(press_incorrect(), 50000);
    assert_no_change(&r);
    assert_eq!(phase_of(&state), Phase::Connection(ConnectionPhase::AnswerShown));
}

#[test]
fn passed_over_correct_scores_other_team() {
    let mut state =
        connection_question(Phase::Connection(ConnectionPhase::PassedOver), 3000, None);
    let r = state.update(press_correct(), 50000);
    assert!(!r.next_question);
    assert_eq!(r.red_points_change, 0);
    assert_eq!(r.blue_points_change, 1);
    assert_eq!(phase_of(&state), Phase::Connection(ConnectionPhase::AnswerShown));
}

#[test]
fn stopped_incorrect_passes_over_without_resuming() {
    let mut state =
        connection_question(Phase::Connection(ConnectionPhase::ThreeCluesShown), 3000, Some(10000));
    let r = state.update(press_incorrect(), 11000);
    assert_no_change(&r);
    assert_eq!(phase_of(&state), Phase::Connection(ConnectionPhase::PassedOver));
    match &state {
        QuestionState::Question { stopped, .. } => assert_eq!(*stopped, Some(10000)),
        _ => panic!("not on a question page"),
    }
}

#[test]
fn timeout_beats_simultaneous_input() {
    let started = 0;
    let mut state =
        connection_question(Phase::Connection(ConnectionPhase::TwoCluesShown), started, None);
    let r = state.update(press_next(), TIME_PER_QUESTION_MILLIS + 5);
    assert_no_change(&r);
    assert_eq!(phase_of(&state), Phase::Connection(ConnectionPhase::PassedOver));
}

#[test]
fn answer_shown_waits_for_advance() {
    let mut state =
        connection_question(Phase::Connection(ConnectionPhase::AnswerShown), 3000, None);
    let r = state.update(press_correct(), 60000);
    assert_no_change(&r);
    let r = state.update(press_next(), 61000);
    assert!(r.next_question);
    assert_eq!(r.red_points_change, 0);
    assert_eq!(r.blue_points_change, 0);
}

#[test]
fn stop_records_the_instant() {
    let mut state =
        connection_question(Phase::Connection(ConnectionPhase::OneClueShown), 3000, None);
    let r = state.update(press_stop(), 17500);
    assert_no_change(&r);
    match &state {
        QuestionState::Question { stopped, .. } => assert_eq!(*stopped, Some(17500)),
        _ => panic!("not on a question page"),
    }
}

#[test]
fn start_and_end_pages() {
    let mut state = QuestionState::StartPage;
    let r = state.update(no_input(), 0);
    assert_no_change(&r);
    let r = state.update(press_next(), 0);
    assert!(r.next_question);
    assert_eq!(state.get_background_colour(), BackgroundColour::Grey);

    let mut state = QuestionState::EndPage;
    let r = state.update(press_next(), 0);
    assert_no_change(&r);
    assert_eq!(state.get_background_colour(), BackgroundColour::Grey);
}

#[test]
fn title_page_advances_on_next() {
    let mut state = QuestionState::TitlePage { title: String::from("round one") };
    let r = state.update(press_next(), 5);
    assert!(r.next_question);
    assert_eq!(state.get_background_colour(), BackgroundColour::Grey);
}

#[test]
fn blue_offering_background() {
    let state = QuestionState::Question {
        clues: four_clues(),
        connection: String::from("x"),
        phase: Phase::Connection(ConnectionPhase::TwoCluesShown),
        offered_to_red: false,
        started: 0,
        stopped: None,
    };
    assert_eq!(state.get_background_colour(), BackgroundColour::Blue);
    let state = QuestionState::Question {
        clues: four_clues(),
        connection: String::from("x"),
        phase: Phase::Connection(ConnectionPhase::PassedOver),
        offered_to_red: false,
        started: 0,
        stopped: None,
    };
    assert_eq!(state.get_background_colour(), BackgroundColour::Red);
}

#[test]
fn update_result_constructors() {
    let r = UpdateResult::no_change();
    assert!(!r.next_question && r.red_points_change == 0 && r.blue_points_change == 0);
    let r = UpdateResult::next_question();
    assert!(r.next_question && r.red_points_change == 0 && r.blue_points_change == 0);
    let r = UpdateResult::points(5, true);
    assert!(!r.next_question && r.red_points_change == 5 && r.blue_points_change == 0);
    let r = UpdateResult::points(2, false);
    assert!(!r.next_question && r.red_points_change == 0 && r.blue_points_change == 2);
}

#[test]
fn keyboard_input_default_is_idle() {
    let input: KeyboardInput = Default::default();
    assert_eq!(input, no_input());
}

#[test]
fn timing_queries() {
    // frozen at the stop instant, clamped before the start
    assert_eq!(time_elapsed_millis(3000, None, 10000), 7000);
    assert_eq!(time_elapsed_millis(3000, Some(8000), 10000), 5000);
    assert_eq!(time_elapsed_millis(3000, None, 2000), 0);
    assert_eq!(time_remaining_millis(3000, 3000), TIME_PER_QUESTION_MILLIS);
    assert_eq!(time_remaining_millis(3000, 40000), 8000);
    assert_eq!(time_remaining_millis(3000, 3000 + TIME_PER_QUESTION_MILLIS + 1), 0);
    assert_eq!(count_in_remaining_millis(3000, 1000), 2000);
    assert_eq!(count_in_remaining_millis(3000, 3000), 0);
    assert_eq!(count_in_remaining_millis(3000, 9000), 0);
}
