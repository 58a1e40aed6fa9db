use only_connect::phase::{ConnectionPhase, Phase, SequencePhase};

#[test]
fn connection_point_schedule() {
    assert_eq!(ConnectionPhase::OneClueShown.get_points(), 5);
    assert_eq!(ConnectionPhase::TwoCluesShown.get_points(), 3);
    assert_eq!(ConnectionPhase::ThreeCluesShown.get_points(), 2);
    assert_eq!(ConnectionPhase::FourCluesShown.get_points(), 1);
    assert_eq!(ConnectionPhase::PassedOver.get_points(), 1);
}

#[test]
fn sequence_point_schedule() {
    assert_eq!(SequencePhase::OneClueShown.get_points(), 5);
    assert_eq!(SequencePhase::TwoCluesShown.get_points(), 3);
    assert_eq!(SequencePhase::ThreeCluesShown.get_points(), 2);
    assert_eq!(SequencePhase::PassedOver.get_points(), 1);
}

#[test]
fn connection_clue_counts() {
    assert_eq!(ConnectionPhase::CountIn.clues_to_show(), 0);
    assert_eq!(ConnectionPhase::OneClueShown.clues_to_show(), 1);
    assert_eq!(ConnectionPhase::TwoCluesShown.clues_to_show(), 2);
    assert_eq!(ConnectionPhase::ThreeCluesShown.clues_to_show(), 3);
    assert_eq!(ConnectionPhase::FourCluesShown.clues_to_show(), 4);
    assert_eq!(ConnectionPhase::PassedOver.clues_to_show(), 4);
    assert_eq!(ConnectionPhase::AnswerShown.clues_to_show(), 4);
}

#[test]
fn sequence_clue_counts() {
    assert_eq!(SequencePhase::CountIn.clues_to_show(), 0);
    assert_eq!(SequencePhase::OneClueShown.clues_to_show(), 1);
    assert_eq!(SequencePhase::TwoCluesShown.clues_to_show(), 2);
    assert_eq!(SequencePhase::ThreeCluesShown.clues_to_show(), 3);
    // a passed-over sequence question pins at its true clue count
    assert_eq!(SequencePhase::PassedOver.clues_to_show(), 3);
    // once answered, the hidden fourth tile shows too
    assert_eq!(SequencePhase::AnswerShown.clues_to_show(), 4);
}

#[test]
fn connection_next_saturates() {
    // clue reveal is non-decreasing and saturates at four clues
    let mut p = ConnectionPhase::CountIn;
    let mut last = p.clues_to_show();
    for _ in 0..10 {
        p.next();
        let now = p.clues_to_show();
        assert!(now >= last);
        last = now;
    }
    assert_eq!(p, ConnectionPhase::FourCluesShown);
    assert_eq!(p.clues_to_show(), 4);
}

#[test]
fn sequence_next_saturates() {
    let mut p = SequencePhase::CountIn;
    let mut last = p.clues_to_show();
    for _ in 0..10 {
        p.next();
        let now = p.clues_to_show();
        assert!(now >= last);
        last = now;
    }
    assert_eq!(p, SequencePhase::ThreeCluesShown);
    assert_eq!(p.clues_to_show(), 3);
}

#[test]
fn connection_pass_over_and_show_answer() {
    let mut p = ConnectionPhase::TwoCluesShown;
    p.pass_over();
    assert_eq!(p, ConnectionPhase::PassedOver);
    assert!(p.is_passed_over());
    assert_eq!(p.get_points(), 1);
    p.show_answer();
    assert_eq!(p, ConnectionPhase::AnswerShown);
    assert!(p.is_answer_shown());
}

#[test]
fn sequence_pass_over_and_show_answer() {
    let mut p = SequencePhase::ThreeCluesShown;
    p.pass_over();
    assert_eq!(p, SequencePhase::PassedOver);
    assert_eq!(p.get_points(), 1);
    p.show_answer();
    assert_eq!(p, SequencePhase::AnswerShown);
}

#[test]
fn progress_bar_visibility() {
    // shown while clues are on screen, through a pass, for both types;
    // never during the count-in or once the answer is up
    assert!(!ConnectionPhase::CountIn.is_progress_bar_shown());
    assert!(ConnectionPhase::OneClueShown.is_progress_bar_shown());
    assert!(ConnectionPhase::FourCluesShown.is_progress_bar_shown());
    assert!(ConnectionPhase::PassedOver.is_progress_bar_shown());
    assert!(!ConnectionPhase::AnswerShown.is_progress_bar_shown());
    assert!(!SequencePhase::CountIn.is_progress_bar_shown());
    assert!(SequencePhase::TwoCluesShown.is_progress_bar_shown());
    assert!(SequencePhase::PassedOver.is_progress_bar_shown());
    assert!(!SequencePhase::AnswerShown.is_progress_bar_shown());
}

#[test]
fn first_team_guess_predicate() {
    assert!(!ConnectionPhase::CountIn.is_first_team_guess());
    assert!(ConnectionPhase::OneClueShown.is_first_team_guess());
    assert!(ConnectionPhase::FourCluesShown.is_first_team_guess());
    assert!(!ConnectionPhase::PassedOver.is_first_team_guess());
    assert!(!ConnectionPhase::AnswerShown.is_first_team_guess());
    assert!(SequencePhase::ThreeCluesShown.is_first_team_guess());
    assert!(!SequencePhase::PassedOver.is_first_team_guess());
}

#[test]
fn count_in_predicate() {
    assert!(ConnectionPhase::CountIn.is_count_in());
    assert!(!ConnectionPhase::OneClueShown.is_count_in());
    assert!(SequencePhase::CountIn.is_count_in());
    assert!(!SequencePhase::AnswerShown.is_count_in());
}

#[test]
fn phase_wrapper_dispatch() {
    let mut p = Phase::Connection(ConnectionPhase::CountIn);
    assert!(p.is_count_in());
    p.next();
    assert_eq!(p, Phase::Connection(ConnectionPhase::OneClueShown));
    assert_eq!(p.get_points(), 5);
    assert_eq!(p.clues_to_show(), 1);
    let mut q = Phase::Sequence(SequencePhase::OneClueShown);
    q.pass_over();
    assert!(q.is_passed_over());
    assert_eq!(q.clues_to_show(), 3);
    q.show_answer();
    assert!(q.is_answer_shown());
    assert_eq!(q.clues_to_show(), 4);
}

#[test]
fn points_strictly_decrease_with_clues() {
    let conn = [
        ConnectionPhase::OneClueShown,
        ConnectionPhase::TwoCluesShown,
        ConnectionPhase::ThreeCluesShown,
        ConnectionPhase::FourCluesShown,
    ];
    for w in conn.windows(2) {
        assert!(w[0].get_points() > w[1].get_points());
    }
    let seqp = [
        SequencePhase::OneClueShown,
        SequencePhase::TwoCluesShown,
        SequencePhase::ThreeCluesShown,
    ];
    for w in seqp.windows(2) {
        assert!(w[0].get_points() > w[1].get_points());
    }
}
