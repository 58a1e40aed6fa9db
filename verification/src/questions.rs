//! Question data as the core sees it.
//!
//! Question files are parsed, validated and shuffled by the loader before a
//! session starts; the core receives the sets fully materialized and treats
//! their order as fixed. Image bytes are opaque payload: a picture clue
//! carries only the loader-chosen handle of its image next to its caption.

use vstd::prelude::*;

verus! {

/// Mathematical value of a clue: its caption, and for a picture clue the
/// handle of its image.
pub enum ClueView {
    Text(Seq<char>),
    Picture(int, Seq<char>),
}

/// A single clue tile: plain text, or an image handle with its caption.
#[derive(Debug)]
pub enum Clue {
    TextClue(String),
    PictureClue(usize, String),
}

impl View for Clue {
    type V = ClueView;

    open spec fn view(&self) -> ClueView {
        match self {
            Clue::TextClue(text) => ClueView::Text(text@),
            Clue::PictureClue(image, text) => ClueView::Picture(*image as int, text@),
        }
    }
}

impl Clone for Clue {
    fn clone(&self) -> (res: Self)
        ensures
            res@ == self@,
    {
        match self {
            Clue::TextClue(text) => Clue::TextClue(text.clone()),
            Clue::PictureClue(image, text) => Clue::PictureClue(*image, text.clone()),
        }
    }
}

#[derive(Debug, Clone, Copy, PartialEq, Eq, Structural)]
pub enum QuestionType {
    Sequence,
    Connection,
}

/// One question: its type, the answer text (the connection to be found), and
/// its clues in reveal order.
#[derive(Debug)]
pub struct Question {
    pub question_type: QuestionType,
    pub connection: String,
    pub clues: Vec<Clue>,
}

impl Question {
    /// Load-time data invariant: every question reaches the core with exactly
    /// four clues (a sequence question's fourth clue is the hidden
    /// continuation, revealed with the answer).
    pub open spec fn wf(self) -> bool {
        self.clues.len() == 4
    }
}

/// A titled, ordered round of questions, consumed in order.
#[derive(Debug)]
pub struct QuestionSet {
    pub title: String,
    pub questions: Vec<Question>,
}

impl QuestionSet {
    pub open spec fn wf(self) -> bool {
        forall|i: int| 0 <= i < self.questions.len() ==> (#[trigger] self.questions[i]).wf()
    }
}

} // verus!
