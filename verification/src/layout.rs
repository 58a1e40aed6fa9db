//! Greedy word-wrap layout engine.
//!
//! Given a string, a pixel-width budget and an injected measurement function
//! (the excluded font subsystem's "how wide would this render?"), the engine
//! splits the string into lines, breaking only at spaces: it repeatedly takes
//! the longest run of whole words from the cursor that still fits the budget,
//! joined by single spaces. A word too wide even on its own goes on a line
//! alone, unsplit — its overflow is accepted silently. Spaces never appear at
//! line boundaries, and runs of spaces never become words. The engine is
//! deterministic and side-effect-free; the renderer re-runs it from scratch
//! whenever it draws a string.

use vstd::prelude::*;
use vstd::string::StrSliceExecFns;

verus! {

/// A word: a non-empty run of non-space characters.
pub open spec fn spec_is_word(w: Seq<char>) -> bool {
    &&& w.len() > 0
    &&& forall|m: int| 0 <= m < w.len() ==> w[m] != ' '
}

/// The words of `s` still to be found, with `cur` the word in progress
/// (accumulated from the characters just before `s`).
pub open spec fn spec_words_acc(s: Seq<char>, cur: Seq<char>) -> Seq<Seq<char>>
    decreases s.len(),
{
    if s.len() == 0 {
        if cur.len() == 0 {
            Seq::empty()
        } else {
            seq![cur]
        }
    } else if s[0] == ' ' {
        if cur.len() == 0 {
            spec_words_acc(s.skip(1), Seq::empty())
        } else {
            seq![cur] + spec_words_acc(s.skip(1), Seq::empty())
        }
    } else {
        spec_words_acc(s.skip(1), cur.push(s[0]))
    }
}

/// The maximal runs of non-space characters of `s`, in order.
pub open spec fn spec_words(s: Seq<char>) -> Seq<Seq<char>> {
    spec_words_acc(s, Seq::empty())
}

/// `ws` joined with single spaces.
pub open spec fn spec_join_words(ws: Seq<Seq<char>>) -> Seq<char>
    decreases ws.len(),
{
    if ws.len() == 0 {
        Seq::empty()
    } else if ws.len() == 1 {
        ws[0]
    } else {
        ws[0] + seq![' '] + spec_join_words(ws.skip(1))
    }
}

/// `s` with leading and trailing spaces dropped and every internal run of
/// spaces collapsed to a single space.
pub open spec fn spec_collapsed(s: Seq<char>) -> Seq<char> {
    spec_join_words(spec_words(s))
}

/// Scanning a run of non-space characters extends the word in progress.
proof fn lemma_words_acc_over_word(w: Seq<char>, s: Seq<char>, cur: Seq<char>)
    requires
        forall|m: int| 0 <= m < w.len() ==> w[m] != ' ',
    ensures
        spec_words_acc(w + s, cur) == spec_words_acc(s, cur + w),
    decreases w.len(),
{
    if w.len() == 0 {
        assert(w + s =~= s);
        assert(cur + w =~= cur);
    } else {
        assert((w + s)[0] == w[0]);
        assert((w + s).skip(1) =~= w.skip(1) + s);
        lemma_words_acc_over_word(w.skip(1), s, cur.push(w[0]));
        assert(cur.push(w[0]) + w.skip(1) =~= cur + w);
    }
}

/// Every entry the scan emits is a word: non-empty and free of spaces.
proof fn lemma_words_acc_all_words(s: Seq<char>, cur: Seq<char>)
    requires
        forall|m: int| 0 <= m < cur.len() ==> cur[m] != ' ',
    ensures
        forall|k: int|
            0 <= k < spec_words_acc(s, cur).len() ==> spec_is_word(
                #[trigger] spec_words_acc(s, cur)[k],
            ),
    decreases s.len(),
{
    if s.len() == 0 {
        if cur.len() > 0 {
            assert(spec_words_acc(s, cur)[0] == cur);
        }
    } else if s[0] == ' ' {
        lemma_words_acc_all_words(s.skip(1), Seq::empty());
        assert forall|k: int| 0 <= k < spec_words_acc(s, cur).len() implies spec_is_word(
            spec_words_acc(s, cur)[k],
        ) by {
            let tail = spec_words_acc(s.skip(1), Seq::empty());
            if cur.len() == 0 {
                assert(spec_words_acc(s, cur)[k] == tail[k]);
            } else if k == 0 {
                assert(spec_words_acc(s, cur)[0] == cur);
            } else {
                assert(spec_words_acc(s, cur)[k] == tail[k - 1]);
            }
        }
    } else {
        lemma_words_acc_all_words(s.skip(1), cur.push(s[0]));
        assert forall|k: int| 0 <= k < spec_words_acc(s, cur).len() implies spec_is_word(
            spec_words_acc(s, cur)[k],
        ) by {
            let tail = spec_words_acc(s.skip(1), cur.push(s[0]));
            assert(spec_words_acc(s, cur)[k] == tail[k]);
        }
    }
}

/// Every word of a string is non-empty and free of spaces.
pub proof fn lemma_words_are_words(s: Seq<char>)
    ensures
        forall|k: int|
            0 <= k < spec_words(s).len() ==> spec_is_word(#[trigger] spec_words(s)[k]),
{
    lemma_words_acc_all_words(s, Seq::empty());
}

/// Appending one more word to a join appends a space and the word.
proof fn lemma_join_words_push(ws: Seq<Seq<char>>, w: Seq<char>)
    requires
        ws.len() >= 1,
    ensures
        spec_join_words(ws.push(w)) == spec_join_words(ws) + seq![' '] + w,
    decreases ws.len(),
{
    if ws.len() == 1 {
        assert(ws.push(w).skip(1) =~= seq![w]);
        assert(spec_join_words(seq![w]) == w);
        assert(spec_join_words(ws.push(w)) =~= spec_join_words(ws) + seq![' '] + w);
    } else {
        assert(ws.push(w).skip(1) =~= ws.skip(1).push(w));
        lemma_join_words_push(ws.skip(1), w);
        assert(spec_join_words(ws.push(w)) =~= spec_join_words(ws) + seq![' '] + w);
    }
}

/// Split `text` into its words, in order.
fn split_words(text: &str) -> (words: Vec<String>)
    ensures
        words@.map_values(|w: String| w@) == spec_words(text@),
{
    let n = text.unicode_len();
    let mut words: Vec<String> = Vec::new();
    let mut i: usize = 0;
    proof {
        assert(text@.skip(0) =~= text@);
        assert(words@.map_values(|w: String| w@) + spec_words_acc(text@, Seq::empty())
            =~= spec_words_acc(text@, Seq::empty()));
    }
    while i < n
        invariant
            n == text@.len(),
            i <= n,
            spec_words(text@) == words@.map_values(|w: String| w@) + spec_words_acc(
                text@.skip(i as int),
                Seq::empty(),
            ),
        decreases n - i,
    {
        let c = text.get_char(i);
        if c == ' ' {
            proof {
                assert(text@.skip(i as int).skip(1) =~= text@.skip(i as int + 1));
            }
            i += 1;
        } else {
            let start = i;
            let mut j = i + 1;
            while j < n && text.get_char(j) != ' '
                invariant
                    n == text@.len(),
                    start < j <= n,
                    forall|m: int| start <= m < j ==> text@[m] != ' ',
                decreases n - j,
            {
                j += 1;
            }
            let word = text.substring_char(start, j).to_owned();
            proof {
                let w = text@.subrange(start as int, j as int);
                let rest = text@.skip(j as int);
                assert(text@.skip(start as int) =~= w + rest);
                lemma_words_acc_over_word(w, rest, Seq::empty());
                assert(Seq::<char>::empty() + w =~= w);
                assert(spec_words_acc(text@.skip(start as int), Seq::empty())
                    == spec_words_acc(rest, w));
                if j < n {
                    // the word ended at a space: both scans continue past it
                    assert(rest[0] == ' ');
                    assert(spec_words_acc(rest, w) == seq![w] + spec_words_acc(
                        rest.skip(1),
                        Seq::empty(),
                    ));
                    assert(spec_words_acc(rest, Seq::empty()) == spec_words_acc(
                        rest.skip(1),
                        Seq::empty(),
                    ));
                } else {
                    assert(rest =~= Seq::<char>::empty());
                    assert(spec_words_acc(rest, w) == seq![w]);
                    assert(seq![w] + spec_words_acc(rest, Seq::empty()) =~= seq![w]);
                }
                assert(spec_words_acc(text@.skip(start as int), Seq::empty()) =~= seq![w]
                    + spec_words_acc(rest, Seq::empty()));
                assert(words@.push(word).map_values(|w2: String| w2@) =~= words@.map_values(
                    |w2: String| w2@,
                ).push(word@));
                assert(words@.map_values(|w2: String| w2@) + (seq![w] + spec_words_acc(
                    rest,
                    Seq::empty(),
                )) =~= words@.push(word).map_values(|w2: String| w2@) + spec_words_acc(
                    rest,
                    Seq::empty(),
                ));
            }
            words.push(word);
            i = j;
        }
    }
    proof {
        assert(text@.skip(n as int) =~= Seq::<char>::empty());
        assert(words@.map_values(|w: String| w@) + spec_words_acc(Seq::empty(), Seq::empty())
            =~= words@.map_values(|w: String| w@));
    }
    words
}

/// Some call of `measure` on a string reading `s` returned a width within
/// `width`. The measurement function is injected and to the verifier possibly
/// nondeterministic, so the wrap's contract speaks of which measurements were
/// observed, not of a fixed width function.
pub open spec fn spec_may_fit<F: Fn(String) -> u32>(measure: F, s: Seq<char>, width: u32) -> bool {
    exists|t: String, r: u32| t@ == s && #[trigger] call_ensures(measure, (t,), r) && r <= width
}

/// Some call of `measure` on a string reading `s` returned a width over
/// `width`.
pub open spec fn spec_may_exceed<F: Fn(String) -> u32>(
    measure: F,
    s: Seq<char>,
    width: u32,
) -> bool {
    exists|t: String, r: u32| t@ == s && #[trigger] call_ensures(measure, (t,), r) && r > width
}

/// `measure` answers consistently: any two results it can return for equal
/// strings are equal. A real text-measurement function (a pure function of
/// the glyphs) satisfies this.
pub open spec fn spec_measure_consistent<F: Fn(String) -> u32>(measure: F) -> bool {
    forall|t1: String, t2: String, r1: u32, r2: u32|
        #[trigger] call_ensures(measure, (t1,), r1) && #[trigger] call_ensures(measure, (t2,), r2)
            && t1@ == t2@ ==> r1 == r2
}

/// The greedy choice at the head of `ws`: the first line takes `k` words.
/// Either every prefix of one to `k` words measured within the budget and the
/// next word would have pushed it over (or there is none), or the very first
/// word already measured over the budget and stands alone.
pub open spec fn spec_greedy_line<F: Fn(String) -> u32>(
    measure: F,
    ws: Seq<Seq<char>>,
    width: u32,
    k: int,
) -> bool {
    &&& 1 <= k <= ws.len()
    &&& (k > 1 ==> forall|m: int|
        1 <= m <= k ==> spec_may_fit(measure, spec_join_words(#[trigger] ws.take(m)), width))
    &&& {
        ||| k == ws.len()
        ||| spec_may_exceed(measure, spec_join_words(ws.take(k + 1)), width)
        ||| (k == 1 && spec_may_exceed(measure, spec_join_words(ws.take(1)), width))
    }
}

/// `lines` is a greedy left-to-right wrap of the words `ws` at budget
/// `width`: the first line is the greedy head run joined with single spaces,
/// and the rest wrap the remaining words.
pub open spec fn spec_is_greedy_wrap<F: Fn(String) -> u32>(
    measure: F,
    ws: Seq<Seq<char>>,
    width: u32,
    lines: Seq<Seq<char>>,
) -> bool
    decreases ws.len(),
{
    if ws.len() == 0 {
        lines.len() == 0
    } else {
        exists|k: int|
            {
                &&& #[trigger] spec_greedy_line(measure, ws, width, k)
                &&& lines.len() >= 1
                &&& lines[0] == spec_join_words(ws.take(k))
                &&& spec_is_greedy_wrap(measure, ws.skip(k), width, lines.skip(1))
            }
    }
}

/// Line `j` of the wrap is the greedy choice for the words from `b[j]` to
/// `b[j + 1]`.
pub open spec fn spec_segment_ok<F: Fn(String) -> u32>(
    measure: F,
    ws: Seq<Seq<char>>,
    width: u32,
    b: Seq<int>,
    lines: Seq<Seq<char>>,
    j: int,
) -> bool {
    &&& b[j] < b[j + 1] <= ws.len()
    &&& spec_greedy_line(measure, ws.skip(b[j]), width, b[j + 1] - b[j])
    &&& lines[j] == spec_join_words(ws.subrange(b[j], b[j + 1]))
}

/// Loop view of the wrap: `b` lists the word index where each produced line
/// starts (and, last, the index after the words wrapped so far), and each
/// line is the greedy choice for its segment.
pub open spec fn spec_wrap_segments<F: Fn(String) -> u32>(
    measure: F,
    ws: Seq<Seq<char>>,
    width: u32,
    b: Seq<int>,
    lines: Seq<Seq<char>>,
) -> bool {
    &&& b.len() == lines.len() + 1
    &&& b[0] == 0
    &&& forall|j: int|
        0 <= j < lines.len() ==> #[trigger] spec_segment_ok(measure, ws, width, b, lines, j)
}

/// The line-start indices of a wrap never decrease.
proof fn lemma_segment_bounds_monotone<F: Fn(String) -> u32>(
    measure: F,
    ws: Seq<Seq<char>>,
    width: u32,
    b: Seq<int>,
    lines: Seq<Seq<char>>,
    j1: int,
    j2: int,
)
    requires
        spec_wrap_segments(measure, ws, width, b, lines),
        0 <= j1 <= j2 <= lines.len(),
    ensures
        b[j1] <= b[j2],
    decreases j2 - j1,
{
    if j1 < j2 {
        assert(spec_segment_ok(measure, ws, width, b, lines, j2 - 1));
        lemma_segment_bounds_monotone(measure, ws, width, b, lines, j1, j2 - 1);
    }
}

/// A complete run of greedy segments is a greedy wrap.
proof fn lemma_segments_to_wrap<F: Fn(String) -> u32>(
    measure: F,
    ws: Seq<Seq<char>>,
    width: u32,
    b: Seq<int>,
    lines: Seq<Seq<char>>,
)
    requires
        spec_wrap_segments(measure, ws, width, b, lines),
        b[b.len() - 1] == ws.len(),
    ensures
        spec_is_greedy_wrap(measure, ws, width, lines),
    decreases lines.len(),
{
    if lines.len() == 0 {
        assert(ws.len() == 0);
    } else {
        let k = b[1];
        assert(spec_segment_ok(measure, ws, width, b, lines, 0));
        assert(ws.skip(0) =~= ws);
        assert(spec_greedy_line(measure, ws, width, k));
        assert(ws.subrange(0, k) =~= ws.take(k));
        assert(lines[0] == spec_join_words(ws.take(k)));
        let ws2 = ws.skip(k);
        let b2 = b.skip(1).map_values(|x: int| x - k);
        let lines2 = lines.skip(1);
        assert(b2.len() == lines2.len() + 1);
        assert(b2[0] == 0);
        assert forall|j: int|
            0 <= j < lines2.len() implies #[trigger] spec_segment_ok(
            measure,
            ws2,
            width,
            b2,
            lines2,
            j,
        ) by {
            assert(spec_segment_ok(measure, ws, width, b, lines, j + 1));
            lemma_segment_bounds_monotone(measure, ws, width, b, lines, 1, j + 1);
            assert(b2[j] == b[j + 1] - k);
            assert(b2[j + 1] == b[j + 2] - k);
            assert(b[j + 1] < b[j + 2] <= ws.len());
            assert(lines2[j] == lines[j + 1]);
            assert(ws2.skip(b2[j]) =~= ws.skip(b[j + 1]));
            assert(ws2.subrange(b2[j], b2[j + 1]) =~= ws.subrange(b[j + 1], b[j + 2]));
        }
        assert(b2[b2.len() - 1] == ws2.len());
        lemma_segments_to_wrap(measure, ws2, width, b2, lines2);
        assert(spec_is_greedy_wrap(measure, ws, width, lines)) by {
            assert({
                &&& spec_greedy_line(measure, ws, width, k)
                &&& lines.len() >= 1
                &&& lines[0] == spec_join_words(ws.take(k))
                &&& spec_is_greedy_wrap(measure, ws.skip(k), width, lines.skip(1))
            });
        }
    }
}

/// Splitting a join at a word boundary inserts exactly one space.
proof fn lemma_join_words_split(ws: Seq<Seq<char>>, k: int)
    requires
        1 <= k < ws.len(),
    ensures
        spec_join_words(ws) == spec_join_words(ws.take(k)) + seq![' '] + spec_join_words(
            ws.skip(k),
        ),
    decreases k,
{
    if k == 1 {
        assert(ws.take(1) =~= seq![ws[0]]);
        assert(spec_join_words(seq![ws[0]]) == ws[0]);
        if ws.len() == 1 {
        } else {
            assert(ws.skip(1).len() >= 1);
        }
    } else {
        lemma_join_words_split(ws.skip(1), k - 1);
        assert(ws.skip(1).take(k - 1) =~= ws.take(k).skip(1));
        assert(ws.skip(1).skip(k - 1) =~= ws.skip(k));
        assert(ws.take(k).len() == k >= 2);
        assert(spec_join_words(ws.take(k)) == ws.take(k)[0] + seq![' '] + spec_join_words(
            ws.take(k).skip(1),
        ));
        assert(ws.take(k)[0] == ws[0]);
        assert(ws[0] + seq![' '] + (spec_join_words(ws.take(k).skip(1)) + seq![' ']
            + spec_join_words(ws.skip(k))) =~= (ws[0] + seq![' '] + spec_join_words(
            ws.take(k).skip(1),
        )) + seq![' '] + spec_join_words(ws.skip(k)));
    }
}

/// The lines of a greedy wrap, joined back with single spaces, read exactly
/// as the words themselves joined with single spaces: wrapping loses nothing
/// but the duplicated spaces it collapses.
pub proof fn lemma_wrap_round_trip<F: Fn(String) -> u32>(
    measure: F,
    ws: Seq<Seq<char>>,
    width: u32,
    lines: Seq<Seq<char>>,
)
    requires
        spec_is_greedy_wrap(measure, ws, width, lines),
    ensures
        spec_join_words(lines) == spec_join_words(ws),
    decreases ws.len(),
{
    if ws.len() == 0 {
        assert(lines.len() == 0);
    } else {
        let k = choose|k: int|
            {
                &&& #[trigger] spec_greedy_line(measure, ws, width, k)
                &&& lines.len() >= 1
                &&& lines[0] == spec_join_words(ws.take(k))
                &&& spec_is_greedy_wrap(measure, ws.skip(k), width, lines.skip(1))
            };
        lemma_wrap_round_trip(measure, ws.skip(k), width, lines.skip(1));
        if k == ws.len() {
            assert(ws.skip(k).len() == 0);
            assert(lines.skip(1).len() == 0);
            assert(lines.len() == 1);
            assert(ws.take(k) =~= ws);
            assert(spec_join_words(lines) == lines[0]);
        } else {
            assert(ws.skip(k).len() > 0);
            assert(lines.skip(1).len() >= 1);
            assert(lines.len() >= 2);
            lemma_join_words_split(ws, k);
            assert(spec_join_words(lines) == lines[0] + seq![' '] + spec_join_words(
                lines.skip(1),
            ));
        }
    }
}

/// Scanning a join of words recovers exactly the words.
proof fn lemma_words_of_join(run: Seq<Seq<char>>)
    requires
        forall|m: int| 0 <= m < run.len() ==> spec_is_word(#[trigger] run[m]),
    ensures
        spec_words(spec_join_words(run)) == run,
    decreases run.len(),
{
    if run.len() == 0 {
        assert(spec_words(spec_join_words(run)) =~= run);
    } else if run.len() == 1 {
        let w = run[0];
        assert(spec_is_word(run[0]));
        lemma_words_acc_over_word(w, Seq::empty(), Seq::empty());
        assert(w + Seq::<char>::empty() =~= w);
        assert(Seq::<char>::empty() + w =~= w);
        assert(spec_words_acc(w, Seq::empty()) == seq![w]);
        assert(spec_words(spec_join_words(run)) =~= run);
    } else {
        let w = run[0];
        assert(spec_is_word(run[0]));
        let rest = seq![' '] + spec_join_words(run.skip(1));
        assert(spec_join_words(run) == w + rest);
        lemma_words_acc_over_word(w, rest, Seq::empty());
        assert(Seq::<char>::empty() + w =~= w);
        assert(rest[0] == ' ');
        assert(spec_words_acc(rest, w) == seq![w] + spec_words_acc(rest.skip(1), Seq::empty()));
        assert(rest.skip(1) =~= spec_join_words(run.skip(1)));
        assert forall|m: int| 0 <= m < run.skip(1).len() implies spec_is_word(
            #[trigger] run.skip(1)[m],
        ) by {
            assert(run.skip(1)[m] == run[m + 1]);
            assert(spec_is_word(run[m + 1]));
        }
        lemma_words_of_join(run.skip(1));
        assert(spec_words(spec_join_words(run)) =~= seq![w] + run.skip(1));
        assert(seq![w] + run.skip(1) =~= run);
    }
}

/// With a consistent measurement there is only one greedy head run.
proof fn lemma_greedy_line_unique<F: Fn(String) -> u32>(
    measure: F,
    ws: Seq<Seq<char>>,
    width: u32,
    k1: int,
    k2: int,
)
    requires
        spec_measure_consistent(measure),
        spec_greedy_line(measure, ws, width, k1),
        spec_greedy_line(measure, ws, width, k2),
    ensures
        k1 == k2,
{
    lemma_greedy_line_not_shorter(measure, ws, width, k1, k2);
    lemma_greedy_line_not_shorter(measure, ws, width, k2, k1);
}

/// Helper for uniqueness: a greedy head run cannot be strictly inside a
/// longer one, since the longer run measured every prefix within budget,
/// including the one the shorter run rejected.
proof fn lemma_greedy_line_not_shorter<F: Fn(String) -> u32>(
    measure: F,
    ws: Seq<Seq<char>>,
    width: u32,
    k1: int,
    k2: int,
)
    requires
        spec_measure_consistent(measure),
        spec_greedy_line(measure, ws, width, k1),
        spec_greedy_line(measure, ws, width, k2),
    ensures
        k2 <= k1,
{
    if k1 < k2 {
        assert(k2 > 1);
        assert(spec_may_fit(measure, spec_join_words(ws.take(k1 + 1)), width));
        assert(spec_may_fit(measure, spec_join_words(ws.take(1)), width));
        assert(k1 < ws.len());
        if spec_may_exceed(measure, spec_join_words(ws.take(k1 + 1)), width) {
            let s = spec_join_words(ws.take(k1 + 1));
            let (t1, r1) = choose|t: String, r: u32|
                t@ == s && #[trigger] call_ensures(measure, (t,), r) && r <= width;
            let (t2, r2) = choose|t: String, r: u32|
                t@ == s && #[trigger] call_ensures(measure, (t,), r) && r > width;
            assert(r1 == r2);
            assert(false);
        } else {
            assert(k1 == 1 && spec_may_exceed(measure, spec_join_words(ws.take(1)), width));
            let s = spec_join_words(ws.take(1));
            let (t1, r1) = choose|t: String, r: u32|
                t@ == s && #[trigger] call_ensures(measure, (t,), r) && r <= width;
            let (t2, r2) = choose|t: String, r: u32|
                t@ == s && #[trigger] call_ensures(measure, (t,), r) && r > width;
            assert(r1 == r2);
            assert(false);
        }
    }
}

/// With a consistent measurement the greedy wrap of a word sequence is
/// unique.
pub proof fn lemma_wrap_unique<F: Fn(String) -> u32>(
    measure: F,
    ws: Seq<Seq<char>>,
    width: u32,
    l1: Seq<Seq<char>>,
    l2: Seq<Seq<char>>,
)
    requires
        spec_measure_consistent(measure),
        spec_is_greedy_wrap(measure, ws, width, l1),
        spec_is_greedy_wrap(measure, ws, width, l2),
    ensures
        l1 == l2,
    decreases ws.len(),
{
    if ws.len() == 0 {
        assert(l1 =~= l2);
    } else {
        let k1 = choose|k: int|
            {
                &&& #[trigger] spec_greedy_line(measure, ws, width, k)
                &&& l1.len() >= 1
                &&& l1[0] == spec_join_words(ws.take(k))
                &&& spec_is_greedy_wrap(measure, ws.skip(k), width, l1.skip(1))
            };
        let k2 = choose|k: int|
            {
                &&& #[trigger] spec_greedy_line(measure, ws, width, k)
                &&& l2.len() >= 1
                &&& l2[0] == spec_join_words(ws.take(k))
                &&& spec_is_greedy_wrap(measure, ws.skip(k), width, l2.skip(1))
            };
        lemma_greedy_line_unique(measure, ws, width, k1, k2);
        lemma_wrap_unique(measure, ws.skip(k1), width, l1.skip(1), l2.skip(1));
        assert(l1.len() == l1.skip(1).len() + 1);
        assert(l2.len() == l2.skip(1).len() + 1);
        assert forall|j: int| 0 <= j < l1.len() implies l1[j] == l2[j] by {
            if j > 0 {
                assert(l1[j] == l1.skip(1)[j - 1]);
                assert(l2[j] == l2.skip(1)[j - 1]);
            }
        }
        assert(l1 =~= l2);
    }
}

/// Each line of a greedy wrap covers a run of the words that was itself the
/// greedy choice where it started.
proof fn lemma_wrap_line_is_greedy<F: Fn(String) -> u32>(
    measure: F,
    ws: Seq<Seq<char>>,
    width: u32,
    lines: Seq<Seq<char>>,
    idx: int,
) -> (ak: (int, int))
    requires
        spec_is_greedy_wrap(measure, ws, width, lines),
        0 <= idx < lines.len(),
    ensures
        0 <= ak.0,
        1 <= ak.1,
        ak.0 + ak.1 <= ws.len(),
        lines[idx] == spec_join_words(ws.subrange(ak.0, ak.0 + ak.1)),
        spec_greedy_line(measure, ws.skip(ak.0), width, ak.1),
    decreases ws.len(),
{
    assert(ws.len() > 0);
    let k0 = choose|k: int|
        {
            &&& #[trigger] spec_greedy_line(measure, ws, width, k)
            &&& lines.len() >= 1
            &&& lines[0] == spec_join_words(ws.take(k))
            &&& spec_is_greedy_wrap(measure, ws.skip(k), width, lines.skip(1))
        };
    if idx == 0 {
        assert(ws.subrange(0, k0) =~= ws.take(k0));
        assert(ws.skip(0) =~= ws);
        (0, k0)
    } else {
        assert(lines.skip(1).len() > 0);
        let ak = lemma_wrap_line_is_greedy(measure, ws.skip(k0), width, lines.skip(1), idx - 1);
        assert(lines.skip(1)[idx - 1] == lines[idx]);
        assert(ws.skip(k0).skip(ak.0) =~= ws.skip(k0 + ak.0));
        assert(ws.skip(k0).subrange(ak.0, ak.0 + ak.1) =~= ws.subrange(
            k0 + ak.0,
            k0 + ak.0 + ak.1,
        ));
        (k0 + ak.0, ak.1)
    }
}

/// Wrap idempotence: with a consistent measurement, re-wrapping any line of
/// a greedy wrap at the same budget returns that line unchanged, alone.
pub proof fn lemma_wrap_idempotent<F: Fn(String) -> u32>(
    measure: F,
    text: Seq<char>,
    width: u32,
    lines: Seq<Seq<char>>,
    idx: int,
    relines: Seq<Seq<char>>,
)
    requires
        spec_measure_consistent(measure),
        spec_is_greedy_wrap(measure, spec_words(text), width, lines),
        0 <= idx < lines.len(),
        spec_is_greedy_wrap(measure, spec_words(lines[idx]), width, relines),
    ensures
        relines == seq![lines[idx]],
{
    let ws = spec_words(text);
    lemma_words_are_words(text);
    let ak = lemma_wrap_line_is_greedy(measure, ws, width, lines, idx);
    let a = ak.0;
    let k = ak.1;
    let run = ws.subrange(a, a + k);
    assert forall|m: int| 0 <= m < run.len() implies spec_is_word(#[trigger] run[m]) by {
        assert(run[m] == ws[a + m]);
        assert(spec_is_word(ws[a + m]));
    }
    lemma_words_of_join(run);
    assert(spec_words(lines[idx]) == run);
    // the whole line is the greedy choice for exactly its own words
    assert(spec_greedy_line(measure, run, width, k)) by {
        assert(run.len() == k);
        if k > 1 {
            assert forall|m: int| 1 <= m <= k implies spec_may_fit(
                measure,
                spec_join_words(#[trigger] run.take(m)),
                width,
            ) by {
                assert(run.take(m) =~= ws.skip(a).take(m));
                assert(spec_may_fit(measure, spec_join_words(ws.skip(a).take(m)), width));
            }
        }
    }
    assert(spec_is_greedy_wrap(measure, run, width, seq![lines[idx]])) by {
        assert(run.take(k) =~= run);
        assert(seq![lines[idx]][0] == spec_join_words(run.take(k)));
        assert(run.skip(k) =~= Seq::<Seq<char>>::empty());
        assert(seq![lines[idx]].skip(1) =~= Seq::<Seq<char>>::empty());
        assert(spec_is_greedy_wrap(
            measure,
            run.skip(k),
            width,
            seq![lines[idx]].skip(1),
        ));
        assert({
            &&& spec_greedy_line(measure, run, width, k)
            &&& seq![lines[idx]].len() >= 1
            &&& seq![lines[idx]][0] == spec_join_words(run.take(k))
            &&& spec_is_greedy_wrap(measure, run.skip(k), width, seq![lines[idx]].skip(1))
        });
    }
    lemma_wrap_unique(measure, run, width, relines, seq![lines[idx]]);
}

/// Word-wrap `text` at the pixel budget `width`, measuring candidate lines
/// with the injected `measure` function (which must accept any string).
///
/// The result is the greedy wrap of the words of `text`: lines break only at
/// spaces, each line is a run of whole words joined by single spaces, every
/// line of two or more words measured within the budget, and each line took
/// as many words as the measurements allowed. A string without words wraps to
/// a single empty line, preserving the renderer's vertical centering.
/// Joining the lines back with single spaces yields `text` with its spacing
/// collapsed.
pub fn split_text<F: Fn(String) -> u32>(text: &str, width: u32, measure: F) -> (lines: Vec<String>)
    requires
        forall|t: String| #[trigger] call_requires(measure, (t,)),
    ensures
        spec_words(text@).len() == 0 ==> lines@.len() == 1 && lines@[0]@ == Seq::<char>::empty(),
        spec_words(text@).len() > 0 ==> spec_is_greedy_wrap(
            measure,
            spec_words(text@),
            width,
            lines@.map_values(|l: String| l@),
        ),
        spec_join_words(lines@.map_values(|l: String| l@)) == spec_collapsed(text@),
{
    let words = split_words(text);
    let ghost ws = words@.map_values(|w: String| w@);
    if words.len() == 0 {
        let mut lines: Vec<String> = Vec::new();
        lines.push(String::new());
        proof {
            assert(lines@.map_values(|l: String| l@) =~= seq![Seq::<char>::empty()]);
            assert(spec_join_words(seq![Seq::<char>::empty()]) =~= Seq::<char>::empty());
            assert(spec_join_words(spec_words(text@)) =~= Seq::<char>::empty());
        }
        return lines;
    }
    let mut lines: Vec<String> = Vec::new();
    let mut i: usize = 0;
    let ghost mut b: Seq<int> = seq![0];
    proof {
        reveal_strlit(" ");
        assert(" "@ =~= seq![' ']);
    }
    while i < words.len()
        invariant
            forall|t: String| #[trigger] call_requires(measure, (t,)),
            ws == words@.map_values(|w: String| w@),
            i <= words.len(),
            b.len() == lines@.len() + 1,
            b[b.len() - 1] == i,
            spec_wrap_segments(measure, ws, width, b, lines@.map_values(|l: String| l@)),
        decreases words.len() - i,
    {
        let ghost seg = ws.skip(i as int);
        let mut line: String = words[i].clone();
        let mut k: usize = 1;
        proof {
            assert(seg.take(1) =~= seq![ws[i as int]]);
            assert(line@ == spec_join_words(seg.take(1)));
        }
        let m0 = measure(line.clone());
        if m0 <= width {
            let mut extending = i + 1 < words.len();
            proof {
                assert(spec_may_fit(measure, spec_join_words(seg.take(1)), width));
            }
            while extending
                invariant
                    forall|t: String| #[trigger] call_requires(measure, (t,)),
                    ws == words@.map_values(|w: String| w@),
                    i < words.len(),
                    1 <= k,
                    i + k <= words.len(),
                    seg == ws.skip(i as int),
                    extending ==> i + k < words.len(),
                    line@ == spec_join_words(seg.take(k as int)),
                    forall|m: int|
                        1 <= m <= k ==> spec_may_fit(
                            measure,
                            spec_join_words(#[trigger] seg.take(m)),
                            width,
                        ),
                    !extending ==> (i + k == words.len() || spec_may_exceed(
                        measure,
                        spec_join_words(seg.take(k as int + 1)),
                        width,
                    )),
                decreases words.len() - i - k, (if extending { 1int } else { 0int }),
            {
                let mut cand = line.clone();
                cand.append(" ");
                cand.append(words[i + k].as_str());
                proof {
                    reveal_strlit(" ");
                    assert(" "@ =~= seq![' ']);
                    assert(seg.take(k as int + 1) =~= seg.take(k as int).push(seg[k as int]));
                    lemma_join_words_push(seg.take(k as int), seg[k as int]);
                    assert(seg[k as int] == ws[i as int + k as int]);
                    assert(cand@ == spec_join_words(seg.take(k as int + 1)));
                }
                let m = measure(cand.clone());
                if m <= width {
                    line = cand;
                    k = k + 1;
                    if i + k >= words.len() {
                        extending = false;
                    }
                } else {
                    extending = false;
                }
            }
        } else {
            proof {
                assert(spec_may_exceed(measure, spec_join_words(seg.take(1)), width));
            }
        }
        proof {
            assert(spec_greedy_line(measure, seg, width, k as int));
        }
        let ghost b0 = b;
        let ghost flines0 = lines@.map_values(|l: String| l@);
        lines.push(line);
        i = i + k;
        proof {
            b = b.push(i as int);
            let flines = lines@.map_values(|l: String| l@);
            assert(flines =~= flines0.push(line@));
            assert(b.len() == flines.len() + 1);
            assert(b[0] == 0);
            assert forall|j: int|
                0 <= j < flines.len() implies #[trigger] spec_segment_ok(
                measure,
                ws,
                width,
                b,
                flines,
                j,
            ) by {
                if j < flines.len() - 1 {
                    assert(spec_segment_ok(measure, ws, width, b0, flines0, j));
                    assert(b[j] == b0[j] && b[j + 1] == b0[j + 1]);
                    assert(flines[j] == flines0[j]);
                } else {
                    assert(b[j] == i - k && b[j + 1] == i);
                    assert(ws.skip(i - k) == seg);
                    assert(flines[j] == line@);
                    assert(ws.subrange(i - k, i as int) =~= seg.take(k as int));
                }
            }
        }
    }
    proof {
        lemma_segments_to_wrap(measure, ws, width, b, lines@.map_values(|l: String| l@));
        lemma_wrap_round_trip(measure, ws, width, lines@.map_values(|l: String| l@));
    }
    lines
}

} // verus!

