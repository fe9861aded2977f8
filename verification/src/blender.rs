//! Line classification and frame correlation for the render job's output,
//! and the argument list the job is launched with.
//!
//! The classifier recognises three line shapes, checked in a fixed priority
//! order: a current-frame line `Fra:<digits> Mem...`, a saved-frame line
//! `Saved: ...<digits>.png...`, and a render-time line `[ ]Time: MM:SS.CC...`.
//! The correlator pairs each saved frame with the render time that follows it.

use vstd::prelude::*;
use vstd::string::StrSliceExecFns;

use std::sync::Arc;

use crate::text::{
    char_is_digit, dec_rep, digit_val, digit_value, is_digit, parse_digits, seq_val, u32_to_string,
};
use crate::{RunError, RunnerOptions, StatusUpdate};

verus! {

/// The classification of one line of the render job's output.
#[derive(Clone, Copy, Debug, PartialEq, Eq, Structural)]
pub enum ParseResult {
    /// The job reports progress on this frame; informational only.
    CurrentFrame(u32),
    /// The image for this frame was written to disk.
    SavedFrame(u32),
    /// The render duration, in milliseconds, of the most recently saved frame.
    FrameRenderTime(u32),
    /// The line carries no recognised signal.
    NoMatch,
}

// ---------------------------------------------------------------------------
// The line grammar.
// ---------------------------------------------------------------------------

/// The line starts with `Fra:`, positions `4..k` hold a non-empty digit run,
/// and ` Mem` follows at `k`.
pub open spec fn fra_digits_end(s: Seq<char>, k: int) -> bool {
    &&& 4 < k
    &&& k + 4 <= s.len()
    &&& s[0] == 'F' && s[1] == 'r' && s[2] == 'a' && s[3] == ':'
    &&& (forall|i: int| 4 <= i < k ==> is_digit(#[trigger] s[i]))
    &&& s[k] == ' ' && s[k + 1] == 'M' && s[k + 2] == 'e' && s[k + 3] == 'm'
}

/// The line matches the current-frame shape.
pub open spec fn fra_match(s: Seq<char>) -> bool {
    exists|k: int| fra_digits_end(s, k)
}

/// The frame number of a current-frame line.
pub open spec fn fra_val(s: Seq<char>) -> nat {
    seq_val(s.subrange(4, choose|k: int| fra_digits_end(s, k)))
}

/// The line starts with `Saved:`.
pub open spec fn saved_prefix(s: Seq<char>) -> bool {
    &&& s.len() >= 6
    &&& s[0] == 'S' && s[1] == 'a' && s[2] == 'v' && s[3] == 'e' && s[4] == 'd' && s[5] == ':'
}

/// `.png` stands at position `q`, immediately preceded by a digit that lies
/// after the `Saved:` prefix.
pub open spec fn png_at(s: Seq<char>, q: int) -> bool {
    &&& 7 <= q
    &&& q + 4 <= s.len()
    &&& s[q] == '.' && s[q + 1] == 'p' && s[q + 2] == 'n' && s[q + 3] == 'g'
    &&& is_digit(s[q - 1])
}

/// `q` is the leftmost digit-preceded `.png` occurrence.
pub open spec fn leftmost_png(s: Seq<char>, q: int) -> bool {
    &&& png_at(s, q)
    &&& forall|p: int| p < q ==> !png_at(s, p)
}

/// The line matches the saved-frame shape.
pub open spec fn saved_match(s: Seq<char>) -> bool {
    &&& saved_prefix(s)
    &&& exists|q: int| png_at(s, q)
}

/// Start of the maximal digit run that ends just before position `q`,
/// bounded below by the end of the `Saved:` prefix.
pub open spec fn run_start(s: Seq<char>, q: int) -> int
    decreases q,
{
    if q <= 6 {
        q
    } else if !is_digit(s[q - 1]) {
        q
    } else {
        run_start(s, q - 1)
    }
}

/// The frame number of a saved-frame line: the digit run immediately before
/// the leftmost `.png`.
pub open spec fn saved_val(s: Seq<char>) -> nat {
    let q = choose|q: int| leftmost_png(s, q);
    seq_val(s.subrange(run_start(s, q), q))
}

/// `Time: MM:SS.CC` stands at offset `o`.
pub open spec fn time_at(s: Seq<char>, o: int) -> bool {
    &&& 0 <= o
    &&& o + 14 <= s.len()
    &&& s[o] == 'T' && s[o + 1] == 'i' && s[o + 2] == 'm' && s[o + 3] == 'e' && s[o + 4] == ':'
        && s[o + 5] == ' '
    &&& is_digit(s[o + 6]) && is_digit(s[o + 7])
    &&& s[o + 8] == ':'
    &&& is_digit(s[o + 9]) && is_digit(s[o + 10])
    &&& s[o + 11] == '.'
    &&& is_digit(s[o + 12]) && is_digit(s[o + 13])
}

/// Offset of the timing pattern: one optional leading space.
pub open spec fn time_offset(s: Seq<char>) -> int {
    if s.len() > 0 && s[0] == ' ' {
        1
    } else {
        0
    }
}

/// The line matches the render-time shape.
pub open spec fn time_match(s: Seq<char>) -> bool {
    time_at(s, time_offset(s))
}

/// The duration in milliseconds of a render-time line:
/// `minutes * 60000 + seconds * 1000 + hundredths * 10`.
pub open spec fn time_val(s: Seq<char>) -> nat {
    let o = time_offset(s);
    (digit_val(s[o + 6]) * 10 + digit_val(s[o + 7])) * 60000 + (digit_val(s[o + 9]) * 10
        + digit_val(s[o + 10])) * 1000 + (digit_val(s[o + 12]) * 10 + digit_val(s[o + 13])) * 10
}

/// Result of classifying a line that matches the current-frame shape.
pub open spec fn classified_fra(s: Seq<char>) -> Result<ParseResult, RunError> {
    if fra_val(s) <= u32::MAX {
        Ok(ParseResult::CurrentFrame(fra_val(s) as u32))
    } else {
        Err(RunError::MalformedOutput)
    }
}

/// Result of classifying a line that matches the saved-frame shape.
pub open spec fn classified_saved(s: Seq<char>) -> Result<ParseResult, RunError> {
    if saved_val(s) <= u32::MAX {
        Ok(ParseResult::SavedFrame(saved_val(s) as u32))
    } else {
        Err(RunError::MalformedOutput)
    }
}

/// Classification of one line: the three shapes are tried in priority order,
/// and a structurally matched number that does not fit in a `u32` is malformed
/// output.
pub open spec fn spec_classify(s: Seq<char>) -> Result<ParseResult, RunError> {
    if fra_match(s) {
        classified_fra(s)
    } else if saved_match(s) {
        classified_saved(s)
    } else if time_match(s) {
        Ok(ParseResult::FrameRenderTime(time_val(s) as u32))
    } else {
        Ok(ParseResult::NoMatch)
    }
}

// ---------------------------------------------------------------------------
// Grammar facts.
// ---------------------------------------------------------------------------

/// At most one position can end the digit run of a current-frame line.
proof fn lemma_fra_end_unique(s: Seq<char>, k1: int, k2: int)
    requires
        fra_digits_end(s, k1),
        fra_digits_end(s, k2),
    ensures
        k1 == k2,
{
    if k1 < k2 {
        assert(is_digit(s[k1]));
        assert(s[k1] == ' ');
    }
    if k2 < k1 {
        assert(is_digit(s[k2]));
        assert(s[k2] == ' ');
    }
}

/// At most one position is the leftmost digit-preceded `.png`.
proof fn lemma_leftmost_png_unique(s: Seq<char>, q1: int, q2: int)
    requires
        leftmost_png(s, q1),
        leftmost_png(s, q2),
    ensures
        q1 == q2,
{
}

// ---------------------------------------------------------------------------
// The executable classifier.
// ---------------------------------------------------------------------------

/// The characters of a string slice, in order.
fn chars_of(line: &str) -> (cs: Vec<char>)
    ensures
        cs@ == line@,
{
    let n = line.unicode_len();
    let mut cs: Vec<char> = Vec::new();
    let mut i: usize = 0;
    while i < n
        invariant
            i <= n,
            n == line@.len(),
            cs@ == line@.subrange(0, i as int),
        decreases n - i,
    {
        let c = line.get_char(i);
        cs.push(c);
        proof {
            assert(cs@ =~= line@.subrange(0, i + 1 as int));
        }
        i += 1;
    }
    proof {
        assert(cs@ =~= line@);
    }
    cs
}

/// Recognises the current-frame shape.
fn try_fra(cs: &Vec<char>) -> (r: Option<Result<ParseResult, RunError>>)
    ensures
        match r {
            Some(res) => fra_match(cs@) && res == classified_fra(cs@),
            None => !fra_match(cs@),
        },
{
    let s = Ghost(cs@);
    let n = cs.len();
    if n < 9 || !(cs[0] == 'F' && cs[1] == 'r' && cs[2] == 'a' && cs[3] == ':') {
        proof {
            assert forall|k: int| !fra_digits_end(s@, k) by {}
        }
        return None;
    }
    let mut k: usize = 4;
    loop
        invariant
            4 <= k <= n,
            n == s@.len(),
            s@ == cs@,
            forall|i: int| 4 <= i < k ==> is_digit(#[trigger] s@[i]),
        ensures
            4 <= k <= n,
            s@ == cs@,
            forall|i: int| 4 <= i < k ==> is_digit(#[trigger] s@[i]),
            k == n || !is_digit(s@[k as int]),
        decreases n - k,
    {
        if k == n {
            break ;
        }
        if !char_is_digit(cs[k]) {
            break ;
        }
        k += 1;
    }
    if k == 4 {
        // The run is empty: no position can satisfy the shape.
        proof {
            assert forall|k2: int| !fra_digits_end(s@, k2) by {
                if fra_digits_end(s@, k2) {
                    assert(is_digit(s@[4]));
                }
            }
        }
        return None;
    }
    if n - k >= 4 && cs[k] == ' ' && cs[k + 1] == 'M' && cs[k + 2] == 'e' && cs[k + 3] == 'm' {
        proof {
            assert(fra_digits_end(s@, k as int));
            let kc = choose|k2: int| fra_digits_end(s@, k2);
            lemma_fra_end_unique(s@, kc, k as int);
        }
        match parse_digits(cs, 4, k) {
            Some(v) => Some(Ok(ParseResult::CurrentFrame(v))),
            None => Some(Err(RunError::MalformedOutput)),
        }
    } else {
        // The maximal run is not followed by ` Mem`, so no position works:
        // an earlier end would sit on a digit, a later one past the run.
        proof {
            assert forall|k2: int| !fra_digits_end(s@, k2) by {
                if fra_digits_end(s@, k2) {
                    if k2 < k {
                        assert(is_digit(s@[k2]));
                        assert(s@[k2] == ' ');
                    } else if k2 > k {
                        assert(is_digit(s@[k as int]));
                    }
                }
            }
        }
        None
    }
}

/// Finds the leftmost digit-preceded `.png` occurrence.
fn find_png(cs: &Vec<char>) -> (r: Option<usize>)
    ensures
        match r {
            Some(q) => leftmost_png(cs@, q as int),
            None => forall|p: int| !png_at(cs@, p),
        },
{
    let n = cs.len();
    let mut q: usize = 7;
    loop
        invariant
            7 <= q,
            n == cs@.len(),
            forall|p: int| p < q ==> !png_at(cs@, p),
        decreases n + 4 - q,
    {
        if q >= n || n - q < 4 {
            proof {
                assert forall|p: int| !png_at(cs@, p) by {
                    if p >= q {
                        assert(p + 4 > n);
                    }
                }
            }
            return None;
        }
        if cs[q] == '.' && cs[q + 1] == 'p' && cs[q + 2] == 'n' && cs[q + 3] == 'g'
            && char_is_digit(cs[q - 1]) {
            return Some(q);
        }
        proof {
            assert(!png_at(cs@, q as int));
        }
        q += 1;
    }
}

/// Recognises the saved-frame shape.
fn try_saved(cs: &Vec<char>) -> (r: Option<Result<ParseResult, RunError>>)
    ensures
        match r {
            Some(res) => saved_match(cs@) && res == classified_saved(cs@),
            None => !saved_match(cs@),
        },
{
    let s = Ghost(cs@);
    let n = cs.len();
    if n < 6 || !(cs[0] == 'S' && cs[1] == 'a' && cs[2] == 'v' && cs[3] == 'e' && cs[4] == 'd'
        && cs[5] == ':') {
        return None;
    }
    let q = match find_png(cs) {
        Some(q) => q,
        None => {
            return None;
        },
    };
    // Extend the digit run leftward from `q`.
    let mut rs: usize = q;
    loop
        invariant
            6 <= rs <= q,
            q + 4 <= n,
            n == s@.len(),
            s@ == cs@,
            run_start(s@, q as int) == run_start(s@, rs as int),
            forall|i: int| rs <= i < q ==> is_digit(#[trigger] s@[i]),
        ensures
            6 <= rs <= q,
            s@ == cs@,
            run_start(s@, q as int) == rs as int,
            forall|i: int| rs <= i < q ==> is_digit(#[trigger] s@[i]),
        decreases rs,
    {
        if rs > 6 && char_is_digit(cs[rs - 1]) {
            rs -= 1;
        } else {
            proof {
                assert(run_start(s@, rs as int) == rs as int);
            }
            break ;
        }
    }
    proof {
        let qc = choose|q2: int| leftmost_png(s@, q2);
        lemma_leftmost_png_unique(s@, qc, q as int);
        assert(saved_val(s@) == seq_val(s@.subrange(rs as int, q as int)));
    }
    match parse_digits(cs, rs, q) {
        Some(v) => Some(Ok(ParseResult::SavedFrame(v))),
        None => Some(Err(RunError::MalformedOutput)),
    }
}

/// Recognises the render-time shape and computes the duration.
fn try_time(cs: &Vec<char>) -> (r: Option<u32>)
    ensures
        match r {
            Some(v) => time_match(cs@) && v == time_val(cs@),
            None => !time_match(cs@),
        },
{
    let n = cs.len();
    if n == 0 {
        return None;
    }
    let o: usize = if cs[0] == ' ' {
        1
    } else {
        0
    };
    if n < o + 14 {
        return None;
    }
    if !(cs[o] == 'T' && cs[o + 1] == 'i' && cs[o + 2] == 'm' && cs[o + 3] == 'e' && cs[o + 4]
        == ':' && cs[o + 5] == ' ') {
        return None;
    }
    if !(char_is_digit(cs[o + 6]) && char_is_digit(cs[o + 7]) && cs[o + 8] == ':' && char_is_digit(
        cs[o + 9],
    ) && char_is_digit(cs[o + 10]) && cs[o + 11] == '.' && char_is_digit(cs[o + 12])
        && char_is_digit(cs[o + 13])) {
        return None;
    }
    let minutes = digit_value(cs[o + 6]) * 10 + digit_value(cs[o + 7]);
    let seconds = digit_value(cs[o + 9]) * 10 + digit_value(cs[o + 10]);
    let hundredths = digit_value(cs[o + 12]) * 10 + digit_value(cs[o + 13]);
    Some(minutes * 60_000 + seconds * 1_000 + hundredths * 10)
}

/// Classifies one line of the render job's output.
///
/// The three shapes are mutually exclusive in practice and are tried in a
/// fixed priority order; a line matching none of them is `NoMatch`. A digit
/// run that matches structurally but exceeds `u32::MAX` is malformed output.
pub fn parse_line(line: &str) -> (r: Result<ParseResult, RunError>)
    ensures
        r == spec_classify(line@),
{
    let cs = chars_of(line);
    match try_fra(&cs) {
        Some(res) => res,
        None => match try_saved(&cs) {
            Some(res) => res,
            None => match try_time(&cs) {
                Some(v) => Ok(ParseResult::FrameRenderTime(v)),
                None => Ok(ParseResult::NoMatch),
            },
        },
    }
}

// ---------------------------------------------------------------------------
// The render job's invocation.
// ---------------------------------------------------------------------------

/// The fixed argument template the render job is launched with: background
/// mode, input project, output directory, the inclusive frame range, render
/// the animation, fixed PNG output, append the file extension.
pub fn get_arguments(options: Arc<RunnerOptions>) -> (args: Vec<String>)
    ensures
        args@.len() == 12,
        args@[0]@ == "--background"@,
        args@[1]@ == options.input_file@,
        args@[2]@ == "--render-output"@,
        args@[3]@ == options.output_dir@,
        args@[4]@ == "--frame-start"@,
        args@[5]@ == dec_rep(options.frame_start as nat),
        args@[6]@ == "--frame-end"@,
        args@[7]@ == dec_rep(options.frame_end as nat),
        args@[8]@ == "--render-anim"@,
        args@[9]@ == "--render-format"@,
        args@[10]@ == "PNG"@,
        args@[11]@ == "--use-extension"@,
{
    let mut args: Vec<String> = Vec::new();
    args.push("--background".to_owned());
    args.push(options.input_file.clone());
    args.push("--render-output".to_owned());
    args.push(options.output_dir.clone());
    args.push("--frame-start".to_owned());
    args.push(u32_to_string(options.frame_start));
    args.push("--frame-end".to_owned());
    args.push(u32_to_string(options.frame_end));
    args.push("--render-anim".to_owned());
    args.push("--render-format".to_owned());
    args.push("PNG".to_owned());
    args.push("--use-extension".to_owned());
    args
}

// ---------------------------------------------------------------------------
// The frame correlator.
// ---------------------------------------------------------------------------

/// One step of the correlation state machine: from the pending frame number
/// and a classified line to the new pending state, the emitted event, and
/// whether the step is legal. A render time with no pending frame is illegal.
pub open spec fn spec_step(st: Option<u32>, p: ParseResult) -> (Option<u32>, Option<
    StatusUpdate,
>, bool) {
    match p {
        ParseResult::SavedFrame(n) => (Some(n), None, true),
        ParseResult::FrameRenderTime(t) => match st {
            Some(n) => (
                None,
                Some(StatusUpdate::RenderedFrame { frame_number: n, render_time: t }),
                true,
            ),
            None => (st, None, false),
        },
        _ => (st, None, true),
    }
}

/// Pairs each saved-frame signal with the render-time signal that follows it.
///
/// It holds at most one pending frame number: a saved frame becomes pending,
/// the next render time resolves it into one `RenderedFrame` event, and a
/// render time with nothing pending is a fatal correlation violation.
pub struct Correlator {
    pending: Option<u32>,
}

impl View for Correlator {
    type V = Option<u32>;

    closed spec fn view(&self) -> Option<u32> {
        self.pending
    }
}

impl Correlator {
    /// A correlator with no pending frame.
    pub fn new() -> (c: Correlator)
        ensures
            c@ is None,
    {
        Correlator { pending: None }
    }

    /// Feeds one classified line through the state machine.
    pub fn step(&mut self, p: ParseResult) -> (r: Result<Option<StatusUpdate>, RunError>)
        ensures
            spec_step(old(self)@, p).2 ==> r == Ok::<_, RunError>(spec_step(old(self)@, p).1)
                && final(self)@ == spec_step(old(self)@, p).0,
            !spec_step(old(self)@, p).2 ==> r == Err::<Option<StatusUpdate>, _>(
                RunError::CorrelationViolation,
            ) && final(self)@ == old(self)@,
    {
        match p {
            ParseResult::SavedFrame(n) => {
                self.pending = Some(n);
                Ok(None)
            },
            ParseResult::FrameRenderTime(t) => {
                match self.pending {
                    Some(n) => {
                        self.pending = None;
                        Ok(Some(StatusUpdate::RenderedFrame { frame_number: n, render_time: t }))
                    },
                    None => Err(RunError::CorrelationViolation),
                }
            },
            _ => Ok(None),
        }
    }

    /// Classifies one raw line and feeds it through the state machine.
    pub fn process_line(&mut self, line: &str) -> (r: Result<Option<StatusUpdate>, RunError>)
        ensures
            match spec_classify(line@) {
                Ok(p) => {
                    &&& spec_step(old(self)@, p).2 ==> r == Ok::<_, RunError>(
                        spec_step(old(self)@, p).1,
                    ) && final(self)@ == spec_step(old(self)@, p).0
                    &&& !spec_step(old(self)@, p).2 ==> r == Err::<Option<StatusUpdate>, _>(
                        RunError::CorrelationViolation,
                    ) && final(self)@ == old(self)@
                },
                Err(e) => r == Err::<Option<StatusUpdate>, _>(e) && final(self)@ == old(self)@,
            },
    {
        match parse_line(line) {
            Ok(p) => self.step(p),
            Err(e) => Err(e),
        }
    }
}

// ---------------------------------------------------------------------------
// The correlator's pairing law.
// ---------------------------------------------------------------------------

/// Whether a run of the state machine over `s` from state `st` is free of
/// correlation violations.
pub open spec fn run_ok(st: Option<u32>, s: Seq<ParseResult>) -> bool
    decreases s.len(),
{
    if s.len() == 0 {
        true
    } else {
        spec_step(st, s[0]).2 && run_ok(spec_step(st, s[0]).0, s.subrange(1, s.len() as int))
    }
}

/// The events a run of the state machine over `s` from state `st` emits,
/// in order.
pub open spec fn run_emits(st: Option<u32>, s: Seq<ParseResult>) -> Seq<StatusUpdate>
    decreases s.len(),
{
    if s.len() == 0 {
        Seq::empty()
    } else {
        (match spec_step(st, s[0]).1 {
            Some(e) => seq![e],
            None => Seq::empty(),
        }) + run_emits(spec_step(st, s[0]).0, s.subrange(1, s.len() as int))
    }
}

/// The well-paired interleavings: every saved frame is followed, before the
/// next saved frame, by exactly one render time; a render time only arrives
/// while a frame is pending; and no frame is left pending at the end.
pub open spec fn well_interleaved(st: Option<u32>, s: Seq<ParseResult>) -> bool
    decreases s.len(),
{
    if s.len() == 0 {
        st is None
    } else {
        match s[0] {
            ParseResult::SavedFrame(n) => st is None && well_interleaved(
                Some(n),
                s.subrange(1, s.len() as int),
            ),
            ParseResult::FrameRenderTime(t) => st is Some && well_interleaved(
                None,
                s.subrange(1, s.len() as int),
            ),
            _ => well_interleaved(st, s.subrange(1, s.len() as int)),
        }
    }
}

/// The saved-frame numbers occurring in `s`, in order.
pub open spec fn saved_nums(s: Seq<ParseResult>) -> Seq<u32>
    decreases s.len(),
{
    if s.len() == 0 {
        Seq::empty()
    } else {
        (match s[0] {
            ParseResult::SavedFrame(n) => seq![n],
            _ => Seq::empty(),
        }) + saved_nums(s.subrange(1, s.len() as int))
    }
}

/// The render-time durations occurring in `s`, in order.
pub open spec fn time_vals_of(s: Seq<ParseResult>) -> Seq<u32>
    decreases s.len(),
{
    if s.len() == 0 {
        Seq::empty()
    } else {
        (match s[0] {
            ParseResult::FrameRenderTime(t) => seq![t],
            _ => Seq::empty(),
        }) + time_vals_of(s.subrange(1, s.len() as int))
    }
}

/// The frame numbers awaiting a render time: the pending one, then the saved
/// ones of `s`, in order.
pub open spec fn pending_nums(st: Option<u32>, s: Seq<ParseResult>) -> Seq<u32> {
    (match st {
        Some(n) => seq![n],
        None => Seq::empty(),
    }) + saved_nums(s)
}

/// The pairing law: on any well-paired interleaving the correlator runs
/// without violation and emits exactly one `RenderedFrame` per
/// saved-frame/render-time pair, pairing the i-th saved frame with the i-th
/// render time and preserving arrival order.
pub proof fn lemma_correlator_pairs(st: Option<u32>, s: Seq<ParseResult>)
    requires
        well_interleaved(st, s),
    ensures
        run_ok(st, s),
        run_emits(st, s).len() == time_vals_of(s).len(),
        pending_nums(st, s).len() == time_vals_of(s).len(),
        forall|i: int|
            0 <= i < time_vals_of(s).len() ==> run_emits(st, s)[i] == (StatusUpdate::RenderedFrame {
                frame_number: pending_nums(st, s)[i],
                render_time: time_vals_of(s)[i],
            }),
    decreases s.len(),
{
    if s.len() == 0 {
    } else {
        let rest = s.subrange(1, s.len() as int);
        match s[0] {
            ParseResult::SavedFrame(n) => {
                lemma_correlator_pairs(Some(n), rest);
                assert(pending_nums(st, s) =~= pending_nums(Some(n), rest));
            },
            ParseResult::FrameRenderTime(t) => {
                let n = st->0;
                lemma_correlator_pairs(None, rest);
                assert(pending_nums(st, s) =~= seq![n] + pending_nums(None, rest));
                assert(time_vals_of(s) =~= seq![t] + time_vals_of(rest));
                assert(run_emits(st, s) =~= seq![
                    StatusUpdate::RenderedFrame { frame_number: n, render_time: t },
                ] + run_emits(None, rest));
            },
            _ => {
                lemma_correlator_pairs(st, rest);
                assert(pending_nums(st, s) =~= pending_nums(st, rest));
                assert(time_vals_of(s) =~= time_vals_of(rest));
                assert(run_emits(st, s) =~= run_emits(st, rest));
            },
        }
    }
}

// ---------------------------------------------------------------------------
// Subprocess exit.
// ---------------------------------------------------------------------------

/// The event or failure that a subprocess exit observation yields: only a
/// zero exit code finishes the run.
pub open spec fn spec_exit_event(code: Option<i32>) -> Result<StatusUpdate, RunError> {
    match code {
        Some(c) => if c == 0 {
            Ok(StatusUpdate::Finished)
        } else {
            Err(RunError::SubprocessFailure(c))
        },
        None => Err(RunError::SubprocessSignal),
    }
}

/// Translates the subprocess's exit status — its code, or `None` for
/// termination by a signal — into the final event or a fatal failure.
pub fn exit_event(code: Option<i32>) -> (r: Result<StatusUpdate, RunError>)
    ensures
        r == spec_exit_event(code),
{
    match code {
        Some(c) => if c == 0 {
            Ok(StatusUpdate::Finished)
        } else {
            Err(RunError::SubprocessFailure(c))
        },
        None => Err(RunError::SubprocessSignal),
    }
}

} // verus!
