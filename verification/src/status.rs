//! Dashboard state and formatting for the progress renderer: accumulated
//! statistics, exact duration formatting, and the text of every dashboard
//! line. Drawing at screen coordinates is left to the caller.

use vstd::arithmetic::div_mod::lemma_fundamental_div_mod;
use vstd::arithmetic::mul::lemma_mul_inequality;
use vstd::prelude::*;
use vstd::string::StringExecFns;

use crate::text::{dec_rep, digit_char, digit_str, repeat_str, seq_repeat, u32_to_string};
use crate::{RunnerOptions, StatusUpdate};

verus! {

// ---------------------------------------------------------------------------
// Half-up rounding of ratios.
// ---------------------------------------------------------------------------

/// `x / den` rounded half-up to the nearest integer.
pub open spec fn round_ratio(x: nat, den: nat) -> nat
    recommends
        den > 0,
{
    let q = x / den;
    let r = x % den;
    if 2 * r >= den {
        q + 1
    } else {
        q
    }
}

/// A rounded ratio never exceeds a bound that the numerator stays under.
pub proof fn lemma_round_ratio_le(x: nat, den: nat, cap: nat)
    requires
        den >= 1,
        x <= cap * den,
    ensures
        round_ratio(x, den) <= cap,
{
    lemma_fundamental_div_mod(x as int, den as int);
    let q = x / den;
    let r = x % den;
    assert(q <= cap) by (nonlinear_arith)
        requires
            x == den * q + r,
            0 <= r < den,
            x <= cap * den,
            den >= 1,
            q >= 0,
    ;
    if 2 * r >= den {
        assert(q < cap) by (nonlinear_arith)
            requires
                x == den * q + r,
                0 <= r < den,
                x <= cap * den,
                den >= 1,
                2 * r >= den,
                0 <= q <= cap,
        ;
    }
}

/// Computes `round_ratio`.
fn round_ratio_u64(x: u64, den: u64) -> (r: u64)
    requires
        1 <= den <= u32::MAX,
    ensures
        r == round_ratio(x as nat, den as nat),
{
    let q = x / den;
    let rem = x % den;
    if 2 * rem >= den {
        proof {
            lemma_fundamental_div_mod(x as int, den as int);
            assert(q < u64::MAX) by (nonlinear_arith)
                requires
                    x as int == den as int * (q as int) + rem as int,
                    0 <= rem < den,
                    den >= 1,
                    2 * rem >= den,
                    x <= u64::MAX,
                    q >= 0,
            ;
        }
        q + 1
    } else {
        q
    }
}

// ---------------------------------------------------------------------------
// Average render time.
// ---------------------------------------------------------------------------

/// Sum of a sequence of durations.
pub open spec fn sum_times(s: Seq<u32>) -> nat
    decreases s.len(),
{
    if s.len() == 0 {
        0
    } else {
        sum_times(s.drop_last()) + s.last() as nat
    }
}

/// The average of the recorded durations, rounded half-up; zero when none
/// have been recorded, so an empty record never fails.
pub open spec fn spec_average(s: Seq<u32>) -> nat {
    if s.len() == 0 {
        0
    } else {
        round_ratio(sum_times(s), s.len())
    }
}

/// Computes the average render time over the recorded durations.
pub fn calc_average_render_time(render_times: &Vec<u32>) -> (r: u32)
    requires
        render_times@.len() <= u32::MAX,
    ensures
        r == spec_average(render_times@),
{
    let n = render_times.len();
    if n == 0 {
        return 0;
    }
    let mut sum: u64 = 0;
    let mut i: usize = 0;
    while i < n
        invariant
            i <= n,
            n == render_times@.len(),
            n <= u32::MAX,
            sum == sum_times(render_times@.subrange(0, i as int)),
            sum <= i * 0xffff_ffffu64,
        decreases n - i,
    {
        proof {
            let pre = render_times@.subrange(0, i as int);
            let post = render_times@.subrange(0, i + 1 as int);
            assert(post.drop_last() =~= pre);
            assert(post.last() == render_times@[i as int]);
            lemma_mul_inequality(i + 1 as int, n as int, 0xffff_ffff);
            lemma_mul_inequality(n as int, 0xffff_ffff, 0xffff_ffff);
        }
        sum = sum + render_times[i] as u64;
        i += 1;
    }
    proof {
        assert(render_times@.subrange(0, n as int) =~= render_times@);
        lemma_mul_inequality(n as int, 0xffff_ffff, 0xffff_ffff);
        lemma_round_ratio_le(sum as nat, n as nat, 0xffff_ffff);
    }
    let avg = round_ratio_u64(sum, n as u64);
    avg as u32
}

// ---------------------------------------------------------------------------
// The progress bar.
// ---------------------------------------------------------------------------

/// The progress bar text: thirty cells, the completed share filled
/// with `#`, and a percentage label rounded half-up.
pub open spec fn spec_progress_bar(rendered: nat, total: nat) -> Seq<char>
    recommends
        total > 0,
        rendered <= total,
{
    let filled = round_ratio(30 * rendered, total);
    let pct = round_ratio(100 * rendered, total);
    "[ "@ + seq_repeat("#"@, filled) + seq_repeat(" "@, (30 - filled) as nat) + " ] ("@ + dec_rep(
        pct,
    ) + "%)"@
}

/// Renders the progress bar for `frames_rendered` of `frames_to_render`
/// completed frames.
pub fn progress_bar(frames_rendered: u32, frames_to_render: u32) -> (r: String)
    requires
        frames_to_render > 0,
        frames_rendered <= frames_to_render,
    ensures
        r@ == spec_progress_bar(frames_rendered as nat, frames_to_render as nat),
{
    proof {
        lemma_mul_inequality(frames_rendered as int, frames_to_render as int, 30);
        lemma_round_ratio_le(
            (30 * frames_rendered) as nat,
            frames_to_render as nat,
            30,
        );
        lemma_mul_inequality(frames_rendered as int, frames_to_render as int, 100);
        lemma_round_ratio_le(
            (100 * frames_rendered) as nat,
            frames_to_render as nat,
            100,
        );
    }
    let filled = round_ratio_u64(30 * frames_rendered as u64, frames_to_render as u64);
    let pct = round_ratio_u64(100 * frames_rendered as u64, frames_to_render as u64);
    let mut out = "[ ".to_owned();
    let hashes = repeat_str("#", filled as usize);
    out.append(hashes.as_str());
    let blanks = repeat_str(" ", (30 - filled) as usize);
    out.append(blanks.as_str());
    out.append(" ] (");
    let label = u32_to_string(pct as u32);
    out.append(label.as_str());
    out.append("%)");
    proof {
        assert(out@ =~= spec_progress_bar(frames_rendered as nat, frames_to_render as nat));
    }
    out
}

// ---------------------------------------------------------------------------
// Duration formatting.
// ---------------------------------------------------------------------------

/// The exact text for a duration in milliseconds.
///
/// Above one hour: `{hours}h {minutes}m {seconds}s` with whole seconds
/// rounded half-up; hours grow without ever rolling into days. Above one
/// minute: `{minutes}m {seconds}s` with one decimal digit. Otherwise
/// `{seconds}s` with one decimal digit, rounded half-up.
pub open spec fn spec_format_duration(ms: nat) -> Seq<char> {
    if ms > 3_600_000 {
        let h = ms / 3_600_000;
        let rem = ms % 3_600_000;
        let m = rem / 60_000;
        let s = ((rem % 60_000) + 500) / 1000;
        dec_rep(h) + "h "@ + dec_rep(m) + "m "@ + dec_rep(s) + "s"@
    } else if ms > 60_000 {
        let m = ms / 60_000;
        let t = ((ms % 60_000) + 50) / 100;
        dec_rep(m) + "m "@ + dec_rep(t / 10) + "."@ + seq![digit_char((t % 10) as nat)] + "s"@
    } else {
        let t = (ms + 50) / 100;
        dec_rep(t / 10) + "."@ + seq![digit_char((t % 10) as nat)] + "s"@
    }
}

/// Formats a duration in milliseconds.
pub fn format_duration(duration_ms: u32) -> (r: String)
    ensures
        r@ == spec_format_duration(duration_ms as nat),
{
    if duration_ms > 3_600_000 {
        let h = duration_ms / 3_600_000;
        let rem = duration_ms % 3_600_000;
        let m = rem / 60_000;
        let s = ((rem % 60_000) + 500) / 1000;
        let mut out = u32_to_string(h);
        out.append("h ");
        let mtext = u32_to_string(m);
        out.append(mtext.as_str());
        out.append("m ");
        let stext = u32_to_string(s);
        out.append(stext.as_str());
        out.append("s");
        proof {
            assert(out@ =~= spec_format_duration(duration_ms as nat));
        }
        out
    } else if duration_ms > 60_000 {
        let m = duration_ms / 60_000;
        let t = ((duration_ms % 60_000) + 50) / 100;
        let mut out = u32_to_string(m);
        out.append("m ");
        let wtext = u32_to_string(t / 10);
        out.append(wtext.as_str());
        out.append(".");
        out.append(digit_str(t % 10));
        out.append("s");
        proof {
            assert(out@ =~= spec_format_duration(duration_ms as nat));
        }
        out
    } else {
        let t = (duration_ms + 50) / 100;
        let mut out = u32_to_string(t / 10);
        out.append(".");
        out.append(digit_str(t % 10));
        out.append("s");
        proof {
            assert(out@ =~= spec_format_duration(duration_ms as nat));
        }
        out
    }
}

// ---------------------------------------------------------------------------
// Wall-clock time.
// ---------------------------------------------------------------------------

/// Relies on chrono's `Local::now` and `DateTime::timestamp_millis`: the
/// current wall-clock instant as signed milliseconds since the epoch. The
/// result depends on the machine's clock, so nothing is promised of it.
#[verifier::external_body]
fn local_now_millis() -> i64 {
    chrono::Local::now().timestamp_millis()
}

/// The current wall-clock instant as milliseconds since the epoch, clamped
/// below at the epoch. The value depends on the machine's clock.
pub fn now_ms() -> u64 {
    let t = local_now_millis();
    if t >= 0 {
        t as u64
    } else {
        0
    }
}

/// Relies on chrono's `TimeZone::timestamp_millis_opt` and
/// `DateTime::format`: renders the instant in the machine's local time zone
/// as "Month Day, Hour:Minute" with an am/pm marker, or nothing for an
/// instant the local calendar cannot place. The text depends on the
/// machine's time zone, so nothing is promised of it.
#[verifier::external_body]
fn format_local_timestamp(ms: u64) -> (r: Option<String>) {
    match chrono::TimeZone::timestamp_millis_opt(&chrono::Local, ms as i64).single() {
        Some(t) => Some(t.format("%b %-d, %-I:%M%P").to_string()),
        None => None,
    }
}

/// Formats an optional timestamp; an absent one is the placeholder `---`.
pub fn format_time(time: Option<u64>) -> (r: String)
    ensures
        time is None ==> r@ == "---"@,
{
    match time {
        Some(ms) => match format_local_timestamp(ms) {
            Some(text) => text,
            None => "---".to_owned(),
        },
        None => "---".to_owned(),
    }
}

/// Milliseconds from `start` to `end`, clamped below at zero and above at
/// `u32::MAX`.
pub open spec fn spec_elapsed(start: u64, end: u64) -> u32 {
    if end < start {
        0
    } else if end - start > u32::MAX {
        u32::MAX
    } else {
        (end - start) as u32
    }
}

/// Computes the elapsed milliseconds between two timestamps.
pub fn elapsed_ms(start: u64, end: u64) -> (r: u32)
    ensures
        r == spec_elapsed(start, end),
{
    if end < start {
        0
    } else if end - start > u32::MAX as u64 {
        u32::MAX
    } else {
        (end - start) as u32
    }
}

// ---------------------------------------------------------------------------
// Dashboard state.
// ---------------------------------------------------------------------------

/// The renderer's accumulated view of the run: the requested frame range,
/// the recorded per-frame durations in completion order, and the start and
/// finish timestamps, each set exactly once.
pub struct DisplayState {
    pub frame_start: u32,
    pub frame_end: u32,
    pub frames_to_render: u32,
    pub render_times: Vec<u32>,
    pub time_start: Option<u64>,
    pub time_end: Option<u64>,
}

impl DisplayState {
    /// The dashboard invariant: a coherent frame range, never more recorded
    /// durations than requested frames, and no finish before a start.
    pub open spec fn wf(self) -> bool {
        &&& self.frame_start <= self.frame_end
        &&& self.frames_to_render == self.frame_end - self.frame_start + 1
        &&& self.render_times@.len() <= self.frames_to_render
        &&& self.time_end is Some ==> self.time_start is Some
    }

    /// The initial dashboard for a configured run: nothing rendered yet.
    pub fn new(options: &RunnerOptions) -> (s: DisplayState)
        requires
            options.wf(),
        ensures
            s.wf(),
            s.frame_start == options.frame_start,
            s.frame_end == options.frame_end,
            s.frames_to_render == options.frame_end - options.frame_start + 1,
            s.render_times@ == Seq::<u32>::empty(),
            s.time_start is None,
            s.time_end is None,
    {
        let s = DisplayState {
            frame_start: options.frame_start,
            frame_end: options.frame_end,
            frames_to_render: options.frame_end - options.frame_start + 1,
            render_times: Vec::new(),
            time_start: None,
            time_end: None,
        };
        proof {
            assert(s.render_times@ =~= Seq::<u32>::empty());
        }
        s
    }

    /// Folds one domain event into the dashboard: `Started` records the
    /// start time, `RenderedFrame` appends the frame's duration, `Finished`
    /// records the finish time. Nothing else changes.
    pub fn apply_update(&mut self, update: StatusUpdate, now: u64)
        requires
            old(self).wf(),
            update is Started ==> old(self).time_start is None,
            update is RenderedFrame ==> old(self).render_times@.len()
                < old(self).frames_to_render,
            update is Finished ==> old(self).time_start is Some && old(self).time_end is None,
        ensures
            final(self).wf(),
            final(self).frame_start == old(self).frame_start,
            final(self).frame_end == old(self).frame_end,
            final(self).frames_to_render == old(self).frames_to_render,
            match update {
                StatusUpdate::Started => {
                    &&& final(self).time_start == Some(now)
                    &&& final(self).time_end == old(self).time_end
                    &&& final(self).render_times@ == old(self).render_times@
                },
                StatusUpdate::RenderedFrame { frame_number, render_time } => {
                    &&& final(self).render_times@ == old(self).render_times@.push(render_time)
                    &&& final(self).time_start == old(self).time_start
                    &&& final(self).time_end == old(self).time_end
                },
                StatusUpdate::Finished => {
                    &&& final(self).time_end == Some(now)
                    &&& final(self).time_start == old(self).time_start
                    &&& final(self).render_times@ == old(self).render_times@
                },
            },
    {
        match update {
            StatusUpdate::Started => {
                self.time_start = Some(now);
            },
            StatusUpdate::RenderedFrame { frame_number: _, render_time } => {
                self.render_times.push(render_time);
            },
            StatusUpdate::Finished => {
                self.time_end = Some(now);
            },
        }
    }

    /// How many frames have completed.
    pub fn frames_rendered(&self) -> (n: u32)
        requires
            self.wf(),
        ensures
            n == self.render_times@.len(),
    {
        self.render_times.len() as u32
    }

    /// How many requested frames are still outstanding.
    pub fn frames_remaining(&self) -> (n: u32)
        requires
            self.wf(),
        ensures
            n == self.frames_to_render - self.render_times@.len(),
    {
        self.frames_to_render - self.frames_rendered()
    }

    /// The average recorded render time, rounded half-up; zero with no
    /// recorded frames.
    pub fn average_render_time(&self) -> (r: u32)
        requires
            self.wf(),
        ensures
            r == spec_average(self.render_times@),
    {
        calc_average_render_time(&self.render_times)
    }
}

// ---------------------------------------------------------------------------
// Dashboard and summary text.
// ---------------------------------------------------------------------------

/// The header's first line.
pub fn started_line(time_text: &str) -> (r: String)
    ensures
        r@ == "Started at "@ + time_text@,
{
    let mut out = "Started at ".to_owned();
    out.append(time_text);
    out
}

/// The header's second line: the inclusive frame range.
pub fn range_line(frame_start: u32, frame_end: u32) -> (r: String)
    ensures
        r@ == "Rendering frames "@ + dec_rep(frame_start as nat) + " through "@ + dec_rep(
            frame_end as nat,
        ),
{
    let mut out = "Rendering frames ".to_owned();
    let stext = u32_to_string(frame_start);
    out.append(stext.as_str());
    out.append(" through ");
    let etext = u32_to_string(frame_end);
    out.append(etext.as_str());
    out
}

/// The statistics line counting completed and outstanding frames.
pub fn rendered_line(rendered: u32, remaining: u32) -> (r: String)
    ensures
        r@ == "Rendered "@ + dec_rep(rendered as nat) + " frames, "@ + dec_rep(remaining as nat)
            + " remaining"@,
{
    let mut out = "Rendered ".to_owned();
    let rtext = u32_to_string(rendered);
    out.append(rtext.as_str());
    out.append(" frames, ");
    let mtext = u32_to_string(remaining);
    out.append(mtext.as_str());
    out.append(" remaining");
    out
}

/// The statistics line for the total elapsed time.
pub fn elapsed_line(elapsed: u32) -> (r: String)
    ensures
        r@ == "Total time elapsed: "@ + spec_format_duration(elapsed as nat),
{
    let mut out = "Total time elapsed: ".to_owned();
    let dtext = format_duration(elapsed);
    out.append(dtext.as_str());
    out
}

/// The statistics line for the average frame render time.
pub fn average_line(average: u32) -> (r: String)
    ensures
        r@ == "Average frame render time: "@ + spec_format_duration(average as nat),
{
    let mut out = "Average frame render time: ".to_owned();
    let dtext = format_duration(average);
    out.append(dtext.as_str());
    out
}

/// The footer line.
pub fn finished_line(time_text: &str) -> (r: String)
    ensures
        r@ == "Finished at "@ + time_text@,
{
    let mut out = "Finished at ".to_owned();
    out.append(time_text);
    out
}

/// The final summary's headline: frames rendered and total elapsed time.
pub fn summary_line(frames: u32, elapsed: u32) -> (r: String)
    ensures
        r@ == "Rendered "@ + dec_rep(frames as nat) + " frames in "@ + spec_format_duration(
            elapsed as nat,
        ),
{
    let mut out = "Rendered ".to_owned();
    let ftext = u32_to_string(frames);
    out.append(ftext.as_str());
    out.append(" frames in ");
    let dtext = format_duration(elapsed);
    out.append(dtext.as_str());
    out
}

/// The final summary's start-time line.
pub fn summary_started_line(time_text: &str) -> (r: String)
    ensures
        r@ == "  Started:  "@ + time_text@,
{
    let mut out = "  Started:  ".to_owned();
    out.append(time_text);
    out
}

/// The final summary's finish-time line.
pub fn summary_finished_line(time_text: &str) -> (r: String)
    ensures
        r@ == "  Finished: "@ + time_text@,
{
    let mut out = "  Finished: ".to_owned();
    out.append(time_text);
    out
}

/// The final summary's average line.
pub fn summary_average_line(average: u32) -> (r: String)
    ensures
        r@ == "  Average frame render time: "@ + spec_format_duration(average as nat),
{
    let mut out = "  Average frame render time: ".to_owned();
    let dtext = format_duration(average);
    out.append(dtext.as_str());
    out
}

} // verus!
