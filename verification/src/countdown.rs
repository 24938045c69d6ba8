//! The `at` safety timer of test mode and the countdown shown while it runs.
//!
//! The library reads what `at` and `atq` print, decides what to cancel and
//! what to report, and draws the gradient progress bar; the caller runs the
//! commands and the terminal.

use vstd::prelude::*;

use crate::logging::{LogLevel, LogLine, log_line};
use crate::text::{
    chars_of, decimal, decimal_string, eq_str, parse_u64, parse_u64_chars, push_char,
    push_decimal, split_lines, split_words, string_of, string_views, text_lines, views, words,
};

verus! {

/// How cancelling the safety timer went.
pub enum CancelOutcome {
    /// The job is gone from the queue.
    Cleared,
    /// The job (of this id) is still queued after `atrm`.
    FailedStillQueued(String),
    /// No job could be found to cancel.
    NotFound,
}

/// A `nft flush ruleset` job queued with `at`, to fire `minutes` minutes
/// after `armed_at` (seconds since the Unix epoch).
pub struct SafetyTimer {
    pub armed_at: u64,
    pub minutes: u64,
    pub job_id: Option<String>,
}

// ---------------------------------------------------------------------------
// Reading what `at` and `atq` print
// ---------------------------------------------------------------------------

/// The job id in the first line of `lines` whose first word is `job` and
/// that has a second word: that second word.
pub open spec fn job_id_in(lines: Seq<Seq<char>>) -> Option<Seq<char>>
    decreases lines.len(),
{
    if lines.len() == 0 {
        None
    } else {
        let w = words(lines[0]);
        if w.len() >= 2 && w[0] == "job"@ {
            Some(w[1])
        } else {
            job_id_in(lines.drop_first())
        }
    }
}

/// The job id that `at` reports in `text` ("job 3 at Thu Jan  1 ...").
pub open spec fn at_job_id(text: Seq<char>) -> Option<Seq<char>> {
    job_id_in(text_lines(text))
}

/// The id of the job that `at` reports in its output, if it reports one.
pub fn parse_at_job_id(text: &str) -> (r: Option<String>)
    ensures
        match r {
            Some(id) => at_job_id(text@) == Some(id@),
            None => at_job_id(text@) is None,
        },
{
    let chars = chars_of(text);
    let lines = split_lines(chars.as_slice());
    let ghost all = views(lines@);
    let mut k: usize = 0;
    assert(all.skip(0) =~= all);
    while k < lines.len()
        invariant
            all == views(lines@),
            all == text_lines(text@),
            k <= lines@.len(),
            at_job_id(text@) == job_id_in(all.skip(k as int)),
        decreases lines@.len() - k,
    {
        assert(all.skip(k as int).drop_first() =~= all.skip(k + 1));
        let w = split_words(lines[k].as_slice());
        if w.len() >= 2 && eq_str(w[0].as_slice(), "job") {
            return Some(string_of(w[1].as_slice()));
        }
        k = k + 1;
    }
    None
}

/// The first word of each line of `lines` that has one.
pub open spec fn first_words(lines: Seq<Seq<char>>) -> Seq<Seq<char>>
    decreases lines.len(),
{
    if lines.len() == 0 {
        seq![]
    } else {
        let w = words(lines[0]);
        if w.len() > 0 {
            seq![w[0]] + first_words(lines.drop_first())
        } else {
            first_words(lines.drop_first())
        }
    }
}

/// The ids of the jobs that `atq` lists in `listing`: the first word of
/// each line.
pub open spec fn atq_ids(listing: Seq<char>) -> Seq<Seq<char>> {
    first_words(text_lines(listing))
}

/// The ids of the jobs that `atq` lists, in the order listed.
pub fn atq_job_ids(listing: &str) -> (r: Vec<String>)
    ensures
        string_views(r@) == atq_ids(listing@),
{
    let chars = chars_of(listing);
    let lines = split_lines(chars.as_slice());
    let ghost all = views(lines@);
    let mut out: Vec<String> = Vec::new();
    let mut k: usize = 0;
    assert(all.skip(0) =~= all);
    while k < lines.len()
        invariant
            all == views(lines@),
            all == text_lines(listing@),
            k <= lines@.len(),
            atq_ids(listing@) == string_views(out@) + first_words(all.skip(k as int)),
        decreases lines@.len() - k,
    {
        assert(all.skip(k as int).drop_first() =~= all.skip(k + 1));
        let w = split_words(lines[k].as_slice());
        if w.len() > 0 {
            let ghost before = out@;
            out.push(string_of(w[0].as_slice()));
            assert(string_views(out@) =~= string_views(before) + seq![views(w@)[0]]);
        }
        k = k + 1;
    }
    assert(all.skip(k as int) =~= Seq::<Seq<char>>::empty());
    assert(string_views(out@) + Seq::<Seq<char>>::empty() =~= string_views(out@));
    out
}

/// Whether some line of `lines` has `id` as its first word.
pub open spec fn lists_job(lines: Seq<Seq<char>>, id: Seq<char>) -> bool
    decreases lines.len(),
{
    if lines.len() == 0 {
        false
    } else {
        let w = words(lines[0]);
        (w.len() > 0 && w[0] == id) || lists_job(lines.drop_first(), id)
    }
}

/// Whether the `atq` listing still holds the job `job_id`.
pub fn atq_contains(listing: &str, job_id: &str) -> (r: bool)
    ensures
        r == lists_job(text_lines(listing@), job_id@),
{
    let chars = chars_of(listing);
    let id = chars_of(job_id);
    let lines = split_lines(chars.as_slice());
    let ghost all = views(lines@);
    let mut k: usize = 0;
    assert(all.skip(0) =~= all);
    while k < lines.len()
        invariant
            all == views(lines@),
            all == text_lines(listing@),
            id@ == job_id@,
            k <= lines@.len(),
            lists_job(all, job_id@) == lists_job(all.skip(k as int), job_id@),
        decreases lines@.len() - k,
    {
        assert(all.skip(k as int).drop_first() =~= all.skip(k + 1));
        let w = split_words(lines[k].as_slice());
        if w.len() > 0 && w[0].len() == id.len() {
            if slices_equal(w[0].as_slice(), id.as_slice()) {
                return true;
            }
        } else if w.len() > 0 {
            assert(views(w@)[0].len() != id@.len());
        }
        k = k + 1;
    }
    false
}

/// Whether two character slices are equal.
fn slices_equal(a: &[char], b: &[char]) -> (r: bool)
    ensures
        r == (a@ == b@),
{
    if a.len() != b.len() {
        return false;
    }
    let mut i: usize = 0;
    while i < a.len()
        invariant
            a@.len() == b@.len(),
            i <= a@.len(),
            forall|j: int| 0 <= j < i ==> a@[j] == b@[j],
        decreases a@.len() - i,
    {
        if a[i] != b[i] {
            return false;
        }
        i = i + 1;
    }
    assert(a@ =~= b@);
    true
}

/// The numeric ids of `first`: each that `u64::from_str` accepts.
pub open spec fn numeric_ids(first: Seq<Seq<char>>) -> Seq<u64>
    decreases first.len(),
{
    if first.len() == 0 {
        seq![]
    } else {
        match parse_u64(first[0]) {
            Some(v) => seq![v] + numeric_ids(first.drop_first()),
            None => numeric_ids(first.drop_first()),
        }
    }
}

/// The larger of two optional values, `None` counting as the least.
pub open spec fn max_opt(a: Option<u64>, b: Option<u64>) -> Option<u64> {
    match (a, b) {
        (None, _) => b,
        (_, None) => a,
        (Some(x), Some(y)) => Some(if x >= y { x } else { y }),
    }
}

/// The greatest element of `ids`, if there is one.
pub open spec fn seq_max(ids: Seq<u64>) -> Option<u64>
    decreases ids.len(),
{
    if ids.len() == 0 {
        None
    } else {
        max_opt(Some(ids[0]), seq_max(ids.drop_first()))
    }
}

/// The id of the most recent job that `atq` lists: the greatest of the
/// numeric first words, written back in decimal.
pub open spec fn latest_job(listing: Seq<char>) -> Option<Seq<char>> {
    match seq_max(numeric_ids(atq_ids(listing))) {
        Some(m) => Some(decimal(m as nat)),
        None => None,
    }
}

/// The most recent job that `atq` lists, to cancel when arming did not
/// report an id.
pub fn latest_atq_job(listing: &str) -> (r: Option<String>)
    ensures
        match r {
            Some(id) => latest_job(listing@) == Some(id@),
            None => latest_job(listing@) is None,
        },
{
    let firsts = atq_job_ids(listing);
    let ghost all = string_views(firsts@);
    let mut best: Option<u64> = None;
    let mut k: usize = 0;
    assert(all.skip(0) =~= all);
    while k < firsts.len()
        invariant
            all == string_views(firsts@),
            all == atq_ids(listing@),
            k <= firsts@.len(),
            seq_max(numeric_ids(all)) == max_opt(best, seq_max(numeric_ids(all.skip(k as int)))),
        decreases firsts@.len() - k,
    {
        assert(all.skip(k as int).drop_first() =~= all.skip(k + 1));
        let w = chars_of(firsts[k].as_str());
        let ghost rest = all.skip(k + 1);
        assert(all.skip(k as int)[0] == w@);
        let parsed = parse_u64_chars(w.as_slice());
        match parsed {
            Some(v) => {
                assert(numeric_ids(all.skip(k as int)) == seq![v] + numeric_ids(rest));
                assert((seq![v] + numeric_ids(rest)).drop_first() =~= numeric_ids(rest));
                best = match best {
                    None => Some(v),
                    Some(b) => Some(if b >= v { b } else { v }),
                };
            },
            None => {
                assert(numeric_ids(all.skip(k as int)) == numeric_ids(rest));
            },
        }
        k = k + 1;
    }
    assert(all.skip(k as int) =~= Seq::<Seq<char>>::empty());
    match best {
        Some(m) => Some(decimal_string(m)),
        None => None,
    }
}

/// A safety timer as the contracts speak of it.
pub struct TimerView {
    pub armed_at: u64,
    pub minutes: u64,
    pub job: Option<Seq<char>>,
}

/// The view of a safety timer: when it was armed, for how long, and the id
/// of its `at` job.
pub open spec fn timer_view(t: SafetyTimer) -> TimerView {
    TimerView { armed_at: t.armed_at, minutes: t.minutes, job: t.job() }
}

impl SafetyTimer {
    /// The id of the queued job, as `at` reported it.
    pub open spec fn job(&self) -> Option<Seq<char>> {
        match self.job_id {
            Some(s) => Some(s@),
            None => None,
        }
    }

    /// The timer that `at` armed at `armed_at`, given what `at` printed
    /// (standard output, then standard error).
    pub fn from_at_output(minutes: u64, armed_at: u64, at_output: &str) -> (t: SafetyTimer)
        ensures
            t.minutes == minutes,
            t.armed_at == armed_at,
            t.job() == at_job_id(at_output@),
    {
        let job_id = parse_at_job_id(at_output);
        SafetyTimer { armed_at, minutes, job_id }
    }

    /// The id of the queued job, if arming captured one.
    pub fn job_id(&self) -> (r: Option<String>)
        ensures
            match r {
                Some(id) => self.job() == Some(id@),
                None => self.job() is None,
            },
    {
        match &self.job_id {
            Some(id) => Some(id.clone()),
            None => None,
        }
    }
}

/// What cancelling the safety timer learns from the caller.
pub enum CancelEvent {
    /// Start cancelling.
    Begin,
    /// `atq` listed `listing`: after `atrm` of the job `removed`, or, with
    /// `None`, to find the job to cancel.
    QueueListed { listing: String, removed: Option<String> },
}

/// What cancelling the safety timer does next.
pub enum CancelAction {
    /// List the queue with `atq`.
    ListQueue,
    /// Remove this job with `atrm`, then list the queue.
    RemoveJob(String),
    /// Cancelling is over, with this outcome.
    Finish(CancelOutcome),
}

impl SafetyTimer {
    /// The decisions of cancelling this timer: remove the job that arming
    /// reported, or else the most recent job in the queue (nothing found:
    /// `NotFound`), then check the queue for it.
    pub fn cancel_step(&self, event: CancelEvent) -> (a: CancelAction)
        ensures
            match event {
                CancelEvent::Begin => match self.job() {
                    Some(id) => a matches CancelAction::RemoveJob(j) && j@ == id,
                    None => a is ListQueue,
                },
                CancelEvent::QueueListed { listing, removed } => match removed {
                    None => match latest_job(listing@) {
                        Some(id) => a matches CancelAction::RemoveJob(j) && j@ == id,
                        None => a matches CancelAction::Finish(o) && o is NotFound,
                    },
                    Some(id) => if lists_job(text_lines(listing@), id@) {
                        a matches CancelAction::Finish(o) && o matches CancelOutcome::FailedStillQueued(j)
                            && j@ == id@
                    } else {
                        a matches CancelAction::Finish(o) && o is Cleared
                    },
                },
            },
    {
        match event {
            CancelEvent::Begin => match self.job_id() {
                Some(id) => CancelAction::RemoveJob(id),
                None => CancelAction::ListQueue,
            },
            CancelEvent::QueueListed { listing, removed } => match removed {
                None => match latest_atq_job(listing.as_str()) {
                    Some(id) => CancelAction::RemoveJob(id),
                    None => CancelAction::Finish(CancelOutcome::NotFound),
                },
                Some(id) => CancelAction::Finish(cancel_outcome(id, listing.as_str())),
            },
        }
    }
}

/// What cancelling the job `job_id` came to, given the `atq` listing taken
/// after `atrm`.
pub fn cancel_outcome(job_id: String, listing_after: &str) -> (r: CancelOutcome)
    ensures
        lists_job(text_lines(listing_after@), job_id@) ==> (r matches CancelOutcome::FailedStillQueued(id) && id@ == job_id@),
        !lists_job(text_lines(listing_after@), job_id@) ==> r is Cleared,
{
    if atq_contains(listing_after, job_id.as_str()) {
        CancelOutcome::FailedStillQueued(job_id)
    } else {
        CancelOutcome::Cleared
    }
}

// ---------------------------------------------------------------------------
// The gradient progress bar
// ---------------------------------------------------------------------------

/// `a - b`, or 0 where that is negative (`u64::saturating_sub`).
pub open spec fn sat_sub(a: int, b: int) -> int {
    if a >= b {
        a - b
    } else {
        0
    }
}

/// The colour at position `pos` of the gradient, before it is cut to
/// bytes: pink/magenta (255, 0, 180) through orange/yellow (255, 160, 0)
/// to cyan/green (0, 255, 200) over 0..=255.
pub open spec fn gradient(pos: int) -> (int, int, int) {
    if pos < 128 {
        (255, pos * 160 / 128, sat_sub(180, pos * 180 / 128))
    } else {
        (sat_sub(255, (pos - 128) * 255 / 127), 160 + (pos - 128) * 95 / 127, (pos - 128) * 200 / 127)
    }
}

/// The colour at position `pos` as bytes, each component cut to its low
/// eight bits as `as u8` does.
pub open spec fn gradient_rgb(pos: int) -> (u8, u8, u8) {
    let c = gradient(pos);
    (c.0 as u8, c.1 as u8, c.2 as u8)
}

/// The colour of the gradient at position `pos` (0..=255 spans it).
pub fn gradient_color(pos: u64) -> (rgb: (u8, u8, u8))
    requires
        pos >= 128 ==> (pos - 128) * 255 <= u64::MAX,
    ensures
        rgb == gradient_rgb(pos as int),
{
    if pos < 128 {
        let r: u64 = 255;
        let g: u64 = pos * 160 / 128;
        let b: u64 = 180u64.saturating_sub(pos * 180 / 128);
        (r as u8, g as u8, b as u8)
    } else {
        let d: u64 = pos - 128;
        let r: u64 = 255u64.saturating_sub(d * 255 / 127);
        assert(d * 95 <= d * 255) by (nonlinear_arith);
        assert(d * 200 <= d * 255) by (nonlinear_arith);
        let g: u64 = 160 + d * 95 / 127;
        let b: u64 = d * 200 / 127;
        (r as u8, g as u8, b as u8)
    }
}

/// Over 0..=255 the gradient needs no cutting: each component is the
/// formula's own value, and lies in 0..=255.
pub proof fn lemma_gradient_in_byte_range(pos: int)
    requires
        0 <= pos <= 255,
    ensures
        0 <= gradient(pos).0 <= 255,
        0 <= gradient(pos).1 <= 255,
        0 <= gradient(pos).2 <= 255,
        gradient_rgb(pos).0 as int == gradient(pos).0,
        gradient_rgb(pos).1 as int == gradient(pos).1,
        gradient_rgb(pos).2 as int == gradient(pos).2,
{
    if pos < 128 {
        assert(0 <= pos * 160 <= 127 * 160) by (nonlinear_arith)
            requires
                0 <= pos < 128,
        ;
        assert(0 <= pos * 180) by (nonlinear_arith)
            requires
                0 <= pos,
        ;
    } else {
        let d = pos - 128;
        assert(0 <= d * 95 <= 127 * 95) by (nonlinear_arith)
            requires
                0 <= d <= 127,
        ;
        assert(0 <= d * 200 <= 127 * 200) by (nonlinear_arith)
            requires
                0 <= d <= 127,
        ;
        assert(0 <= d * 255) by (nonlinear_arith)
            requires
                0 <= d,
        ;
    }
}

/// Along the gradient the red component never grows and the green one
/// never shrinks: pink through orange to cyan.
pub proof fn law_gradient_red_falls_green_rises(p: int, q: int)
    requires
        0 <= p <= q <= 255,
    ensures
        gradient(q).0 <= gradient(p).0,
        gradient(p).1 <= gradient(q).1,
{
    if q < 128 {
        assert(p * 160 / 128 <= q * 160 / 128) by (nonlinear_arith)
            requires
                0 <= p <= q,
        ;
    } else if p >= 128 {
        let dp = p - 128;
        let dq = q - 128;
        assert(dp * 95 / 127 <= dq * 95 / 127) by (nonlinear_arith)
            requires
                0 <= dp <= dq,
        ;
        assert(dp * 255 / 127 <= dq * 255 / 127) by (nonlinear_arith)
            requires
                0 <= dp <= dq,
        ;
    } else {
        assert(p * 160 / 128 <= 127 * 160 / 128) by (nonlinear_arith)
            requires
                0 <= p <= 127,
        ;
        let dq = q - 128;
        assert(0 <= dq * 95 / 127) by (nonlinear_arith)
            requires
                0 <= dq,
        ;
        assert(0 <= dq * 255 / 127) by (nonlinear_arith)
            requires
                0 <= dq,
        ;
    }
}

/// The greatest element of a sequence is one of its elements and no
/// element exceeds it; only the empty sequence has none.
pub proof fn law_seq_max_is_greatest(ids: Seq<u64>)
    ensures
        seq_max(ids) is None <==> ids.len() == 0,
        seq_max(ids) matches Some(m) ==> ids.contains(m) && forall|i: int|
            0 <= i < ids.len() ==> ids[i] <= m,
    decreases ids.len(),
{
    if ids.len() > 0 {
        law_seq_max_is_greatest(ids.drop_first());
        let m = seq_max(ids).unwrap();
        assert forall|i: int| 0 <= i < ids.len() implies ids[i] <= m by {
            if i > 0 {
                assert(ids[i] == ids.drop_first()[i - 1]);
            }
        }
        if m == ids[0] {
            assert(ids[0] == m);
        } else {
            let r = seq_max(ids.drop_first()).unwrap();
            let k = choose|k: int| 0 <= k < ids.drop_first().len() && ids.drop_first()[k] == r;
            assert(ids[k + 1] == m);
        }
    }
}

/// Width of the progress bar, in cells.
pub const BAR_WIDTH: u64 = 40;

/// One filled cell of the bar: a shaded block in the gradient colour of
/// cell `idx`.
pub open spec fn bar_cell(idx: int) -> Seq<char> {
    let c = gradient_rgb(idx * 255 / 40);
    "\x1b[38;2;"@ + decimal(c.0 as nat) + ";"@ + decimal(c.1 as nat) + ";"@ + decimal(c.2 as nat)
        + "m░\x1b[0m"@
}

/// The first `n` filled cells.
pub open spec fn bar_cells(n: int) -> Seq<char>
    decreases n,
{
    if n <= 0 {
        seq![]
    } else {
        bar_cells(n - 1) + bar_cell(n - 1)
    }
}

/// `n` dashes.
pub open spec fn dashes(n: nat) -> Seq<char> {
    Seq::new(n, |i: int| '-')
}

/// The grey dashes of the unfilled part of the bar.
pub open spec fn bar_rest(empty: int) -> Seq<char> {
    if empty > 0 {
        "\x1b[38;5;240m"@ + dashes(empty as nat) + "\x1b[0m"@
    } else {
        seq![]
    }
}

/// The progress line for `percentage` percent done and `remaining`
/// seconds left: 40 cells, `percentage * 40 / 100` of them filled (the
/// bar cannot be drawn from 103 percent on, where that exceeds 40).
pub open spec fn bar_text(percentage: nat, remaining: nat) -> Seq<char> {
    let filled = percentage * 40 / 100;
    "\r\x1b[1m["@ + bar_cells(filled as int) + bar_rest(40 - filled) + "] "@ + decimal(percentage)
        + "% ("@ + decimal(remaining) + "s remaining)\x1b[0m"@
}

/// The progress line that the countdown prints (without a newline).
pub fn render_bar(percentage: u64, remaining: u64) -> (r: String)
    requires
        percentage <= 102,
    ensures
        r@ == bar_text(percentage as nat, remaining as nat),
{
    let width: u64 = BAR_WIDTH;
    let filled = percentage * width / 100;
    let empty = width - filled;
    let mut r = String::from_str("\r\x1b[1m[");
    let ghost start = r@;
    let mut idx: u64 = 0;
    while idx < filled
        invariant
            width == 40,
            filled <= 40,
            idx <= filled,
            r@ == start + bar_cells(idx as int),
        decreases filled - idx,
    {
        let pos = idx * 255 / width;
        let (cr, cg, cb) = gradient_color(pos);
        let ghost before = r@;
        r.append("\x1b[38;2;");
        push_decimal(&mut r, cr as u64);
        r.append(";");
        push_decimal(&mut r, cg as u64);
        r.append(";");
        push_decimal(&mut r, cb as u64);
        r.append("m░\x1b[0m");
        assert(r@ =~= before + bar_cell(idx as int));
        idx = idx + 1;
        assert(r@ =~= start + bar_cells(idx as int));
    }
    let ghost mid = r@;
    if empty > 0 {
        r.append("\x1b[38;5;240m");
        let ghost before = r@;
        let mut k: u64 = 0;
        while k < empty
            invariant
                k <= empty,
                r@ == before + dashes(k as nat),
            decreases empty - k,
        {
            push_char(&mut r, '-');
            k = k + 1;
            assert(r@ =~= before + dashes(k as nat));
        }
        r.append("\x1b[0m");
        assert(r@ =~= mid + bar_rest(empty as int));
    } else {
        assert(r@ =~= mid + bar_rest(empty as int));
    }
    r.append("] ");
    push_decimal(&mut r, percentage);
    r.append("% (");
    push_decimal(&mut r, remaining);
    r.append("s remaining)\x1b[0m");
    assert(r@ =~= bar_text(percentage as nat, remaining as nat));
    r
}

// ---------------------------------------------------------------------------
// The countdown loop's decisions
// ---------------------------------------------------------------------------

/// Where the countdown stands at one instant.
pub struct CountdownFrame {
    /// Share of the countdown that has passed, capped at 100.
    pub percentage: u64,
    /// Seconds left before the safety flush.
    pub remaining: u64,
    /// Whether the flush time has come.
    pub expired: bool,
}

/// Seconds since `start` at `now`, 0 if the clock stands before it.
pub open spec fn elapsed_since(start: u64, now: u64) -> int {
    sat_sub(now as int, start as int)
}

/// The share of a countdown of `total` seconds that has passed after
/// `elapsed` seconds, in whole percent, capped at 100.
pub open spec fn percent_done(total: int, elapsed: int) -> int {
    if elapsed * 100 / total <= 100 {
        elapsed * 100 / total
    } else {
        100
    }
}

/// The seconds left of a countdown of `total` seconds after `elapsed`.
pub open spec fn seconds_left(total: int, elapsed: int) -> int {
    sat_sub(total, elapsed)
}

/// The bar is full exactly when the flush time has come, which is exactly
/// when no second is left; before that the seconds passed and the seconds
/// left add up to the whole countdown.
pub proof fn law_full_bar_exactly_at_flush(total: int, elapsed: int)
    requires
        total > 0,
        elapsed >= 0,
    ensures
        0 <= percent_done(total, elapsed) <= 100,
        percent_done(total, elapsed) == 100 <==> elapsed >= total,
        seconds_left(total, elapsed) == 0 <==> elapsed >= total,
        elapsed < total ==> elapsed + seconds_left(total, elapsed) == total,
{
    if elapsed >= total {
        assert(elapsed * 100 >= total * 100) by (nonlinear_arith)
            requires
                elapsed >= total,
        ;
        assert(elapsed * 100 / total >= 100) by (nonlinear_arith)
            requires
                elapsed * 100 >= total * 100,
                total > 0,
        ;
    } else {
        assert(elapsed * 100 < total * 100) by (nonlinear_arith)
            requires
                elapsed < total,
        ;
        assert(0 <= elapsed * 100 / total < 100) by (nonlinear_arith)
            requires
                0 <= elapsed * 100 < total * 100,
                total > 0,
        ;
    }
}

/// Whether the countdown of `timer` can be computed at `now` without the
/// arithmetic overflowing or dividing by zero.
pub open spec fn frame_computable(timer: &SafetyTimer, now: u64) -> bool {
    &&& timer.minutes > 0
    &&& timer.minutes * 60 <= u64::MAX
    &&& elapsed_since(timer.armed_at, now) * 100 <= u64::MAX
}

/// Whether the countdown of `timer` can be computed at `now`: the timer
/// runs for at least a minute, and neither its length in seconds nor the
/// percentage arithmetic overflows.
pub fn frame_possible(timer: &SafetyTimer, now: u64) -> (r: bool)
    ensures
        r == frame_computable(timer, now),
{
    if timer.minutes == 0 || timer.minutes > u64::MAX / 60 {
        return false;
    }
    let elapsed = now.saturating_sub(timer.armed_at);
    elapsed <= u64::MAX / 100
}

/// Where the countdown of `timer` stands at `now` (seconds since the Unix
/// epoch).
pub fn countdown_frame(timer: &SafetyTimer, now: u64) -> (f: CountdownFrame)
    requires
        frame_computable(timer, now),
    ensures
        ({
            let total = timer.minutes * 60;
            let elapsed = elapsed_since(timer.armed_at, now);
            &&& f.percentage == percent_done(total, elapsed)
            &&& f.remaining == seconds_left(total, elapsed)
            &&& f.expired == (elapsed >= total)
        }),
{
    let total = timer.minutes * 60;
    let elapsed = now.saturating_sub(timer.armed_at);
    let raw = elapsed * 100 / total;
    let percentage = if raw <= 100 {
        raw
    } else {
        100
    };
    let remaining = total.saturating_sub(elapsed);
    CountdownFrame { percentage, remaining, expired: elapsed >= total }
}

/// What the countdown loop learns.
pub enum CountdownEvent {
    /// The clock reads `now` (seconds since the Unix epoch).
    Tick { now: u64 },
    /// The operator pressed a key.
    KeyPressed,
    /// Cancelling the safety timer came to this.
    CancelFinished(CancelOutcome),
}

/// What the countdown loop does next.
pub enum CountdownAction {
    /// Draw `bar` over the current line, then wait up to 200 ms for a key.
    Show { bar: String },
    /// Draw `bar`; the flush time has come: clear the line and report that
    /// the ruleset was flushed.
    Expire { bar: String },
    /// Clear the line and cancel the safety timer.
    CancelTimer,
    /// Clear the line, print this message, and stop.
    Finish(LogLine),
}

/// The message for a dismissed countdown in test mode, by how cancelling
/// the timer went.
pub open spec fn cancel_notice(outcome: CancelOutcome) -> (LogLevel, Seq<char>) {
    match outcome {
        CancelOutcome::Cleared => (
            LogLevel::Success,
            "Safety timer cleared! New firewall rules locked in permanently."@,
        ),
        CancelOutcome::FailedStillQueued(id) => (
            LogLevel::Error,
            "Failed to cancel safety timer (job "@ + id@ + " still queued)! Check 'atq' manually NOW."@,
        ),
        CancelOutcome::NotFound => (
            LogLevel::Warning,
            "Progress bar dismissed, but could not locate active 'at' job to cancel."@,
        ),
    }
}

/// The decision of the countdown loop on `event`: draw the bar, report
/// the flush, or on a key press cancel the timer (test mode) or simply
/// stop.
pub fn countdown_step(is_test_mode: bool, timer: &SafetyTimer, event: CountdownEvent) -> (a:
    CountdownAction)
    requires
        event matches CountdownEvent::Tick { now } ==> frame_computable(timer, now),
    ensures
        match event {
            CountdownEvent::Tick { now } => {
                let total = timer.minutes * 60;
                let elapsed = elapsed_since(timer.armed_at, now);
                let bar = bar_text(
                    percent_done(total, elapsed) as nat,
                    seconds_left(total, elapsed) as nat,
                );
                if elapsed >= total {
                    a matches CountdownAction::Expire { bar: b } && b@ == bar
                } else {
                    a matches CountdownAction::Show { bar: b } && b@ == bar
                }
            },
            CountdownEvent::KeyPressed => if is_test_mode {
                a is CancelTimer
            } else {
                a matches CountdownAction::Finish(line) && line.level == LogLevel::Info
                    && line.text@
                    == "Progress bar dismissed. Returning safely to normal prompt context."@
            },
            CountdownEvent::CancelFinished(outcome) => a matches CountdownAction::Finish(line)
                && line.level == cancel_notice(outcome).0 && line.text@ == cancel_notice(
                outcome,
            ).1,
        },
{
    match event {
        CountdownEvent::Tick { now } => {
            let f = countdown_frame(timer, now);
            let bar = render_bar(f.percentage, f.remaining);
            if f.expired {
                CountdownAction::Expire { bar }
            } else {
                CountdownAction::Show { bar }
            }
        },
        CountdownEvent::KeyPressed => {
            if is_test_mode {
                CountdownAction::CancelTimer
            } else {
                CountdownAction::Finish(
                    log_line(
                        LogLevel::Info,
                        "Progress bar dismissed. Returning safely to normal prompt context.",
                    ),
                )
            }
        },
        CountdownEvent::CancelFinished(outcome) => {
            let line = match outcome {
                CancelOutcome::Cleared => log_line(
                    LogLevel::Success,
                    "Safety timer cleared! New firewall rules locked in permanently.",
                ),
                CancelOutcome::FailedStillQueued(id) => {
                    let mut t = String::from_str("Failed to cancel safety timer (job ");
                    t.append(id.as_str());
                    t.append(" still queued)! Check 'atq' manually NOW.");
                    LogLine { level: LogLevel::Error, text: t }
                },
                CancelOutcome::NotFound => log_line(
                    LogLevel::Warning,
                    "Progress bar dismissed, but could not locate active 'at' job to cancel.",
                ),
            };
            CountdownAction::Finish(line)
        },
    }
}

} // verus!
