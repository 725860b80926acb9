//! Opening a pseudo-terminal with a bounded number of attempts and a growing
//! pause between them.
//!
//! The factory decides; it opens nothing itself. The caller asks for the next
//! step, waits and tries as told, and reports a failure back. After as many
//! failures as attempts are allowed, the next step is to give up.

use crate::diagnosis::{exhaustion_suggestion_for, exhaustion_suggestion_text};
use crate::error::PtyError;
use vstd::prelude::*;

verus! {

/// Rows of a new terminal.
pub const DEFAULT_ROWS: u16 = 24;

/// Columns of a new terminal.
pub const DEFAULT_COLS: u16 = 80;

/// Milliseconds to wait before the second attempt.
pub const BACKOFF_BASE_MS: u64 = 100;

/// The dimensions of a terminal, in character cells and in pixels.
#[derive(Clone, Copy, Debug, PartialEq, Eq, Structural)]
pub struct TerminalSize {
    pub rows: u16,
    pub cols: u16,
    pub pixel_width: u16,
    pub pixel_height: u16,
}

impl TerminalSize {
    /// A size given in character cells; the pixel dimensions are left open.
    pub open spec fn of_cells(rows: u16, cols: u16) -> TerminalSize {
        TerminalSize { rows, cols, pixel_width: 0, pixel_height: 0 }
    }

    /// A size given in character cells; the pixel dimensions are left open.
    pub fn new(rows: u16, cols: u16) -> (size: TerminalSize)
        ensures
            size == Self::of_cells(rows, cols),
    {
        TerminalSize { rows, cols, pixel_width: 0, pixel_height: 0 }
    }

    /// The size of a new terminal: 24 rows of 80 columns.
    pub fn initial() -> (size: TerminalSize)
        ensures
            size == Self::of_cells(DEFAULT_ROWS, DEFAULT_COLS),
    {
        Self::new(DEFAULT_ROWS, DEFAULT_COLS)
    }
}

/// Two to the power of `k`.
pub open spec fn pow2(k: nat) -> nat
    decreases k,
{
    if k == 0 {
        1
    } else {
        2 * pow2((k - 1) as nat)
    }
}

/// The pause in milliseconds before the attempt that follows `failures`
/// failed ones: none before the first attempt, then 100, 200, 400 and so on.
pub open spec fn backoff_ms(failures: nat) -> nat {
    if failures == 0 {
        0
    } else {
        BACKOFF_BASE_MS as nat * pow2((failures - 1) as nat)
    }
}

/// A number of milliseconds as far as 64 bits hold it.
pub open spec fn clamp_ms(ms: nat) -> u64 {
    if ms > u64::MAX {
        u64::MAX
    } else {
        ms as u64
    }
}

/// Powers of two grow with the exponent.
pub proof fn lemma_pow2_monotonic(i: nat, j: nat)
    requires
        i <= j,
    ensures
        1 <= pow2(i) <= pow2(j),
    decreases j,
{
    if j == 0 {
    } else if i == j {
        lemma_pow2_monotonic((i - 1) as nat, (j - 1) as nat);
    } else {
        lemma_pow2_monotonic(i, (j - 1) as nat);
    }
}

/// The pause never shrinks from one attempt to a later one, neither as a
/// number nor as the 64-bit value that is handed out.
pub proof fn law_pauses_never_shrink(earlier: nat, later: nat)
    requires
        earlier <= later,
    ensures
        backoff_ms(earlier) <= backoff_ms(later),
        clamp_ms(backoff_ms(earlier)) <= clamp_ms(backoff_ms(later)),
{
    if earlier > 0 {
        lemma_pow2_monotonic((earlier - 1) as nat, (later - 1) as nat);
        assert(100 * pow2((earlier - 1) as nat) <= 100 * pow2((later - 1) as nat))
            by (nonlinear_arith)
            requires
                pow2((earlier - 1) as nat) <= pow2((later - 1) as nat),
        ;
    }
}

/// From the second attempt on, each pause is twice the one before.
pub proof fn lemma_backoff_doubles(failures: nat)
    requires
        failures >= 1,
    ensures
        backoff_ms(failures + 1) == 2 * backoff_ms(failures),
        backoff_ms(1) == 100,
{
    reveal_with_fuel(pow2, 2);
    assert(100 * (2 * pow2((failures - 1) as nat)) == 2 * (100 * pow2((failures - 1) as nat)))
        by (nonlinear_arith);
}

/// The pause in milliseconds before the attempt that follows `failures`
/// failed ones; `u64::MAX` where the number does not fit.
pub fn backoff_delay_ms(failures: u32) -> (delay: u64)
    ensures
        delay == clamp_ms(backoff_ms(failures as nat)),
{
    if failures == 0 {
        return 0;
    }
    let mut delay: u64 = BACKOFF_BASE_MS;
    let mut done: u32 = 1;
    assert(pow2(0) == 1);
    while done < failures && delay != u64::MAX
        invariant
            1 <= done <= failures,
            delay == clamp_ms(backoff_ms(done as nat)),
        decreases failures - done,
    {
        proof {
            lemma_backoff_doubles(done as nat);
        }
        if delay > u64::MAX / 2 {
            delay = u64::MAX;
        } else {
            delay = delay * 2;
        }
        done += 1;
    }
    proof {
        law_pauses_never_shrink(done as nat, failures as nat);
    }
    delay
}

/// How far the attempts to open one terminal have come.
pub struct PtyFactory {
    retry_attempts: u32,
    failures: u32,
    last_error: String,
}

/// The factory as a value: the attempts allowed, the failures so far, and
/// what the system said at the last failure.
pub struct Progress {
    pub allowed: u32,
    pub failures: u32,
    pub last_error: Seq<char>,
}

/// What the caller is to do next.
#[derive(Debug, Clone, PartialEq, Eq)]
pub enum FactoryStep {
    /// Wait for `delay_ms` milliseconds, then try to open a terminal of
    /// `size`.
    Open { delay_ms: u64, size: TerminalSize },
    /// Try no more: as many attempts failed as were allowed.
    GiveUp { error: PtyError },
}

/// The progress before any attempt.
pub open spec fn started(allowed: u32) -> Progress {
    Progress { allowed, failures: 0, last_error: Seq::empty() }
}

/// The progress after one more failed attempt, about which the system said
/// `message`. Failures beyond the allowed attempts are not counted.
pub open spec fn failed(p: Progress, message: Seq<char>) -> Progress {
    Progress {
        allowed: p.allowed,
        failures: if p.failures < p.allowed {
            (p.failures + 1) as u32
        } else {
            p.failures
        },
        last_error: message,
    }
}

/// The progress after a run of failed attempts, given by their messages.
pub open spec fn after_failures(p: Progress, messages: Seq<Seq<char>>) -> Progress
    decreases messages.len(),
{
    if messages.len() == 0 {
        p
    } else {
        failed(after_failures(p, messages.drop_last()), messages.last())
    }
}

/// No attempt is left.
pub open spec fn exhausted(p: Progress) -> bool {
    p.failures >= p.allowed
}

/// A factory surfaces exhaustion exactly when as many attempts have failed
/// as were allowed: not before, and from then on always.
pub proof fn law_gives_up_after_all_attempts(allowed: u32, messages: Seq<Seq<char>>)
    ensures
        exhausted(after_failures(started(allowed), messages)) <==> messages.len() >= allowed,
        after_failures(started(allowed), messages).allowed == allowed,
        after_failures(started(allowed), messages).failures == if messages.len() < allowed {
            messages.len()
        } else {
            allowed as nat
        },
    decreases messages.len(),
{
    if messages.len() > 0 {
        law_gives_up_after_all_attempts(allowed, messages.drop_last());
    }
}

impl View for PtyFactory {
    type V = Progress;

    closed spec fn view(&self) -> Progress {
        Progress {
            allowed: self.retry_attempts,
            failures: self.failures,
            last_error: self.last_error@,
        }
    }
}

impl PtyFactory {
    /// A factory that allows `retry_attempts` attempts, none of them made yet.
    pub fn new(retry_attempts: u32) -> (f: Self)
        ensures
            f@ == started(retry_attempts),
    {
        PtyFactory { retry_attempts, failures: 0, last_error: String::new() }
    }

    /// The number of attempts that have failed so far.
    pub fn failures(&self) -> (n: u32)
        ensures
            n == self@.failures,
    {
        self.failures
    }

    /// The next step. While attempts are left, it is to open a terminal of
    /// `size` after the pause that belongs to the number of failures so far.
    /// Once none is left, it is to give up, with the last message of the
    /// system and a suggestion: to raise the limit on terminals if the
    /// message says that they have run out, and the general advice otherwise.
    pub fn next_step(&self, size: TerminalSize) -> (step: FactoryStep)
        ensures
            match step {
                FactoryStep::Open { delay_ms, size: asked } => {
                    &&& !exhausted(self@)
                    &&& delay_ms == clamp_ms(backoff_ms(self@.failures as nat))
                    &&& asked == size
                },
                FactoryStep::GiveUp { error } => {
                    &&& exhausted(self@)
                    &&& error matches PtyError::ResourceExhausted { attempts, last_error, suggestion }
                    &&& attempts == self@.allowed
                    &&& last_error@ == self@.last_error
                    &&& suggestion@ == exhaustion_suggestion_text(self@.last_error)
                },
            },
    {
        if self.failures < self.retry_attempts {
            FactoryStep::Open { delay_ms: backoff_delay_ms(self.failures), size }
        } else {
            FactoryStep::GiveUp {
                error: PtyError::ResourceExhausted {
                    attempts: self.retry_attempts,
                    last_error: self.last_error.clone(),
                    suggestion: exhaustion_suggestion_for(self.last_error.as_str()),
                },
            }
        }
    }

    /// Notes that the attempt just made failed, and what the system said.
    pub fn record_failure(&mut self, message: String)
        ensures
            final(self)@ == failed(old(self)@, message@),
    {
        if self.failures < self.retry_attempts {
            self.failures = self.failures + 1;
        }
        self.last_error = message;
    }
}

} // verus!

