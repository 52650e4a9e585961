//! The run loop's decisions: which keys the engine claims, what a tick does,
//! and the smoothed frame-rate estimate. Reading keys, drawing and waiting
//! are left to the caller, which reports back what happened.
use crate::log::{joined_lines, keep_last, logged, Logger};
use crate::settings::SettingsBlock;
use vstd::prelude::*;

verus! {

/// A key press, as far as the engine tells keys apart.
#[derive(Clone, Copy, PartialEq, Eq, Structural, Debug)]
pub enum Key {
    Char(char),
    Left,
    Right,
    Up,
    Down,
    Other,
}

/// What one tick of the loop does before drawing.
#[derive(Clone, Copy, PartialEq, Eq, Structural, Debug)]
pub struct TickPlan {
    /// Rebuild the simulation from scratch.
    pub reset: bool,
    /// Advance the simulation by one step.
    pub update: bool,
}

/// The frame-rate estimate after a frame of `elapsed_ms` milliseconds: 99%
/// of the previous estimate plus 1% of `1000 / elapsed_ms`, rounded down.
/// A frame measured as zero milliseconds counts as one.
pub open spec fn smoothed_fps(fps: nat, elapsed_ms: nat) -> nat {
    let d: nat = if elapsed_ms == 0 { 1 } else { elapsed_ms };
    ((99 * fps * d + 1000) / (100 * d)) as nat
}

/// The engine's state between ticks.
pub struct Simulation {
    exit: bool,
    reset: bool,
    pause: bool,
    logger: Logger,
    fps: u64,
}

impl Simulation {
    pub closed spec fn exit_requested(&self) -> bool {
        self.exit
    }

    pub closed spec fn reset_requested(&self) -> bool {
        self.reset
    }

    pub closed spec fn paused(&self) -> bool {
        self.pause
    }

    pub closed spec fn frame_rate(&self) -> nat {
        self.fps as nat
    }

    pub closed spec fn log_lines(&self) -> Seq<Seq<char>> {
        self.logger@
    }

    pub closed spec fn wf(&self) -> bool {
        self.logger.wf()
    }

    /// A fresh engine: paused, with no exit or reset pending, an empty log
    /// and an estimate of sixty frames per second.
    pub fn new() -> (r: Simulation)
        ensures
            r.wf(),
            !r.exit_requested(),
            !r.reset_requested(),
            r.paused(),
            r.frame_rate() == 60,
            r.log_lines() == Seq::<Seq<char>>::empty(),
    {
        Simulation { exit: false, reset: false, pause: true, logger: Logger::new(), fps: 60 }
    }

    pub fn should_exit(&self) -> (r: bool)
        ensures
            r == self.exit_requested(),
    {
        self.exit
    }

    pub fn is_paused(&self) -> (r: bool)
        ensures
            r == self.paused(),
    {
        self.pause
    }

    pub fn fps(&self) -> (r: u64)
        ensures
            r == self.frame_rate(),
    {
        self.fps
    }

    /// Starts a tick: a pending reset is taken (and cleared), and the
    /// simulation steps unless paused.
    pub fn begin_tick(&mut self) -> (r: TickPlan)
        requires
            old(self).wf(),
        ensures
            final(self).wf(),
            r.reset == old(self).reset_requested(),
            r.update == !old(self).paused(),
            !final(self).reset_requested(),
            final(self).exit_requested() == old(self).exit_requested(),
            final(self).paused() == old(self).paused(),
            final(self).frame_rate() == old(self).frame_rate(),
            final(self).log_lines() == old(self).log_lines(),
    {
        let plan = TickPlan { reset: self.reset, update: !self.pause };
        self.reset = false;
        plan
    }

    /// Applies a key press. The engine claims `q` (quit), space (pause or
    /// resume), `r` (reset) and the arrows (settings navigation); it returns
    /// `true`, changing nothing, for any other key, which then belongs to the
    /// simulation.
    pub fn handle_key_event(&mut self, key: Key, settings: &mut SettingsBlock) -> (forward: bool)
        requires
            old(self).wf(),
            old(settings).wf(),
        ensures
            final(self).wf(),
            final(settings).wf(),
            final(self).log_lines() == old(self).log_lines(),
            final(self).frame_rate() == old(self).frame_rate(),
            forward == !(key == Key::Char('q') || key == Key::Char(' ') || key == Key::Char('r')
                || key == Key::Left || key == Key::Right || key == Key::Up || key == Key::Down),
            final(self).exit_requested() == (old(self).exit_requested() || key == Key::Char('q')),
            final(self).paused() == if key == Key::Char(' ') {
                !old(self).paused()
            } else {
                old(self).paused()
            },
            final(self).reset_requested() == (old(self).reset_requested() || key == Key::Char('r')),
            final(settings).entries() == if key == Key::Left {
                old(settings).entries_after_left()
            } else if key == Key::Right {
                old(settings).entries_after_right()
            } else {
                old(settings).entries()
            },
            final(settings).selection() == if key == Key::Up {
                old(settings).selection_above()
            } else if key == Key::Down {
                old(settings).selection_below()
            } else {
                old(settings).selection()
            },
    {
        match key {
            Key::Char('q') => {
                self.exit = true;
                false
            },
            Key::Char(' ') => {
                self.pause = !self.pause;
                false
            },
            Key::Char('r') => {
                self.reset = true;
                false
            },
            Key::Left => {
                settings.left();
                false
            },
            Key::Right => {
                settings.right();
                false
            },
            Key::Up => {
                settings.up();
                false
            },
            Key::Down => {
                settings.down();
                false
            },
            _ => true,
        }
    }

    /// Folds the duration of the last frame into the frame-rate estimate.
    pub fn record_frame(&mut self, elapsed_ms: u64)
        requires
            old(self).wf(),
        ensures
            final(self).wf(),
            final(self).frame_rate() == smoothed_fps(old(self).frame_rate(), elapsed_ms as nat),
            final(self).exit_requested() == old(self).exit_requested(),
            final(self).reset_requested() == old(self).reset_requested(),
            final(self).paused() == old(self).paused(),
            final(self).log_lines() == old(self).log_lines(),
    {
        self.fps = next_fps(self.fps, elapsed_ms);
    }

    /// Adds a line to the diagnostic log.
    pub fn log(&mut self, text: &str)
        requires
            old(self).wf(),
        ensures
            final(self).wf(),
            final(self).log_lines() == logged(old(self).log_lines(), text@),
            final(self).exit_requested() == old(self).exit_requested(),
            final(self).reset_requested() == old(self).reset_requested(),
            final(self).paused() == old(self).paused(),
            final(self).frame_rate() == old(self).frame_rate(),
    {
        self.logger.log(text);
    }

    /// The last `n` log lines, each followed by a newline.
    pub fn recent_logs(&self, n: usize) -> (r: String)
        ensures
            r@ == joined_lines(keep_last(self.log_lines(), n as nat)),
    {
        self.logger.get_logs(n)
    }
}

/// The frame-rate estimate after a frame of `elapsed_ms` milliseconds.
pub fn next_fps(fps: u64, elapsed_ms: u64) -> (r: u64)
    ensures
        r == smoothed_fps(fps as nat, elapsed_ms as nat),
{
    let d: u128 = if elapsed_ms == 0 { 1 } else { elapsed_ms as u128 };
    let a: u128 = 99 * (fps as u128);
    let q: u128 = a / 100;
    let m: u128 = a % 100;
    proof {
        assert(m * d <= 99 * d) by (nonlinear_arith)
            requires
                m < 100,
        ;
    }
    let extra: u128 = (m * d + 1000) / (100 * d);
    proof {
        let dd = d as int;
        let x = m as int * dd + 1000;
        vstd::arithmetic::div_mod::lemma_fundamental_div_mod(x, 100 * dd);
        assert(extra <= 11) by (nonlinear_arith)
            requires
                x == (100 * dd) * (extra as int) + x % (100 * dd),
                0 <= x % (100 * dd),
                x <= 99 * dd + 1000,
                dd >= 1,
        ;
        assert(a as int == 100 * (q as int) + m as int);
        assert((m as int * dd + 1000) + (q as int) * (100 * dd) == 99 * (fps as int) * dd + 1000)
            by (nonlinear_arith)
            requires
                a as int == 99 * (fps as int),
                a as int == 100 * (q as int) + m as int,
        ;
        vstd::arithmetic::div_mod::lemma_hoist_over_denominator(
            m as int * dd + 1000,
            q as int,
            (100 * dd) as nat,
        );
    }
    (q + extra) as u64
}

} // verus!
