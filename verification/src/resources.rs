use vstd::prelude::*;
use crate::types::{Entity, UiNavDirection};

verus! {

/// Time that has gone by, in microseconds.
#[derive(Debug, Clone, Copy, PartialEq, Eq, Structural)]
pub struct Stopwatch {
    pub elapsed: u64,
}

impl Default for Stopwatch {
    fn default() -> (r: Self)
        ensures
            r == (Stopwatch { elapsed: 0 }),
    {
        Stopwatch { elapsed: 0 }
    }
}

impl Stopwatch {
    /// The time after `delta` more microseconds; it stops at the largest
    /// value that fits.
    pub open spec fn ticked(self, delta: u64) -> Stopwatch {
        Stopwatch {
            elapsed: if self.elapsed + delta > u64::MAX {
                u64::MAX
            } else {
                (self.elapsed + delta) as u64
            },
        }
    }

    /// Lets `delta` microseconds go by.
    pub fn tick(&mut self, delta: u64)
        ensures
            *final(self) == old(self).ticked(delta),
    {
        self.elapsed = if delta > u64::MAX - self.elapsed {
            u64::MAX
        } else {
            self.elapsed + delta
        };
    }

    /// Starts again from zero.
    pub fn reset(&mut self)
        ensures
            *final(self) == (Stopwatch { elapsed: 0 }),
    {
        self.elapsed = 0;
    }
}

/// The state of the navigation from one frame to the next.
#[derive(Debug, Clone, Copy, PartialEq, Eq, Structural)]
pub struct UiNavState {
    /// Whether the navigation is locked.
    pub locked: bool,
    /// The active menu.
    pub menu: Option<Entity>,
    /// The focusable that last held the focus.
    pub last_focusable: Option<Entity>,
    /// The direction that is held down.
    pub direction: Option<UiNavDirection>,
    /// The time since the last move that the held direction gave.
    pub nav_timer: Stopwatch,
    /// The time for which the direction has been held.
    pub hold_timer: Stopwatch,
}

impl Default for UiNavState {
    fn default() -> (r: Self)
        ensures
            r == UiNavState::initial(),
    {
        UiNavState {
            locked: false,
            menu: None,
            last_focusable: None,
            direction: None,
            nav_timer: Stopwatch { elapsed: 0 },
            hold_timer: Stopwatch { elapsed: 0 },
        }
    }
}

impl UiNavState {
    /// The state before anything has happened.
    pub open spec fn initial() -> UiNavState {
        UiNavState {
            locked: false,
            menu: None,
            last_focusable: None,
            direction: None,
            nav_timer: Stopwatch { elapsed: 0 },
            hold_timer: Stopwatch { elapsed: 0 },
        }
    }

    /// The state with no direction held and both timers at zero.
    pub open spec fn direction_cleared(self) -> UiNavState {
        UiNavState {
            direction: None,
            nav_timer: Stopwatch { elapsed: 0 },
            hold_timer: Stopwatch { elapsed: 0 },
            ..self
        }
    }

    /// Forgets the held direction and starts both timers again.
    pub fn clear_direction(&mut self)
        ensures
            *final(self) == old(self).direction_cleared(),
    {
        self.direction = None;
        self.nav_timer.reset();
        self.hold_timer.reset();
    }
}

/// How fast a held direction repeats. All three are in microseconds.
#[derive(Debug, Clone, Copy, PartialEq, Eq, Structural)]
pub struct UiNavSettings {
    /// The time between two moves when the direction has just been pressed:
    /// the slowest pace.
    pub movement_speed_slow: u32,
    /// The time between two moves once the direction has been held for
    /// `movement_acceleration_time`: the fastest pace.
    pub movement_speed_fast: u32,
    /// The time over which the pace goes from slow to fast.
    pub movement_acceleration_time: u32,
}

impl Default for UiNavSettings {
    fn default() -> (r: Self)
        ensures
            r == (UiNavSettings {
                movement_speed_slow: 500_000,
                movement_speed_fast: 100_000,
                movement_acceleration_time: 1_000_000,
            }),
    {
        UiNavSettings {
            movement_speed_slow: 500_000,
            movement_speed_fast: 100_000,
            movement_acceleration_time: 1_000_000,
        }
    }
}

} // verus!
