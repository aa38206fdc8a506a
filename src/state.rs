use vstd::prelude::*;

use crate::config::Config;

verus! {

/// The shared state: whether automation is armed, and the range it draws from.
#[derive(Clone, Copy, Debug, PartialEq, Eq, Structural)]
pub struct State {
    pub enabled: bool,
    pub config: Config,
}

/// A change to the shared state, as the toggle key or the menu asks for it.
#[derive(Clone, Copy, Debug, PartialEq, Eq, Structural)]
pub enum Request {
    /// Flip whether automation is armed.
    Toggle,
    /// Lower the smallest key by one, wrapping from 0 to 9.
    MinDown,
    /// Raise the smallest key by one, wrapping from 9 to 0.
    MinUp,
    /// Lower the largest key by one, wrapping from 0 to 9.
    MaxDown,
    /// Raise the largest key by one, wrapping from 9 to 0.
    MaxUp,
}

/// The digit reached from `d` by a step of `delta`, wrapping modulo ten.
pub open spec fn wrapped(d: u8, delta: int) -> u8 {
    ((d as int + delta) % 10) as u8
}

/// The state after one request.
pub open spec fn applied(s: State, r: Request) -> State {
    match r {
        Request::Toggle => State { enabled: !s.enabled, config: s.config },
        Request::MinDown => State {
            enabled: s.enabled,
            config: Config { min_key: wrapped(s.config.min_key, -1), max_key: s.config.max_key },
        },
        Request::MinUp => State {
            enabled: s.enabled,
            config: Config { min_key: wrapped(s.config.min_key, 1), max_key: s.config.max_key },
        },
        Request::MaxDown => State {
            enabled: s.enabled,
            config: Config { min_key: s.config.min_key, max_key: wrapped(s.config.max_key, -1) },
        },
        Request::MaxUp => State {
            enabled: s.enabled,
            config: Config { min_key: s.config.min_key, max_key: wrapped(s.config.max_key, 1) },
        },
    }
}

/// The state after a sequence of requests, applied first to last.
pub open spec fn applied_all(s: State, rs: Seq<Request>) -> State
    decreases rs.len(),
{
    if rs.len() == 0 {
        s
    } else {
        applied(applied_all(s, rs.drop_last()), rs.last())
    }
}

impl State {
    pub open spec fn valid(self) -> bool {
        self.config.valid()
    }

    /// The state at start-up: disarmed, with the given range.
    pub fn new(config: Config) -> (r: State)
        ensures
            r.enabled == false,
            r.config == config,
    {
        State { enabled: false, config }
    }

    /// Applies one request. Key bounds wrap through 0 to 9 on their own: no
    /// edit keeps the smallest key at or below the largest.
    pub fn apply(&mut self, r: Request)
        requires
            old(self).valid(),
        ensures
            *final(self) == applied(*old(self), r),
            final(self).valid(),
    {
        match r {
            Request::Toggle => {
                self.enabled = !self.enabled;
            },
            Request::MinDown => {
                self.config.min_key = (self.config.min_key + 9) % 10;
            },
            Request::MinUp => {
                self.config.min_key = (self.config.min_key + 1) % 10;
            },
            Request::MaxDown => {
                self.config.max_key = (self.config.max_key + 9) % 10;
            },
            Request::MaxUp => {
                self.config.max_key = (self.config.max_key + 1) % 10;
            },
        }
    }
}

/// A sequence of requests keeps both bounds on the digit keys.
pub proof fn lemma_applied_all_valid(s: State, rs: Seq<Request>)
    requires
        s.valid(),
    ensures
        applied_all(s, rs).valid(),
    decreases rs.len(),
{
    if rs.len() > 0 {
        lemma_applied_all_valid(s, rs.drop_last());
    }
}

/// Raising the smallest key from 9 gives 0, and lowering it from 0 gives 9:
/// the bound wraps and is not clamped.
pub proof fn lemma_min_key_wraps(s: State)
    ensures
        s.config.min_key == 9 ==> applied(s, Request::MinUp).config.min_key == 0,
        s.config.min_key == 0 ==> applied(s, Request::MinDown).config.min_key == 9,
{
}

} // verus!
