use vstd::prelude::*;

use crate::automation::{continues, next_step, Step};
use crate::config::Config;
use crate::state::{applied, applied_all, lemma_applied_all_valid, Request, State};

verus! {

/// The single owner of the shared state. Requests from the toggle key and the
/// dashboard go through it. While an automation session runs it keeps the
/// state as the session read it: requests that arrive meanwhile wait, in
/// order, and take effect together when the session ends.
pub struct Hub {
    pub state: State,
    /// The state read when the running session began, if one runs.
    pub session: Option<State>,
    /// Requests that arrived during the running session, oldest first.
    pub pending: Vec<Request>,
}

/// A hub as a mathematical value.
pub struct HubView {
    pub state: State,
    pub session: Option<State>,
    pub pending: Seq<Request>,
}

impl View for Hub {
    type V = HubView;

    open spec fn view(&self) -> HubView {
        HubView { state: self.state, session: self.session, pending: self.pending@ }
    }
}

impl HubView {
    pub open spec fn valid(self) -> bool {
        &&& self.state.valid()
        &&& self.session matches Some(s) ==> s.valid()
        &&& self.session is None ==> self.pending.len() == 0
    }
}

/// The hub after a request: applied at once when no session runs, queued
/// behind the others otherwise.
pub open spec fn requested(h: HubView, r: Request) -> HubView {
    if h.session is Some {
        HubView { state: h.state, session: h.session, pending: h.pending.push(r) }
    } else {
        HubView { state: applied(h.state, r), session: None, pending: h.pending }
    }
}

/// The hub after the automation button went down: a session begins over the
/// current state, unless one already runs.
pub open spec fn pressed(h: HubView) -> HubView {
    if h.session is Some {
        h
    } else {
        HubView { state: h.state, session: Some(h.state), pending: h.pending }
    }
}

/// The hub after a session ends: the waiting requests take effect in order.
pub open spec fn ended(h: HubView) -> HubView {
    HubView { state: applied_all(h.state, h.pending), session: None, pending: Seq::empty() }
}

/// The hub after one poll of the running session with the button in the
/// given state.
pub open spec fn polled(h: HubView, button_down: bool) -> HubView {
    match h.session {
        Some(s) => if continues(s, button_down) {
            h
        } else {
            ended(h)
        },
        None => h,
    }
}

impl Hub {
    /// A hub over the state at start-up: disarmed, with the given range, and no
    /// session running.
    pub fn new(config: Config) -> (r: Hub)
        requires
            config.valid(),
        ensures
            r@.state == (State { enabled: false, config }),
            r@.session is None,
            r@.pending.len() == 0,
            r@.valid(),
    {
        Hub { state: State::new(config), session: None, pending: Vec::new() }
    }

    /// The authoritative state, as the dashboard shows it.
    pub fn snapshot(&self) -> (r: State)
        ensures
            r == self.state,
    {
        self.state
    }

    /// Whether an automation session runs.
    pub fn in_session(&self) -> (r: bool)
        ensures
            r == self.session is Some,
    {
        self.session.is_some()
    }

    /// Takes a request from the toggle key or the dashboard.
    pub fn request(&mut self, r: Request)
        requires
            old(self)@.valid(),
        ensures
            final(self)@ == requested(old(self)@, r),
            final(self)@.valid(),
    {
        if self.session.is_some() {
            self.pending.push(r);
        } else {
            self.state.apply(r);
        }
    }

    /// Notes that the automation button went down.
    pub fn press(&mut self)
        requires
            old(self)@.valid(),
        ensures
            final(self)@ == pressed(old(self)@),
            final(self)@.valid(),
    {
        if self.session.is_none() {
            self.session = Some(self.state);
        }
    }

    /// Applies the waiting requests in order and ends the session.
    fn end_session(&mut self)
        requires
            old(self)@.valid(),
        ensures
            final(self)@ == ended(old(self)@),
            final(self)@.valid(),
    {
        let ghost start = self.state;
        let n = self.pending.len();
        let mut i: usize = 0;
        while i < n
            invariant
                n == self.pending.len(),
                i <= n,
                self.pending@ == old(self).pending@,
                self.session == old(self).session,
                self.state == applied_all(start, self.pending@.take(i as int)),
                self.state.valid(),
            decreases n - i,
        {
            proof {
                assert(self.pending@.take(i + 1).drop_last() =~= self.pending@.take(i as int));
            }
            let r = self.pending[i];
            self.state.apply(r);
            i = i + 1;
        }
        proof {
            assert(self.pending@.take(n as int) =~= self.pending@);
            lemma_applied_all_valid(start, self.pending@);
        }
        self.pending = Vec::new();
        self.session = None;
    }

    /// One poll of the automation loop with the button in the given state.
    /// While the session goes on it names the key to press, drawn from the
    /// range the session read; otherwise the session ends, the waiting
    /// requests take effect, and it says to stop. With no session it stops.
    pub fn poll(&mut self, button_down: bool) -> (r: Step)
        requires
            old(self)@.valid(),
        ensures
            final(self)@ == polled(old(self)@, button_down),
            final(self)@.valid(),
            match old(self).session {
                Some(s) => (r is Press) == continues(s, button_down),
                None => r == Step::Stop,
            },
            r matches Step::Press(d) ==> old(self).session matches Some(s) && s.config.min_key <= d
                <= s.config.max_key,
    {
        match self.session {
            Some(s) => {
                let step = next_step(&s, button_down);
                if let Step::Stop = step {
                    self.end_session();
                }
                step
            },
            None => Step::Stop,
        }
    }
}

/// While an armed session runs, a toggle request has no visible effect while
/// the button stays held; the first poll that sees the button released ends
/// the session, and the flip has taken effect right then, after the requests
/// that were already waiting.
pub proof fn lemma_toggle_waits_for_release(h: HubView)
    requires
        h.valid(),
        h.session matches Some(s) && s.enabled && s.config.ordered(),
    ensures
        requested(h, Request::Toggle).state == h.state,
        polled(requested(h, Request::Toggle), true).state == h.state,
        polled(requested(h, Request::Toggle), false).session is None,
        polled(requested(h, Request::Toggle), false).state == applied(
            applied_all(h.state, h.pending),
            Request::Toggle,
        ),
        h.pending.len() == 0 ==> polled(requested(h, Request::Toggle), false).state.enabled
            == !h.state.enabled,
{
    let h1 = requested(h, Request::Toggle);
    assert(h1.pending.drop_last() =~= h.pending);
    if h.pending.len() == 0 {
        assert(h.pending =~= Seq::<Request>::empty());
    }
}

/// A session over an inverted range presses nothing: its first poll ends it,
/// whatever the button does, and the state only takes the waiting requests.
pub proof fn lemma_inverted_range_ends_session(h: HubView, button_down: bool)
    requires
        h.valid(),
        h.session matches Some(s) && !s.config.ordered(),
    ensures
        polled(h, button_down) == ended(h),
        polled(h, button_down).session is None,
        polled(h, button_down).state.valid(),
{
    lemma_applied_all_valid(h.state, h.pending);
}

} // verus!
