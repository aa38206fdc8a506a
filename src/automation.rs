use vstd::prelude::*;

use rand::Rng;

use crate::state::State;

verus! {

/// What the automation loop does next.
#[derive(Clone, Copy, Debug, PartialEq, Eq, Structural)]
pub enum Step {
    /// Press the digit key with this value, then wait before the next step.
    Press(u8),
    /// End the session.
    Stop,
}

/// Whether a session over `snapshot` goes on while the button is in the given
/// state. It needs automation armed, the button held, and a range that holds a
/// key: an inverted range ends the session instead of drawing from nothing.
pub open spec fn continues(snapshot: State, button_down: bool) -> bool {
    snapshot.enabled && button_down && snapshot.config.ordered()
}

/// Relies on rand's `thread_rng` and `Rng::gen_range` over `low..=high`: the
/// value lies in that inclusive range, which is not empty here.
#[verifier::external_body]
fn draw_between(low: u8, high: u8) -> (r: u8)
    requires
        low <= high,
    ensures
        low <= r <= high,
{
    rand::thread_rng().gen_range(low..=high)
}

/// One step of an automation session over `snapshot`, the state read when the
/// button went down. While the session goes on it presses a key drawn at
/// random from the range, bounds included; otherwise it stops.
pub fn next_step(snapshot: &State, button_down: bool) -> (r: Step)
    requires
        snapshot.valid(),
    ensures
        (r is Press) == continues(*snapshot, button_down),
        r matches Step::Press(d) ==> snapshot.config.min_key <= d <= snapshot.config.max_key,
{
    if snapshot.enabled && button_down && snapshot.config.is_ordered() {
        Step::Press(draw_between(snapshot.config.min_key, snapshot.config.max_key))
    } else {
        Step::Stop
    }
}

} // verus!
