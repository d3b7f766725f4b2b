use vstd::prelude::*;

verus! {

/// How often the event loop gets a tick when no key is pressed.
pub struct EventConfig {
    /// The time between ticks, in milliseconds.
    pub tick_rate_ms: u64,
}

impl Default for EventConfig {
    fn default() -> (r: EventConfig)
        ensures
            r.tick_rate_ms == 200,
    {
        EventConfig { tick_rate_ms: 200 }
    }
}

/// What the event loop receives: a key, or a tick of the clock.
pub enum Event<I> {
    Input(I),
    Tick,
}

} // verus!
