//! Sequencing of the two output relays of each Driver channel.
//!
//! Relay K0 shorts the output to ground and K1 connects the current source
//! to it. Both are switched through pins of an I2C I/O expander shared by the
//! two channels: K0 through a flip-flop (data and clock pins), K1 through a
//! pair of complementary enable pins. Enabling a channel engages K0, waits for
//! it to settle, then releases K1; disabling engages K1, waits, then releases
//! K0. This module decides the steps; the caller performs them on the
//! expander and reports back when a relay has settled.
use vstd::prelude::*;

verus! {

/// Output channel of the Driver.
#[derive(Clone, Copy, Debug, PartialEq, Eq, Structural)]
pub enum Channel {
    LowNoise,
    HighPower,
}

/// Failure to reach the relays.
#[derive(Clone, Copy, Debug, PartialEq, Eq, Structural)]
pub enum RelayError {
    /// The I2C expander is in use by the other channel.
    Mcp23008InUse,
}

/// A relay-control pin of the I/O expander.
#[allow(non_camel_case_types)]
#[derive(Clone, Copy, Debug, PartialEq, Eq, Structural)]
pub enum RelayPin {
    LN_K1_EN_N,
    LN_K1_EN,
    LN_K0_D,
    LN_K0_CP,
    HP_K1_EN_N,
    HP_K1_EN,
    HP_K0_D,
    HP_K0_CP,
}

/// Expander pin number (0 to 7) of a relay-control pin.
pub open spec fn pin_number(pin: RelayPin) -> usize {
    match pin {
        RelayPin::LN_K1_EN_N => 0,
        RelayPin::LN_K1_EN => 1,
        RelayPin::LN_K0_D => 2,
        RelayPin::LN_K0_CP => 3,
        RelayPin::HP_K1_EN_N => 4,
        RelayPin::HP_K1_EN => 5,
        RelayPin::HP_K0_D => 6,
        RelayPin::HP_K0_CP => 7,
    }
}

impl RelayPin {
    /// The pin's number on the expander.
    pub fn expander_pin(self) -> (r: usize)
        ensures
            r == pin_number(self),
            r < 8,
    {
        match self {
            RelayPin::LN_K1_EN_N => 0,
            RelayPin::LN_K1_EN => 1,
            RelayPin::LN_K0_D => 2,
            RelayPin::LN_K0_CP => 3,
            RelayPin::HP_K1_EN_N => 4,
            RelayPin::HP_K1_EN => 5,
            RelayPin::HP_K0_D => 6,
            RelayPin::HP_K0_CP => 7,
        }
    }
}

/// Logic level of an expander pin.
#[derive(Clone, Copy, Debug, PartialEq, Eq, Structural)]
pub enum Level {
    Low,
    High,
}

/// One step of a relay operation on the expander.
#[derive(Clone, Copy, Debug, PartialEq, Eq, Structural)]
pub enum RelayStep {
    /// Drive the expander pin with this number to the level.
    SetPin(usize, Level),
    /// Busy-wait this many microseconds.
    DelayUs(u32),
}

/// The four pins that control the relays of one channel.
#[derive(Clone, Copy, Debug, PartialEq, Eq, Structural)]
pub struct Relay {
    pub k1_en_n: RelayPin,
    pub k1_en: RelayPin,
    pub k0_d: RelayPin,
    pub k0_cp: RelayPin,
}

/// Settling time of relay K0 in milliseconds.
pub const K0_DELAY_MS: u64 = 10;
/// Settling time of relay K1 in milliseconds.
pub const K1_DELAY_MS: u64 = 10;
/// Width in microseconds of the low phase of the K0 flip-flop clock.
pub const K0_CLOCK_DELAY_US: u32 = 100;

/// The pins of a channel.
pub open spec fn relay_of(ch: Channel) -> Relay {
    match ch {
        Channel::LowNoise => Relay {
            k1_en_n: RelayPin::LN_K1_EN_N,
            k1_en: RelayPin::LN_K1_EN,
            k0_d: RelayPin::LN_K0_D,
            k0_cp: RelayPin::LN_K0_CP,
        },
        Channel::HighPower => Relay {
            k1_en_n: RelayPin::HP_K1_EN_N,
            k1_en: RelayPin::HP_K1_EN,
            k0_d: RelayPin::HP_K0_D,
            k0_cp: RelayPin::HP_K0_CP,
        },
    }
}

/// Steps that clock the K0 flip-flop with its data pin high: data high,
/// clock low, wait, clock high (rising edge).
pub open spec fn k0_clock_steps(r: Relay) -> Seq<RelayStep> {
    seq![
        RelayStep::SetPin(pin_number(r.k0_d), Level::High),
        RelayStep::SetPin(pin_number(r.k0_cp), Level::Low),
        RelayStep::DelayUs(K0_CLOCK_DELAY_US),
        RelayStep::SetPin(pin_number(r.k0_cp), Level::High),
    ]
}

/// Steps that drive the K1 enable pair: `en` to `en_level`, `en_n` to the
/// other level.
pub open spec fn k1_steps(r: Relay, en_level: Level) -> Seq<RelayStep> {
    let other = if en_level == Level::High {
        Level::Low
    } else {
        Level::High
    };
    seq![
        RelayStep::SetPin(pin_number(r.k1_en), en_level),
        RelayStep::SetPin(pin_number(r.k1_en_n), other),
    ]
}

fn k0_clock(r: &Relay) -> (v: Vec<RelayStep>)
    ensures
        v@ == k0_clock_steps(*r),
{
    let mut v = Vec::new();
    v.push(RelayStep::SetPin(r.k0_d.expander_pin(), Level::High));
    v.push(RelayStep::SetPin(r.k0_cp.expander_pin(), Level::Low));
    v.push(RelayStep::DelayUs(K0_CLOCK_DELAY_US));
    v.push(RelayStep::SetPin(r.k0_cp.expander_pin(), Level::High));
    assert(v@ =~= k0_clock_steps(*r));
    v
}

fn k1_drive(r: &Relay, en_level: Level) -> (v: Vec<RelayStep>)
    ensures
        v@ == k1_steps(*r, en_level),
{
    let other = match en_level {
        Level::High => Level::Low,
        Level::Low => Level::High,
    };
    let mut v = Vec::new();
    v.push(RelayStep::SetPin(r.k1_en.expander_pin(), en_level));
    v.push(RelayStep::SetPin(r.k1_en_n.expander_pin(), other));
    assert(v@ =~= k1_steps(*r, en_level));
    v
}

impl Relay {
    /// The relay pins of a channel.
    pub fn new(ch: Channel) -> (r: Relay)
        ensures
            r == relay_of(ch),
    {
        match ch {
            Channel::LowNoise => Relay {
                k1_en_n: RelayPin::LN_K1_EN_N,
                k1_en: RelayPin::LN_K1_EN,
                k0_d: RelayPin::LN_K0_D,
                k0_cp: RelayPin::LN_K0_CP,
            },
            Channel::HighPower => Relay {
                k1_en_n: RelayPin::HP_K1_EN_N,
                k1_en: RelayPin::HP_K1_EN,
                k0_d: RelayPin::HP_K0_D,
                k0_cp: RelayPin::HP_K0_CP,
            },
        }
    }

    /// Steps that set K0 to its upper position.
    pub fn engage_k0(&self) -> (v: Vec<RelayStep>)
        ensures
            v@ == k0_clock_steps(*self),
    {
        k0_clock(self)
    }

    /// Steps that set K0 to its lower position. The flip-flop is clocked with
    /// the same data level as for engaging.
    pub fn disengage_k0(&self) -> (v: Vec<RelayStep>)
        ensures
            v@ == k0_clock_steps(*self),
    {
        k0_clock(self)
    }

    /// Steps that set K1 to its upper position: `en` low, `en_n` high.
    pub fn disengage_k1(&self) -> (v: Vec<RelayStep>)
        ensures
            v@ == k1_steps(*self, Level::Low),
    {
        k1_drive(self, Level::Low)
    }

    /// Steps that set K1 to its lower position: `en` high, `en_n` low.
    pub fn engage_k1(&self) -> (v: Vec<RelayStep>)
        ensures
            v@ == k1_steps(*self, Level::High),
    {
        k1_drive(self, Level::High)
    }
}

/// State of the relay sequence of one channel.
#[derive(Clone, Copy, Debug, PartialEq, Eq, Structural)]
pub enum States {
    Disabled,
    EnableWaitK0,
    EnableWaitK1,
    Enabled,
    DisableWaitK1,
    DisableWaitK0,
}

/// What drives the sequence: a request, or a relay that has settled.
#[derive(Clone, Copy, Debug, PartialEq, Eq, Structural)]
pub enum Events {
    Enable,
    Disable,
    RelayDone,
}

/// The relay operation that a transition asks for.
#[derive(Clone, Copy, Debug, PartialEq, Eq, Structural)]
pub enum RelayAction {
    EngageK0,
    DisengageK0,
    EngageK1,
    DisengageK1,
}

/// An event that the current state does not accept.
#[derive(Clone, Copy, Debug, PartialEq, Eq, Structural)]
pub struct InvalidEvent;

/// The transition table: the next state and the relay operation to perform,
/// or `None` where the state does not accept the event.
pub open spec fn transition(s: States, e: Events) -> Option<(States, Option<RelayAction>)> {
    match (s, e) {
        (States::Disabled, Events::Enable) => Some(
            (States::EnableWaitK0, Some(RelayAction::EngageK0)),
        ),
        (States::EnableWaitK0, Events::RelayDone) => Some(
            (States::EnableWaitK1, Some(RelayAction::DisengageK1)),
        ),
        (States::EnableWaitK1, Events::RelayDone) => Some((States::Enabled, None)),
        (States::Enabled, Events::Disable) => Some(
            (States::DisableWaitK1, Some(RelayAction::EngageK1)),
        ),
        (States::DisableWaitK1, Events::RelayDone) => Some(
            (States::DisableWaitK0, Some(RelayAction::DisengageK0)),
        ),
        (States::DisableWaitK0, Events::RelayDone) => Some((States::Disabled, None)),
        _ => None,
    }
}

/// Whether the sequence waits for a relay to settle in this state.
pub open spec fn is_waiting(s: States) -> bool {
    s == States::EnableWaitK0 || s == States::EnableWaitK1 || s == States::DisableWaitK1
        || s == States::DisableWaitK0
}

/// Settling time, in milliseconds, to wait after entering a state, where the
/// state waits for a relay that was just switched.
pub open spec fn delay_of(s: States) -> Option<u64> {
    match s {
        States::EnableWaitK0 => Some(K0_DELAY_MS),
        States::EnableWaitK1 => Some(K1_DELAY_MS),
        States::DisableWaitK1 => Some(K1_DELAY_MS),
        States::DisableWaitK0 => Some(K0_DELAY_MS),
        _ => None,
    }
}

/// The relay sequence of one channel.
#[derive(Clone, Copy, Debug, PartialEq, Eq, Structural)]
pub struct StateMachine {
    pub state: States,
}

impl StateMachine {
    /// A sequence with the channel disabled.
    pub fn new() -> (r: StateMachine)
        ensures
            r.state == States::Disabled,
    {
        StateMachine { state: States::Disabled }
    }

    /// The current state.
    pub fn state(&self) -> (r: States)
        ensures
            r == self.state,
    {
        self.state
    }

    /// Applies an event: moves to the next state and returns the relay
    /// operation to perform, or leaves the state as it is and returns
    /// `InvalidEvent` where the state does not accept the event.
    pub fn process_event(&mut self, e: Events) -> (r: Result<Option<RelayAction>, InvalidEvent>)
        ensures
            match transition(old(self).state, e) {
                Some((next, action)) => r == Ok::<Option<RelayAction>, InvalidEvent>(action)
                    && final(self).state == next,
                None => r == Err::<Option<RelayAction>, InvalidEvent>(InvalidEvent)
                    && final(self).state == old(self).state,
            },
    {
        let step = match (self.state, e) {
            (States::Disabled, Events::Enable) => Some(
                (States::EnableWaitK0, Some(RelayAction::EngageK0)),
            ),
            (States::EnableWaitK0, Events::RelayDone) => Some(
                (States::EnableWaitK1, Some(RelayAction::DisengageK1)),
            ),
            (States::EnableWaitK1, Events::RelayDone) => Some((States::Enabled, None)),
            (States::Enabled, Events::Disable) => Some(
                (States::DisableWaitK1, Some(RelayAction::EngageK1)),
            ),
            (States::DisableWaitK1, Events::RelayDone) => Some(
                (States::DisableWaitK0, Some(RelayAction::DisengageK0)),
            ),
            (States::DisableWaitK0, Events::RelayDone) => Some((States::Disabled, None)),
            _ => None,
        };
        match step {
            Some((next, action)) => {
                self.state = next;
                Ok(action)
            },
            None => Err(InvalidEvent),
        }
    }

    /// Starts enabling a disabled channel: returns the operation to perform
    /// (engage K0) and the time to wait for K0 to settle.
    pub fn enable(&mut self) -> (r: (RelayAction, u64))
        requires
            old(self).state == States::Disabled,
        ensures
            final(self).state == States::EnableWaitK0,
            r == (RelayAction::EngageK0, K0_DELAY_MS),
    {
        self.state = States::EnableWaitK0;
        (RelayAction::EngageK0, K0_DELAY_MS)
    }

    /// Starts disabling an enabled channel: returns the operation to perform
    /// (engage K1) and the time to wait for K1 to settle.
    pub fn disable(&mut self) -> (r: (RelayAction, u64))
        requires
            old(self).state == States::Enabled,
        ensures
            final(self).state == States::DisableWaitK1,
            r == (RelayAction::EngageK1, K1_DELAY_MS),
    {
        self.state = States::DisableWaitK1;
        (RelayAction::EngageK1, K1_DELAY_MS)
    }

    /// Handles a relay that has settled: moves on in the sequence and
    /// returns the next operation with the time to wait for it, or `None`
    /// when the sequence is complete.
    pub fn handle_relay(&mut self) -> (r: Option<(RelayAction, u64)>)
        requires
            is_waiting(old(self).state),
        ensures
            ({
                let (next, action) = transition(old(self).state, Events::RelayDone)->Some_0;
                &&& final(self).state == next
                &&& match action {
                    Some(a) => r == Some((a, delay_of(next)->Some_0)),
                    None => r is None && delay_of(next) is None,
                }
            }),
    {
        let step = self.process_event(Events::RelayDone);
        match step {
            Ok(Some(a)) => {
                let delay = match self.state {
                    States::EnableWaitK1 => K1_DELAY_MS,
                    _ => K0_DELAY_MS,
                };
                Some((a, delay))
            },
            _ => None,
        }
    }
}

} // verus!
