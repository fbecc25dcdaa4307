use vstd::prelude::*;

verus! {

/// The value written to a peer's client characteristic configuration.
#[derive(Clone, Copy, Debug, PartialEq, Eq, Structural)]
pub enum CccdValue {
    Disabled,
    Notify,
    Indicate,
}

impl CccdValue {
    /// The configuration bits the value stands for.
    pub open spec fn spec_bits(self) -> u16 {
        match self {
            CccdValue::Disabled => 0,
            CccdValue::Notify => 1,
            CccdValue::Indicate => 2,
        }
    }

    /// The configuration bits the value stands for.
    pub fn bits(self) -> (r: u16)
        ensures
            r == self.spec_bits(),
    {
        match self {
            CccdValue::Disabled => 0,
            CccdValue::Notify => 1,
            CccdValue::Indicate => 2,
        }
    }
}

/// Where a characteristic's shared notification toggle stands.
#[derive(Clone, Copy, Debug, PartialEq, Eq, Structural)]
pub enum NotifyPhase {
    /// No subscribers, notifications off.
    Idle,
    /// The enabling configuration write is in flight.
    Enabling,
    /// Notifications are on and delivered to the subscribers.
    Active,
    /// The last subscriber left; the disabling write is in flight.
    Disabling,
}

/// What the caller must do after a transition.
#[derive(Clone, Copy, Debug, PartialEq, Eq, Structural)]
pub enum NotifyAction {
    /// Write this configuration value to the peer.
    WriteCccd(CccdValue),
    /// Wait for the enabling write already in flight.
    Wait,
    /// Wait for the disabling write in flight, then subscribe again.
    Retry,
    /// The subscriber(s) may start receiving values.
    Deliver,
    /// The waiting subscribers fail with the enabling write's error.
    Fail,
    /// Nothing to do.
    Nothing,
}

/// An input of the subscription state machine.
#[derive(Clone, Copy, Debug, PartialEq, Eq, Structural)]
pub enum NotifyEvent {
    /// A new subscriber asks for values; the payload is the enabling value.
    Subscribe(CccdValue),
    /// The enabling write completed, successfully or not.
    EnableDone(bool),
    /// A subscriber disposed of its sequence.
    Release,
    /// The disabling write completed (its outcome is only reported).
    DisableDone,
}

/// The per-characteristic subscription state: one notification toggle,
/// shared by all subscribers.
#[derive(Clone, Copy, Debug, PartialEq, Eq, Structural)]
pub struct Subscription {
    pub phase: NotifyPhase,
    pub subscribers: u64,
}

/// Whether `e` may be applied in state `s`.
pub open spec fn allowed(s: Subscription, e: NotifyEvent) -> bool {
    match e {
        NotifyEvent::Subscribe(v) => v != CccdValue::Disabled && s.subscribers < u64::MAX,
        NotifyEvent::EnableDone(_) => s.phase == NotifyPhase::Enabling,
        NotifyEvent::Release => s.phase == NotifyPhase::Active,
        NotifyEvent::DisableDone => s.phase == NotifyPhase::Disabling,
    }
}

/// One transition: the next state and the action it asks for.
pub open spec fn step(s: Subscription, e: NotifyEvent) -> (Subscription, NotifyAction) {
    match e {
        NotifyEvent::Subscribe(v) => match s.phase {
            NotifyPhase::Idle => (
                Subscription { phase: NotifyPhase::Enabling, subscribers: 1 },
                NotifyAction::WriteCccd(v),
            ),
            NotifyPhase::Enabling => (
                Subscription { phase: s.phase, subscribers: (s.subscribers + 1) as u64 },
                NotifyAction::Wait,
            ),
            NotifyPhase::Active => (
                Subscription { phase: s.phase, subscribers: (s.subscribers + 1) as u64 },
                NotifyAction::Deliver,
            ),
            NotifyPhase::Disabling => (s, NotifyAction::Retry),
        },
        NotifyEvent::EnableDone(ok) => if ok {
            (Subscription { phase: NotifyPhase::Active, subscribers: s.subscribers }, NotifyAction::Deliver)
        } else {
            (Subscription { phase: NotifyPhase::Idle, subscribers: 0 }, NotifyAction::Fail)
        },
        NotifyEvent::Release => if s.subscribers <= 1 {
            (
                Subscription { phase: NotifyPhase::Disabling, subscribers: 0 },
                NotifyAction::WriteCccd(CccdValue::Disabled),
            )
        } else {
            (
                Subscription { phase: s.phase, subscribers: (s.subscribers - 1) as u64 },
                NotifyAction::Nothing,
            )
        },
        NotifyEvent::DisableDone => (
            Subscription { phase: NotifyPhase::Idle, subscribers: 0 },
            NotifyAction::Nothing,
        ),
    }
}

/// Applies the events in order; the final state and the actions asked for.
pub open spec fn run(s: Subscription, evs: Seq<NotifyEvent>) -> (Subscription, Seq<NotifyAction>)
    decreases evs.len(),
{
    if evs.len() == 0 {
        (s, Seq::empty())
    } else {
        let (s1, a) = step(s, evs[0]);
        let (s2, rest) = run(s1, evs.drop_first());
        (s2, seq![a] + rest)
    }
}

/// Whether every event of `evs` is allowed when it comes.
pub open spec fn run_allowed(s: Subscription, evs: Seq<NotifyEvent>) -> bool
    decreases evs.len(),
{
    evs.len() == 0 || (allowed(s, evs[0]) && run_allowed(step(s, evs[0]).0, evs.drop_first()))
}

/// How many configuration writes that turn notifications on the actions hold.
pub open spec fn enable_writes(acts: Seq<NotifyAction>) -> nat
    decreases acts.len(),
{
    if acts.len() == 0 {
        0
    } else {
        let here: nat = match acts[0] {
            NotifyAction::WriteCccd(v) => if v != CccdValue::Disabled { 1 } else { 0 },
            _ => 0,
        };
        here + enable_writes(acts.drop_first())
    }
}

/// How many configuration writes that turn notifications off the actions hold.
pub open spec fn disable_writes(acts: Seq<NotifyAction>) -> nat
    decreases acts.len(),
{
    if acts.len() == 0 {
        0
    } else {
        let here: nat = if acts[0] == NotifyAction::WriteCccd(CccdValue::Disabled) { 1 } else { 0 };
        here + disable_writes(acts.drop_first())
    }
}

impl Subscription {
    /// The state holds one toggle: subscribers exist exactly while it is on or
    /// being turned on.
    pub open spec fn wf(self) -> bool {
        match self.phase {
            NotifyPhase::Idle => self.subscribers == 0,
            NotifyPhase::Disabling => self.subscribers == 0,
            NotifyPhase::Enabling => self.subscribers > 0,
            NotifyPhase::Active => self.subscribers > 0,
        }
    }

    /// No subscribers, notifications off.
    pub fn new() -> (r: Subscription)
        ensures
            r.phase == NotifyPhase::Idle,
            r.subscribers == 0,
            r.wf(),
    {
        Subscription { phase: NotifyPhase::Idle, subscribers: 0 }
    }

    /// A subscriber asks for values, to be enabled with `value`.
    pub fn subscribe(&mut self, value: CccdValue) -> (r: NotifyAction)
        requires
            allowed(*old(self), NotifyEvent::Subscribe(value)),
        ensures
            (*final(self), r) == step(*old(self), NotifyEvent::Subscribe(value)),
            old(self).wf() ==> final(self).wf(),
    {
        match self.phase {
            NotifyPhase::Idle => {
                self.phase = NotifyPhase::Enabling;
                self.subscribers = 1;
                NotifyAction::WriteCccd(value)
            },
            NotifyPhase::Enabling => {
                self.subscribers = self.subscribers + 1;
                NotifyAction::Wait
            },
            NotifyPhase::Active => {
                self.subscribers = self.subscribers + 1;
                NotifyAction::Deliver
            },
            NotifyPhase::Disabling => NotifyAction::Retry,
        }
    }

    /// The enabling write completed; `ok` tells whether it succeeded.
    pub fn enable_finished(&mut self, ok: bool) -> (r: NotifyAction)
        requires
            allowed(*old(self), NotifyEvent::EnableDone(ok)),
        ensures
            (*final(self), r) == step(*old(self), NotifyEvent::EnableDone(ok)),
            old(self).wf() ==> final(self).wf(),
    {
        if ok {
            self.phase = NotifyPhase::Active;
            NotifyAction::Deliver
        } else {
            self.phase = NotifyPhase::Idle;
            self.subscribers = 0;
            NotifyAction::Fail
        }
    }

    /// A subscriber disposed of its sequence.
    pub fn release(&mut self) -> (r: NotifyAction)
        requires
            allowed(*old(self), NotifyEvent::Release),
        ensures
            (*final(self), r) == step(*old(self), NotifyEvent::Release),
            old(self).wf() ==> final(self).wf(),
    {
        if self.subscribers <= 1 {
            self.phase = NotifyPhase::Disabling;
            self.subscribers = 0;
            NotifyAction::WriteCccd(CccdValue::Disabled)
        } else {
            self.subscribers = self.subscribers - 1;
            NotifyAction::Nothing
        }
    }

    /// The disabling write completed. Its failure is only reported: the state
    /// returns to idle either way.
    pub fn disable_finished(&mut self) -> (r: NotifyAction)
        requires
            allowed(*old(self), NotifyEvent::DisableDone),
        ensures
            (*final(self), r) == step(*old(self), NotifyEvent::DisableDone),
            old(self).wf() ==> final(self).wf(),
    {
        self.phase = NotifyPhase::Idle;
        self.subscribers = 0;
        NotifyAction::Nothing
    }
}

/// Every allowed transition keeps the state well formed, and the toggle is
/// written off exactly when the last subscriber leaves.
pub proof fn lemma_step_keeps_wf(s: Subscription, e: NotifyEvent)
    requires
        s.wf(),
        allowed(s, e),
    ensures
        step(s, e).0.wf(),
        e == NotifyEvent::Release ==> (step(s, e).1 == NotifyAction::WriteCccd(CccdValue::Disabled)
            <==> s.subscribers == 1),
{
}

/// Subscribing and then disposing of the sequence at once writes the
/// configuration on exactly once and off exactly once, and ends idle, whether
/// or not a value was delivered in between.
pub proof fn lemma_subscribe_then_dispose(v: CccdValue)
    requires
        v != CccdValue::Disabled,
    ensures
        ({
            let evs = seq![
                NotifyEvent::Subscribe(v),
                NotifyEvent::EnableDone(true),
                NotifyEvent::Release,
                NotifyEvent::DisableDone,
            ];
            let (s, acts) = run(Subscription { phase: NotifyPhase::Idle, subscribers: 0 }, evs);
            &&& run_allowed(Subscription { phase: NotifyPhase::Idle, subscribers: 0 }, evs)
            &&& enable_writes(acts) == 1
            &&& disable_writes(acts) == 1
            &&& s.phase == NotifyPhase::Idle
        }),
{
    reveal_with_fuel(run, 5);
    reveal_with_fuel(run_allowed, 5);
    reveal_with_fuel(enable_writes, 5);
    reveal_with_fuel(disable_writes, 5);
}


/// Two subscribers share one enabling write, whether the second arrives while
/// it is in flight or after it completed; disposing of one of them writes
/// nothing, and disposing of both writes the configuration off exactly once.
pub proof fn lemma_two_subscribers(v: CccdValue, second_waits: bool)
    requires
        v != CccdValue::Disabled,
    ensures
        ({
            let idle = Subscription { phase: NotifyPhase::Idle, subscribers: 0 };
            let joined = if second_waits {
                seq![NotifyEvent::Subscribe(v), NotifyEvent::Subscribe(v), NotifyEvent::EnableDone(true)]
            } else {
                seq![NotifyEvent::Subscribe(v), NotifyEvent::EnableDone(true), NotifyEvent::Subscribe(v)]
            };
            let one_left = joined.push(NotifyEvent::Release);
            let all_left = one_left.push(NotifyEvent::Release).push(NotifyEvent::DisableDone);
            &&& run_allowed(idle, all_left)
            &&& enable_writes(run(idle, joined).1) == 1
            &&& disable_writes(run(idle, one_left).1) == 0
            &&& run(idle, one_left).0.phase == NotifyPhase::Active
            &&& enable_writes(run(idle, all_left).1) == 1
            &&& disable_writes(run(idle, all_left).1) == 1
            &&& run(idle, all_left).0.phase == NotifyPhase::Idle
        }),
{
    reveal_with_fuel(run, 7);
    reveal_with_fuel(run_allowed, 7);
    reveal_with_fuel(enable_writes, 7);
    reveal_with_fuel(disable_writes, 7);
}

} // verus!
