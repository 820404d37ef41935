//! A countdown timer that decays at a fixed real-time rate, independently of
//! how fast instructions run.
//!
//! Time is counted in nanoseconds. A timer of rate `h` decrements once every
//! `1 / h` seconds; to keep that exact, the accumulator holds elapsed
//! nanoseconds multiplied by the rate, and one decrement is due for every
//! `NANOS_PER_SECOND` units of it.
use vstd::prelude::*;

verus! {

/// Nanoseconds in one second.
pub const NANOS_PER_SECOND: u64 = 1_000_000_000;

/// The abstract state of a timer.
pub struct TimerView {
    /// The current count.
    pub count: u8,
    /// Whether the timer is counting down.
    pub active: bool,
    /// Elapsed nanoseconds times `rate` not yet spent on a decrement.
    pub acc: nat,
    /// Decrements per second.
    pub rate: u8,
}

/// The timer after `set(value)`: the count is replaced, and the timer runs
/// exactly when the new count is non-zero.
pub open spec fn set_spec(t: TimerView, value: u8) -> TimerView {
    TimerView {
        count: value,
        active: value != 0,
        acc: if value != 0 { t.acc } else { 0 },
        rate: t.rate,
    }
}

/// The timer after `elapsed` nanoseconds: an inactive timer stays as it is;
/// an active one drops by one for each whole period in the accumulated time,
/// keeping the remainder, and stops at zero, where the time beyond the last
/// period is discarded.
pub open spec fn tick_spec(t: TimerView, elapsed: u64) -> TimerView {
    if !t.active {
        t
    } else {
        let total: nat = t.acc + (elapsed as nat) * (t.rate as nat);
        let periods: nat = total / (NANOS_PER_SECOND as nat);
        if periods < t.count {
            TimerView {
                count: (t.count - periods) as u8,
                active: true,
                acc: (total % (NANOS_PER_SECOND as nat)) as nat,
                rate: t.rate,
            }
        } else {
            TimerView { count: 0, active: false, acc: 0, rate: t.rate }
        }
    }
}

/// A countdown timer.
pub struct Timer {
    number: u8,
    flag: bool,
    acc: u64,
    rate: u8,
}

impl View for Timer {
    type V = TimerView;

    closed spec fn view(&self) -> TimerView {
        TimerView { count: self.number, active: self.flag, acc: self.acc as nat, rate: self.rate }
    }
}

impl Timer {
    #[verifier::type_invariant]
    spec fn inv(self) -> bool {
        &&& self.acc < NANOS_PER_SECOND
        &&& self.flag <==> self.number > 0
        &&& !self.flag ==> self.acc == 0
    }

    /// An idle timer at zero that, once set, decrements `hertz` times per second.
    pub fn new(hertz: u8) -> (r: Timer)
        ensures
            r@ == (TimerView { count: 0, active: false, acc: 0, rate: hertz }),
    {
        Timer { number: 0, flag: false, acc: 0, rate: hertz }
    }

    /// Starts a new countdown from `number`; a zero leaves the timer idle.
    pub fn set(&mut self, number: u8)
        ensures
            final(self)@ == set_spec(old(self)@, number),
    {
        proof {
            use_type_invariant(&*self);
        }
        let acc = if number == 0 { 0 } else { self.acc };
        *self = Timer { number, flag: number != 0, acc, rate: self.rate };
    }

    /// The current count.
    pub fn get(&self) -> (r: u8)
        ensures
            r == self@.count,
    {
        self.number
    }

    /// Whether the timer is counting down.
    pub fn is_active(&self) -> (r: bool)
        ensures
            r == self@.active,
            r <==> self@.count > 0,
    {
        proof {
            use_type_invariant(self);
        }
        self.flag
    }

    /// Lets `elapsed_nanos` nanoseconds of real time pass.
    pub fn check(&mut self, elapsed_nanos: u64)
        ensures
            final(self)@ == tick_spec(old(self)@, elapsed_nanos),
    {
        proof {
            use_type_invariant(&*self);
        }
        if !self.flag {
            return;
        }
        let elapsed = elapsed_nanos as u128;
        let rate = self.rate as u128;
        assert(elapsed * rate <= 0xFFFF_FFFF_FFFF_FFFFu128 * 0xFFu128) by (nonlinear_arith)
            requires
                elapsed <= 0xFFFF_FFFF_FFFF_FFFFu128,
                rate <= 0xFFu128,
        ;
        let total: u128 = self.acc as u128 + elapsed * rate;
        let periods: u128 = total / NANOS_PER_SECOND as u128;
        if periods < self.number as u128 {
            let rest = (total % NANOS_PER_SECOND as u128) as u64;
            *self = Timer { number: self.number - periods as u8, flag: true, acc: rest, rate: self.rate };
        } else {
            *self = Timer { number: 0, flag: false, acc: 0, rate: self.rate };
        }
    }
}

} // verus!
