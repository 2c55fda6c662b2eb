//! When the compass sensor runs, how fast, and which headings it passes on.
//!
//! The sensor is powered only while the UI asks for it, and at the rate it asks
//! for. The rotation vector is fused from the accelerometer, gyroscope and
//! magnetometer, so leaving it enabled keeps all three awake.

use vstd::prelude::*;

verus! {

/// A call to the sensor's event queue.
#[derive(Clone, Copy, PartialEq, Eq, Debug, Structural)]
pub enum SensorCall {
    Enable,
    /// Deliver at this interval, in microseconds.
    SetRate(i32),
    Disable,
}

/// The sensor as the compass thread drives it.
pub struct Sensor {
    /// The sensor is powered. It starts off.
    pub enabled: bool,
    /// The rate last handed to the queue, so a change is applied once rather
    /// than re-sent every poll.
    pub applied_us: i32,
    /// The shortest interval the hardware delivers.
    pub min_delay: i32,
    /// The heading last passed on, as a single-precision bit pattern.
    pub last_sent: Option<u32>,
}

/// The larger of two intervals.
pub open spec fn longer(a: i32, b: i32) -> i32 {
    if a >= b {
        a
    } else {
        b
    }
}

/// The calls that make the sensor follow a request, and the sensor after them.
pub open spec fn followed(s: Sensor, want: bool, interval: i32) -> (Sensor, Seq<SensorCall>) {
    let want_us = longer(interval, s.min_delay);
    if want && !s.enabled {
        (
            Sensor { enabled: true, applied_us: want_us, ..s },
            seq![SensorCall::Enable, SensorCall::SetRate(want_us)],
        )
    } else if !want && s.enabled {
        (Sensor { enabled: false, last_sent: None, ..s }, seq![SensorCall::Disable])
    } else if s.enabled && want_us != s.applied_us {
        (Sensor { applied_us: want_us, ..s }, seq![SensorCall::SetRate(want_us)])
    } else {
        (s, seq![])
    }
}

impl Sensor {
    /// A sensor that is off. Asking for a shorter interval than the hardware
    /// delivers is an error, so every requested rate is floored at the sensor's
    /// own minimum, and that at one microsecond.
    pub fn new(reported_min_delay: i32) -> (r: Self)
        ensures
            r == (Sensor {
                enabled: false,
                applied_us: 0,
                min_delay: longer(reported_min_delay, 1),
                last_sent: None,
            }),
    {
        let min_delay: i32 = if reported_min_delay >= 1 {
            reported_min_delay
        } else {
            1
        };
        Sensor { enabled: false, applied_us: 0, min_delay, last_sent: None }
    }

    /// Follow the UI's request. Enabling costs a fresh rate (the rate is per
    /// enable), disabling drops the last heading so a stale one is not re-sent
    /// when the sensor comes back. Rate changes take effect on a running
    /// sensor, so switching rates does not interrupt the readings.
    pub fn follow(&mut self, want: bool, interval: i32) -> (r: Vec<SensorCall>)
        ensures
            (*final(self), r@) == followed(*old(self), want, interval),
    {
        let want_us: i32 = if interval >= self.min_delay {
            interval
        } else {
            self.min_delay
        };
        let mut r: Vec<SensorCall> = Vec::new();
        if want != self.enabled {
            if want {
                r.push(SensorCall::Enable);
                r.push(SensorCall::SetRate(want_us));
                self.applied_us = want_us;
            } else {
                r.push(SensorCall::Disable);
                self.last_sent = None;
            }
            self.enabled = want;
        } else if self.enabled && want_us != self.applied_us {
            r.push(SensorCall::SetRate(want_us));
            self.applied_us = want_us;
        }
        assert(r@ =~= followed(*old(self), want, interval).1);
        r
    }

    /// Whether to pass a heading on: only while the sensor is wanted, and only
    /// when it moved noticeably from the last one. Events queued just before a
    /// disable are dropped rather than sent as a heading the UI would then hold
    /// on to indefinitely.
    pub fn offer(&mut self, heading: u32, moved: bool) -> (r: bool)
        ensures
            r == (old(self).enabled && (old(self).last_sent is None || moved)),
            *final(self) == if r {
                Sensor { last_sent: Some(heading), ..*old(self) }
            } else {
                *old(self)
            },
    {
        if self.enabled && (self.last_sent.is_none() || moved) {
            self.last_sent = Some(heading);
            true
        } else {
            false
        }
    }

    /// The calls that leave the sensor off when the thread ends.
    pub fn shut_down(&self) -> (r: Vec<SensorCall>)
        ensures
            r@ == if self.enabled {
                seq![SensorCall::Disable]
            } else {
                seq![]
            },
    {
        let mut r: Vec<SensorCall> = Vec::new();
        if self.enabled {
            r.push(SensorCall::Disable);
        }
        assert(r@ =~= if self.enabled {
            seq![SensorCall::Disable]
        } else {
            seq![]
        });
        r
    }
}

/// What is known of a sensor that is driven this way: while it is off no
/// heading is remembered, and while it is on its rate is one the hardware can
/// deliver.
pub open spec fn in_order(s: Sensor) -> bool {
    &&& s.min_delay >= 1
    &&& !s.enabled ==> s.last_sent is None
    &&& s.enabled ==> s.applied_us >= s.min_delay
}

/// The sensor is on exactly while it is wanted, it is asked for no rate that
/// the hardware cannot deliver, and a request that is repeated costs no call.
pub proof fn sensor_follows_the_request(s: Sensor, want: bool, interval: i32)
    requires
        in_order(s),
    ensures
        ({
            let (after, calls) = followed(s, want, interval);
            &&& in_order(after)
            &&& after.enabled == want
            &&& want ==> after.applied_us == longer(interval, s.min_delay)
            &&& forall|i: int|
                0 <= i < calls.len() ==> ((#[trigger] calls[i]) matches SensorCall::SetRate(us)
                    ==> us >= s.min_delay)
            &&& followed(after, want, interval).1.len() == 0
        }),
{
}

} // verus!
