use vstd::prelude::*;
use crate::events::{Event, EventManager};

verus! {

/// Share of memory in use, in whole percent rounded half up, at most 100;
/// zero when the total is zero.
pub open spec fn memory_percent_of(used: int, total: int) -> int {
    if total == 0 {
        0
    } else if used >= total {
        100
    } else {
        (used * 100 + total / 2) / total
    }
}

pub fn memory_percent(used: u64, total: u64) -> (r: u32)
    ensures
        r == memory_percent_of(used as int, total as int),
        r <= 100,
{
    if total == 0 {
        0
    } else if used >= total {
        100
    } else {
        let u = used as u128;
        let t = total as u128;
        assert(u * 100 < t * 100) by (nonlinear_arith)
            requires u < t;
        let num = u * 100 + t / 2;
        let q = num / t;
        assert(num < t * 100 + t) by (nonlinear_arith)
            requires u < t, num == u * 100 + t / 2;
        assert(q <= 100) by (nonlinear_arith)
            requires num < t * 100 + t, q == num / t, t > 0;
        q as u32
    }
}

/// Whole degrees of a thermal zone reading in millidegrees, truncated
/// toward zero.
pub open spec fn celsius_of(millidegrees: int) -> int {
    if millidegrees >= 0 {
        millidegrees / 1000
    } else {
        -((-millidegrees) / 1000)
    }
}

pub fn celsius_from_millidegrees(millidegrees: i32) -> (r: i32)
    ensures
        r == celsius_of(millidegrees as int),
{
    let m = millidegrees as i64;
    if m >= 0 {
        (m / 1000) as i32
    } else {
        let q = (-m) / 1000;
        (-q) as i32
    }
}

/// Publishes the periodic samples of processor, memory and temperature.
pub struct SystemSampler {
    pub events: EventManager,
}

impl SystemSampler {
    /// Publish one `CpuUsageChanged` then one `MemoryUsageChanged`.
    pub fn publish_usage(&mut self, cpu_percent: u32, used: u64, total: u64)
        ensures
            final(self).events.published() == old(self).events.published().push(
                Event::CpuUsageChanged { usage: cpu_percent },
            ).push(
                Event::MemoryUsageChanged {
                    used,
                    total,
                    percent: memory_percent_of(used as int, total as int) as u32,
                },
            ),
    {
        self.events.emit(Event::CpuUsageChanged { usage: cpu_percent });
        let percent = memory_percent(used, total);
        self.events.emit(Event::MemoryUsageChanged { used, total, percent });
    }

    /// Publish one `TemperatureChanged` from a reading in millidegrees.
    pub fn publish_temperature(&mut self, millidegrees: i32)
        ensures
            final(self).events.published() == old(self).events.published().push(
                Event::TemperatureChanged { celsius: celsius_of(millidegrees as int) as i32 },
            ),
    {
        let celsius = celsius_from_millidegrees(millidegrees);
        self.events.emit(Event::TemperatureChanged { celsius });
    }
}

} // verus!
