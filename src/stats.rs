//! Machine statistics. Reading every metric of the machine is costly, so the
//! snapshot is re-read at most once per `REFRESH_PERIOD_MS`; requests in between
//! are served the last snapshot. Times are milliseconds of a monotonic clock.

use vstd::prelude::*;
use sysinfo::System;

verus! {

/// The shortest time between two reads of the machine's metrics.
pub const REFRESH_PERIOD_MS: u64 = 500;

/// Milliseconds from `last` to `now`; zero where the clock reads earlier.
pub open spec fn elapsed(last: u64, now: u64) -> int {
    if now >= last {
        now - last
    } else {
        0
    }
}

/// The snapshot is due for a re-read at `now`: it was never read, or the last read
/// is at least one refresh period old.
pub open spec fn is_stale(last_refresh: Option<u64>, now: u64) -> bool {
    match last_refresh {
        None => true,
        Some(t) => elapsed(t, now) >= REFRESH_PERIOD_MS,
    }
}

/// The time of the snapshot after a refresh request at `now`.
pub open spec fn refreshed_at(last_refresh: Option<u64>, now: u64) -> Option<u64> {
    if is_stale(last_refresh, now) {
        Some(now)
    } else {
        last_refresh
    }
}

/// The machine's metrics as last read, and when they were read. The processor and
/// memory figures live in `sys`; the disk, network and uptime figures are kept as
/// sums.
pub struct StatsCache {
    /// The metrics as last read.
    pub sys: System,
    /// When the metrics were last read; `None` before the first read.
    pub last_refresh: Option<u64>,
    /// Used bytes over all disks.
    pub disk_used: u64,
    /// Size in bytes of all disks.
    pub disk_total: u64,
    /// Bytes received over all network interfaces.
    pub network_rx: u64,
    /// Bytes sent over all network interfaces.
    pub network_tx: u64,
    /// Seconds since the machine booted.
    pub uptime: u64,
}

/// What the caller reads of the disks, the network interfaces and the uptime when a
/// refresh is due: `(total, available)` bytes per disk, `(received, transmitted)`
/// bytes per interface, and seconds since boot.
#[derive(Debug, Clone, PartialEq, Eq)]
pub struct DeviceReadings {
    pub disks: Vec<(u64, u64)>,
    pub interfaces: Vec<(u64, u64)>,
    pub uptime: u64,
}

/// How often the snapshot is read at most, for clients.
#[derive(Debug, Clone, Copy, PartialEq, Eq)]
pub struct StatsConfig {
    /// Reads per second.
    pub update_rate_hz: u32,
}

impl StatsCache {
    /// A cache whose snapshot is read on the first refresh request.
    pub fn new() -> (r: StatsCache)
        ensures
            r.last_refresh is None,
            r.disk_used == 0 && r.disk_total == 0,
            r.network_rx == 0 && r.network_tx == 0,
            r.uptime == 0,
    {
        StatsCache {
            sys: System::new_all(),
            last_refresh: None,
            disk_used: 0,
            disk_total: 0,
            network_rx: 0,
            network_tx: 0,
            uptime: 0,
        }
    }

    /// Whether a refresh request at `now` re-reads the metrics; the caller reads the
    /// devices for `refresh_if_needed` only then.
    pub fn is_due(&self, now: u64) -> (r: bool)
        ensures
            r == is_stale(self.last_refresh, now),
    {
        match self.last_refresh {
            None => true,
            Some(t) => {
                let since: u64 = if now >= t {
                    now - t
                } else {
                    0
                };
                since >= REFRESH_PERIOD_MS
            },
        }
    }

    /// Re-reads the metrics at `now` if the snapshot is stale, taking the device
    /// figures from `readings`; otherwise changes nothing, whatever `readings` holds.
    /// A stale snapshot refreshed without readings keeps its device figures.
    pub fn refresh_if_needed(&mut self, now: u64, readings: Option<DeviceReadings>)
        ensures
            final(self).last_refresh == refreshed_at(old(self).last_refresh, now),
            !is_stale(old(self).last_refresh, now) ==> *final(self) == *old(self),
            is_stale(old(self).last_refresh, now) && readings is Some ==> {
                &&& final(self).disk_used == capped(disk_sums(readings->0.disks@).0)
                &&& final(self).disk_total == capped(disk_sums(readings->0.disks@).1)
                &&& final(self).network_rx == capped(pair_sums(readings->0.interfaces@).0)
                &&& final(self).network_tx == capped(pair_sums(readings->0.interfaces@).1)
                &&& final(self).uptime == readings->0.uptime
            },
            is_stale(old(self).last_refresh, now) && readings is None ==> {
                &&& final(self).disk_used == old(self).disk_used
                &&& final(self).disk_total == old(self).disk_total
                &&& final(self).network_rx == old(self).network_rx
                &&& final(self).network_tx == old(self).network_tx
                &&& final(self).uptime == old(self).uptime
            },
    {
        if self.is_due(now) {
            self.sys.refresh_all();
            self.last_refresh = Some(now);
            if let Some(r) = readings {
                let (used, total) = disk_usage(r.disks.as_slice());
                let (rx, tx) = network_totals(r.interfaces.as_slice());
                self.disk_used = used;
                self.disk_total = total;
                self.network_rx = rx;
                self.network_tx = tx;
                self.uptime = r.uptime;
            }
        }
    }

    /// The metrics as last read.
    pub fn get_system(&self) -> (r: &System)
        ensures
            *r == self.sys,
    {
        &self.sys
    }

    /// The snapshot's read rate, in reads per second.
    pub fn update_rate_hz(&self) -> (r: u32)
        ensures
            r == 1000int / REFRESH_PERIOD_MS as int,
    {
        (1000 / REFRESH_PERIOD_MS) as u32
    }

    /// The read rate as a client setting.
    pub fn config(&self) -> (r: StatsConfig)
        ensures
            r.update_rate_hz == 1000int / REFRESH_PERIOD_MS as int,
    {
        StatsConfig { update_rate_hz: self.update_rate_hz() }
    }
}

/// Two refresh requests less than a refresh period apart see the same snapshot
/// time, except where the first found the snapshot fresh and the second finds it
/// stale; requests at least a period after the last read always re-read.
pub proof fn lemma_refresh_throttle(last: Option<u64>, t1: u64, t2: u64)
    requires
        t1 <= t2,
        t2 - t1 < REFRESH_PERIOD_MS,
        is_stale(last, t1) || !is_stale(last, t2),
    ensures
        refreshed_at(refreshed_at(last, t1), t2) == refreshed_at(last, t1),
        forall|t: u64|
            #[trigger] is_stale(refreshed_at(last, t1), t) ==> refreshed_at(
                refreshed_at(last, t1),
                t,
            ) == Some(t),
{
}

/// The value of an addition that stops at `u64::MAX`.
pub open spec fn capped(x: int) -> u64 {
    if x > u64::MAX {
        u64::MAX
    } else {
        x as u64
    }
}

/// Used space of a disk of `total` bytes with `available` free; zero where the
/// disk reports more free space than it holds.
pub open spec fn used_space(total: u64, available: u64) -> int {
    if total >= available {
        total - available
    } else {
        0
    }
}

/// Summed used space and summed size of a list of `(total, available)` disks.
pub open spec fn disk_sums(disks: Seq<(u64, u64)>) -> (int, int)
    decreases disks.len(),
{
    if disks.len() == 0 {
        (0, 0)
    } else {
        let rest = disk_sums(disks.drop_last());
        let d = disks.last();
        (rest.0 + used_space(d.0, d.1), rest.1 + d.0)
    }
}

/// Summed first and second parts of a list of counter pairs.
pub open spec fn pair_sums(pairs: Seq<(u64, u64)>) -> (int, int)
    decreases pairs.len(),
{
    if pairs.len() == 0 {
        (0, 0)
    } else {
        let rest = pair_sums(pairs.drop_last());
        (rest.0 + pairs.last().0, rest.1 + pairs.last().1)
    }
}

proof fn lemma_sums_nonneg(s: Seq<(u64, u64)>)
    ensures
        disk_sums(s).0 >= 0,
        disk_sums(s).1 >= 0,
        pair_sums(s).0 >= 0,
        pair_sums(s).1 >= 0,
    decreases s.len(),
{
    if s.len() > 0 {
        lemma_sums_nonneg(s.drop_last());
    }
}

/// Used and total space over disks given as `(total, available)` bytes, each sum
/// stopping at `u64::MAX`.
pub fn disk_usage(disks: &[(u64, u64)]) -> (r: (u64, u64))
    ensures
        r.0 == capped(disk_sums(disks@).0),
        r.1 == capped(disk_sums(disks@).1),
{
    let mut used: u64 = 0;
    let mut total: u64 = 0;
    let mut i: usize = 0;
    while i < disks.len()
        invariant
            i <= disks@.len(),
            used == capped(disk_sums(disks@.take(i as int)).0),
            total == capped(disk_sums(disks@.take(i as int)).1),
        decreases disks@.len() - i,
    {
        let (size, available) = disks[i];
        proof {
            assert(disks@.take(i + 1).drop_last() =~= disks@.take(i as int));
            lemma_sums_nonneg(disks@.take(i as int));
        }
        let this_used: u64 = if size >= available {
            size - available
        } else {
            0
        };
        used = used.saturating_add(this_used);
        total = total.saturating_add(size);
        i = i + 1;
    }
    proof {
        assert(disks@.take(disks@.len() as int) =~= disks@);
    }
    (used, total)
}

/// Received and transmitted bytes over network interfaces given as `(received,
/// transmitted)`, each sum stopping at `u64::MAX`.
pub fn network_totals(interfaces: &[(u64, u64)]) -> (r: (u64, u64))
    ensures
        r.0 == capped(pair_sums(interfaces@).0),
        r.1 == capped(pair_sums(interfaces@).1),
{
    let mut rx: u64 = 0;
    let mut tx: u64 = 0;
    let mut i: usize = 0;
    while i < interfaces.len()
        invariant
            i <= interfaces@.len(),
            rx == capped(pair_sums(interfaces@.take(i as int)).0),
            tx == capped(pair_sums(interfaces@.take(i as int)).1),
        decreases interfaces@.len() - i,
    {
        let (received, transmitted) = interfaces[i];
        proof {
            assert(interfaces@.take(i + 1).drop_last() =~= interfaces@.take(i as int));
            lemma_sums_nonneg(interfaces@.take(i as int));
        }
        rx = rx.saturating_add(received);
        tx = tx.saturating_add(transmitted);
        i = i + 1;
    }
    proof {
        assert(interfaces@.take(interfaces@.len() as int) =~= interfaces@);
    }
    (rx, tx)
}

} // verus!
