//! Network throughput derived from cumulative byte counters and the sample
//! taken on the previous collection.
use crate::measure::MIB;
use vstd::prelude::*;

verus! {

/// Bits per byte times microseconds per second.
pub const BIT_MICROS_PER_BYTE_SECOND: u128 = 8000000;

/// Cumulative counters of one interface, as the operating system reports them.
pub struct InterfaceCounters {
    pub name: String,
    pub received_bytes: u64,
    pub transmitted_bytes: u64,
}

/// One interface in a snapshot, its traffic in whole mebibytes.
#[derive(Clone, Debug)]
pub struct NetworkInterface {
    pub name: String,
    pub received_mb: u64,
    pub transmitted_mb: u64,
}

/// Interfaces and throughput, in bits per second.
#[derive(Clone, Debug)]
pub struct NetworkAdvanced {
    pub interfaces: Vec<NetworkInterface>,
    pub download_bits_per_sec: u64,
    pub upload_bits_per_sec: u64,
}

/// Counter totals and the time they were taken, in microseconds of a
/// monotonic clock.
#[derive(Clone, Copy, Debug, PartialEq, Eq, Structural)]
pub struct RateBaseline {
    pub received: u64,
    pub transmitted: u64,
    pub at_micros: u64,
}

/// The one piece of state kept from one collection to the next: the totals
/// seen last time. Callers that collect concurrently share it behind a lock;
/// `update` takes it by `&mut`, so one update reads and replaces it whole.
pub struct NetworkRateTracker {
    pub baseline: Option<RateBaseline>,
}

pub open spec fn cap_u64(n: int) -> int {
    if n > u64::MAX {
        u64::MAX as int
    } else {
        n
    }
}

/// Throughput in bits per second for a counter that went from `prev` to
/// `cur` in `elapsed` microseconds: zero when no time passed, and zero when
/// the counter went down (an interface went away or was reset).
pub open spec fn rate_bps(prev: int, cur: int, elapsed: int) -> int {
    if elapsed <= 0 || cur <= prev {
        0
    } else {
        cap_u64((cur - prev) * 8000000 / elapsed)
    }
}

/// The rates that `update` reports for counters `rx`, `tx` at time `now`.
pub open spec fn rates_since(b: Option<RateBaseline>, rx: u64, tx: u64, now: u64) -> (u64, u64) {
    match b {
        None => (0, 0),
        Some(b) => (
            rate_bps(b.received as int, rx as int, now - b.at_micros) as u64,
            rate_bps(b.transmitted as int, tx as int, now - b.at_micros) as u64,
        ),
    }
}

fn rate_of(prev: u64, cur: u64, elapsed: u64) -> (r: u64)
    ensures
        r == rate_bps(prev as int, cur as int, elapsed as int),
{
    if elapsed == 0 || cur <= prev {
        return 0;
    }
    let delta = (cur - prev) as u128;
    assert(delta * 8000000 <= u64::MAX as int * 8000000) by (nonlinear_arith)
        requires
            delta <= u64::MAX,
    ;
    let q: u128 = delta * BIT_MICROS_PER_BYTE_SECOND / (elapsed as u128);
    if q > u64::MAX as u128 {
        u64::MAX
    } else {
        q as u64
    }
}

impl NetworkRateTracker {
    /// A tracker that has seen nothing yet.
    pub fn new() -> (r: Self)
        ensures
            r.baseline is None,
    {
        NetworkRateTracker { baseline: None }
    }

    /// Records the totals `rx` and `tx` taken at `now_micros` and returns
    /// the download and upload rates since the previous record, in bits per
    /// second: both zero on the first record, and when no time has passed.
    /// The record replaces the previous one in every case.
    pub fn update(&mut self, rx: u64, tx: u64, now_micros: u64) -> (r: (u64, u64))
        ensures
            r == rates_since(old(self).baseline, rx, tx, now_micros),
            final(self).baseline == Some(RateBaseline { received: rx, transmitted: tx, at_micros: now_micros }),
    {
        let r = match self.baseline {
            None => (0, 0),
            Some(b) => {
                let elapsed: u64 = if now_micros > b.at_micros {
                    now_micros - b.at_micros
                } else {
                    0
                };
                (rate_of(b.received, rx, elapsed), rate_of(b.transmitted, tx, elapsed))
            },
        };
        self.baseline = Some(RateBaseline { received: rx, transmitted: tx, at_micros: now_micros });
        r
    }
}

/// Sum of the received counters.
pub open spec fn total_received(s: Seq<InterfaceCounters>) -> int
    decreases s.len(),
{
    if s.len() == 0 {
        0
    } else {
        total_received(s.drop_last()) + s.last().received_bytes
    }
}

/// Sum of the transmitted counters.
pub open spec fn total_transmitted(s: Seq<InterfaceCounters>) -> int
    decreases s.len(),
{
    if s.len() == 0 {
        0
    } else {
        total_transmitted(s.drop_last()) + s.last().transmitted_bytes
    }
}

/// `n` lists the interface that `c` counts.
pub open spec fn interface_of(c: InterfaceCounters, n: NetworkInterface) -> bool {
    &&& n.name@ == c.name@
    &&& n.received_mb == c.received_bytes / MIB
    &&& n.transmitted_mb == c.transmitted_bytes / MIB
}

proof fn lemma_total_nonneg(s: Seq<InterfaceCounters>)
    ensures
        total_received(s) >= 0,
        total_transmitted(s) >= 0,
    decreases s.len(),
{
    if s.len() > 0 {
        lemma_total_nonneg(s.drop_last());
    }
}

/// The network part of a snapshot: every interface with its traffic, and
/// the throughput of all interfaces together since the tracker's previous
/// record, taken at `now_micros`. Totals past `u64::MAX` bytes count as
/// `u64::MAX`.
pub fn collect_network_advanced(
    counters: &Vec<InterfaceCounters>,
    now_micros: u64,
    tracker: &mut NetworkRateTracker,
) -> (r: NetworkAdvanced)
    ensures
        r.interfaces@.len() == counters@.len(),
        forall|i: int|
            0 <= i < counters@.len() ==> interface_of(counters@[i], #[trigger] r.interfaces@[i]),
        (r.download_bits_per_sec, r.upload_bits_per_sec) == rates_since(
            old(tracker).baseline,
            cap_u64(total_received(counters@)) as u64,
            cap_u64(total_transmitted(counters@)) as u64,
            now_micros,
        ),
        final(tracker).baseline == Some(
            RateBaseline {
                received: cap_u64(total_received(counters@)) as u64,
                transmitted: cap_u64(total_transmitted(counters@)) as u64,
                at_micros: now_micros,
            },
        ),
{
    let mut interfaces: Vec<NetworkInterface> = Vec::new();
    let mut rx: u64 = 0;
    let mut tx: u64 = 0;
    let mut i: usize = 0;
    while i < counters.len()
        invariant
            i <= counters@.len(),
            interfaces@.len() == i,
            forall|k: int| 0 <= k < i ==> interface_of(counters@[k], #[trigger] interfaces@[k]),
            rx == cap_u64(total_received(counters@.take(i as int))),
            tx == cap_u64(total_transmitted(counters@.take(i as int))),
        decreases counters@.len() - i,
    {
        let c = &counters[i];
        interfaces.push(
            NetworkInterface {
                name: c.name.clone(),
                received_mb: c.received_bytes / MIB,
                transmitted_mb: c.transmitted_bytes / MIB,
            },
        );
        proof {
            let t = counters@.take(i + 1);
            assert(t.drop_last() =~= counters@.take(i as int));
            lemma_total_nonneg(t.drop_last());
        }
        rx = rx.saturating_add(c.received_bytes);
        tx = tx.saturating_add(c.transmitted_bytes);
        i = i + 1;
    }
    assert(counters@.take(i as int) =~= counters@);
    let (down, up) = tracker.update(rx, tx, now_micros);
    NetworkAdvanced { interfaces, download_bits_per_sec: down, upload_bits_per_sec: up }
}

} // verus!
