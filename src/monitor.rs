use vstd::prelude::*;

verus! {

/// Memory the monitor reports as installed: 8 GiB.
pub const TOTAL_MEMORY_BYTES: u64 = 8_589_934_592;

/// Relies on chrono's `Utc::now`: the current time in milliseconds since
/// the Unix epoch; nothing is promised of its value.
#[verifier::external_body]
pub(crate) fn clock_now_ms() -> (r: i64)
{
    chrono::Utc::now().timestamp_millis()
}

/// Counters of the gateway's traffic.
pub struct PerformanceMonitor {
    pub start_time: i64,
    pub total_connections: u64,
    pub failed_connections: u64,
    pub bytes_sent: u64,
    pub bytes_received: u64,
    pub completed_transfers: u64,
    pub failed_transfers: u64,
    pub websocket_connections: u32,
}

impl PerformanceMonitor {
    /// A monitor with every counter at zero, started now.
    pub fn new() -> (r: Self)
        ensures
            r.total_connections == 0,
            r.failed_connections == 0,
            r.bytes_sent == 0,
            r.bytes_received == 0,
            r.completed_transfers == 0,
            r.failed_transfers == 0,
            r.websocket_connections == 0,
    {
        PerformanceMonitor {
            start_time: clock_now_ms(),
            total_connections: 0,
            failed_connections: 0,
            bytes_sent: 0,
            bytes_received: 0,
            completed_transfers: 0,
            failed_transfers: 0,
            websocket_connections: 0,
        }
    }

    pub fn get_total_memory(&self) -> (r: u64)
        ensures
            r == TOTAL_MEMORY_BYTES,
    {
        TOTAL_MEMORY_BYTES
    }

    pub fn increment_connections(&mut self)
        requires
            old(self).total_connections < u64::MAX,
        ensures
            final(self).total_connections == old(self).total_connections + 1,
            final(self).failed_connections == old(self).failed_connections,
            final(self).bytes_sent == old(self).bytes_sent,
            final(self).bytes_received == old(self).bytes_received,
            final(self).completed_transfers == old(self).completed_transfers,
            final(self).failed_transfers == old(self).failed_transfers,
            final(self).websocket_connections == old(self).websocket_connections,
    {
        self.total_connections = self.total_connections + 1;
    }

    pub fn increment_failed_connections(&mut self)
        requires
            old(self).failed_connections < u64::MAX,
        ensures
            final(self).failed_connections == old(self).failed_connections + 1,
            final(self).total_connections == old(self).total_connections,
            final(self).bytes_sent == old(self).bytes_sent,
            final(self).bytes_received == old(self).bytes_received,
            final(self).completed_transfers == old(self).completed_transfers,
            final(self).failed_transfers == old(self).failed_transfers,
            final(self).websocket_connections == old(self).websocket_connections,
    {
        self.failed_connections = self.failed_connections + 1;
    }

    pub fn add_bytes_sent(&mut self, bytes: u64)
        requires
            old(self).bytes_sent + bytes <= u64::MAX,
        ensures
            final(self).bytes_sent == old(self).bytes_sent + bytes,
            final(self).total_connections == old(self).total_connections,
            final(self).failed_connections == old(self).failed_connections,
            final(self).bytes_received == old(self).bytes_received,
            final(self).completed_transfers == old(self).completed_transfers,
            final(self).failed_transfers == old(self).failed_transfers,
            final(self).websocket_connections == old(self).websocket_connections,
    {
        self.bytes_sent = self.bytes_sent + bytes;
    }

    pub fn add_bytes_received(&mut self, bytes: u64)
        requires
            old(self).bytes_received + bytes <= u64::MAX,
        ensures
            final(self).bytes_received == old(self).bytes_received + bytes,
            final(self).total_connections == old(self).total_connections,
            final(self).failed_connections == old(self).failed_connections,
            final(self).bytes_sent == old(self).bytes_sent,
            final(self).completed_transfers == old(self).completed_transfers,
            final(self).failed_transfers == old(self).failed_transfers,
            final(self).websocket_connections == old(self).websocket_connections,
    {
        self.bytes_received = self.bytes_received + bytes;
    }

    pub fn increment_completed_transfers(&mut self)
        requires
            old(self).completed_transfers < u64::MAX,
        ensures
            final(self).completed_transfers == old(self).completed_transfers + 1,
            final(self).total_connections == old(self).total_connections,
            final(self).failed_connections == old(self).failed_connections,
            final(self).bytes_sent == old(self).bytes_sent,
            final(self).bytes_received == old(self).bytes_received,
            final(self).failed_transfers == old(self).failed_transfers,
            final(self).websocket_connections == old(self).websocket_connections,
    {
        self.completed_transfers = self.completed_transfers + 1;
    }

    pub fn increment_failed_transfers(&mut self)
        requires
            old(self).failed_transfers < u64::MAX,
        ensures
            final(self).failed_transfers == old(self).failed_transfers + 1,
            final(self).total_connections == old(self).total_connections,
            final(self).failed_connections == old(self).failed_connections,
            final(self).bytes_sent == old(self).bytes_sent,
            final(self).bytes_received == old(self).bytes_received,
            final(self).completed_transfers == old(self).completed_transfers,
            final(self).websocket_connections == old(self).websocket_connections,
    {
        self.failed_transfers = self.failed_transfers + 1;
    }

    pub fn set_websocket_connections(&mut self, count: u32)
        ensures
            final(self).websocket_connections == count,
            final(self).total_connections == old(self).total_connections,
            final(self).failed_connections == old(self).failed_connections,
            final(self).bytes_sent == old(self).bytes_sent,
            final(self).bytes_received == old(self).bytes_received,
            final(self).completed_transfers == old(self).completed_transfers,
            final(self).failed_transfers == old(self).failed_transfers,
    {
        self.websocket_connections = count;
    }
}

} // verus!
