//! The daemon watchdog's decisions: how old the last heartbeat is, whether the daemon
//! is healthy or unresponsive, and how much memory a language server uses by its
//! process status line.
use vstd::prelude::*;
use crate::text::{chars_of, parse_u64, parse_u64_exec, seqs_view, words, words_exec};

verus! {

/// Age in seconds of the last heartbeat at time `now`; 0 before any heartbeat.
pub open spec fn heartbeat_age(last: u64, now: u64) -> u64 {
    if last > 0 {
        (now - last) as u64
    } else {
        0
    }
}

/// The clock has not gone back past the last heartbeat.
pub open spec fn clock_after(last: u64, now: u64) -> bool {
    last == 0 || last <= now
}

/// Healthy: no heartbeat yet, or the last one is no older than the timeout.
pub open spec fn healthy(age: u64, timeout_secs: u64) -> bool {
    age == 0 || age <= timeout_secs
}

/// Unresponsive: there was a heartbeat, and it is older than the timeout.
pub open spec fn unresponsive(last: u64, now: u64, timeout_secs: u64) -> bool {
    last > 0 && now - last > timeout_secs
}

/// The watchdog's heartbeat bookkeeping (times are seconds since the Unix epoch)
#[derive(Debug, Clone, Copy)]
pub struct WatchdogState {
    /// Last heartbeat timestamp from main accept loop (0: none yet)
    pub last_heartbeat: u64,
    /// Whether the watchdog is running
    pub running: bool,
    /// Timeout before considering the daemon unresponsive
    pub timeout_secs: u64,
}

impl WatchdogState {
    /// A stopped watchdog with no heartbeat yet
    pub fn new(timeout_secs: u64) -> (r: Self)
        ensures
            r.last_heartbeat == 0,
            !r.running,
            r.timeout_secs == timeout_secs,
    {
        WatchdogState { last_heartbeat: 0, running: false, timeout_secs }
    }

    /// Update the heartbeat timestamp (called from main accept loop)
    pub fn heartbeat(&mut self, now: u64)
        ensures
            *final(self) == (WatchdogState { last_heartbeat: now, ..*old(self) }),
    {
        self.last_heartbeat = now;
    }

    /// Mark the watchdog running
    pub fn start(&mut self)
        ensures
            *final(self) == (WatchdogState { running: true, ..*old(self) }),
    {
        self.running = true;
    }

    /// Stop the watchdog
    pub fn stop(&mut self)
        ensures
            *final(self) == (WatchdogState { running: false, ..*old(self) }),
    {
        self.running = false;
    }

    /// Get the current heartbeat age in seconds
    pub fn get_heartbeat_age(&self, now: u64) -> (r: u64)
        requires
            clock_after(self.last_heartbeat, now),
        ensures
            r == heartbeat_age(self.last_heartbeat, now),
    {
        if self.last_heartbeat > 0 {
            now - self.last_heartbeat
        } else {
            0
        }
    }

    /// Check if the watchdog considers the daemon healthy
    pub fn is_healthy(&self, now: u64) -> (r: bool)
        requires
            clock_after(self.last_heartbeat, now),
        ensures
            r == healthy(heartbeat_age(self.last_heartbeat, now), self.timeout_secs),
    {
        let age = self.get_heartbeat_age(now);
        age == 0 || age <= self.timeout_secs
    }

    /// One check of the monitoring loop: whether the main accept loop is unresponsive,
    /// so that recovery is to be triggered
    pub fn needs_recovery(&self, now: u64) -> (r: bool)
        requires
            clock_after(self.last_heartbeat, now),
        ensures
            r == unresponsive(self.last_heartbeat, now, self.timeout_secs),
    {
        self.last_heartbeat > 0 && now - self.last_heartbeat > self.timeout_secs
    }
}

/// A daemon that needs recovery is not healthy, and one that is not healthy needs it.
pub proof fn law_recovery_iff_unhealthy(s: WatchdogState, now: u64)
    requires
        clock_after(s.last_heartbeat, now),
    ensures
        unresponsive(s.last_heartbeat, now, s.timeout_secs) <==> !healthy(
            heartbeat_age(s.last_heartbeat, now),
            s.timeout_secs,
        ),
{
}

/// Right after a heartbeat the daemon is healthy.
pub proof fn law_heartbeat_makes_healthy(s: WatchdogState, now: u64)
    ensures
        healthy(heartbeat_age(now, now), s.timeout_secs),
        !unresponsive(now, now, s.timeout_secs),
{
}

// ---------------------------------------------------------------------------
// Memory use from a process status line
// ---------------------------------------------------------------------------

/// Page size assumed for the resident set size.
pub const PAGE_SIZE: u64 = 4096;

/// The resident set size in pages: the 24th field of the status line, 0 where it is not
/// a number.
pub open spec fn rss_pages(stat: Seq<char>) -> u64 {
    match parse_u64(words(stat)[23]) {
        Some(v) => v,
        None => 0,
    }
}

/// Megabytes of resident memory by a process status line, where it has 24 fields.
pub open spec fn stat_memory_mb(stat: Seq<char>) -> Option<u64> {
    if words(stat).len() < 24 {
        None
    } else {
        Some((((rss_pages(stat) * PAGE_SIZE) as int) / (1024 * 1024int)) as u64)
    }
}

/// The page count of the status line fits in bytes.
pub open spec fn stat_fits(stat: Seq<char>) -> bool {
    words(stat).len() >= 24 ==> rss_pages(stat) * PAGE_SIZE <= u64::MAX
}

/// Resident memory in megabytes read from the text of `/proc/<pid>/stat`; `None` where
/// the line has fewer than 24 fields (an invalid status file).
pub fn memory_mb_from_stat(stat_content: &str) -> (r: Option<u64>)
    requires
        stat_fits(stat_content@),
    ensures
        r == stat_memory_mb(stat_content@),
{
    let fields = words_exec(&chars_of(stat_content));
    proof {
        assert(seqs_view(fields@).len() == fields@.len());
    }
    if fields.len() < 24 {
        return None;
    }
    proof {
        assert(seqs_view(fields@)[23] == fields@[23]@);
    }
    let rss: u64 = match parse_u64_exec(&fields[23]) {
        Some(v) => v,
        None => 0,
    };
    let memory_bytes = rss * PAGE_SIZE;
    Some(memory_bytes / (1024 * 1024))
}

} // verus!
