//! The supervisor's decisions: what to do with each observation of the
//! target process, how one protocol poll is handled, and the statistics the
//! supervisor keeps.
//!
//! The supervisor forks the target, polls it without blocking, and runs one
//! protocol step per poll while it is alive. The forking, the polling and
//! the shared mapping live with the caller; each observation is handed in
//! here as a [`WaitEvent`] and answered with a [`SupervisorAction`], so every
//! decision the loop takes is verified.

use vstd::prelude::*;

use crate::comm::{ClientStatus, Comm, ServerStatus, TestStatus};
use vstd::string::StringExecFns;

verus! {

/// The supervisor's counters; only ever incremented during a run.
pub struct Stats {
    pub passed: u64,
    pub skipped: u64,
    pub failed: u64,
    pub insufficient_bytes: u64,
    pub crash_failure: u64,
    pub restarts: u64,
    pub test_cases: u64,
}

/// No counter is about to overflow its word.
pub open spec fn stats_have_room(s: Stats) -> bool {
    &&& s.passed < u64::MAX
    &&& s.skipped < u64::MAX
    &&& s.failed < u64::MAX
    &&& s.insufficient_bytes < u64::MAX
    &&& s.crash_failure < u64::MAX
    &&& s.restarts < u64::MAX
    &&& s.test_cases < u64::MAX
}

impl Stats {
    /// All counters at zero.
    pub fn new() -> (r: Stats)
        ensures
            r.passed == 0,
            r.skipped == 0,
            r.failed == 0,
            r.insufficient_bytes == 0,
            r.crash_failure == 0,
            r.restarts == 0,
            r.test_cases == 0,
    {
        Stats {
            passed: 0,
            skipped: 0,
            failed: 0,
            insufficient_bytes: 0,
            crash_failure: 0,
            restarts: 0,
            test_cases: 0,
        }
    }

    /// Tally one reported test status: exactly the matching counter advances.
    pub fn record(&mut self, s: TestStatus)
        requires
            stats_have_room(*old(self)),
        ensures
            final(self).passed == old(self).passed + (if s is Passed {
                1int
            } else {
                0int
            }),
            final(self).skipped == old(self).skipped + (if s is Skipped {
                1int
            } else {
                0int
            }),
            final(self).failed == old(self).failed + (if s is Failed {
                1int
            } else {
                0int
            }),
            final(self).insufficient_bytes == old(self).insufficient_bytes + (
            if s is InsufficientBytes {
                1int
            } else {
                0int
            }),
            final(self).crash_failure == old(self).crash_failure,
            final(self).restarts == old(self).restarts,
            final(self).test_cases == old(self).test_cases,
    {
        match s {
            TestStatus::Passed => {
                self.passed = self.passed + 1;
            },
            TestStatus::Skipped => {
                self.skipped = self.skipped + 1;
            },
            TestStatus::Failed => {
                self.failed = self.failed + 1;
            },
            TestStatus::InsufficientBytes => {
                self.insufficient_bytes = self.insufficient_bytes + 1;
            },
        }
    }

    /// Count one test case handed to the target.
    pub fn count_test_case(&mut self)
        requires
            stats_have_room(*old(self)),
        ensures
            final(self).test_cases == old(self).test_cases + 1,
            final(self).passed == old(self).passed,
            final(self).skipped == old(self).skipped,
            final(self).failed == old(self).failed,
            final(self).insufficient_bytes == old(self).insufficient_bytes,
            final(self).crash_failure == old(self).crash_failure,
            final(self).restarts == old(self).restarts,
    {
        self.test_cases = self.test_cases + 1;
    }

    /// Count one restart of the target.
    pub fn count_restart(&mut self)
        requires
            stats_have_room(*old(self)),
        ensures
            final(self).restarts == old(self).restarts + 1,
            final(self).passed == old(self).passed,
            final(self).skipped == old(self).skipped,
            final(self).failed == old(self).failed,
            final(self).insufficient_bytes == old(self).insufficient_bytes,
            final(self).crash_failure == old(self).crash_failure,
            final(self).test_cases == old(self).test_cases,
    {
        self.restarts = self.restarts + 1;
    }
}

/// What one non-blocking poll of the target process observed.
///
/// The poll itself is a `waitpid` in the caller's hands; its result is
/// translated into one of these.
#[derive(Debug, Clone, Copy, PartialEq, Eq, Structural)]
pub enum WaitEvent {
    /// The target is still running.
    StillAlive,
    /// The target exited with the given status code.
    Exited(i32),
    /// The target changed state some other way (stopped, signalled, ...).
    OtherStatus,
    /// There is no child to wait for.
    NoChild,
    /// Waiting on the target failed outright.
    WaitFailed,
}

/// What the supervisor does next after one poll.
#[derive(Debug, Clone, Copy, PartialEq, Eq, Structural)]
pub enum SupervisorAction {
    /// Run one protocol step against the shared region.
    Poll,
    /// Nothing to do this round.
    Idle,
    /// Fork the target again.
    Restart,
    /// Unlink the region and exit with the given code.
    Shutdown(i32),
}

/// Decide what one observation of the target means.
///
/// A running target is polled. A target that exited cleanly is restarted,
/// unless it never received a test: that is a misconfigured target and the
/// supervisor shuts down with exit code 1. A target that exited with a
/// non-zero status crashed: the crash is counted exactly once and the target
/// is restarted. A vanished child is ignored; any other wait failure shuts
/// the supervisor down with exit code 1.
pub fn handle_wait_event(stats: &mut Stats, ev: WaitEvent) -> (a: SupervisorAction)
    requires
        stats_have_room(*old(stats)),
    ensures
        ev is StillAlive ==> a is Poll && *final(stats) == *old(stats),
        ev matches WaitEvent::Exited(c) && c != 0 ==> a is Restart && final(stats).crash_failure
            == old(stats).crash_failure + 1,
        ev == WaitEvent::Exited(0i32) && old(stats).test_cases == 0 ==> a
            == SupervisorAction::Shutdown(1i32) && *final(stats) == *old(stats),
        ev == WaitEvent::Exited(0i32) && old(stats).test_cases > 0 ==> a is Restart
            && *final(stats) == *old(stats),
        ev is OtherStatus ==> a is Idle && *final(stats) == *old(stats),
        ev is NoChild ==> a is Idle && *final(stats) == *old(stats),
        ev is WaitFailed ==> a == SupervisorAction::Shutdown(1i32)
            && *final(stats) == *old(stats),
        final(stats).passed == old(stats).passed,
        final(stats).skipped == old(stats).skipped,
        final(stats).failed == old(stats).failed,
        final(stats).insufficient_bytes == old(stats).insufficient_bytes,
        final(stats).restarts == old(stats).restarts,
        final(stats).test_cases == old(stats).test_cases,
{
    match ev {
        WaitEvent::StillAlive => SupervisorAction::Poll,
        WaitEvent::Exited(code) => {
            if code != 0 {
                stats.crash_failure = stats.crash_failure + 1;
                SupervisorAction::Restart
            } else if stats.test_cases == 0 {
                SupervisorAction::Shutdown(1)
            } else {
                SupervisorAction::Restart
            }
        },
        WaitEvent::OtherStatus => SupervisorAction::Idle,
        WaitEvent::NoChild => SupervisorAction::Idle,
        WaitEvent::WaitFailed => SupervisorAction::Shutdown(1),
    }
}

/// What the supervisor does with the shared region on one poll.
#[derive(Debug, Clone, Copy, PartialEq, Eq, Structural)]
pub enum ServerCmd {
    /// Leave the region alone.
    Idle,
    /// Store a fresh payload and raise the server flag.
    Arm,
    /// Count the reported verdict and lower both flags.
    Collect(TestStatus),
}

/// Decide what one reading of the two status words asks of the supervisor:
/// an idle client needs nothing; a requesting client is served once, while
/// an already-armed region waits; a reported verdict is collected.
pub fn server_decide(client: ClientStatus, server: ServerStatus) -> (c: ServerCmd)
    ensures
        client is Default ==> c is Idle,
        client is Ready && server is Default ==> c is Arm,
        client is Ready && server is Ready ==> c is Idle,
        client matches ClientStatus::Test(s) ==> c == ServerCmd::Collect(s),
{
    match client {
        ClientStatus::Default => ServerCmd::Idle,
        ClientStatus::Ready => match server {
            ServerStatus::Default => ServerCmd::Arm,
            ServerStatus::Ready => ServerCmd::Idle,
        },
        ClientStatus::Test(s) => ServerCmd::Collect(s),
    }
}

/// One supervisor protocol step against the region, as taken while the
/// target runs: an idle client is left alone; a requesting client is served
/// a payload and the region armed, counting one test case; a reported
/// verdict is counted and the round closed. The returned flag says whether
/// the region was armed, so the caller can draw fresh bytes for the next
/// round.
pub fn server_poll(comm: &mut Comm, stats: &mut Stats, bytes: &Vec<u8>) -> (armed: bool)
    requires
        old(comm).wf(),
        stats_have_room(*old(stats)),
        bytes@.len() <= old(comm).cap(),
    ensures
        final(comm).wf(),
        old(comm).protocol_ok() ==> final(comm).protocol_ok(),
        final(comm).cap() == old(comm).cap(),
        armed <==> (old(comm).client() is Ready && old(comm).server() is Default),
        armed ==> final(comm).server() is Ready && final(comm).data() == bytes@
            && final(stats).test_cases == old(stats).test_cases + 1,
        old(comm).client() is Default ==> *final(comm) == *old(comm)
            && *final(stats) == *old(stats),
        old(comm).client() is Ready && old(comm).server() is Ready ==> *final(comm) == *old(comm)
            && *final(stats) == *old(stats),
        old(comm).client() matches ClientStatus::Test(s) ==> {
            &&& final(comm).server() is Default
            &&& final(comm).client() is Default
            &&& final(comm).data() == old(comm).data()
            &&& final(stats).passed == old(stats).passed + (if s is Passed {
                1int
            } else {
                0int
            })
            &&& final(stats).skipped == old(stats).skipped + (if s is Skipped {
                1int
            } else {
                0int
            })
            &&& final(stats).failed == old(stats).failed + (if s is Failed {
                1int
            } else {
                0int
            })
            &&& final(stats).insufficient_bytes == old(stats).insufficient_bytes + (
            if s is InsufficientBytes {
                1int
            } else {
                0int
            })
            &&& final(stats).test_cases == old(stats).test_cases
        },
        final(stats).crash_failure == old(stats).crash_failure,
        final(stats).restarts == old(stats).restarts,
{
    match comm.client_status() {
        ClientStatus::Default => false,
        ClientStatus::Ready => {
            match comm.server_status() {
                ServerStatus::Default => {
                    comm.server_arm(bytes);
                    stats.test_cases = stats.test_cases + 1;
                    true
                },
                ServerStatus::Ready => false,
            }
        },
        ClientStatus::Test(s) => {
            stats.record(s);
            comm.server_collect();
            false
        },
    }
}

/// The supervisor's configuration.
pub struct Rqc {
    shm_total_bytes: usize,
    shm_path: String,
    target_byte_pool_size: usize,
}

impl Rqc {
    /// The total size of the shared region, in bytes.
    pub closed spec fn total_bytes_spec(&self) -> int {
        self.shm_total_bytes as int
    }

    /// The path of the shared region.
    pub closed spec fn path_spec(&self) -> Seq<char> {
        self.shm_path@
    }

    /// The size of each random blob sent to the target.
    pub closed spec fn pool_size_spec(&self) -> int {
        self.target_byte_pool_size as int
    }

    /// The default configuration: a 1024-byte region at `/RQC` and 256-byte
    /// blobs.
    pub fn new() -> (r: Rqc)
        ensures
            r.total_bytes_spec() == 1024,
            r.path_spec() == "/RQC"@,
            r.pool_size_spec() == 256,
    {
        Rqc {
            shm_total_bytes: 1024,
            shm_path: String::from_str("/RQC"),
            target_byte_pool_size: 256,
        }
    }

    /// The total size of the shared region, in bytes.
    pub fn shm_total_bytes(&self) -> (n: usize)
        ensures
            n == self.total_bytes_spec(),
    {
        self.shm_total_bytes
    }

    /// The path of the shared region.
    pub fn shm_path(&self) -> (p: &String)
        ensures
            p@ == self.path_spec(),
    {
        &self.shm_path
    }

    /// The size of each random blob sent to the target.
    pub fn target_byte_pool_size(&self) -> (n: usize)
        ensures
            n == self.pool_size_spec(),
    {
        self.target_byte_pool_size
    }
}

/// Builder for the supervisor's configuration.
pub struct RqcBuilder {
    shm_total_bytes: Option<usize>,
    shm_path: Option<String>,
    target_byte_pool_size: Option<usize>,
}

impl RqcBuilder {
    /// A builder with every knob at its default.
    pub fn new() -> (r: RqcBuilder)
        ensures
            r.total_bytes_spec() is None,
            r.path_spec() is None,
            r.pool_size_spec() is None,
    {
        RqcBuilder { shm_total_bytes: None, shm_path: None, target_byte_pool_size: None }
    }

    /// The configured region size, if one was set.
    pub closed spec fn total_bytes_spec(&self) -> Option<usize> {
        self.shm_total_bytes
    }

    /// The configured region path, if one was set.
    pub closed spec fn path_spec(&self) -> Option<Seq<char>> {
        match self.shm_path {
            Some(p) => Some(p@),
            None => None,
        }
    }

    /// The configured blob size, if one was set.
    pub closed spec fn pool_size_spec(&self) -> Option<usize> {
        self.target_byte_pool_size
    }

    /// Set the total size of the shared region.
    pub fn shm_total_bytes(self, n: usize) -> (r: RqcBuilder)
        ensures
            r.total_bytes_spec() == Some(n),
            r.path_spec() == self.path_spec(),
            r.pool_size_spec() == self.pool_size_spec(),
    {
        RqcBuilder { shm_total_bytes: Some(n), ..self }
    }

    /// Set the path of the shared region.
    pub fn shm_path(self, p: String) -> (r: RqcBuilder)
        ensures
            r.path_spec() == Some(p@),
            r.total_bytes_spec() == self.total_bytes_spec(),
            r.pool_size_spec() == self.pool_size_spec(),
    {
        RqcBuilder { shm_path: Some(p), ..self }
    }

    /// Set the size of each random blob sent to the target.
    pub fn target_byte_pool_size(self, n: usize) -> (r: RqcBuilder)
        ensures
            r.pool_size_spec() == Some(n),
            r.total_bytes_spec() == self.total_bytes_spec(),
            r.path_spec() == self.path_spec(),
    {
        RqcBuilder { target_byte_pool_size: Some(n), ..self }
    }

    /// Finish the builder; unset knobs take the defaults of `Rqc::new`.
    pub fn build(self) -> (r: Rqc)
        ensures
            r.total_bytes_spec() == match self.total_bytes_spec() {
                Some(n) => n as int,
                None => 1024int,
            },
            r.path_spec() == match self.path_spec() {
                Some(p) => p,
                None => "/RQC"@,
            },
            r.pool_size_spec() == match self.pool_size_spec() {
                Some(n) => n as int,
                None => 256int,
            },
    {
        Rqc {
            shm_total_bytes: match self.shm_total_bytes {
                Some(n) => n,
                None => 1024,
            },
            shm_path: match self.shm_path {
                Some(p) => p,
                None => String::from_str("/RQC"),
            },
            target_byte_pool_size: match self.target_byte_pool_size {
                Some(n) => n,
                None => 256,
            },
        }
    }
}

/// The flags handed to the toolchain by `build`, with any caller-provided
/// flags appended after a single space.
pub fn build_rustflags(extra: &str) -> (r: String)
    ensures
        extra@.len() == 0 ==> r@
            == "-C debug-assertions -C overflow-checks -C opt-level=3 -C target-cpu=native"@,
        extra@.len() > 0 ==> r@
            == "-C debug-assertions -C overflow-checks -C opt-level=3 -C target-cpu=native"@
            + " "@ + extra@,
{
    let mut flags = String::from_str(
        "-C debug-assertions -C overflow-checks -C opt-level=3 -C target-cpu=native",
    );
    if !extra.is_empty() {
        flags.append(" ");
        flags.append(extra);
    }
    flags
}

} // verus!
