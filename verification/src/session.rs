//! Per-connection echo session state machine.
//!
//! A session performs a fixed number of iterations, each one "receive a full
//! buffer, then echo that same buffer back". Reads may arrive in pieces; the
//! session keeps a cursor and accumulates until the buffer is full, tallies
//! the bytes, hands the buffer out to be written back, and counts the
//! iteration once the write completes. The I/O itself happens outside the
//! library: the caller asks for the next action, performs it on its
//! connection, and feeds the outcome back in.

use crate::report::{make_summary, spec_summary, Summary};
use vstd::arithmetic::mul::{lemma_mul_inequality, lemma_mul_is_distributive_add_other_way};
use vstd::prelude::*;

verus! {

/// Where a session stands in its lifecycle.
#[derive(Clone, Copy, Debug, PartialEq, Eq, Structural)]
pub enum Phase {
    /// Accumulating reads until the buffer is full.
    Reading,
    /// The buffer is full and tallied; it must now be written back.
    Echoing,
    /// All iterations are complete; one summary is owed.
    Finished,
    /// The summary has been taken; nothing is left to do.
    Done,
    /// The peer closed the connection before a full buffer arrived.
    Closed,
    /// A read or write error ended the session.
    Failed,
}

/// What the caller must do next on the session's connection.
#[derive(Clone, Copy, Debug, PartialEq, Eq, Structural)]
pub enum Action {
    /// Read more bytes, up to the session's remaining count.
    Read,
    /// Write the full buffer back to the peer.
    Echo,
    /// Take the benchmark summary and report it.
    Report,
    /// Release the connection; the session is over.
    Stop,
}

/// State of one connection's echo benchmark.
pub struct Session {
    /// The reusable chunk buffer, always exactly `buffer_size` long.
    pub buf: Vec<u8>,
    /// Cursor: bytes of the current iteration received so far.
    pub received: usize,
    /// Completed receive-then-echo iterations.
    pub iterations_done: usize,
    /// Bytes tallied so far (each fully received buffer, once, pre-doubling).
    pub total_bytes: usize,
    /// Bytes per chunk.
    pub buffer_size: usize,
    /// Iterations this session performs in total.
    pub iterations: usize,
    /// Lifecycle position.
    pub phase: Phase,
}

impl Session {
    /// Internal invariant: the buffer has its fixed length, the counters stay
    /// in range, and the byte total matches the tallied buffers of the phase.
    pub open spec fn wf(self) -> bool {
        &&& self.buf@.len() == self.buffer_size
        &&& 1 <= self.buffer_size
        &&& 1 <= self.iterations
        &&& self.iterations * self.buffer_size <= usize::MAX / 2
        &&& self.received <= self.buffer_size
        &&& self.iterations_done <= self.iterations
        &&& match self.phase {
            Phase::Reading => {
                &&& self.received < self.buffer_size
                &&& self.iterations_done < self.iterations
                &&& self.total_bytes == self.iterations_done * self.buffer_size
            },
            Phase::Echoing => {
                &&& self.received == self.buffer_size
                &&& self.iterations_done < self.iterations
                &&& self.total_bytes == self.iterations_done * self.buffer_size
                    + self.buffer_size
            },
            Phase::Finished => {
                &&& self.iterations_done == self.iterations
                &&& self.total_bytes == self.iterations_done * self.buffer_size
            },
            Phase::Done => {
                &&& self.iterations_done == self.iterations
                &&& self.total_bytes == self.iterations_done * self.buffer_size
            },
            Phase::Closed => self.total_bytes == self.iterations_done * self.buffer_size,
            Phase::Failed => self.total_bytes == self.iterations_done * self.buffer_size
                || self.total_bytes == self.iterations_done * self.buffer_size
                    + self.buffer_size,
        }
    }

    /// The bytes of the current iteration received so far: the filled prefix
    /// of the buffer.
    pub open spec fn received_so_far(self) -> Seq<u8> {
        self.buf@.subrange(0, self.received as int)
    }

    /// The action the caller owes the session next.
    pub open spec fn spec_next_action(self) -> Action {
        match self.phase {
            Phase::Reading => Action::Read,
            Phase::Echoing => Action::Echo,
            Phase::Finished => Action::Report,
            Phase::Done => Action::Stop,
            Phase::Closed => Action::Stop,
            Phase::Failed => Action::Stop,
        }
    }

    /// A fresh session for one accepted connection: empty counters, a zeroed
    /// buffer of `buffer_size` bytes, ready to read the first chunk.
    pub fn new(buffer_size: usize, iterations: usize) -> (s: Session)
        requires
            1 <= buffer_size,
            1 <= iterations,
            iterations * buffer_size <= usize::MAX / 2,
        ensures
            s.wf(),
            s.buffer_size == buffer_size,
            s.iterations == iterations,
            s.phase == Phase::Reading,
            s.received == 0,
            s.iterations_done == 0,
            s.total_bytes == 0,
    {
        let mut buf: Vec<u8> = Vec::new();
        buf.resize(buffer_size, 0u8);
        proof {
            assert(0 == 0 * buffer_size);
        }
        Session {
            buf,
            received: 0,
            iterations_done: 0,
            total_bytes: 0,
            buffer_size,
            iterations,
            phase: Phase::Reading,
        }
    }

    /// How many bytes of the current iteration are still missing: the length
    /// the next read must not exceed.
    pub fn remaining(&self) -> (r: usize)
        requires
            self.wf(),
            self.phase == Phase::Reading,
        ensures
            r == self.buffer_size - self.received,
            1 <= r,
    {
        self.buffer_size - self.received
    }

    /// The caller's next step.
    pub fn next_action(&self) -> (a: Action)
        ensures
            a == self.spec_next_action(),
    {
        match self.phase {
            Phase::Reading => Action::Read,
            Phase::Echoing => Action::Echo,
            Phase::Finished => Action::Report,
            Phase::Done => Action::Stop,
            Phase::Closed => Action::Stop,
            Phase::Failed => Action::Stop,
        }
    }

    /// A read returned `data` (at least one byte, at most the remaining
    /// count). The bytes are appended at the cursor; when the buffer becomes
    /// full the chunk is tallied and the session turns to echoing it.
    pub fn on_read(&mut self, data: &[u8])
        requires
            old(self).wf(),
            old(self).phase == Phase::Reading,
            1 <= data@.len(),
            data@.len() <= old(self).buffer_size - old(self).received,
        ensures
            final(self).wf(),
            final(self).buffer_size == old(self).buffer_size,
            final(self).iterations == old(self).iterations,
            final(self).iterations_done == old(self).iterations_done,
            final(self).received == old(self).received + data@.len(),
            final(self).received_so_far() == old(self).received_so_far() + data@,
            final(self).received < final(self).buffer_size ==> {
                &&& final(self).phase == Phase::Reading
                &&& final(self).total_bytes == old(self).total_bytes
            },
            final(self).received == final(self).buffer_size ==> {
                &&& final(self).phase == Phase::Echoing
                &&& final(self).total_bytes == old(self).total_bytes + final(self).buffer_size
            },
    {
        let n = data.len();
        let mut j: usize = 0;
        while j < n
            invariant
                j <= n,
                n == data@.len(),
                self.buffer_size == old(self).buffer_size,
                self.received == old(self).received,
                self.iterations_done == old(self).iterations_done,
                self.total_bytes == old(self).total_bytes,
                self.iterations == old(self).iterations,
                self.phase == old(self).phase,
                self.buf@.len() == self.buffer_size,
                self.received + n <= self.buffer_size,
                forall|k: int| 0 <= k < self.received ==> self.buf@[k] == old(self).buf@[k],
                forall|k: int|
                    0 <= k < j ==> self.buf@[self.received + k] == data@[k],
            decreases n - j,
        {
            self.buf[self.received + j] = data[j];
            j += 1;
        }
        proof {
            assert(self.buf@.subrange(0, (self.received + n) as int) =~= old(
                self,
            ).received_so_far() + data@);
        }
        self.received = self.received + n;
        if self.received == self.buffer_size {
            proof {
                lemma_mul_inequality(
                    self.iterations_done as int + 1,
                    self.iterations as int,
                    self.buffer_size as int,
                );
                lemma_mul_is_distributive_add_other_way(
                    self.buffer_size as int,
                    self.iterations_done as int,
                    1,
                );
            }
            self.total_bytes = self.total_bytes + self.buffer_size;
            self.phase = Phase::Echoing;
        }
    }

    /// The fully received buffer, to be written back to the peer unchanged:
    /// it holds exactly the bytes received this iteration.
    pub fn echo_payload(&self) -> (r: &Vec<u8>)
        requires
            self.wf(),
            self.phase == Phase::Echoing,
        ensures
            r@ == self.received_so_far(),
            r@.len() == self.buffer_size,
    {
        proof {
            assert(self.buf@.subrange(0, self.received as int) =~= self.buf@);
        }
        &self.buf
    }

    /// The echo of the current buffer was written in full. The iteration
    /// counts as complete; the session reads the next chunk, or is finished
    /// after the last iteration.
    pub fn on_write_done(&mut self)
        requires
            old(self).wf(),
            old(self).phase == Phase::Echoing,
        ensures
            final(self).wf(),
            final(self).buffer_size == old(self).buffer_size,
            final(self).iterations == old(self).iterations,
            final(self).total_bytes == old(self).total_bytes,
            final(self).iterations_done == old(self).iterations_done + 1,
            final(self).iterations_done < final(self).iterations ==> {
                &&& final(self).phase == Phase::Reading
                &&& final(self).received == 0
            },
            final(self).iterations_done == final(self).iterations ==> final(self).phase
                == Phase::Finished,
    {
        proof {
            lemma_mul_is_distributive_add_other_way(
                self.buffer_size as int,
                self.iterations_done as int,
                1,
            );
        }
        self.iterations_done = self.iterations_done + 1;
        if self.iterations_done == self.iterations {
            self.phase = Phase::Finished;
        } else {
            self.phase = Phase::Reading;
            self.received = 0;
        }
    }

    /// A read returned zero bytes: the peer closed the connection. The
    /// session ends without a summary.
    pub fn on_read_closed(&mut self)
        requires
            old(self).wf(),
            old(self).phase == Phase::Reading,
        ensures
            final(self).wf(),
            final(self).phase == Phase::Closed,
            final(self).spec_next_action() == Action::Stop,
            final(self).total_bytes == old(self).total_bytes,
            final(self).iterations_done == old(self).iterations_done,
    {
        self.phase = Phase::Closed;
    }

    /// A read failed with an error. The session ends without a summary.
    pub fn on_read_error(&mut self)
        requires
            old(self).wf(),
            old(self).phase == Phase::Reading,
        ensures
            final(self).wf(),
            final(self).phase == Phase::Failed,
            final(self).spec_next_action() == Action::Stop,
            final(self).total_bytes == old(self).total_bytes,
            final(self).iterations_done == old(self).iterations_done,
    {
        self.phase = Phase::Failed;
    }

    /// A write failed with an error. The session ends without a summary.
    pub fn on_write_error(&mut self)
        requires
            old(self).wf(),
            old(self).phase == Phase::Echoing,
        ensures
            final(self).wf(),
            final(self).phase == Phase::Failed,
            final(self).spec_next_action() == Action::Stop,
            final(self).total_bytes == old(self).total_bytes,
            final(self).iterations_done == old(self).iterations_done,
    {
        self.phase = Phase::Failed;
    }

    /// The one benchmark summary of a finished session, for the given elapsed
    /// wall-clock milliseconds. The reported byte figure is the doubled
    /// total, since every byte was both received and echoed. Taking the
    /// summary moves the session to `Done`, so it is taken at most once.
    pub fn take_summary(&mut self, elapsed_ms: u64) -> (s: Summary)
        requires
            old(self).wf(),
            old(self).phase == Phase::Finished,
        ensures
            final(self).wf(),
            final(self).phase == Phase::Done,
            final(self).spec_next_action() == Action::Stop,
            final(self).total_bytes == old(self).total_bytes,
            final(self).iterations_done == old(self).iterations_done,
            final(self).buffer_size == old(self).buffer_size,
            final(self).iterations == old(self).iterations,
            s == spec_summary((old(self).total_bytes * 2) as u64, elapsed_ms),
            s.transferred_bytes == 2 * (old(self).iterations * old(self).buffer_size),
    {
        proof {
            lemma_mul_inequality(
                self.iterations_done as int,
                self.iterations as int,
                self.buffer_size as int,
            );
        }
        let transferred: u64 = (self.total_bytes * 2) as u64;
        self.phase = Phase::Done;
        make_summary(transferred, elapsed_ms)
    }
}

/// After any number of complete echo iterations, with no partially tallied
/// buffer outstanding, the session's accumulated byte total equals the number
/// of completed iterations times the buffer size (pre-doubling).
pub proof fn lemma_byte_total(s: Session)
    requires
        s.wf(),
        s.phase != Phase::Echoing,
        s.phase != Phase::Failed,
    ensures
        s.total_bytes == s.iterations_done * s.buffer_size,
{
}

/// Round trip: when a buffer has been fully received, the payload the session
/// hands out to be echoed is bit-identical to the bytes received this
/// iteration, and is exactly one buffer long.
pub proof fn lemma_round_trip(s: Session)
    requires
        s.wf(),
        s.phase == Phase::Echoing,
    ensures
        s.buf@ == s.received_so_far(),
        s.received_so_far().len() == s.buffer_size,
{
    assert(s.buf@.subrange(0, s.received as int) =~= s.buf@);
}

/// A session whose peer closed the connection before a full buffer arrived
/// never reports: the only action it asks for is to stop, and its byte total
/// still reflects only the iterations completed before the close.
pub proof fn lemma_closed_never_reports(s: Session)
    requires
        s.wf(),
        s.phase == Phase::Closed,
    ensures
        s.spec_next_action() == Action::Stop,
        s.spec_next_action() != Action::Report,
        s.total_bytes == s.iterations_done * s.buffer_size,
{
}

/// Concurrent sessions are independent. For any group of sessions, a step
/// taken on one of them — whatever that step does to it — leaves every other
/// session of the group exactly as it was; and each session of the group
/// that has finished its iterations has a byte total scoped to its own work
/// alone, its own iteration count times its own buffer size, with no other
/// session's bytes in it.
pub proof fn lemma_sessions_independent(sessions: Seq<Session>, i: int, stepped: Session)
    requires
        0 <= i < sessions.len(),
        forall|j: int| 0 <= j < sessions.len() ==> (#[trigger] sessions[j]).wf(),
    ensures
        forall|j: int|
            0 <= j < sessions.len() && j != i ==> sessions.update(i, stepped)[j] == sessions[j],
        forall|j: int|
            0 <= j < sessions.len() && (#[trigger] sessions[j]).phase == Phase::Finished
                ==> sessions[j].total_bytes == sessions[j].iterations * sessions[j].buffer_size,
{
}

/// A session owes a report exactly when every iteration is complete, and
/// once the summary is taken the only action left is to stop: a session that
/// completes all its iterations emits exactly one summary.
pub proof fn lemma_report_once(s: Session)
    requires
        s.wf(),
    ensures
        s.spec_next_action() == Action::Report <==> s.phase == Phase::Finished,
        s.phase == Phase::Finished ==> s.iterations_done == s.iterations,
        s.phase == Phase::Done ==> s.spec_next_action() == Action::Stop,
{
}

} // verus!
