//! Per-job outcomes and the batch-wide diagnostic buffer.

use vstd::prelude::*;

use crate::error::Error;

verus! {

/// The terminal record for one dispatched job: which worker it targeted,
/// whether its process exited cleanly, and the captured output.
#[derive(Debug)]
pub struct DispatchOutcome {
    pub worker_name: String,
    pub success: bool,
    pub diagnostic: Vec<u8>,
}

/// Accumulates the diagnostic payloads of a whole batch for operator review.
#[derive(Debug)]
pub struct BotOutput {
    pub inner_buf: Vec<u8>,
    pub stdout: String,
    pub stderr: String,
    pub success: bool,
}

impl BotOutput {
    /// An empty buffer for a run that has produced nothing yet.
    pub fn new() -> (r: BotOutput)
        ensures
            r.inner_buf@.len() == 0,
            r.stdout@.len() == 0,
            r.stderr@.len() == 0,
            r.success,
    {
        BotOutput {
            inner_buf: Vec::new(),
            stdout: String::new(),
            stderr: String::new(),
            success: true,
        }
    }

    /// Wraps the captured streams of one finished process.
    pub fn from_streams(inner_buf: Vec<u8>, stdout: String, stderr: String, success: bool) -> (r:
        BotOutput)
        ensures
            r.inner_buf == inner_buf,
            r.stdout == stdout,
            r.stderr == stderr,
            r.success == success,
    {
        BotOutput { inner_buf, stdout, stderr, success }
    }

    /// The record of a job that failed before it produced any output: the
    /// error's description stands as its diagnostic.
    pub fn from_error(e: &Error) -> (r: BotOutput)
        ensures
            r.inner_buf@.len() == 0,
            r.stdout@.len() == 0,
            r.stderr@ == e.spec_message(),
            !r.success,
    {
        BotOutput {
            inner_buf: Vec::new(),
            stdout: String::new(),
            stderr: e.message(),
            success: false,
        }
    }

    /// The accumulated diagnostic bytes.
    pub fn inner_buf(&self) -> (r: &[u8])
        ensures
            r@ == self.inner_buf@,
    {
        self.inner_buf.as_slice()
    }

    /// The captured standard output.
    pub fn stdout(&self) -> (r: &str)
        ensures
            r@ == self.stdout@,
    {
        self.stdout.as_str()
    }

    /// The captured standard error.
    pub fn stderr(&self) -> (r: &str)
        ensures
            r@ == self.stderr@,
    {
        self.stderr.as_str()
    }

    /// Appends one job's diagnostic payload to the buffer.
    pub fn add_message(&mut self, message: &[u8])
        ensures
            final(self).inner_buf@ == old(self).inner_buf@ + message@,
            final(self).stdout == old(self).stdout,
            final(self).stderr == old(self).stderr,
            final(self).success == old(self).success,
    {
        let n = message.len();
        let mut j: usize = 0;
        while j < n
            invariant
                n == message@.len(),
                j <= n,
                self.inner_buf@ == old(self).inner_buf@ + message@.subrange(0, j as int),
                self.stdout == old(self).stdout,
                self.stderr == old(self).stderr,
                self.success == old(self).success,
            decreases n - j,
        {
            let b = message[j];
            self.inner_buf.push(b);
            proof {
                assert(old(self).inner_buf@ + message@.subrange(0, (j + 1) as int) =~= (old(
                    self,
                ).inner_buf@ + message@.subrange(0, j as int)).push(message@[j as int]));
            }
            j = j + 1;
        }
        proof {
            assert(message@.subrange(0, n as int) =~= message@);
        }
    }
}

} // verus!
