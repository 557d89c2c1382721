//! The configuration of one batch run, and the pairing of its workers with
//! the job it runs.

use vstd::prelude::*;

use crate::bot::Bot;
use crate::packets::Packet;

verus! {

/// Everything one batch run is configured with: the job to run, the
/// concurrency limit, how many workers to consider at most, and the already
/// loaded query text.
#[derive(Debug)]
pub struct Runner {
    pub process: String,
    pub concurrency_limit: usize,
    pub total_run_on: usize,
    pub sql_file_contents: String,
}

impl Runner {
    /// Packs a run configuration.
    pub fn new(
        process: String,
        concurrency_limit: usize,
        total_run_on: usize,
        sql_file_contents: String,
    ) -> (r: Runner)
        ensures
            r.process == process,
            r.concurrency_limit == concurrency_limit,
            r.total_run_on == total_run_on,
            r.sql_file_contents == sql_file_contents,
    {
        Runner { process, concurrency_limit, total_run_on, sql_file_contents }
    }

    /// The job this run dispatches.
    pub fn process(&self) -> (r: &str)
        ensures
            r@ == self.process@,
    {
        self.process.as_str()
    }

    /// The concurrency budget of this run.
    pub fn concurrency_limit(&self) -> (r: usize)
        ensures
            r == self.concurrency_limit,
    {
        self.concurrency_limit
    }

    /// How many workers this run considers at most.
    pub fn total_run_on(&self) -> (r: usize)
        ensures
            r == self.total_run_on,
    {
        self.total_run_on
    }

    /// Pairs every worker with this run's job name, in order.
    pub fn make_packets(&self, bots: Vec<Bot>) -> (r: Vec<Packet>)
        ensures
            r@.len() == bots@.len(),
            forall|i: int|
                0 <= i < bots@.len() ==> {
                    &&& (#[trigger] r@[i]).bot == bots@[i]
                    &&& r@[i].process_name@ == self.process@
                },
    {
        let mut r: Vec<Packet> = Vec::new();
        let mut rest = bots;
        let n = rest.len();
        let mut i: usize = 0;
        while i < n
            invariant
                n == rest@.len(),
                i <= n,
                r@.len() == i,
                forall|j: int|
                    0 <= j < i ==> {
                        &&& (#[trigger] r@[j]).bot == rest@[j]
                        &&& r@[j].process_name@ == self.process@
                    },
            decreases n - i,
        {
            let name = rest[i].name.clone();
            let status = rest[i].status;
            r.push(Packet { bot: Bot { name, status }, process_name: self.process.clone() });
            proof {
                assert(r@[i as int].bot.name@ == rest@[i as int].name@);
            }
            i = i + 1;
        }
        r
    }
}

} // verus!
