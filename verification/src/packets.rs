//! Job descriptors: an eligible worker paired with the job to run on it, and
//! the batch collection the dispatch engine consumes.

use vstd::prelude::*;

use crate::bot::{Bot, BotStatus, BotStatusReady};

verus! {

/// One dispatchable unit: a worker and the name of the job to run on it.
/// Created after filtering and consumed exactly once by the dispatch engine.
#[derive(Debug)]
pub struct Packet {
    pub bot: Bot,
    pub process_name: String,
}

impl Packet {
    /// Pairs a worker with a job name.
    pub fn new(bot: Bot, process_name: String) -> (r: Packet)
        ensures
            r.bot == bot,
            r.process_name == process_name,
    {
        Packet { bot, process_name }
    }
}

/// The status a worker carries once its packet is collected: a logged-out
/// worker is normalized to idle immediately before dispatch, every other
/// status is kept.
pub open spec fn normalized_status(s: BotStatus) -> BotStatus {
    if s == BotStatus::Ready(BotStatusReady::LoggedOut) {
        BotStatus::Ready(BotStatusReady::Idle)
    } else {
        s
    }
}

/// A whole batch of job descriptors, ready for the dispatch engine.
#[derive(Debug)]
pub struct Dispatchable {
    pub bots: Vec<Packet>,
}

impl Dispatchable {
    /// Collects packets into a batch, normalizing each logged-out worker to
    /// idle and keeping names, order and job names unchanged.
    pub fn from_packets(packets: Vec<Packet>) -> (r: Dispatchable)
        ensures
            r.bots@.len() == packets@.len(),
            forall|i: int|
                0 <= i < packets@.len() ==> {
                    &&& (#[trigger] r.bots@[i]).bot.name@ == packets@[i].bot.name@
                    &&& r.bots@[i].bot.status == normalized_status(packets@[i].bot.status)
                    &&& r.bots@[i].process_name@ == packets@[i].process_name@
                },
    {
        let mut bots: Vec<Packet> = Vec::new();
        let n = packets.len();
        let mut i: usize = 0;
        while i < n
            invariant
                n == packets@.len(),
                i <= n,
                bots@.len() == i,
                forall|j: int|
                    0 <= j < i ==> {
                        &&& (#[trigger] bots@[j]).bot.name@ == packets@[j].bot.name@
                        &&& bots@[j].bot.status == normalized_status(packets@[j].bot.status)
                        &&& bots@[j].process_name@ == packets@[j].process_name@
                    },
            decreases n - i,
        {
            let p = &packets[i];
            let status = if p.bot.is_logged_out() {
                BotStatus::Ready(BotStatusReady::Idle)
            } else {
                p.bot.status
            };
            bots.push(
                Packet {
                    bot: Bot { name: p.bot.name.clone(), status },
                    process_name: p.process_name.clone(),
                },
            );
            i = i + 1;
        }
        Dispatchable { bots }
    }
}

} // verus!
