//! The control-room roster view: a bot's name with the state the roster
//! reports for it, and the selection of bots that are ready for work.

use vstd::prelude::*;

use crate::text::string_eq_str;

verus! {

/// A bot's state as the control-room roster reports it.
#[derive(Clone, Copy, Debug, PartialEq, Eq, Structural, Hash)]
pub enum Status {
    Idle,
    Running,
    Completed,
    Pending,
    Failed,
    Unknown,
}

impl Status {
    /// What a raw roster cell means; the match is exact, and text that names
    /// no known state is `Unknown`.
    pub open spec fn spec_parse(s: Seq<char>) -> Status {
        if s == "Idle"@ {
            Status::Idle
        } else if s == "Pending"@ {
            Status::Pending
        } else if s == "Running"@ {
            Status::Running
        } else if s == "Completed"@ {
            Status::Completed
        } else if s == "Failed"@ {
            Status::Failed
        } else {
            Status::Unknown
        }
    }

    /// Parses one roster cell.
    pub fn parse(s: &str) -> (r: Status)
        ensures
            r == Status::spec_parse(s@),
    {
        let owned = String::from_str(s);
        if string_eq_str(&owned, "Idle") {
            Status::Idle
        } else if string_eq_str(&owned, "Pending") {
            Status::Pending
        } else if string_eq_str(&owned, "Running") {
            Status::Running
        } else if string_eq_str(&owned, "Completed") {
            Status::Completed
        } else if string_eq_str(&owned, "Failed") {
            Status::Failed
        } else {
            Status::Unknown
        }
    }
}

/// One roster entry: the bot's name and its reported state.  Two entries are
/// the same bot exactly when their names agree.
#[derive(Debug)]
pub struct Bot {
    pub name: String,
    pub status: Status,
}

impl Bot {
    /// Packs one roster entry.
    pub fn new(name: String, status: Status) -> (r: Bot)
        ensures
            r.name == name,
            r.status == status,
    {
        Bot { name, status }
    }

    /// The bot's name.
    pub fn name(&self) -> (r: &str)
        ensures
            r@ == self.name@,
    {
        self.name.as_str()
    }

    /// The bot's reported state.
    pub fn status(&self) -> (r: &Status)
        ensures
            *r == self.status,
    {
        &self.status
    }
}

impl PartialEq for Bot {
    fn eq(&self, other: &Self) -> (r: bool) {
        self.name.eq(&other.name)
    }
}

impl vstd::std_specs::cmp::PartialEqSpecImpl for Bot {
    open spec fn obeys_eq_spec() -> bool {
        true
    }

    open spec fn eq_spec(&self, other: &Bot) -> bool {
        self.name@ == other.name@
    }
}

/// The names of the roster entries that are idle, in roster order.
pub open spec fn spec_idle_names(entries: Seq<(String, Status)>) -> Seq<Seq<char>>
    decreases entries.len(),
{
    if entries.len() == 0 {
        Seq::empty()
    } else {
        spec_idle_names(entries.drop_last()) + (if entries.last().1 == Status::Idle {
            seq![entries.last().0@]
        } else {
            Seq::<Seq<char>>::empty()
        })
    }
}

/// The name views of a list of roster entries.
pub open spec fn bot_names(bots: Seq<Bot>) -> Seq<Seq<char>> {
    bots.map_values(|b: Bot| b.name@)
}

/// Keeps exactly the idle roster entries, as bots ready for work, in order.
pub fn select_idle(entries: &Vec<(String, Status)>) -> (r: Vec<Bot>)
    ensures
        bot_names(r@) == spec_idle_names(entries@),
        forall|j: int| 0 <= j < r@.len() ==> (#[trigger] r@[j]).status == Status::Idle,
{
    let mut r: Vec<Bot> = Vec::new();
    let n = entries.len();
    let mut i: usize = 0;
    proof {
        assert(bot_names(r@) =~= spec_idle_names(entries@.subrange(0, 0)));
    }
    while i < n
        invariant
            n == entries@.len(),
            i <= n,
            bot_names(r@) == spec_idle_names(entries@.subrange(0, i as int)),
            forall|j: int| 0 <= j < r@.len() ==> (#[trigger] r@[j]).status == Status::Idle,
        decreases n - i,
    {
        let e = &entries[i];
        if e.1 == Status::Idle {
            r.push(Bot { name: e.0.clone(), status: Status::Idle });
        }
        proof {
            assert(entries@.subrange(0, (i + 1) as int).drop_last() =~= entries@.subrange(
                0,
                i as int,
            ));
            assert(entries@.subrange(0, (i + 1) as int).last() == entries@[i as int]);
            if entries@[i as int].1 == Status::Idle {
                assert(bot_names(r@) =~= spec_idle_names(entries@.subrange(0, i as int)).push(
                    entries@[i as int].0@,
                ));
                assert(spec_idle_names(entries@.subrange(0, (i + 1) as int)) =~= spec_idle_names(
                    entries@.subrange(0, i as int),
                ).push(entries@[i as int].0@));
            } else {
                assert(spec_idle_names(entries@.subrange(0, (i + 1) as int)) =~= spec_idle_names(
                    entries@.subrange(0, i as int),
                ));
            }
        }
        i = i + 1;
    }
    proof {
        assert(entries@.subrange(0, n as int) =~= entries@);
    }
    r
}

} // verus!
