//! Worker records: a bot's name and availability status, the parsing of raw
//! datastore text into a status, and the eligibility filter that decides
//! which bots may be dispatched.

use vstd::prelude::*;

use crate::text::{ascii_upper, string_eq_str, upper_chars};
use crate::W;

verus! {

/// A status under which the bot is reachable.
#[derive(Clone, Copy, Debug, PartialEq, Eq, Structural, Hash)]
pub enum BotStatusReady {
    Idle,
    Pending,
    LoggedOut,
}

/// A status under which the bot cannot be reached.
#[derive(Clone, Copy, Debug, PartialEq, Eq, Structural, Hash)]
pub enum BotStatusNotReady {
    Offline,
    Unavailable,
    Private,
}

/// The full availability status of a bot.
#[derive(Clone, Copy, Debug, PartialEq, Eq, Structural, Hash)]
pub enum BotStatus {
    Ready(BotStatusReady),
    NotReady(BotStatusNotReady),
}

impl BotStatus {
    /// The canonical upper-case text of a status, as the datastore writes it.
    pub open spec fn spec_text(self) -> Seq<char> {
        match self {
            BotStatus::Ready(BotStatusReady::Idle) => "IDLE"@,
            BotStatus::Ready(BotStatusReady::Pending) => "PENDING"@,
            BotStatus::Ready(BotStatusReady::LoggedOut) => "LOGGED OUT"@,
            BotStatus::NotReady(BotStatusNotReady::Offline) => "OFFLINE"@,
            BotStatus::NotReady(BotStatusNotReady::Private) => "PRIVATE"@,
            BotStatus::NotReady(BotStatusNotReady::Unavailable) => "UNAVAILABLE"@,
        }
    }

    /// Renders the canonical text of this status.
    pub fn text(&self) -> (r: String)
        ensures
            r@ == self.spec_text(),
    {
        match self {
            BotStatus::Ready(BotStatusReady::Idle) => String::from_str("IDLE"),
            BotStatus::Ready(BotStatusReady::Pending) => String::from_str("PENDING"),
            BotStatus::Ready(BotStatusReady::LoggedOut) => String::from_str("LOGGED OUT"),
            BotStatus::NotReady(BotStatusNotReady::Offline) => String::from_str("OFFLINE"),
            BotStatus::NotReady(BotStatusNotReady::Private) => String::from_str("PRIVATE"),
            BotStatus::NotReady(BotStatusNotReady::Unavailable) => String::from_str("UNAVAILABLE"),
        }
    }

    /// What a raw status text means, after ASCII upper-casing.  Text that
    /// matches no known status is coerced to `NotReady(Unavailable)`; that
    /// coercion is this library's one deterministic choice for unparseable
    /// input.
    pub open spec fn spec_parse(s: Seq<char>) -> BotStatus {
        let u = upper_chars(s);
        if u == "IDLE"@ {
            BotStatus::Ready(BotStatusReady::Idle)
        } else if u == "PENDING"@ {
            BotStatus::Ready(BotStatusReady::Pending)
        } else if u == "OFFLINE"@ {
            BotStatus::NotReady(BotStatusNotReady::Offline)
        } else if u == "PRIVATE"@ {
            BotStatus::NotReady(BotStatusNotReady::Private)
        } else if u == "UNAVAILABLE"@ {
            BotStatus::NotReady(BotStatusNotReady::Unavailable)
        } else if u == "LOGGED OUT"@ {
            BotStatus::Ready(BotStatusReady::LoggedOut)
        } else {
            BotStatus::NotReady(BotStatusNotReady::Unavailable)
        }
    }

    /// Parses raw datastore text into a status, case-insensitively.
    pub fn parse(s: &str) -> (r: BotStatus)
        ensures
            r == BotStatus::spec_parse(s@),
    {
        let u = ascii_upper(s);
        if string_eq_str(&u, "IDLE") {
            BotStatus::Ready(BotStatusReady::Idle)
        } else if string_eq_str(&u, "PENDING") {
            BotStatus::Ready(BotStatusReady::Pending)
        } else if string_eq_str(&u, "OFFLINE") {
            BotStatus::NotReady(BotStatusNotReady::Offline)
        } else if string_eq_str(&u, "PRIVATE") {
            BotStatus::NotReady(BotStatusNotReady::Private)
        } else if string_eq_str(&u, "UNAVAILABLE") {
            BotStatus::NotReady(BotStatusNotReady::Unavailable)
        } else if string_eq_str(&u, "LOGGED OUT") {
            BotStatus::Ready(BotStatusReady::LoggedOut)
        } else {
            BotStatus::NotReady(BotStatusNotReady::Unavailable)
        }
    }
}

/// Law: rendering a status as its canonical text and parsing that text back
/// yields the same status, for every status.
pub proof fn lemma_status_text_round_trip(st: BotStatus)
    ensures
        BotStatus::spec_parse(st.spec_text()) == st,
{
    reveal_strlit("IDLE");
    reveal_strlit("PENDING");
    reveal_strlit("LOGGED OUT");
    reveal_strlit("OFFLINE");
    reveal_strlit("PRIVATE");
    reveal_strlit("UNAVAILABLE");
    assert(upper_chars("IDLE"@) =~= "IDLE"@);
    assert(upper_chars("PENDING"@) =~= "PENDING"@);
    assert(upper_chars("LOGGED OUT"@) =~= "LOGGED OUT"@);
    assert(upper_chars("OFFLINE"@) =~= "OFFLINE"@);
    assert(upper_chars("PRIVATE"@) =~= "PRIVATE"@);
    assert(upper_chars("UNAVAILABLE"@) =~= "UNAVAILABLE"@);
    // The canonical texts are pairwise distinct; the three of equal length
    // differ within their first two characters.
    assert("OFFLINE"@[0] != "PENDING"@[0]);
    assert("PRIVATE"@[1] != "PENDING"@[1]);
    assert("PRIVATE"@[0] != "OFFLINE"@[0]);
}

/// A raw worker row, as read from the datastore: both columns may be absent.
#[derive(Clone, Debug)]
pub struct BaseBot {
    pub name: Option<String>,
    pub status: Option<String>,
}

impl BaseBot {
    /// Packs the two raw columns of a datastore row.
    pub fn new(name: Option<String>, status: Option<String>) -> (r: BaseBot)
        ensures
            r.name == name,
            r.status == status,
    {
        BaseBot { name, status }
    }
}

/// An immutable snapshot of a worker: its (upper-cased) name and its status.
#[derive(Clone, Debug)]
pub struct Bot {
    pub name: String,
    pub status: BotStatus,
}

impl Bot {
    /// The (upper-cased) name a raw row denotes; a missing name is empty.
    pub open spec fn spec_base_name(base: BaseBot) -> Seq<char> {
        match base.name {
            Some(n) => upper_chars(n@),
            None => Seq::<char>::empty(),
        }
    }

    /// The status a raw row denotes; a missing status is coerced to
    /// `NotReady(Unavailable)`, like unparseable text.
    pub open spec fn spec_base_status(base: BaseBot) -> BotStatus {
        match base.status {
            Some(s) => BotStatus::spec_parse(s@),
            None => BotStatus::NotReady(BotStatusNotReady::Unavailable),
        }
    }

    /// Builds the worker snapshot for a raw datastore row: the name is
    /// upper-cased and the status text parsed.
    pub fn from_base(base: BaseBot) -> (r: Bot)
        ensures
            r.name@ == Bot::spec_base_name(base),
            r.status == Bot::spec_base_status(base),
    {
        let name = match base.name {
            Some(n) => ascii_upper(n.as_str()),
            None => String::new(),
        };
        let status = match base.status {
            Some(s) => BotStatus::parse(s.as_str()),
            None => BotStatus::NotReady(BotStatusNotReady::Unavailable),
        };
        Bot { name, status }
    }

    /// The worker's name.
    pub fn name(&self) -> (r: &str)
        ensures
            r@ == self.name@,
    {
        self.name.as_str()
    }

    /// Whether the worker is reachable but currently logged out.
    pub open spec fn spec_is_logged_out(self) -> bool {
        self.status == BotStatus::Ready(BotStatusReady::LoggedOut)
    }

    /// True exactly when the status is `Ready(LoggedOut)`.
    pub fn is_logged_out(&self) -> (r: bool)
        ensures
            r == self.spec_is_logged_out(),
    {
        self.status == BotStatus::Ready(BotStatusReady::LoggedOut)
    }

    /// Whether a status admits dispatch: only `Ready(Idle)` and
    /// `Ready(LoggedOut)` do.  `Ready(Pending)` means a transition is already
    /// in flight and must not be raced, so it never dispatches.
    pub open spec fn dispatchable(self) -> bool {
        self.status == BotStatus::Ready(BotStatusReady::Idle) || self.status == BotStatus::Ready(
            BotStatusReady::LoggedOut,
        )
    }

    /// The eligibility filter: a dispatchable worker comes back with its
    /// status normalized to `Ready(Idle)`; every other worker is excluded.
    pub open spec fn spec_filter(self) -> Option<Bot> {
        if self.dispatchable() {
            Some(Bot { name: self.name, status: BotStatus::Ready(BotStatusReady::Idle) })
        } else {
            None
        }
    }

    /// Applies the eligibility filter to this worker.
    pub fn is_available(&self) -> (r: Option<Bot>)
        ensures
            r == self.spec_filter(),
    {
        match self.status {
            BotStatus::Ready(BotStatusReady::Idle) | BotStatus::Ready(BotStatusReady::LoggedOut) =>
                Some(
                Bot { name: self.name.clone(), status: BotStatus::Ready(BotStatusReady::Idle) },
            ),
            _ => None,
        }
    }

    /// Applies the eligibility filter; alias kept for callers of the older
    /// name.
    pub fn if_available(&self) -> (r: Option<Bot>)
        ensures
            r == self.spec_filter(),
    {
        self.is_available()
    }
}

/// Law: a worker whose status is `Ready(Pending)` or any `NotReady` variant
/// is excluded by the eligibility filter.
pub proof fn lemma_filter_excludes_unready(b: Bot)
    requires
        b.status == BotStatus::Ready(BotStatusReady::Pending) || b.status is NotReady,
    ensures
        b.spec_filter() is None,
{
}

/// Law: a worker whose status is `Ready(Idle)` or `Ready(LoggedOut)` passes
/// the eligibility filter with the same name and its status normalized to
/// `Ready(Idle)`.
pub proof fn lemma_filter_admits_ready(b: Bot)
    requires
        b.status == BotStatus::Ready(BotStatusReady::Idle) || b.status == BotStatus::Ready(
            BotStatusReady::LoggedOut,
        ),
    ensures
        b.spec_filter() == Some(
            Bot { name: b.name, status: BotStatus::Ready(BotStatusReady::Idle) },
        ),
{
}

impl W<Vec<Bot>> {
    /// Wraps a list of workers.
    pub fn new(bots: Vec<Bot>) -> (r: Self)
        ensures
            r.0@ == bots@,
    {
        W(bots)
    }
}

} // verus!
