//! The membership status of the local network and the nodes it isolates.
use vstd::prelude::*;
use vstd::string::{StrSliceExecFns, StringExecFns};
use std::collections::BTreeSet;
use crate::clock::now_millis;
use super::summary::RaftState;

verus! {

broadcast use {vstd::std_specs::btree::group_btree_axioms, vstd::laws_cmp::group_laws_cmp};

/// The membership status of a network in the cluster.
#[derive(Debug, Clone, Copy, PartialEq, Eq, Structural)]
pub enum Status {
    Joining,
    WeaklyUp,
    Up,
    Leaving,
    Exiting,
    Down,
    Removed,
}

/// Whether the network stands alone or is connected to other nodes.
#[derive(Debug, Clone, Copy, PartialEq, Eq, Structural)]
pub enum Extent {
    SingleNode,
    Cluster,
}

/// Errors of the status state machine.
#[derive(Debug, Clone, Copy, PartialEq, Eq, Structural)]
pub enum StateError {
    InvalidStatusTransition(Status, Status),
}

/// Whether a network may move from status `from` to status `to`.
///
/// `Removed` is final; any other status may go `Down`; otherwise the path is
/// `Joining -> (WeaklyUp ->) Up -> Leaving -> Exiting -> Removed`, and `Down -> Removed`.
pub open spec fn valid_transition(from: Status, to: Status) -> bool {
    match (from, to) {
        (Status::Removed, _) => false,
        (_, Status::Down) => true,
        (Status::Joining, Status::WeaklyUp) => true,
        (Status::Joining, Status::Up) => true,
        (Status::WeaklyUp, Status::Up) => true,
        (Status::Up, Status::Leaving) => true,
        (Status::Leaving, Status::Exiting) => true,
        (Status::Down, Status::Removed) => true,
        (Status::Exiting, Status::Removed) => true,
        _ => false,
    }
}

impl Status {
    /// The name of the status, as it is displayed.
    pub fn name(&self) -> (r: &'static str)
        ensures
            r@ == status_name(*self),
    {
        proof {
            reveal_strlit("Joining");
            reveal_strlit("WeaklyUp");
            reveal_strlit("Up");
            reveal_strlit("Leaving");
            reveal_strlit("Exiting");
            reveal_strlit("Down");
            reveal_strlit("Removed");
        }
        match self {
            Status::Joining => "Joining",
            Status::WeaklyUp => "WeaklyUp",
            Status::Up => "Up",
            Status::Leaving => "Leaving",
            Status::Exiting => "Exiting",
            Status::Down => "Down",
            Status::Removed => "Removed",
        }
    }
}

/// The displayed name of a status: its variant's name.
pub open spec fn status_name(s: Status) -> Seq<char> {
    match s {
        Status::Joining => seq!['J', 'o', 'i', 'n', 'i', 'n', 'g'],
        Status::WeaklyUp => seq!['W', 'e', 'a', 'k', 'l', 'y', 'U', 'p'],
        Status::Up => seq!['U', 'p'],
        Status::Leaving => seq!['L', 'e', 'a', 'v', 'i', 'n', 'g'],
        Status::Exiting => seq!['E', 'x', 'i', 't', 'i', 'n', 'g'],
        Status::Down => seq!['D', 'o', 'w', 'n'],
        Status::Removed => seq!['R', 'e', 'm', 'o', 'v', 'e', 'd'],
    }
}

impl Extent {
    /// The name of the extent, as it is displayed.
    pub fn name(&self) -> (r: &'static str)
        ensures
            r@ == extent_name(*self),
    {
        proof {
            reveal_strlit("SingleNode");
            reveal_strlit("Cluster");
        }
        match self {
            Extent::SingleNode => "SingleNode",
            Extent::Cluster => "Cluster",
        }
    }
}

/// The displayed name of an extent: its variant's name.
pub open spec fn extent_name(e: Extent) -> Seq<char> {
    match e {
        Extent::SingleNode => seq!['S', 'i', 'n', 'g', 'l', 'e', 'N', 'o', 'd', 'e'],
        Extent::Cluster => seq!['C', 'l', 'u', 's', 't', 'e', 'r'],
    }
}

impl StateError {
    /// The text of the error: `cannot transition from <from> status to <to>`.
    pub fn message(&self) -> (r: String)
        ensures
            match *self {
                StateError::InvalidStatusTransition(from, to) => r@ == "cannot transition from "@
                    + status_name(from) + " status to "@ + status_name(to),
            },
    {
        match self {
            StateError::InvalidStatusTransition(from, to) => {
                let mut m = "cannot transition from ".to_owned();
                m.append(from.name());
                m.append(" status to ");
                m.append(to.name());
                m
            },
        }
    }
}

/// One stay of the network in a status: when it was entered and, once left, when it was left.
/// Times are milliseconds since the Unix epoch.
#[derive(Debug, Clone, Copy, PartialEq, Eq, Structural)]
pub struct StatusEntry {
    pub status: Status,
    pub entry: i64,
    pub exit: Option<i64>,
}

/// The time spent in an entry, in milliseconds, measured up to `now` while it is still open.
pub open spec fn entry_millis(e: StatusEntry, now: i64) -> int {
    match e.exit {
        Some(x) => x - e.entry,
        None => now - e.entry,
    }
}

impl StatusEntry {
    /// A new, still open entry into `status` at time `entry`.
    pub fn new(status: Status, entry: i64) -> (r: StatusEntry)
        ensures
            r == (StatusEntry { status, entry, exit: None }),
    {
        StatusEntry { status, entry, exit: None }
    }

    /// The time spent in this entry, measured up to `now` if it is still open.
    pub fn duration_in_at(&self, now: i64) -> (r: i64)
        requires
            i64::MIN <= entry_millis(*self, now) <= i64::MAX,
        ensures
            r == entry_millis(*self, now),
    {
        match self.exit {
            Some(x) => x - self.entry,
            None => now - self.entry,
        }
    }

    /// The time spent in this entry, measured up to the current time if it is still open;
    /// `None` where that time does not fit in an `i64` of milliseconds.
    pub fn duration_in(&self) -> (r: Option<i64>)
        ensures
            exists|now: i64|
                r == if i64::MIN <= entry_millis(*self, now) <= i64::MAX {
                    Some(entry_millis(*self, now) as i64)
                } else {
                    None::<i64>
                },
            r matches Some(d) ==> self.exit matches Some(x) ==> d == x - self.entry,
            self.exit matches Some(x) ==> (r is Some <==> i64::MIN <= x - self.entry <= i64::MAX),
    {
        let now = now_millis();
        let last: i64 = match self.exit {
            Some(x) => x,
            None => now,
        };
        if self.entry >= 0 {
            if last < i64::MIN + self.entry {
                assert(!(i64::MIN <= entry_millis(*self, now) <= i64::MAX));
                return None;
            }
        } else {
            if last > i64::MAX + self.entry {
                assert(!(i64::MIN <= entry_millis(*self, now) <= i64::MAX));
                return None;
            }
        }
        let d = self.duration_in_at(now);
        assert(d == entry_millis(*self, now));
        Some(d)
    }
}

/// The abstract state of a network's membership.
pub struct NetworkStateView {
    pub status: Status,
    pub log: Seq<StatusEntry>,
    pub connected: Set<u64>,
    pub isolated: Set<u64>,
}

/// The network's membership status, the timeline of statuses it went through, and which
/// nodes it currently holds connected or isolated.
pub struct NetworkState {
    pub status: Status,
    log: Vec<StatusEntry>,
    connected_nodes: BTreeSet<u64>,
    isolated_nodes: BTreeSet<u64>,
}

impl View for NetworkState {
    type V = NetworkStateView;

    closed spec fn view(&self) -> NetworkStateView {
        NetworkStateView {
            status: self.status,
            log: self.log@,
            connected: self.connected_nodes@,
            isolated: self.isolated_nodes@,
        }
    }
}

/// The timeline is well formed: it starts with `Joining`, every entry but the last was left
/// exactly when the next one was entered, the last is still open, and every step is a valid
/// transition.
pub open spec fn timeline_wf(log: Seq<StatusEntry>) -> bool {
    &&& log.len() > 0
    &&& log[0].status == Status::Joining
    &&& log.last().exit is None
    &&& forall|i: int, j: int|
        0 <= i && j == i + 1 && j < log.len() ==> (#[trigger] log[i]).exit == Some(
            (#[trigger] log[j]).entry,
        )
    &&& forall|i: int, j: int|
        0 <= i && j == i + 1 && j < log.len() ==> valid_transition(
            (#[trigger] log[i]).status,
            (#[trigger] log[j]).status,
        )
}

/// Advancing a well formed timeline along a valid transition keeps it well formed.
pub proof fn lemma_advanced_timeline_wf(log: Seq<StatusEntry>, next: Status, now: i64)
    requires
        timeline_wf(log),
        valid_transition(log.last().status, next),
    ensures
        timeline_wf(
            log.update(log.len() - 1, StatusEntry { exit: Some(now), ..log.last() }).push(
                StatusEntry { status: next, entry: now, exit: None },
            ),
        ),
{
    let l = log.update(log.len() - 1, StatusEntry { exit: Some(now), ..log.last() }).push(
        StatusEntry { status: next, entry: now, exit: None },
    );
    assert(l.len() == log.len() + 1);
    assert forall|i: int, j: int| 0 <= i && j == i + 1 && j < l.len() implies (#[trigger] l[i]).exit
        == Some((#[trigger] l[j]).entry) && valid_transition(l[i].status, l[j].status) by {
        if j < log.len() - 1 {
            assert(l[i] == log[i]);
            assert(l[j] == log[j]);
        } else if j == log.len() - 1 {
            assert(l[i] == log[i]);
        }
    }
}

impl NetworkStateView {
    /// The invariant of a network state: a well formed timeline that ends in the current
    /// status, and no node both connected and isolated.
    pub open spec fn wf(self) -> bool {
        &&& timeline_wf(self.log)
        &&& self.log.last().status == self.status
        &&& self.connected.disjoint(self.isolated)
    }

    /// The state after node `id` is isolated: unless already isolated, it becomes isolated
    /// and stops being connected.
    pub open spec fn isolating(self, id: u64) -> NetworkStateView {
        if self.isolated.contains(id) {
            self
        } else {
            NetworkStateView {
                isolated: self.isolated.insert(id),
                connected: self.connected.remove(id),
                ..self
            }
        }
    }

    /// The state after node `id` is restored: if isolated, it becomes connected and stops
    /// being isolated; otherwise nothing changes.
    pub open spec fn restoring(self, id: u64) -> NetworkStateView {
        if self.isolated.contains(id) {
            NetworkStateView {
                connected: self.connected.insert(id),
                isolated: self.isolated.remove(id),
                ..self
            }
        } else {
            self
        }
    }

    /// The log after moving to `next` at time `now`.
    pub open spec fn advanced_log(self, next: Status, now: i64) -> Seq<StatusEntry> {
        self.log.update(
            self.log.len() - 1,
            StatusEntry { exit: Some(now), ..self.log.last() },
        ).push(StatusEntry { status: next, entry: now, exit: None })
    }

    /// Whether the network counts as connected to the cluster.
    pub open spec fn is_connected(self) -> bool {
        ||| self.status == Status::Up
        ||| self.status == Status::WeaklyUp
        ||| (self.status == Status::Joining && !self.connected.is_empty())
    }

    /// The extent of the network: a cluster once more than one node is connected.
    pub open spec fn extent(self) -> Extent {
        if 1 < self.connected.len() {
            Extent::Cluster
        } else {
            Extent::SingleNode
        }
    }
}

/// The total time, in milliseconds, spent in entries of `status` among `log`.
pub open spec fn total_in(log: Seq<StatusEntry>, status: Status, now: i64) -> int
    decreases log.len(),
{
    if log.len() == 0 {
        0
    } else {
        total_in(log.drop_last(), status, now) + if log.last().status == status {
            entry_millis(log.last(), now)
        } else {
            0
        }
    }
}

/// Every entry's time and every running total fit in an `i64` of milliseconds.
pub open spec fn totals_fit(log: Seq<StatusEntry>, status: Status, now: i64) -> bool {
    &&& forall|i: int|
        0 <= i < log.len() ==> i64::MIN <= entry_millis(#[trigger] log[i], now) <= i64::MAX
    &&& forall|k: int|
        0 <= k <= log.len() ==> i64::MIN <= #[trigger] total_in(log.take(k), status, now)
            <= i64::MAX
}

/// Every running total of the time spent in `status` along `log` fits in an `i64` of
/// milliseconds.
pub open spec fn running_totals_fit(log: Seq<StatusEntry>, status: Status, now: i64) -> bool {
    forall|k: int|
        0 <= k <= log.len() ==> i64::MIN <= #[trigger] total_in(log.take(k), status, now) <= i64::MAX
}

impl NetworkState {
    /// A fresh network state entered into `Joining` at time `now`, with no connected or
    /// isolated node.
    pub fn default_at(now: i64) -> (r: NetworkState)
        ensures
            r@.wf(),
            r@.status == Status::Joining,
            r@.log == seq![StatusEntry { status: Status::Joining, entry: now, exit: None }],
            r@.connected == Set::<u64>::empty(),
            r@.isolated == Set::<u64>::empty(),
    {
        let entry = StatusEntry::new(Status::Joining, now);
        let mut log = Vec::new();
        log.push(entry);
        NetworkState {
            status: entry.status,
            log,
            connected_nodes: BTreeSet::new(),
            isolated_nodes: BTreeSet::new(),
        }
    }

    /// A fresh network state entered into `Joining` now, with no connected or isolated node.
    pub fn default() -> (r: NetworkState)
        ensures
            r@.wf(),
            r@.status == Status::Joining,
            r@.log.len() == 1,
            r@.log[0].status == Status::Joining,
            r@.log[0].exit is None,
            r@.connected == Set::<u64>::empty(),
            r@.isolated == Set::<u64>::empty(),
    {
        Self::default_at(now_millis())
    }

    /// The current status.
    pub fn unwrap(&self) -> (r: Status)
        ensures
            r == self@.status,
    {
        self.status
    }

    /// Whether the network counts as connected: `Up`, `WeaklyUp`, or `Joining` with at least
    /// one connected node.
    pub fn is_connected(&self) -> (r: bool)
        ensures
            r == self@.is_connected(),
    {
        self.status == Status::Up || self.status == Status::WeaklyUp || (self.status
            == Status::Joining && !self.connected_nodes.is_empty())
    }

    /// Checks that the network may move from its current status to `next`.
    pub fn check_next_status(&self, next: Status) -> (r: Result<Status, StateError>)
        ensures
            r == (if valid_transition(self@.status, next) {
                Ok(next)
            } else {
                Err(StateError::InvalidStatusTransition(self@.status, next))
            }),
            ((self@.status == Status::Joining && (next == Status::WeaklyUp || next == Status::Up))
                || (self@.status == Status::WeaklyUp && next == Status::Up) || (self@.status
                == Status::Up && next == Status::Leaving) || (self@.status == Status::Leaving
                && next == Status::Exiting) || (self@.status == Status::Exiting && next
                == Status::Removed) || (self@.status == Status::Down && next == Status::Removed)
                || (self@.status != Status::Removed && next == Status::Down)) ==> r == Ok::<
                Status,
                StateError,
            >(next),
            self@.status == Status::Removed ==> r is Err,
    {
        match (self.status, next) {
            (Status::Removed, n) => Err(StateError::InvalidStatusTransition(Status::Removed, n)),
            (_, Status::Down) => Ok(Status::Down),
            (Status::Joining, Status::WeaklyUp) => Ok(Status::WeaklyUp),
            (Status::Joining, Status::Up) => Ok(Status::Up),
            (Status::WeaklyUp, Status::Up) => Ok(Status::Up),
            (Status::Up, Status::Leaving) => Ok(Status::Leaving),
            (Status::Leaving, Status::Exiting) => Ok(Status::Exiting),
            (Status::Down, Status::Removed) => Ok(Status::Removed),
            (Status::Exiting, Status::Removed) => Ok(Status::Removed),
            (c, n) => Err(StateError::InvalidStatusTransition(c, n)),
        }
    }

    /// Moves the network to status `next` at time `now`: closes the current entry at `now`,
    /// opens a new one, and returns the previous status.
    pub fn advance_at(&mut self, next: Status, now: i64) -> (r: Status)
        requires
            old(self)@.wf(),
            valid_transition(old(self)@.status, next),
        ensures
            r == old(self)@.status,
            final(self)@.wf(),
            final(self)@.status == next,
            final(self)@.log == old(self)@.advanced_log(next, now),
            final(self)@.connected == old(self)@.connected,
            final(self)@.isolated == old(self)@.isolated,
    {
        let checked = self.check_next_status(next);
        assert(checked is Ok);
        let last = self.log.len() - 1;
        let previous = self.log[last];
        self.log.set(last, StatusEntry { exit: Some(now), ..previous });
        let old_status = self.status;
        let next_entry = StatusEntry::new(next, now);
        self.status = next_entry.status;
        self.log.push(next_entry);
        proof {
            lemma_advanced_timeline_wf(old(self)@.log, next, now);
            assert(self@.log == old(self)@.advanced_log(next, now));
        }
        old_status
    }

    /// Moves the network to status `next` at the current time and returns the previous
    /// status.
    pub fn advance(&mut self, next: Status) -> (r: Status)
        requires
            old(self)@.wf(),
            valid_transition(old(self)@.status, next),
        ensures
            r == old(self)@.status,
            final(self)@.wf(),
            final(self)@.status == next,
            exists|now: i64| final(self)@.log == old(self)@.advanced_log(next, now),
            final(self)@.connected == old(self)@.connected,
            final(self)@.isolated == old(self)@.isolated,
    {
        let now = now_millis();
        let r = self.advance_at(next, now);
        assert(self@.log == old(self)@.advanced_log(next, now));
        r
    }

    /// The statuses the network went through, oldest first.
    pub fn timeline(&self) -> (r: Vec<StatusEntry>)
        ensures
            r@ == self@.log,
    {
        let mut r = Vec::new();
        let n = self.log.len();
        for i in 0..n
            invariant
                n == self.log@.len(),
                r@ == self.log@.take(i as int),
        {
            r.push(self.log[i]);
            assert(self.log@.take(i + 1) == self.log@.take(i as int).push(self.log@[i as int]));
        }
        assert(self.log@.take(n as int) == self.log@);
        r
    }

    /// The total time spent in `status`, in milliseconds, counting an open entry up to `now`.
    pub fn duration_in_at(&self, status: Status, now: i64) -> (r: u64)
        requires
            totals_fit(self@.log, status, now),
            0 <= total_in(self@.log, status, now),
        ensures
            r == total_in(self@.log, status, now),
    {
        let mut millis: i64 = 0;
        let n = self.log.len();
        for i in 0..n
            invariant
                n == self.log@.len(),
                totals_fit(self.log@, status, now),
                millis == total_in(self.log@.take(i as int), status, now),
        {
            let e = self.log[i];
            proof {
                let t = self.log@.take(i + 1);
                assert(t.drop_last() == self.log@.take(i as int));
                assert(t.last() == self.log@[i as int]);
                assert(i64::MIN <= total_in(t, status, now) <= i64::MAX);
                assert(i64::MIN <= entry_millis(self.log@[i as int], now) <= i64::MAX);
            }
            if e.status == status {
                millis = millis + e.duration_in_at(now);
            }
        }
        assert(self.log@.take(n as int) == self.log@);
        millis as u64
    }

    /// The total time spent in `status`, in milliseconds, counting an open entry up to the
    /// current time; `None` where a total does not fit in an `i64` or is negative.
    pub fn duration_in(&self, status: Status) -> (r: Option<u64>)
        ensures
            exists|now: i64|
                r == if running_totals_fit(self@.log, status, now) && 0 <= total_in(
                    self@.log,
                    status,
                    now,
                ) {
                    Some(total_in(self@.log, status, now) as u64)
                } else {
                    None::<u64>
                },
    {
        let now = now_millis();
        let mut millis: i64 = 0;
        let n = self.log.len();
        assert(self.log@.take(0) =~= Seq::<StatusEntry>::empty());
        for i in 0..n
            invariant
                n == self.log@.len(),
                millis == total_in(self.log@.take(i as int), status, now),
                forall|k: int|
                    0 <= k <= i ==> i64::MIN <= #[trigger] total_in(self.log@.take(k), status, now)
                        <= i64::MAX,
        {
            let e = self.log[i];
            proof {
                let t = self.log@.take(i + 1);
                assert(t.drop_last() == self.log@.take(i as int));
                assert(t.last() == self.log@[i as int]);
            }
            if e.status == status {
                let last: i64 = match e.exit {
                    Some(x) => x,
                    None => now,
                };
                let d: i128 = (last as i128) - (e.entry as i128);
                let total: i128 = (millis as i128) + d;
                if total < i64::MIN as i128 || total > i64::MAX as i128 {
                    proof {
                        assert(total == total_in(self.log@.take(i + 1), status, now));
                        assert(!running_totals_fit(self@.log, status, now));
                    }
                    return None;
                }
                millis = total as i64;
            }
        }
        assert(self.log@.take(n as int) == self.log@);
        assert(millis == total_in(self@.log, status, now));
        assert(running_totals_fit(self@.log, status, now));
        if millis < 0 {
            None
        } else {
            Some(millis as u64)
        }
    }

    /// A copy of this network state.
    pub fn duplicate(&self) -> (r: NetworkState)
        ensures
            r@ == self@,
    {
        NetworkState {
            status: self.status,
            log: self.timeline(),
            connected_nodes: self.connected_nodes.clone(),
            isolated_nodes: self.isolated_nodes.clone(),
        }
    }

    /// The nodes the network holds connected.
    pub fn connected_nodes(&self) -> (r: &BTreeSet<u64>)
        ensures
            r@ == self@.connected,
    {
        &self.connected_nodes
    }

    /// Whether `node_id` is held connected.
    pub fn is_connected_node(&self, node_id: u64) -> (r: bool)
        ensures
            r == self@.connected.contains(node_id),
    {
        self.connected_nodes.contains(&node_id)
    }

    /// The nodes the network holds isolated.
    pub fn isolated_nodes(&self) -> (r: &BTreeSet<u64>)
        ensures
            r@ == self@.isolated,
    {
        &self.isolated_nodes
    }

    /// Whether `node_id` is held isolated.
    pub fn is_isolated_node(&self, node_id: u64) -> (r: bool)
        ensures
            r == self@.isolated.contains(node_id),
    {
        self.isolated_nodes.contains(&node_id)
    }

    /// A cluster once more than one node is connected, a single node otherwise.
    pub fn extent(&self) -> (r: Extent)
        ensures
            r == self@.extent(),
            r == Extent::Cluster <==> 1 < self@.connected.len(),
    {
        if 1 < self.connected_nodes.len() {
            Extent::Cluster
        } else {
            Extent::SingleNode
        }
    }

    /// The state as it is displayed: `<status>:<extent>`.
    pub fn describe(&self) -> (r: String)
        ensures
            r@ == status_name(self@.status) + ":"@ + extent_name(self@.extent()),
    {
        let mut m = self.status.name().to_owned();
        m.append(":");
        m.append(self.extent().name());
        m
    }

    /// Isolates node `id`: unless already isolated, it becomes isolated and stops being
    /// connected.
    pub fn isolate_node(&mut self, id: u64)
        ensures
            final(self)@ == old(self)@.isolating(id),
    {
        if !self.isolated_nodes.contains(&id) {
            self.isolated_nodes.insert(id);
            self.connected_nodes.remove(&id);
        }
    }

    /// Restores node `id`: if it is isolated, it becomes connected and stops being isolated;
    /// a node that is not isolated is left as it is.
    pub fn restore_node(&mut self, id: u64)
        ensures
            final(self)@ == old(self)@.restoring(id),
    {
        if self.isolated_nodes.contains(&id) {
            self.connected_nodes.insert(id);
            self.isolated_nodes.remove(&id);
        }
    }
}

/// `Removed` is final: no status follows it.
pub proof fn law_removed_is_final(next: Status)
    ensures
        !valid_transition(Status::Removed, next),
{
}

/// Every status but `Removed` may go `Down`.
pub proof fn law_any_live_status_may_go_down(status: Status)
    requires
        status != Status::Removed,
    ensures
        valid_transition(status, Status::Down),
{
}

/// In a well formed timeline, an entry into `Removed` is the last entry.
pub proof fn law_removed_ends_timeline(log: Seq<StatusEntry>, i: int)
    requires
        timeline_wf(log),
        0 <= i < log.len(),
        log[i].status == Status::Removed,
    ensures
        i == log.len() - 1,
{
    if i + 1 < log.len() {
        assert(valid_transition(log[i].status, log[i + 1].status));
    }
}

/// Moving to a new status keeps every earlier entry but the last as it was, closes the last
/// one at the time of the move and opens exactly one new entry.
pub proof fn law_advance_keeps_history(v: NetworkStateView, next: Status, now: i64)
    requires
        v.wf(),
    ensures
        v.advanced_log(next, now).len() == v.log.len() + 1,
        forall|i: int| 0 <= i < v.log.len() - 1 ==> #[trigger] v.advanced_log(next, now)[i] == v.log[i],
        v.advanced_log(next, now)[v.log.len() - 1] == (StatusEntry { exit: Some(now), ..v.log.last() }),
        v.advanced_log(next, now).last() == (StatusEntry { status: next, entry: now, exit: None }),
{
}

/// Isolating or restoring a node keeps a network state well formed.
pub proof fn law_isolation_keeps_wf(v: NetworkStateView, id: u64)
    requires
        v.wf(),
    ensures
        v.isolating(id).wf(),
        v.restoring(id).wf(),
{
}

/// Isolating a node twice is isolating it once; so is restoring.
pub proof fn law_isolation_idempotent(v: NetworkStateView, id: u64)
    ensures
        v.isolating(id).isolating(id) == v.isolating(id),
        v.restoring(id).restoring(id) == v.restoring(id),
{
}

/// After isolating a node it is isolated and not connected; after restoring it, it is
/// connected and not isolated, unless it was not isolated.
pub proof fn law_isolation_membership(v: NetworkStateView, id: u64)
    ensures
        v.isolating(id).isolated.contains(id),
        !v.isolated.contains(id) ==> !v.isolating(id).connected.contains(id),
        v.isolated.contains(id) ==> v.restoring(id).connected.contains(id) && !v.restoring(
            id,
        ).isolated.contains(id),
        !v.isolated.contains(id) ==> v.restoring(id) == v,
{
}

/// Restoring a node undoes isolating it, except that the node ends up connected: the
/// status, the timeline and every other node are as before.
pub proof fn law_restore_undoes_isolate(v: NetworkStateView, id: u64)
    requires
        !v.isolated.contains(id),
    ensures
        v.isolating(id).restoring(id) == (NetworkStateView { connected: v.connected.insert(id), ..v }),
{
    assert(v.isolated.insert(id).remove(id) =~= v.isolated);
    assert(v.connected.remove(id).insert(id) =~= v.connected.insert(id));
}

/// Isolating and restoring leave the status and the timeline as they are.
pub proof fn law_isolation_keeps_status(v: NetworkStateView, id: u64)
    ensures
        v.isolating(id).status == v.status && v.isolating(id).log == v.log,
        v.restoring(id).status == v.status && v.restoring(id).log == v.log,
{
}

/// Whether the network keeps its status or moves on, given the state of its Raft node.
#[derive(Debug, Clone, Copy, PartialEq, Eq, Structural)]
pub enum RaftStateTarget {
    Stay,
    MoveTo(Status),
}

/// The status the network moves to when its Raft node is in `raft_state`, if it moves. A
/// joining or weakly up network is up once its Raft node takes part in a cluster that has
/// elected a leader (`leader_known`); an up network whose Raft node stops voting is leaving; a
/// down network whose Raft node is a non-voter joins again.
pub open spec fn raft_status_target(status: Status, raft_state: RaftState, leader_known: bool) -> Option<Status> {
    match (status, raft_state) {
        (Status::Joining, RaftState::NonVoter) => None,
        (Status::Joining, _) => if leader_known {
            Some(Status::Up)
        } else {
            None
        },
        (Status::WeaklyUp, RaftState::NonVoter) => None,
        (Status::WeaklyUp, _) => if leader_known {
            Some(Status::Up)
        } else {
            None
        },
        (Status::Down, RaftState::NonVoter) => Some(Status::Joining),
        (Status::Down, _) => None,
        (Status::Up, RaftState::NonVoter) => Some(Status::Leaving),
        (Status::Up, _) => None,
        (Status::Leaving, _) => None,
        (Status::Exiting, _) => None,
        (Status::Removed, _) => None,
    }
}

/// Decides whether the network keeps its status or moves on, given the state of its Raft
/// node and whether the cluster has a known leader.
pub fn raft_state_target(status: Status, raft_state: RaftState, leader_known: bool) -> (r: RaftStateTarget)
    ensures
        r == match raft_status_target(status, raft_state, leader_known) {
            Some(next) => RaftStateTarget::MoveTo(next),
            None => RaftStateTarget::Stay,
        },
        r == RaftStateTarget::MoveTo(Status::Up) <==> ((status == Status::Joining || status
            == Status::WeaklyUp) && raft_state != RaftState::NonVoter && leader_known),
        r == RaftStateTarget::MoveTo(Status::Leaving) <==> (status == Status::Up && raft_state
            == RaftState::NonVoter),
        r == RaftStateTarget::MoveTo(Status::Joining) <==> (status == Status::Down && raft_state
            == RaftState::NonVoter),
        r matches RaftStateTarget::MoveTo(n) ==> (n == Status::Up || n == Status::Leaving || n
            == Status::Joining),
{
    match (status, raft_state) {
        (Status::Joining, RaftState::NonVoter) => RaftStateTarget::Stay,
        (Status::Joining, _) => if leader_known {
            RaftStateTarget::MoveTo(Status::Up)
        } else {
            RaftStateTarget::Stay
        },
        (Status::WeaklyUp, RaftState::NonVoter) => RaftStateTarget::Stay,
        (Status::WeaklyUp, _) => if leader_known {
            RaftStateTarget::MoveTo(Status::Up)
        } else {
            RaftStateTarget::Stay
        },
        (Status::Down, RaftState::NonVoter) => RaftStateTarget::MoveTo(Status::Joining),
        (Status::Down, _) => RaftStateTarget::Stay,
        (Status::Up, RaftState::NonVoter) => RaftStateTarget::MoveTo(Status::Leaving),
        (Status::Up, _) => RaftStateTarget::Stay,
        (Status::Leaving, _) => RaftStateTarget::Stay,
        (Status::Exiting, _) => RaftStateTarget::Stay,
        (Status::Removed, _) => RaftStateTarget::Stay,
    }
}

/// The Raft state only moves the network along valid transitions, but for a down network
/// whose Raft node is a non-voter, which it moves back to `Joining`.
pub proof fn law_raft_target_is_valid(status: Status, raft_state: RaftState, leader_known: bool)
    requires
        !(status == Status::Down && raft_state == RaftState::NonVoter),
    ensures
        raft_status_target(status, raft_state, leader_known) matches Some(next) ==> valid_transition(
            status,
            next,
        ),
{
}

/// A removed, exiting or leaving network never moves on its Raft state.
pub proof fn law_raft_target_ignores_departing(status: Status, raft_state: RaftState, leader_known: bool)
    requires
        status == Status::Removed || status == Status::Exiting || status == Status::Leaving,
    ensures
        raft_status_target(status, raft_state, leader_known) is None,
{
}

/// A joining network stays joining while no leader is known, whatever its Raft node's state.
pub proof fn law_joining_waits_for_a_leader(raft_state: RaftState)
    ensures
        raft_status_target(Status::Joining, raft_state, false) is None,
{
}

/// The Raft metrics move a network only to `Up` (from joining or weakly up, once its Raft
/// node votes and a leader is known), to `Leaving` (from up, once its Raft node stops voting)
/// or back to `Joining` (from down, when its Raft node is a non-voter): never to any other
/// status, never to `Down`, and an up network whose Raft node votes stays up.
pub proof fn law_raft_moves(status: Status, raft_state: RaftState, leader_known: bool)
    ensures
        raft_status_target(status, raft_state, leader_known) == Some(Status::Up) <==> ((status
            == Status::Joining || status == Status::WeaklyUp) && raft_state != RaftState::NonVoter
            && leader_known),
        raft_status_target(status, raft_state, leader_known) == Some(Status::Leaving) <==> (status
            == Status::Up && raft_state == RaftState::NonVoter),
        raft_status_target(status, raft_state, leader_known) == Some(Status::Joining) <==> (status
            == Status::Down && raft_state == RaftState::NonVoter),
        raft_status_target(status, raft_state, leader_known) matches Some(n) ==> (n == Status::Up
            || n == Status::Leaving || n == Status::Joining),
        status == Status::Up && raft_state != RaftState::NonVoter ==> raft_status_target(
            status,
            raft_state,
            leader_known,
        ) is None,
{
}

/// Every step of the documented life of a network is allowed:
/// `Joining -> (WeaklyUp ->) Up -> Leaving -> Exiting -> Removed`, `Down -> Removed`, and any
/// status but `Removed` may go `Down`; no other step is.
pub proof fn law_documented_path(from: Status, to: Status)
    ensures
        valid_transition(Status::Joining, Status::WeaklyUp),
        valid_transition(Status::Joining, Status::Up),
        valid_transition(Status::WeaklyUp, Status::Up),
        valid_transition(Status::Up, Status::Leaving),
        valid_transition(Status::Leaving, Status::Exiting),
        valid_transition(Status::Exiting, Status::Removed),
        valid_transition(Status::Down, Status::Removed),
        from != Status::Removed ==> valid_transition(from, Status::Down),
        valid_transition(from, to) ==> ((from != Status::Removed && to == Status::Down) || (from
            == Status::Joining && (to == Status::WeaklyUp || to == Status::Up)) || (from
            == Status::WeaklyUp && to == Status::Up) || (from == Status::Up && to
            == Status::Leaving) || (from == Status::Leaving && to == Status::Exiting) || (from
            == Status::Exiting && to == Status::Removed) || (from == Status::Down && to
            == Status::Removed)),
{
}

/// A network is a cluster exactly when more than one node is connected: isolated nodes never
/// count, so two states with the same connected nodes have the same extent.
pub proof fn law_extent_by_connected(v: NetworkStateView, w: NetworkStateView, id: u64)
    ensures
        v.extent() == Extent::Cluster <==> 1 < v.connected.len(),
        v.extent() == Extent::SingleNode <==> v.connected.len() <= 1,
        v.connected == w.connected ==> v.extent() == w.extent(),
        !v.isolated.contains(id) && !v.connected.contains(id) ==> v.isolating(id).extent()
            == v.extent(),
{
    if !v.isolated.contains(id) && !v.connected.contains(id) {
        assert(v.connected.remove(id) =~= v.connected);
    }
}

} // verus!
