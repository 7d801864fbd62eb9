//! The hotspot lifecycle: start, stop, check and restart as a step machine.
//!
//! The machine decides; its driver performs each [`Action`] (reading and
//! writing the state file, signalling the daemon, calling the network
//! service) and hands back what happened as an [`Event`]. The persisted
//! [`HotspotState`] is the only memory between invocations.
use crate::config::Config;
use crate::ipv4::Ipv4;
use crate::registry::{conns_view, selected, select_connections, as_ints, ConnectionSettings, ConnectionView, Selection};
use crate::ipv4::ipv4_text;
use crate::state::{decode_state, encode_state, lemma_state_round_trip, record_is_valid, HotspotState, StateRecord};
use crate::text::{append_decimal, decimal};
use vstd::prelude::*;
use vstd::string::*;

verus! {

/// Seconds a restart waits between stopping and starting, for the radio and
/// the daemon to let go.
pub const SETTLE_SECS: u64 = 2;

#[derive(Debug, Clone, Copy, PartialEq, Eq, Structural)]
pub enum Operation {
    Start,
    Stop,
    Check,
    Restart,
}

/// Why an operation failed.
#[derive(Debug, Clone, Copy, PartialEq, Eq, Structural)]
pub enum HotspotError {
    /// The network service did not create the access point.
    AccessPoint,
    /// The DHCP/DNS daemon did not start.
    Dhcp,
    /// The state file could not be written.
    StateFile,
    /// The driver answered an action with an event of another kind.
    UnexpectedEvent,
}

/// How an operation ended.
#[derive(Debug, Clone, Copy, PartialEq, Eq, Structural)]
pub enum Outcome {
    /// A new hotspot is up and recorded.
    Started,
    /// The recorded hotspot was verified live; nothing was touched.
    AlreadyRunning,
    /// The recorded hotspot was torn down and its record removed.
    Stopped,
    /// No running hotspot was recorded.
    NothingToStop,
    /// Check: the recorded hotspot is live.
    Running,
    /// Check: no live hotspot (a stale record was removed).
    NotRunning,
    Failed(HotspotError),
}

/// What a teardown leads to.
#[derive(Debug, Clone, Copy, PartialEq, Eq, Structural)]
pub enum AfterTeardown {
    FinishStopped,
    SettleThenStart,
    Create,
    ReportNotRunning,
    Fail(HotspotError),
}

/// Where the machine is: which event it waits for.
#[derive(Debug, Clone, Copy, PartialEq, Eq, Structural)]
pub enum Phase {
    Begin,
    Loading,
    Verifying,
    Terminating,
    Killing,
    Listing,
    Deleting,
    Clearing,
    Settling,
    Creating,
    Spawning,
    Saving,
    Done(Outcome),
}

/// Work for the driver.
#[derive(Debug, Clone, PartialEq, Eq)]
pub enum Action {
    /// Read the state file: answer `Loaded`, with `None` if there is none.
    LoadState,
    /// Is the process alive, and what connections exist: answer `Verified`.
    Verify { pid: Option<u32> },
    /// Ask the daemon to terminate: answer `Terminated`.
    TerminateDhcp { pid: u32 },
    /// Kill the daemon: answer `Done`.
    KillDhcp { pid: u32 },
    /// List the connection profiles: answer `Connections`.
    ListConnections,
    /// Delete these profiles of the last list, each on its own: answer `Done`.
    DeleteConnections { indices: Vec<usize> },
    /// Remove the state file and any PID file: answer `Done`.
    ClearState,
    /// Create the configured access point: answer `Created`.
    CreateAccessPoint,
    /// Spawn the daemon with the configured arguments: answer `Spawned`.
    SpawnDhcp,
    /// Write this line as the state file: answer `Saved`.
    SaveState { line: String },
    /// Sleep: answer `Done`.
    Sleep { secs: u64 },
    /// The operation is over.
    Finish(Outcome),
}

/// What the driver observed.
#[derive(Debug, Clone, PartialEq, Eq)]
pub enum Event {
    Loaded(Option<String>),
    Verified { pid_alive: bool, connections: Vec<ConnectionSettings> },
    Terminated(bool),
    Connections(Vec<ConnectionSettings>),
    Created(bool),
    Spawned(Option<u32>),
    Saved(bool),
    Done,
}

pub enum ActionView {
    LoadState,
    Verify { pid: Option<u32> },
    TerminateDhcp { pid: u32 },
    KillDhcp { pid: u32 },
    ListConnections,
    DeleteConnections { indices: Seq<int> },
    ClearState,
    CreateAccessPoint,
    SpawnDhcp,
    SaveState { line: Seq<char> },
    Sleep { secs: u64 },
    Finish(Outcome),
}

pub enum EventView {
    Loaded(Option<Seq<char>>),
    Verified { pid_alive: bool, connections: Seq<ConnectionView> },
    Terminated(bool),
    Connections(Seq<ConnectionView>),
    Created(bool),
    Spawned(Option<u32>),
    Saved(bool),
    Done,
}

impl View for Action {
    type V = ActionView;

    open spec fn view(&self) -> ActionView {
        match self {
            Action::LoadState => ActionView::LoadState,
            Action::Verify { pid } => ActionView::Verify { pid: *pid },
            Action::TerminateDhcp { pid } => ActionView::TerminateDhcp { pid: *pid },
            Action::KillDhcp { pid } => ActionView::KillDhcp { pid: *pid },
            Action::ListConnections => ActionView::ListConnections,
            Action::DeleteConnections { indices } => ActionView::DeleteConnections {
                indices: as_ints(indices@),
            },
            Action::ClearState => ActionView::ClearState,
            Action::CreateAccessPoint => ActionView::CreateAccessPoint,
            Action::SpawnDhcp => ActionView::SpawnDhcp,
            Action::SaveState { line } => ActionView::SaveState { line: line@ },
            Action::Sleep { secs } => ActionView::Sleep { secs: *secs },
            Action::Finish(o) => ActionView::Finish(*o),
        }
    }
}

impl View for Event {
    type V = EventView;

    open spec fn view(&self) -> EventView {
        match self {
            Event::Loaded(t) => EventView::Loaded(
                match t {
                    Some(s) => Some(s@),
                    None => None,
                },
            ),
            Event::Verified { pid_alive, connections } => EventView::Verified {
                pid_alive: *pid_alive,
                connections: conns_view(connections@),
            },
            Event::Terminated(b) => EventView::Terminated(*b),
            Event::Connections(c) => EventView::Connections(conns_view(c@)),
            Event::Created(b) => EventView::Created(*b),
            Event::Spawned(p) => EventView::Spawned(*p),
            Event::Saved(b) => EventView::Saved(*b),
            Event::Done => EventView::Done,
        }
    }
}

/// One hotspot operation in progress.
pub struct Lifecycle {
    pub op: Operation,
    pub phase: Phase,
    /// What follows the teardown under way.
    pub after: AfterTeardown,
    /// The SSID whose access-point profiles the teardown deletes.
    pub target_ssid: String,
    /// The daemon the teardown terminates.
    pub target_pid: Option<u32>,
    /// The running record that the state file held.
    pub loaded: Option<HotspotState>,
    /// The daemon this operation spawned.
    pub new_pid: u32,
    /// A restart has finished its stop half.
    pub restart_stopped: bool,
    pub ssid: String,
    pub has_password: bool,
    pub gateway: Ipv4,
    pub interface: String,
    /// Seconds since the Unix epoch when the operation began.
    pub now: u64,
}

pub struct LifecycleView {
    pub op: Operation,
    pub phase: Phase,
    pub after: AfterTeardown,
    pub target_ssid: Seq<char>,
    pub target_pid: Option<u32>,
    pub loaded: Option<StateRecord>,
    pub new_pid: u32,
    pub restart_stopped: bool,
    pub ssid: Seq<char>,
    pub has_password: bool,
    pub gateway: Ipv4,
    pub interface: Seq<char>,
    pub now: u64,
}

impl View for Lifecycle {
    type V = LifecycleView;

    open spec fn view(&self) -> LifecycleView {
        LifecycleView {
            op: self.op,
            phase: self.phase,
            after: self.after,
            target_ssid: self.target_ssid@,
            target_pid: self.target_pid,
            loaded: match self.loaded {
                Some(st) => Some(st@),
                None => None,
            },
            new_pid: self.new_pid,
            restart_stopped: self.restart_stopped,
            ssid: self.ssid@,
            has_password: self.has_password,
            gateway: self.gateway,
            interface: self.interface@,
            now: self.now,
        }
    }
}

/// The running record that a state file holds: `None` when there is no
/// file, when it is malformed, or when it records a stopped hotspot.
pub open spec fn running_record(text: Option<Seq<char>>) -> Option<StateRecord> {
    match text {
        Some(t) => match decode_state(t) {
            Ok(r) => if r.is_running {
                Some(r)
            } else {
                None
            },
            Err(_) => None,
        },
        None => None,
    }
}

/// The record of a hotspot this operation started with daemon `pid`.
pub open spec fn new_record(s: LifecycleView, pid: u32) -> StateRecord {
    StateRecord {
        is_running: true,
        ssid: s.ssid,
        gateway: s.gateway,
        interface: s.interface,
        has_password: s.has_password,
        dhcp_pid: Some(pid),
        started_at: s.now,
    }
}

/// A live hotspot: its daemon is alive and an access-point profile of its
/// SSID exists.
pub open spec fn verified_live(alive: bool, conns: Seq<ConnectionView>, ssid: Seq<char>) -> bool {
    alive && selected(conns, Selection::HotspotWithSsid, ssid).len() > 0
}

pub open spec fn finish(s: LifecycleView, o: Outcome) -> (LifecycleView, ActionView) {
    (LifecycleView { phase: Phase::Done(o), ..s }, ActionView::Finish(o))
}

/// Begins tearing down the hotspot of `ssid` and daemon `pid`.
pub open spec fn teardown(s: LifecycleView, ssid: Seq<char>, pid: Option<u32>, after: AfterTeardown) -> (
    LifecycleView,
    ActionView,
) {
    let s1 = LifecycleView { target_ssid: ssid, target_pid: pid, after, ..s };
    match pid {
        Some(p) => (LifecycleView { phase: Phase::Terminating, ..s1 }, ActionView::TerminateDhcp { pid: p }),
        None => (LifecycleView { phase: Phase::Listing, ..s1 }, ActionView::ListConnections),
    }
}

/// The start half of start and restart: the machine is in it.
pub open spec fn starting(s: LifecycleView) -> bool {
    s.op == Operation::Start || (s.op == Operation::Restart && s.restart_stopped)
}

/// The SSID whose access-point profile proves a recorded hotspot live: the
/// recorded one for a check, the configured one for a start.
pub open spec fn verified_ssid(s: LifecycleView, r: StateRecord) -> Seq<char> {
    if s.op == Operation::Check {
        r.ssid
    } else {
        s.ssid
    }
}

/// The next state and action after `e`.
pub open spec fn next(s: LifecycleView, e: EventView) -> (LifecycleView, ActionView) {
    match s.phase {
        Phase::Begin => (LifecycleView { phase: Phase::Loading, ..s }, ActionView::LoadState),
        Phase::Loading => match e {
            EventView::Loaded(text) => {
                let rec = running_record(text);
                let s1 = LifecycleView { loaded: rec, ..s };
                if starting(s) || s.op == Operation::Check {
                    match rec {
                        Some(r) => (
                            LifecycleView { phase: Phase::Verifying, ..s1 },
                            ActionView::Verify { pid: r.dhcp_pid },
                        ),
                        None => if s.op == Operation::Check {
                            finish(s1, Outcome::NotRunning)
                        } else {
                            teardown(s1, s.ssid, None, AfterTeardown::Create)
                        },
                    }
                } else {
                    match rec {
                        Some(r) => teardown(
                            s1,
                            r.ssid,
                            r.dhcp_pid,
                            if s.op == Operation::Stop {
                                AfterTeardown::FinishStopped
                            } else {
                                AfterTeardown::SettleThenStart
                            },
                        ),
                        None => if s.op == Operation::Stop {
                            finish(s1, Outcome::NothingToStop)
                        } else {
                            (
                                LifecycleView { phase: Phase::Settling, ..s1 },
                                ActionView::Sleep { secs: SETTLE_SECS },
                            )
                        },
                    }
                }
            },
            _ => finish(s, Outcome::Failed(HotspotError::UnexpectedEvent)),
        },
        Phase::Verifying => match e {
            EventView::Verified { pid_alive, connections } => match s.loaded {
                Some(r) => if verified_live(pid_alive, connections, verified_ssid(s, r)) {
                    if s.op == Operation::Check {
                        finish(s, Outcome::Running)
                    } else {
                        finish(s, Outcome::AlreadyRunning)
                    }
                } else if s.op == Operation::Check {
                    (
                        LifecycleView { phase: Phase::Clearing, after: AfterTeardown::ReportNotRunning, ..s },
                        ActionView::ClearState,
                    )
                } else {
                    teardown(s, r.ssid, r.dhcp_pid, AfterTeardown::Create)
                },
                None => finish(s, Outcome::Failed(HotspotError::UnexpectedEvent)),
            },
            _ => finish(s, Outcome::Failed(HotspotError::UnexpectedEvent)),
        },
        Phase::Terminating => match e {
            EventView::Terminated(ok) => if ok || s.target_pid is None {
                (LifecycleView { phase: Phase::Listing, ..s }, ActionView::ListConnections)
            } else {
                (
                    LifecycleView { phase: Phase::Killing, ..s },
                    ActionView::KillDhcp { pid: s.target_pid->Some_0 },
                )
            },
            _ => finish(s, Outcome::Failed(HotspotError::UnexpectedEvent)),
        },
        Phase::Killing => (LifecycleView { phase: Phase::Listing, ..s }, ActionView::ListConnections),
        Phase::Listing => match e {
            EventView::Connections(c) => (
                LifecycleView { phase: Phase::Deleting, ..s },
                ActionView::DeleteConnections {
                    indices: selected(c, Selection::HotspotWithSsid, s.target_ssid),
                },
            ),
            _ => finish(s, Outcome::Failed(HotspotError::UnexpectedEvent)),
        },
        Phase::Deleting => (LifecycleView { phase: Phase::Clearing, ..s }, ActionView::ClearState),
        Phase::Clearing => match s.after {
            AfterTeardown::FinishStopped => finish(s, Outcome::Stopped),
            AfterTeardown::SettleThenStart => (
                LifecycleView { phase: Phase::Settling, ..s },
                ActionView::Sleep { secs: SETTLE_SECS },
            ),
            AfterTeardown::Create => (
                LifecycleView { phase: Phase::Creating, ..s },
                ActionView::CreateAccessPoint,
            ),
            AfterTeardown::ReportNotRunning => finish(s, Outcome::NotRunning),
            AfterTeardown::Fail(err) => finish(s, Outcome::Failed(err)),
        },
        Phase::Settling => (
            LifecycleView { phase: Phase::Loading, restart_stopped: true, ..s },
            ActionView::LoadState,
        ),
        Phase::Creating => match e {
            EventView::Created(ok) => if ok {
                (LifecycleView { phase: Phase::Spawning, ..s }, ActionView::SpawnDhcp)
            } else {
                finish(s, Outcome::Failed(HotspotError::AccessPoint))
            },
            _ => finish(s, Outcome::Failed(HotspotError::UnexpectedEvent)),
        },
        Phase::Spawning => match e {
            EventView::Spawned(p) => match p {
                Some(pid) => if pid > 0 {
                    (
                        LifecycleView { phase: Phase::Saving, new_pid: pid, ..s },
                        ActionView::SaveState { line: encode_state(new_record(s, pid)) },
                    )
                } else {
                    teardown(s, s.ssid, None, AfterTeardown::Fail(HotspotError::Dhcp))
                },
                None => teardown(s, s.ssid, None, AfterTeardown::Fail(HotspotError::Dhcp)),
            },
            _ => finish(s, Outcome::Failed(HotspotError::UnexpectedEvent)),
        },
        Phase::Saving => match e {
            EventView::Saved(ok) => if ok {
                finish(s, Outcome::Started)
            } else {
                teardown(s, s.ssid, Some(s.new_pid), AfterTeardown::Fail(HotspotError::StateFile))
            },
            _ => finish(s, Outcome::Failed(HotspotError::UnexpectedEvent)),
        },
        Phase::Done(o) => (s, ActionView::Finish(o)),
    }
}

fn running_record_of(text: &Option<String>) -> (r: Option<HotspotState>)
    ensures
        (match r {
            Some(st) => Some(st@),
            None => None,
        }) == running_record(
            match text {
                Some(t) => Some(t@),
                None => None,
            },
        ),
{
    match text {
        Some(t) => match HotspotState::decode(t.as_str()) {
            Ok(st) => {
                if st.is_running {
                    Some(st)
                } else {
                    None
                }
            },
            Err(_) => None,
        },
        None => None,
    }
}

impl Lifecycle {
    /// A machine about to run `op` for the hotspot that `config` describes
    /// on `interface`, at time `now`.
    pub fn new(op: Operation, config: &Config, interface: &str, now: u64) -> (r: Lifecycle)
        ensures
            r@ == (LifecycleView {
                op,
                phase: Phase::Begin,
                after: AfterTeardown::FinishStopped,
                target_ssid: Seq::empty(),
                target_pid: None,
                loaded: None,
                new_pid: 0,
                restart_stopped: false,
                ssid: config.ssid@,
                has_password: config.passphrase is Some,
                gateway: config.gateway,
                interface: interface@,
                now,
            }),
    {
        Lifecycle {
            op,
            phase: Phase::Begin,
            after: AfterTeardown::FinishStopped,
            target_ssid: String::new(),
            target_pid: None,
            loaded: None,
            new_pid: 0,
            restart_stopped: false,
            ssid: config.ssid.clone(),
            has_password: config.passphrase.is_some(),
            gateway: config.gateway,
            interface: interface.to_owned(),
            now,
        }
    }

    fn finish_with(&mut self, o: Outcome) -> (r: Action)
        ensures
            (final(self)@, r@) == finish(old(self)@, o),
    {
        self.phase = Phase::Done(o);
        Action::Finish(o)
    }

    fn teardown_with(&mut self, ssid: String, pid: Option<u32>, after: AfterTeardown) -> (r: Action)
        ensures
            (final(self)@, r@) == teardown(old(self)@, ssid@, pid, after),
    {
        self.target_ssid = ssid;
        self.target_pid = pid;
        self.after = after;
        match pid {
            Some(p) => {
                self.phase = Phase::Terminating;
                Action::TerminateDhcp { pid: p }
            },
            None => {
                self.phase = Phase::Listing;
                Action::ListConnections
            },
        }
    }

    fn new_state(&self, pid: u32) -> (r: HotspotState)
        ensures
            r@ == new_record(self@, pid),
    {
        HotspotState {
            is_running: true,
            ssid: self.ssid.clone(),
            gateway: self.gateway,
            interface: self.interface.clone(),
            has_password: self.has_password,
            dhcp_pid: Some(pid),
            started_at: self.now,
        }
    }

    /// Takes what the driver observed and returns the next action.
    pub fn step(&mut self, event: Event) -> (r: Action)
        ensures
            (final(self)@, r@) == next(old(self)@, event@),
    {
        let unexpected = Outcome::Failed(HotspotError::UnexpectedEvent);
        match self.phase {
            Phase::Begin => {
                self.phase = Phase::Loading;
                Action::LoadState
            },
            Phase::Loading => match event {
                Event::Loaded(text) => {
                    let rec = running_record_of(&text);
                    let starting = self.op == Operation::Start || (self.op == Operation::Restart
                        && self.restart_stopped);
                    match rec {
                        Some(r) => {
                            let pid = r.dhcp_pid;
                            let ssid = r.ssid.clone();
                            self.loaded = Some(r);
                            if starting || self.op == Operation::Check {
                                self.phase = Phase::Verifying;
                                Action::Verify { pid }
                            } else {
                                let after = if self.op == Operation::Stop {
                                    AfterTeardown::FinishStopped
                                } else {
                                    AfterTeardown::SettleThenStart
                                };
                                self.teardown_with(ssid, pid, after)
                            }
                        },
                        None => {
                            self.loaded = None;
                            if starting || self.op == Operation::Check {
                                if self.op == Operation::Check {
                                    self.finish_with(Outcome::NotRunning)
                                } else {
                                    let ssid = self.ssid.clone();
                                    self.teardown_with(ssid, None, AfterTeardown::Create)
                                }
                            } else if self.op == Operation::Stop {
                                self.finish_with(Outcome::NothingToStop)
                            } else {
                                self.phase = Phase::Settling;
                                Action::Sleep { secs: SETTLE_SECS }
                            }
                        },
                    }
                },
                _ => self.finish_with(unexpected),
            },
            Phase::Verifying => match event {
                Event::Verified { pid_alive, connections } => {
                    let (ssid, pid) = match &self.loaded {
                        Some(r) => (r.ssid.clone(), r.dhcp_pid),
                        None => {
                            return self.finish_with(unexpected);
                        },
                    };
                    let proof_ssid = if self.op == Operation::Check {
                        ssid.as_str()
                    } else {
                        self.ssid.as_str()
                    };
                    let found = select_connections(
                        &connections,
                        Selection::HotspotWithSsid,
                        proof_ssid,
                    );
                    if pid_alive && found.len() > 0 {
                        if self.op == Operation::Check {
                            self.finish_with(Outcome::Running)
                        } else {
                            self.finish_with(Outcome::AlreadyRunning)
                        }
                    } else if self.op == Operation::Check {
                        self.phase = Phase::Clearing;
                        self.after = AfterTeardown::ReportNotRunning;
                        Action::ClearState
                    } else {
                        self.teardown_with(ssid, pid, AfterTeardown::Create)
                    }
                },
                _ => self.finish_with(unexpected),
            },
            Phase::Terminating => match event {
                Event::Terminated(ok) => match self.target_pid {
                    Some(pid) => {
                        if ok {
                            self.phase = Phase::Listing;
                            Action::ListConnections
                        } else {
                            self.phase = Phase::Killing;
                            Action::KillDhcp { pid }
                        }
                    },
                    None => {
                        self.phase = Phase::Listing;
                        Action::ListConnections
                    },
                },
                _ => self.finish_with(unexpected),
            },
            Phase::Killing => {
                self.phase = Phase::Listing;
                Action::ListConnections
            },
            Phase::Listing => match event {
                Event::Connections(c) => {
                    let indices = select_connections(
                        &c,
                        Selection::HotspotWithSsid,
                        self.target_ssid.as_str(),
                    );
                    self.phase = Phase::Deleting;
                    Action::DeleteConnections { indices }
                },
                _ => self.finish_with(unexpected),
            },
            Phase::Deleting => {
                self.phase = Phase::Clearing;
                Action::ClearState
            },
            Phase::Clearing => match self.after {
                AfterTeardown::FinishStopped => self.finish_with(Outcome::Stopped),
                AfterTeardown::SettleThenStart => {
                    self.phase = Phase::Settling;
                    Action::Sleep { secs: SETTLE_SECS }
                },
                AfterTeardown::Create => {
                    self.phase = Phase::Creating;
                    Action::CreateAccessPoint
                },
                AfterTeardown::ReportNotRunning => self.finish_with(Outcome::NotRunning),
                AfterTeardown::Fail(err) => self.finish_with(Outcome::Failed(err)),
            },
            Phase::Settling => {
                self.phase = Phase::Loading;
                self.restart_stopped = true;
                Action::LoadState
            },
            Phase::Creating => match event {
                Event::Created(ok) => {
                    if ok {
                        self.phase = Phase::Spawning;
                        Action::SpawnDhcp
                    } else {
                        self.finish_with(Outcome::Failed(HotspotError::AccessPoint))
                    }
                },
                _ => self.finish_with(unexpected),
            },
            Phase::Spawning => match event {
                Event::Spawned(p) => match p {
                    Some(pid) => {
                        if pid > 0 {
                            let line = self.new_state(pid).encode();
                            self.new_pid = pid;
                            self.phase = Phase::Saving;
                            Action::SaveState { line }
                        } else {
                            let ssid = self.ssid.clone();
                            self.teardown_with(ssid, None, AfterTeardown::Fail(HotspotError::Dhcp))
                        }
                    },
                    None => {
                        let ssid = self.ssid.clone();
                        self.teardown_with(ssid, None, AfterTeardown::Fail(HotspotError::Dhcp))
                    },
                },
                _ => self.finish_with(unexpected),
            },
            Phase::Saving => match event {
                Event::Saved(ok) => {
                    if ok {
                        self.finish_with(Outcome::Started)
                    } else {
                        let ssid = self.ssid.clone();
                        let pid = self.new_pid;
                        self.teardown_with(
                            ssid,
                            Some(pid),
                            AfterTeardown::Fail(HotspotError::StateFile),
                        )
                    }
                },
                _ => self.finish_with(unexpected),
            },
            Phase::Done(o) => Action::Finish(o),
        }
    }
}

/// What a status report shows.
#[derive(Debug, Clone, PartialEq, Eq)]
pub struct HotspotStatus {
    pub is_running: bool,
    pub ssid: Option<String>,
    pub gateway: Option<String>,
    pub interface: Option<String>,
    pub password_protected: bool,
    pub uptime: Option<String>,
}

pub struct StatusView {
    pub is_running: bool,
    pub ssid: Option<Seq<char>>,
    pub gateway: Option<Seq<char>>,
    pub interface: Option<Seq<char>>,
    pub password_protected: bool,
    pub uptime: Option<Seq<char>>,
}

pub open spec fn text_view(s: Option<String>) -> Option<Seq<char>> {
    match s {
        Some(t) => Some(t@),
        None => None,
    }
}

impl View for HotspotStatus {
    type V = StatusView;

    open spec fn view(&self) -> StatusView {
        StatusView {
            is_running: self.is_running,
            ssid: text_view(self.ssid),
            gateway: text_view(self.gateway),
            interface: text_view(self.interface),
            password_protected: self.password_protected,
            uptime: text_view(self.uptime),
        }
    }
}

/// An uptime in seconds as it is shown, such as `90s`.
pub open spec fn uptime_text(secs: nat) -> Seq<char> {
    decimal(secs).push('s')
}

pub open spec fn stopped_status() -> StatusView {
    StatusView {
        is_running: false,
        ssid: None,
        gateway: None,
        interface: None,
        password_protected: false,
        uptime: None,
    }
}

pub open spec fn running_status(
    ssid: Seq<char>,
    gateway: Ipv4,
    interface: Seq<char>,
    password_protected: bool,
    uptime: nat,
) -> StatusView {
    StatusView {
        is_running: true,
        ssid: Some(ssid),
        gateway: Some(ipv4_text(gateway)),
        interface: Some(interface),
        password_protected,
        uptime: Some(uptime_text(uptime)),
    }
}

/// Seconds from `start` to `now`, zero if the clock went back.
pub open spec fn elapsed(start: u64, now: u64) -> nat {
    if now >= start {
        (now - start) as nat
    } else {
        0
    }
}

/// The status that a finished operation reports: a live recorded hotspot
/// with its uptime, a hotspot just started, or stopped.
pub open spec fn status_of(s: LifecycleView) -> StatusView {
    match s.phase {
        Phase::Done(Outcome::Started) => running_status(s.ssid, s.gateway, s.interface, s.has_password, 0),
        Phase::Done(Outcome::Running) | Phase::Done(Outcome::AlreadyRunning) => match s.loaded {
            Some(r) => running_status(
                r.ssid,
                r.gateway,
                r.interface,
                r.has_password,
                elapsed(r.started_at, s.now),
            ),
            None => stopped_status(),
        },
        _ => stopped_status(),
    }
}

impl HotspotStatus {
    pub fn stopped() -> (r: HotspotStatus)
        ensures
            r@ == stopped_status(),
    {
        HotspotStatus {
            is_running: false,
            ssid: None,
            gateway: None,
            interface: None,
            password_protected: false,
            uptime: None,
        }
    }

    pub fn running(
        ssid: &str,
        gateway: Ipv4,
        interface: &str,
        password_protected: bool,
        uptime_secs: u64,
    ) -> (r: HotspotStatus)
        ensures
            r@ == running_status(ssid@, gateway, interface@, password_protected, uptime_secs as nat),
    {
        let mut uptime = String::new();
        append_decimal(&mut uptime, uptime_secs);
        uptime.append("s");
        proof {
            reveal_strlit("s");
            assert(uptime@ =~= uptime_text(uptime_secs as nat));
        }
        HotspotStatus {
            is_running: true,
            ssid: Some(ssid.to_owned()),
            gateway: Some(gateway.to_text()),
            interface: Some(interface.to_owned()),
            password_protected,
            uptime: Some(uptime),
        }
    }
}

/// The lines of a status report.
pub open spec fn status_lines_spec(v: StatusView) -> Seq<Seq<char>> {
    if v.is_running {
        seq!["Hotspot Status: RUNNING"@] + labelled("SSID: "@, v.ssid) + labelled(
            "Gateway: "@,
            v.gateway,
        ) + labelled("Interface: "@, v.interface) + seq![
            "Password Protected: "@ + (if v.password_protected {
                "true"@
            } else {
                "false"@
            }),
        ] + labelled("Uptime: "@, v.uptime)
    } else {
        seq!["Hotspot Status: STOPPED"@]
    }
}

pub open spec fn labelled(label: Seq<char>, value: Option<Seq<char>>) -> Seq<Seq<char>> {
    match value {
        Some(t) => seq![label + t],
        None => seq![],
    }
}

pub open spec fn lines_view(v: Seq<String>) -> Seq<Seq<char>> {
    v.map_values(|s: String| s@)
}

fn push_labelled(lines: &mut Vec<String>, label: &str, value: &Option<String>)
    ensures
        lines_view(final(lines)@) == lines_view(old(lines)@) + labelled(label@, text_view(*value)),
{
    match value {
        Some(t) => {
            let mut line = String::from_str(label);
            line.append(t.as_str());
            lines.push(line);
        },
        None => {},
    }
    assert(lines_view(lines@) =~= lines_view(old(lines)@) + labelled(label@, text_view(*value)));
}

impl HotspotStatus {
    /// The report, one line per entry.
    pub fn status_lines(&self) -> (r: Vec<String>)
        ensures
            lines_view(r@) == status_lines_spec(self@),
    {
        let mut lines: Vec<String> = Vec::new();
        let ghost v = self@;
        if self.is_running {
            lines.push(String::from_str("Hotspot Status: RUNNING"));
            assert(lines_view(lines@) =~= seq!["Hotspot Status: RUNNING"@]);
            push_labelled(&mut lines, "SSID: ", &self.ssid);
            push_labelled(&mut lines, "Gateway: ", &self.gateway);
            push_labelled(&mut lines, "Interface: ", &self.interface);
            let ghost before = lines_view(lines@);
            let mut pw = String::from_str("Password Protected: ");
            if self.password_protected {
                pw.append("true");
            } else {
                pw.append("false");
            }
            let ghost pw_text = pw@;
            lines.push(pw);
            assert(lines_view(lines@) =~= before.push(pw_text));
            push_labelled(&mut lines, "Uptime: ", &self.uptime);
            assert(lines_view(lines@) =~= status_lines_spec(v));
        } else {
            lines.push(String::from_str("Hotspot Status: STOPPED"));
            assert(lines_view(lines@) =~= seq!["Hotspot Status: STOPPED"@]);
        }
        lines
    }
}

impl Lifecycle {
    /// The status to report once the operation is over.
    pub fn status(&self) -> (r: HotspotStatus)
        ensures
            r@ == status_of(self@),
    {
        match self.phase {
            Phase::Done(Outcome::Started) => HotspotStatus::running(
                self.ssid.as_str(),
                self.gateway,
                self.interface.as_str(),
                self.has_password,
                0,
            ),
            Phase::Done(Outcome::Running) | Phase::Done(Outcome::AlreadyRunning) => match &self.loaded {
                Some(r) => {
                    let up = if self.now >= r.started_at {
                        self.now - r.started_at
                    } else {
                        0
                    };
                    HotspotStatus::running(
                        r.ssid.as_str(),
                        r.gateway,
                        r.interface.as_str(),
                        r.has_password,
                        up,
                    )
                },
                None => HotspotStatus::stopped(),
            },
            _ => HotspotStatus::stopped(),
        }
    }

    /// Whether the operation is over.
    pub fn is_done(&self) -> (r: bool)
        ensures
            r == (self.phase is Done),
    {
        match self.phase {
            Phase::Done(_) => true,
            _ => false,
        }
    }
}

/// A start that finds the record of an earlier successful start of the same
/// SSID, and verifies that hotspot live, only reads: it loads the record, verifies,
/// and finishes without creating, spawning, deleting or writing anything.
pub proof fn lemma_start_idempotent(s: LifecycleView, rec: StateRecord, conns: Seq<ConnectionView>)
    requires
        s.phase == Phase::Loading,
        starting(s),
        record_is_valid(rec),
        rec.is_running,
        rec.ssid == s.ssid,
        verified_live(true, conns, rec.ssid),
    ensures
        ({
            let (s1, a1) = next(s, EventView::Loaded(Some(encode_state(rec))));
            let (s2, a2) = next(s1, EventView::Verified { pid_alive: true, connections: conns });
            &&& a1 == ActionView::Verify { pid: rec.dhcp_pid }
            &&& a2 == ActionView::Finish(Outcome::AlreadyRunning)
            &&& s2.phase == Phase::Done(Outcome::AlreadyRunning)
        }),
{
    lemma_state_round_trip(rec);
}

/// Stopping with no running record (no file, a malformed one, or one of a
/// stopped hotspot) does nothing and succeeds.
pub proof fn lemma_stop_without_state(s: LifecycleView, text: Option<Seq<char>>)
    requires
        s.phase == Phase::Loading,
        s.op == Operation::Stop,
        running_record(text) is None,
    ensures
        next(s, EventView::Loaded(text)).1 == ActionView::Finish(Outcome::NothingToStop),
{
}

/// Stopping a recorded hotspot whose daemon is already gone still cleans
/// up and succeeds: the failed terminate is followed by a kill, then the
/// hotspot's access-point profiles are deleted and the record removed.
pub proof fn lemma_stop_dead_daemon(
    s: LifecycleView,
    rec: StateRecord,
    pid: u32,
    conns: Seq<ConnectionView>,
)
    requires
        s.phase == Phase::Loading,
        s.op == Operation::Stop,
        record_is_valid(rec),
        rec.is_running,
        rec.dhcp_pid == Some(pid),
    ensures
        ({
            let (s1, a1) = next(s, EventView::Loaded(Some(encode_state(rec))));
            let (s2, a2) = next(s1, EventView::Terminated(false));
            let (s3, a3) = next(s2, EventView::Done);
            let (s4, a4) = next(s3, EventView::Connections(conns));
            let (s5, a5) = next(s4, EventView::Done);
            let (s6, a6) = next(s5, EventView::Done);
            &&& a1 == ActionView::TerminateDhcp { pid }
            &&& a2 == ActionView::KillDhcp { pid }
            &&& a3 == ActionView::ListConnections
            &&& a4 == ActionView::DeleteConnections {
                indices: selected(conns, Selection::HotspotWithSsid, rec.ssid),
            }
            &&& a5 == ActionView::ClearState
            &&& a6 == ActionView::Finish(Outcome::Stopped)
        }),
{
    lemma_state_round_trip(rec);
}

/// In the stop half of a restart, nothing is created or spawned, and the
/// teardown under way leads to stopping or settling, never to creating.
pub open spec fn restart_in_order(s: LifecycleView) -> bool {
    s.op == Operation::Restart && !s.restart_stopped ==> {
        &&& !(s.phase is Verifying || s.phase is Creating || s.phase is Spawning || s.phase is Saving)
        &&& (s.after == AfterTeardown::FinishStopped || s.after == AfterTeardown::SettleThenStart)
    }
}

/// A restart stops before it starts: every step keeps [`restart_in_order`],
/// and no access point is created nor daemon spawned before the stop half
/// has finished.
pub proof fn lemma_restart_in_order(s: LifecycleView, e: EventView)
    requires
        restart_in_order(s),
    ensures
        restart_in_order(next(s, e).0),
        s.op == Operation::Restart && !s.restart_stopped ==> !(next(s, e).1 is CreateAccessPoint)
            && !(next(s, e).1 is SpawnDhcp),
{
}

/// A restart with nothing to stop still goes through its stop half: it
/// settles, then begins the start half by loading the state again.
pub proof fn lemma_restart_nothing_to_stop(s: LifecycleView, text: Option<Seq<char>>)
    requires
        s.phase == Phase::Loading,
        s.op == Operation::Restart,
        !s.restart_stopped,
        running_record(text) is None,
    ensures
        ({
            let (s1, a1) = next(s, EventView::Loaded(text));
            let (s2, a2) = next(s1, EventView::Done);
            &&& a1 == ActionView::Sleep { secs: SETTLE_SECS }
            &&& a2 == ActionView::LoadState
            &&& s2.phase == Phase::Loading
            &&& starting(s2)
        }),
{
}

} // verus!
