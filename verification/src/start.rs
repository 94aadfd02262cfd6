//! The steps of starting the Dream Skin injector, as a state machine: the
//! caller performs each action (files, processes, sockets) and hands back what
//! happened; the machine decides the next action, and takes and gives back the
//! injection lock.

use vstd::prelude::*;
use crate::launch::{
    asset_path, check_assets, first_missing_asset, injector_args, injector_args_are, injector_log_paths,
    injector_state_record, require_cdp_ready, require_node, start_admitted, state_record_is, AssetCheck, InjectionLock,
    InjectorStateRecord, LaunchError, CDP_WAIT_SECS, INJECTOR_SETTLE_SECS,
};

verus! {

broadcast use vstd::string::group_string_axioms;

/// Where a start of the injector stands.
#[derive(Debug, Clone, Copy, PartialEq, Eq, Structural)]
pub enum StartStage {
    /// Not yet requested.
    Idle,
    /// Ending the injector recorded in `state.json` and removing the file.
    ClearingOldInjector,
    /// Looking for the injector's assets.
    CheckingAssets,
    /// Writing the base theme.
    ApplyingTheme,
    /// Looking for Node.js.
    FindingNode,
    /// Making the state directory.
    PreparingStateDir,
    /// Waiting for the CDP endpoint.
    WaitingForCdp,
    /// Reading the browser id.
    FetchingBrowserId,
    /// Starting the injector process.
    SpawningInjector,
    /// Letting the injector settle.
    WatchingInjector,
    /// Writing `state.json`.
    SavingState,
    /// Completed or failed.
    Ended,
}

/// The start is between its admission and its end: it holds the lock.
pub open spec fn is_running(stage: StartStage) -> bool {
    stage != StartStage::Idle && stage != StartStage::Ended
}

/// How one step of a start may change the shared lock: a start is admitted only
/// on a free lock, which it then holds; a running start that ends gives the lock
/// back; any other step leaves the lock as it was.
pub open spec fn lock_rule(
    stage_before: StartStage,
    held_before: bool,
    stage_after: StartStage,
    held_after: bool,
) -> bool {
    if !is_running(stage_before) && is_running(stage_after) {
        !held_before && held_after
    } else if is_running(stage_before) && !is_running(stage_after) {
        !held_after
    } else {
        held_after == held_before
    }
}

/// Starts sharing one lock: at most one of them is running, and the lock is held
/// exactly when one is.
pub open spec fn one_start_runs(stages: Seq<StartStage>, held: bool) -> bool {
    &&& forall|i: int, j: int|
        0 <= i < stages.len() && 0 <= j < stages.len() && is_running(#[trigger] stages[i])
            && is_running(#[trigger] stages[j]) ==> i == j
    &&& held <==> exists|i: int| 0 <= i < stages.len() && is_running(#[trigger] stages[i])
}

/// Starts that have not begun, with a free lock, satisfy `one_start_runs`.
pub proof fn lemma_no_start_runs_at_first(stages: Seq<StartStage>)
    requires
        forall|i: int| 0 <= i < stages.len() ==> stages[i] == StartStage::Idle,
    ensures
        one_start_runs(stages, false),
{
}

/// Starts exclude each other: whatever step one of several starts sharing a lock
/// takes, at most one start is between its admission and its end, and the lock
/// is held exactly while one is.
pub proof fn lemma_one_start_runs(
    stages: Seq<StartStage>,
    held: bool,
    i: int,
    stage_after: StartStage,
    held_after: bool,
)
    requires
        one_start_runs(stages, held),
        0 <= i < stages.len(),
        lock_rule(stages[i], held, stage_after, held_after),
    ensures
        one_start_runs(stages.update(i, stage_after), held_after),
{
    let after = stages.update(i, stage_after);
    if !is_running(stages[i]) && is_running(stage_after) {
        assert forall|j: int| 0 <= j < stages.len() implies !is_running(#[trigger] stages[j]) by {}
        assert(is_running(after[i]));
    } else if is_running(stages[i]) && !is_running(stage_after) {
        assert forall|j: int| 0 <= j < after.len() implies !is_running(#[trigger] after[j]) by {
            if j != i {
                assert(after[j] == stages[j]);
            }
        }
    } else {
        if held {
            let k = choose|k: int| 0 <= k < stages.len() && is_running(#[trigger] stages[k]);
            if k == i {
                assert(is_running(after[i]));
            } else {
                assert(after[k] == stages[k]);
            }
        }
        assert forall|j: int| 0 <= j < after.len() && is_running(#[trigger] after[j]) implies is_running(
            stages[j],
        ) by {
            if j == i {
                assert(is_running(stages[i]) == is_running(stage_after));
            }
        }
    }
}

/// A stop that waits for a free lock never runs beside a start: while starts
/// keep `one_start_runs`, a free lock means that no start is between its
/// admission and its end.
pub proof fn lemma_free_lock_means_no_running_start(stages: Seq<StartStage>)
    requires
        one_start_runs(stages, false),
    ensures
        forall|i: int| 0 <= i < stages.len() ==> !is_running(#[trigger] stages[i]),
{
}

/// Why the injector process could not be started.
pub enum SpawnFailure {
    /// A log file could not be created; the file system said this.
    LogFile(String),
    /// The process could not be started; the system said this.
    Spawn(String),
}

/// How the injector ended while it was left to settle.
pub struct InjectorExit {
    /// The exit status, as the system prints it.
    pub status: String,
    /// What the injector wrote to its error log.
    pub stderr: String,
}

/// What happened after an action.
pub enum StartEvent {
    /// A start was asked for.
    Requested,
    /// The old injector was ended and `state.json` removed (failures ignored).
    OldInjectorCleared,
    /// The assets were looked for.
    AssetsChecked(AssetCheck),
    /// The base theme was written, or why not.
    ThemeApplied(Result<(), String>),
    /// The Node.js runtime found, if any.
    NodeFound(Option<String>),
    /// The state directory's path once made, or why it could not be made.
    StateDirPrepared(Result<String, String>),
    /// The wait for the CDP endpoint ended.
    CdpWaited { ready: bool },
    /// The browser id, or why it could not be read.
    BrowserIdFetched(Result<String, String>),
    /// The injector's process id, or why it could not be started.
    InjectorSpawned(Result<u32, SpawnFailure>),
    /// The injector settled: how it ended if it did, and the time (seconds since
    /// the Unix epoch) at which this was seen.
    InjectorWatched { exited: Option<InjectorExit>, now: u64 },
    /// `state.json` was written, or why not.
    StateSaved(Result<(), String>),
}

/// What the caller does next.
#[derive(Debug, Clone)]
pub enum StartAction {
    /// End the injector recorded in `state.json` and remove the file.
    ClearOldInjector,
    /// Look for the injector's assets.
    CheckAssets,
    /// Write the base theme.
    ApplyTheme,
    /// Look for Node.js.
    FindNode,
    /// Make the state directory.
    PrepareStateDir,
    /// Wait up to `timeout_secs` for the CDP endpoint on `port`.
    WaitForCdp { port: u16, timeout_secs: u64 },
    /// Read the browser id from the CDP endpoint on `port`.
    FetchBrowserId { port: u16 },
    /// Create the two log files and start `program` with `args`, its output
    /// going to them.
    SpawnInjector { program: String, args: Vec<String>, stdout_path: String, stderr_path: String },
    /// Sleep `settle_secs`, then see whether the injector has exited.
    WatchInjector { settle_secs: u64 },
    /// Write this record to `state.json`.
    SaveState(InjectorStateRecord),
    /// The start completed; report the status.
    Done,
    /// The start failed with this error.
    Fail(LaunchError),
    /// The event does not belong to the current step; nothing changed.
    Ignore,
}

/// One start of the injector.
#[derive(Debug)]
pub struct InjectorStart {
    port: u16,
    stage: StartStage,
    injector_script: String,
    node_path: String,
    state_root: String,
    browser_id: String,
    injector_pid: u32,
}

impl InjectorStart {
    /// Where the start stands.
    pub closed spec fn stage(&self) -> StartStage {
        self.stage
    }

    /// The CDP port of the start.
    pub closed spec fn port(&self) -> u16 {
        self.port
    }

    /// The injector script, once the assets were found.
    pub closed spec fn script(&self) -> Seq<char> {
        self.injector_script@
    }

    /// The Node.js runtime, once found.
    pub closed spec fn node(&self) -> Seq<char> {
        self.node_path@
    }

    /// The state directory, once made.
    pub closed spec fn state_root(&self) -> Seq<char> {
        self.state_root@
    }

    /// The browser id, once read.
    pub closed spec fn browser_id(&self) -> Seq<char> {
        self.browser_id@
    }

    /// The injector's process id, once started.
    pub closed spec fn pid(&self) -> u32 {
        self.injector_pid
    }

    /// A start against the CDP endpoint on `port`, not yet requested.
    pub fn new(port: u16) -> (s: InjectorStart)
        ensures
            s.stage() == StartStage::Idle,
            s.port() == port,
    {
        InjectorStart {
            port,
            stage: StartStage::Idle,
            injector_script: String::new(),
            node_path: String::new(),
            state_root: String::new(),
            browser_id: String::new(),
            injector_pid: 0,
        }
    }

    /// Whether the start has ended.
    pub fn is_ended(&self) -> (r: bool)
        ensures
            r == (self.stage() == StartStage::Ended),
    {
        self.stage == StartStage::Ended
    }

    /// Fails the start, giving the lock back.
    fn fail(&mut self, lock: &mut InjectionLock, e: LaunchError) -> (r: StartAction)
        ensures
            final(self).stage() == StartStage::Ended,
            final(self).port() == old(self).port(),
            !final(lock).held(),
            r == StartAction::Fail(e),
    {
        self.stage = StartStage::Ended;
        let _ = lock.settle::<()>(Ok(()));
        StartAction::Fail(e)
    }

    /// Takes what happened after the last action and decides the next one.
    ///
    /// The lock is taken when the start is requested and found free; every
    /// failure after that, and the completion, give it back. A start refused
    /// because the lock is taken leaves it to the start that holds it.
    pub fn step(&mut self, lock: &mut InjectionLock, event: StartEvent) -> (r: StartAction)
        ensures
            final(self).port() == old(self).port(),
            lock_rule(old(self).stage(), old(lock).held(), final(self).stage(), final(lock).held()),
            match (old(self).stage(), event) {
                (StartStage::Idle, StartEvent::Requested) => if start_admitted(old(lock).held()) {
                    &&& r == StartAction::ClearOldInjector
                    &&& final(self).stage() == StartStage::ClearingOldInjector
                    &&& final(lock).held()
                } else {
                    &&& r == StartAction::Fail(LaunchError::Busy)
                    &&& final(self).stage() == StartStage::Ended
                    &&& final(lock).held()
                },
                (StartStage::ClearingOldInjector, StartEvent::OldInjectorCleared) => {
                    &&& r == StartAction::CheckAssets
                    &&& final(self).stage() == StartStage::CheckingAssets
                    &&& final(lock).held() == old(lock).held()
                },
                (StartStage::CheckingAssets, StartEvent::AssetsChecked(a)) => match first_missing_asset(
                    a,
                ) {
                    Some(m) => {
                        &&& r matches StartAction::Fail(LaunchError::MissingAsset { asset, path })
                        &&& asset == m
                        &&& path@ == asset_path(a, m)@
                        &&& final(self).stage() == StartStage::Ended
                        &&& !final(lock).held()
                    },
                    None => {
                        &&& r == StartAction::ApplyTheme
                        &&& final(self).stage() == StartStage::ApplyingTheme
                        &&& final(self).script() == a.injector_script@
                        &&& final(lock).held() == old(lock).held()
                    },
                },
                (StartStage::ApplyingTheme, StartEvent::ThemeApplied(t)) => match t {
                    Err(e) => {
                        &&& r matches StartAction::Fail(LaunchError::Failed { reason })
                        &&& reason@ == e@
                        &&& final(self).stage() == StartStage::Ended
                        &&& !final(lock).held()
                    },
                    Ok(()) => {
                        &&& r == StartAction::FindNode
                        &&& final(self).stage() == StartStage::FindingNode
                        &&& final(self).script() == old(self).script()
                        &&& final(lock).held() == old(lock).held()
                    },
                },
                (StartStage::FindingNode, StartEvent::NodeFound(n)) => match n {
                    None => {
                        &&& r == StartAction::Fail(LaunchError::NodeMissing)
                        &&& final(self).stage() == StartStage::Ended
                        &&& !final(lock).held()
                    },
                    Some(node) => {
                        &&& r == StartAction::PrepareStateDir
                        &&& final(self).stage() == StartStage::PreparingStateDir
                        &&& final(self).script() == old(self).script()
                        &&& final(self).node() == node@
                        &&& final(lock).held() == old(lock).held()
                    },
                },
                (StartStage::PreparingStateDir, StartEvent::StateDirPrepared(d)) => match d {
                    Err(e) => {
                        &&& r matches StartAction::Fail(LaunchError::Failed { reason })
                        &&& reason@ == e@
                        &&& final(self).stage() == StartStage::Ended
                        &&& !final(lock).held()
                    },
                    Ok(root) => {
                        &&& r == (StartAction::WaitForCdp {
                            port: old(self).port(),
                            timeout_secs: CDP_WAIT_SECS,
                        })
                        &&& final(self).stage() == StartStage::WaitingForCdp
                        &&& final(self).script() == old(self).script()
                        &&& final(self).node() == old(self).node()
                        &&& final(self).state_root() == root@
                        &&& final(lock).held() == old(lock).held()
                    },
                },
                (StartStage::WaitingForCdp, StartEvent::CdpWaited { ready }) => if ready {
                    &&& r == (StartAction::FetchBrowserId { port: old(self).port() })
                    &&& final(self).stage() == StartStage::FetchingBrowserId
                    &&& final(self).script() == old(self).script()
                    &&& final(self).node() == old(self).node()
                    &&& final(self).state_root() == old(self).state_root()
                    &&& final(lock).held() == old(lock).held()
                } else {
                    &&& r == StartAction::Fail(LaunchError::CdpNotReady { port: old(self).port() })
                    &&& final(self).stage() == StartStage::Ended
                    &&& !final(lock).held()
                },
                (StartStage::FetchingBrowserId, StartEvent::BrowserIdFetched(b)) => match b {
                    Err(e) => {
                        &&& r matches StartAction::Fail(LaunchError::Failed { reason })
                        &&& reason@ == e@
                        &&& final(self).stage() == StartStage::Ended
                        &&& !final(lock).held()
                    },
                    Ok(id) => {
                        &&& r matches StartAction::SpawnInjector {
                            program,
                            args,
                            stdout_path,
                            stderr_path,
                        }
                        &&& program@ == old(self).node()
                        &&& injector_args_are(args@, old(self).script(), old(self).port(), id@)
                        &&& stdout_path@ == old(self).state_root() + "\\injector.log"@
                        &&& stderr_path@ == old(self).state_root() + "\\injector-error.log"@
                        &&& final(self).stage() == StartStage::SpawningInjector
                        &&& final(self).script() == old(self).script()
                        &&& final(self).node() == old(self).node()
                        &&& final(self).browser_id() == id@
                        &&& final(lock).held() == old(lock).held()
                    },
                },
                (StartStage::SpawningInjector, StartEvent::InjectorSpawned(s)) => match s {
                    Err(SpawnFailure::LogFile(e)) => {
                        &&& r matches StartAction::Fail(LaunchError::Failed { reason })
                        &&& reason@ == e@
                        &&& final(self).stage() == StartStage::Ended
                        &&& !final(lock).held()
                    },
                    Err(SpawnFailure::Spawn(e)) => {
                        &&& r matches StartAction::Fail(LaunchError::SpawnFailed { reason })
                        &&& reason@ == e@
                        &&& final(self).stage() == StartStage::Ended
                        &&& !final(lock).held()
                    },
                    Ok(pid) => {
                        &&& r == (StartAction::WatchInjector { settle_secs: INJECTOR_SETTLE_SECS })
                        &&& final(self).stage() == StartStage::WatchingInjector
                        &&& final(self).script() == old(self).script()
                        &&& final(self).node() == old(self).node()
                        &&& final(self).browser_id() == old(self).browser_id()
                        &&& final(self).pid() == pid
                        &&& final(lock).held() == old(lock).held()
                    },
                },
                (StartStage::WatchingInjector, StartEvent::InjectorWatched { exited, now }) => match exited {
                    Some(x) => {
                        &&& r matches StartAction::Fail(LaunchError::ExitedEarly { exit_status, stderr })
                        &&& exit_status@ == x.status@
                        &&& stderr@ == x.stderr@
                        &&& final(self).stage() == StartStage::Ended
                        &&& !final(lock).held()
                    },
                    None => {
                        &&& r matches StartAction::SaveState(record)
                        &&& state_record_is(
                            record,
                            old(self).port(),
                            old(self).pid(),
                            now,
                            old(self).script(),
                            old(self).node(),
                            old(self).browser_id(),
                        )
                        &&& final(self).stage() == StartStage::SavingState
                        &&& final(lock).held() == old(lock).held()
                    },
                },
                (StartStage::SavingState, StartEvent::StateSaved(w)) => match w {
                    Err(e) => {
                        &&& r matches StartAction::Fail(LaunchError::Failed { reason })
                        &&& reason@ == e@
                        &&& final(self).stage() == StartStage::Ended
                        &&& !final(lock).held()
                    },
                    Ok(()) => {
                        &&& r == StartAction::Done
                        &&& final(self).stage() == StartStage::Ended
                        &&& !final(lock).held()
                    },
                },
                _ => {
                    &&& r == StartAction::Ignore
                    &&& final(self).stage() == old(self).stage()
                    &&& final(lock).held() == old(lock).held()
                },
            },
    {
        match (self.stage, event) {
            (StartStage::Idle, StartEvent::Requested) => match lock.begin() {
                Ok(()) => {
                    self.stage = StartStage::ClearingOldInjector;
                    StartAction::ClearOldInjector
                },
                Err(e) => {
                    self.stage = StartStage::Ended;
                    StartAction::Fail(e)
                },
            },
            (StartStage::ClearingOldInjector, StartEvent::OldInjectorCleared) => {
                self.stage = StartStage::CheckingAssets;
                StartAction::CheckAssets
            },
            (StartStage::CheckingAssets, StartEvent::AssetsChecked(a)) => match check_assets(&a) {
                Err(e) => self.fail(lock, e),
                Ok(()) => {
                    self.injector_script = a.injector_script;
                    self.stage = StartStage::ApplyingTheme;
                    StartAction::ApplyTheme
                },
            },
            (StartStage::ApplyingTheme, StartEvent::ThemeApplied(t)) => match t {
                Err(reason) => self.fail(lock, LaunchError::Failed { reason }),
                Ok(()) => {
                    self.stage = StartStage::FindingNode;
                    StartAction::FindNode
                },
            },
            (StartStage::FindingNode, StartEvent::NodeFound(n)) => match require_node(n) {
                Err(e) => self.fail(lock, e),
                Ok(node) => {
                    self.node_path = node;
                    self.stage = StartStage::PreparingStateDir;
                    StartAction::PrepareStateDir
                },
            },
            (StartStage::PreparingStateDir, StartEvent::StateDirPrepared(d)) => match d {
                Err(reason) => self.fail(lock, LaunchError::Failed { reason }),
                Ok(root) => {
                    self.state_root = root;
                    self.stage = StartStage::WaitingForCdp;
                    StartAction::WaitForCdp { port: self.port, timeout_secs: CDP_WAIT_SECS }
                },
            },
            (StartStage::WaitingForCdp, StartEvent::CdpWaited { ready }) => match require_cdp_ready(
                ready,
                self.port,
            ) {
                Ok(()) => {
                    self.stage = StartStage::FetchingBrowserId;
                    StartAction::FetchBrowserId { port: self.port }
                },
                Err(e) => self.fail(lock, e),
            },
            (StartStage::FetchingBrowserId, StartEvent::BrowserIdFetched(b)) => match b {
                Err(reason) => self.fail(lock, LaunchError::Failed { reason }),
                Ok(id) => {
                    let args = injector_args(self.injector_script.as_str(), self.port, id.as_str());
                    let (stdout_path, stderr_path) = injector_log_paths(self.state_root.as_str());
                    let program = self.node_path.clone();
                    self.browser_id = id;
                    self.stage = StartStage::SpawningInjector;
                    StartAction::SpawnInjector { program, args, stdout_path, stderr_path }
                },
            },
            (StartStage::SpawningInjector, StartEvent::InjectorSpawned(s)) => match s {
                Err(SpawnFailure::LogFile(reason)) => self.fail(lock, LaunchError::Failed { reason }),
                Err(SpawnFailure::Spawn(reason)) => self.fail(
                    lock,
                    LaunchError::SpawnFailed { reason },
                ),
                Ok(pid) => {
                    self.injector_pid = pid;
                    self.stage = StartStage::WatchingInjector;
                    StartAction::WatchInjector { settle_secs: INJECTOR_SETTLE_SECS }
                },
            },
            (StartStage::WatchingInjector, StartEvent::InjectorWatched { exited, now }) => match exited {
                Some(x) => self.fail(
                    lock,
                    LaunchError::ExitedEarly { exit_status: x.status, stderr: x.stderr },
                ),
                None => {
                    let record = injector_state_record(
                        self.port,
                        self.injector_pid,
                        now,
                        self.injector_script.as_str(),
                        self.node_path.as_str(),
                        self.browser_id.as_str(),
                    );
                    self.stage = StartStage::SavingState;
                    StartAction::SaveState(record)
                },
            },
            (StartStage::SavingState, StartEvent::StateSaved(w)) => match w {
                Err(reason) => self.fail(lock, LaunchError::Failed { reason }),
                Ok(()) => {
                    self.stage = StartStage::Ended;
                    let _ = lock.settle::<()>(Ok(()));
                    StartAction::Done
                },
            },
            _ => StartAction::Ignore,
        }
    }
}

} // verus!
