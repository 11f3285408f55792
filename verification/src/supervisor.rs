//! Process supervisor: owns the lifecycle of exactly one sidecar child
//! process. A start request is decided here — idempotent when a child is
//! already running, failing with a descriptive error when the script or
//! the runtime is missing, and otherwise producing the exact spawn plan.
//! The host performs the OS spawn and kill and reports back; the single
//! slot of this state machine is the only record of a live child.

use vstd::prelude::*;
use crate::paths::SidecarPaths;
use crate::spec_local_api_port;

verus! {

/// Everything the host needs to spawn the child: the runtime binary as
/// the program, the entry script as its sole argument, and the three
/// environment variables handed to the service.
pub struct SpawnPlan {
    pub program: String,
    pub script_arg: String,
    pub env: Vec<(String, String)>,
}

/// The outcome of a start request.
pub enum StartDecision {
    /// A child is already running: succeed immediately, spawn nothing.
    AlreadyRunning,
    /// The entry script is absent; the message names the attempted path.
    MissingScript { message: String },
    /// No runtime binary was found; the message names the override
    /// variable the operator may set.
    RuntimeNotFound { message: String },
    /// Spawn the child as the plan says.
    Spawn { plan: SpawnPlan },
}

/// The error reported when the entry script is absent, naming the
/// attempted path.
pub open spec fn spec_missing_script_message(script_path: Seq<char>) -> Seq<char> {
    "Local API sidecar script missing at "@ + script_path
}

/// The error reported when no runtime binary was discovered.
pub open spec fn spec_runtime_not_found_message() -> Seq<char> {
    "Node.js executable not found. Install Node 18+ or set LOCAL_API_NODE_BIN"@
}

/// The informational event written when a spawn is attempted, naming
/// the script, the resource root and the sidecar log file.
pub open spec fn spec_starting_message(
    script: Seq<char>,
    resource_root: Seq<char>,
    log_path: Seq<char>,
) -> Seq<char> {
    "starting local API sidecar script="@ + script + " resource_root="@ + resource_root
        + " log="@ + log_path
}

/// Builds the spawn-attempt event message.
pub fn starting_message(script: &str, resource_root: &str, log_path: &str) -> (r: String)
    ensures
        r@ == spec_starting_message(script@, resource_root@, log_path@),
{
    let mut out = String::from_str("starting local API sidecar script=");
    out.append(script);
    out.append(" resource_root=");
    out.append(resource_root);
    out.append(" log=");
    out.append(log_path);
    proof {
        assert(out@ =~= spec_starting_message(script@, resource_root@, log_path@));
    }
    out
}

/// The informational event naming the discovered runtime binary.
pub open spec fn spec_runtime_resolved_message(binary: Seq<char>) -> Seq<char> {
    "resolved node binary="@ + binary
}

/// Builds the runtime-discovered event message.
pub fn runtime_resolved_message(binary: &str) -> (r: String)
    ensures
        r@ == spec_runtime_resolved_message(binary@),
{
    let mut out = String::from_str("resolved node binary=");
    out.append(binary);
    out
}

/// The informational event recording the spawned process identifier.
pub open spec fn spec_started_message(pid: nat) -> Seq<char> {
    "local API sidecar started pid="@ + crate::logger::dec_seq(pid)
}

/// Builds the spawn-succeeded event message.
pub fn started_message(pid: u32) -> (r: String)
    ensures
        r@ == spec_started_message(pid as nat),
{
    let mut out = String::from_str("local API sidecar started pid=");
    let digits = crate::logger::decimal_string(pid as u64);
    out.append(digits.as_str());
    out
}

/// The informational event written when the running child is stopped.
pub open spec fn spec_stopped_message() -> Seq<char> {
    "local API sidecar stopped"@
}

/// Builds the child-stopped event message.
pub fn stopped_message() -> (r: String)
    ensures
        r@ == spec_stopped_message(),
{
    String::from_str("local API sidecar stopped")
}

/// Whether a start request leads to a spawn: only from an empty slot,
/// with the script present and a runtime discovered.
pub open spec fn spec_start_spawns(
    occupied: bool,
    script_exists: bool,
    has_runtime: bool,
) -> bool {
    !occupied && script_exists && has_runtime
}

/// The single slot holding at most one live child, identified by its
/// process id. Created empty; populated only by `note_spawned`, which
/// demands emptiness; emptied by `stop`.
pub struct Supervisor {
    child: Option<u32>,
}

impl Supervisor {
    /// The slot's content: the process id of the live child, if any.
    pub closed spec fn view(self) -> Option<u32> {
        self.child
    }

    /// A supervisor with an empty slot, as at application start.
    pub fn new() -> (r: Supervisor)
        ensures
            r@ is None,
    {
        Supervisor { child: None }
    }

    /// Whether the slot currently holds a child.
    pub fn is_running(&self) -> (r: bool)
        ensures
            r == self@ is Some,
    {
        self.child.is_some()
    }

    /// The process id of the running child, if any.
    pub fn child_pid(&self) -> (r: Option<u32>)
        ensures
            r == self@,
    {
        self.child
    }

    /// Decides a start request. With the slot occupied the request is an
    /// idempotent no-op. From an empty slot: a missing script fails with
    /// a message naming the attempted path; an undiscovered runtime
    /// fails with a message naming the override variable; otherwise the
    /// child is to be spawned with the runtime as program, the script as
    /// sole argument, and the port, resource root and sidecar-mode flag
    /// in its environment. The slot itself is never changed here.
    pub fn plan_start(
        &self,
        paths: &SidecarPaths,
        script_exists: bool,
        runtime_binary: Option<String>,
    ) -> (r: StartDecision)
        ensures
            r is Spawn == spec_start_spawns(
                self@ is Some,
                script_exists,
                runtime_binary is Some,
            ),
            self@ is Some ==> r is AlreadyRunning,
            self@ is None && !script_exists ==> (r matches StartDecision::MissingScript {
                message,
            } && message@ == spec_missing_script_message(paths.script_path@)),
            self@ is None && script_exists && runtime_binary is None ==> (r matches
                StartDecision::RuntimeNotFound { message } && message@
                == spec_runtime_not_found_message()),
            runtime_binary matches Some(binary) ==> (self@ is None && script_exists ==> (r
                matches StartDecision::Spawn { plan } && {
                &&& plan.program@ == binary@
                &&& plan.script_arg@ == paths.script_path@
                &&& plan.env@.len() == 3
                &&& plan.env@[0].0@ == "LOCAL_API_PORT"@
                &&& plan.env@[0].1@ == spec_local_api_port()
                &&& plan.env@[1].0@ == "LOCAL_API_RESOURCE_DIR"@
                &&& plan.env@[1].1@ == paths.resource_root@
                &&& plan.env@[2].0@ == "LOCAL_API_MODE"@
                &&& plan.env@[2].1@ == "tauri-sidecar"@
            })),
    {
        if self.child.is_some() {
            return StartDecision::AlreadyRunning;
        }
        if !script_exists {
            let mut message = String::from_str("Local API sidecar script missing at ");
            message.append(paths.script_path.as_str());
            return StartDecision::MissingScript { message };
        }
        match runtime_binary {
            None => StartDecision::RuntimeNotFound {
                message: String::from_str(
                    "Node.js executable not found. Install Node 18+ or set LOCAL_API_NODE_BIN",
                ),
            },
            Some(binary) => {
                let mut env: Vec<(String, String)> = Vec::new();
                env.push((String::from_str("LOCAL_API_PORT"), crate::local_api_port()));
                env.push(
                    (
                        String::from_str("LOCAL_API_RESOURCE_DIR"),
                        paths.resource_root.clone(),
                    ),
                );
                env.push(
                    (String::from_str("LOCAL_API_MODE"), String::from_str("tauri-sidecar")),
                );
                let plan = SpawnPlan {
                    program: binary,
                    script_arg: paths.script_path.clone(),
                    env,
                };
                StartDecision::Spawn { plan }
            },
        }
    }

    /// Records a successful spawn. Demanding an empty slot here is what
    /// makes "at most one child" an invariant of this type rather than a
    /// convention: no caller can record a second child over a first.
    pub fn note_spawned(&mut self, pid: u32)
        requires
            old(self)@ is None,
        ensures
            final(self)@ == Some(pid),
    {
        self.child = Some(pid);
    }

    /// Clears the slot unconditionally and reports whether a child was
    /// running — the host kills that process. On an empty slot this is a
    /// silent no-op.
    pub fn stop(&mut self) -> (was_running: bool)
        ensures
            final(self)@ is None,
            was_running == old(self)@ is Some,
    {
        let was_running = self.child.is_some();
        self.child = None;
        was_running
    }
}

/// Law: while a child is already running, a start request never spawns.
/// However many times `start` is repeated in the running state, no
/// second process is ever created.
pub proof fn lemma_start_idempotent(occupied: bool, script_exists: bool, has_runtime: bool)
    requires
        occupied,
    ensures
        !spec_start_spawns(occupied, script_exists, has_runtime),
{
}

/// Law: `stop` on an empty slot succeeds without side effects — it
/// reports no running child and the slot is exactly as it was.
pub proof fn lemma_stop_empty_noop(
    before: Option<u32>,
    after: Option<u32>,
    was_running: bool,
)
    requires
        before is None,
        after is None,
        was_running == before is Some,
    ensures
        after == before,
        !was_running,
{
}

} // verus!
