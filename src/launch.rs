//! The launch sequence: splash view, backend spawn, readiness wait, and the
//! step that follows its outcome. Each stage is decided here from the event
//! the shell reports; the shell performs the steps.
use vstd::prelude::*;
use vstd::string::StringExecFns;
use crate::config::{BackendConfig, decimal};
use crate::controller::LaunchOutcome;

verus! {

/// Name of the bundled backend executable.
pub const SIDECAR_NAME: &'static str = "tsw_io_backend";

/// How long the final error stays on screen before the process exits.
pub const FAILURE_HOLD_MS: u64 = 3000;

/// Exit status of the process when the backend never became ready.
pub const FAILURE_EXIT_CODE: i32 = 1;

/// A failure during startup; none of them is retried.
#[derive(Clone, Copy, Debug, PartialEq, Eq, Structural)]
pub enum StartupError {
    /// The splash view could not be created.
    SplashWindow,
    /// No command for the sidecar could be obtained.
    SidecarUnavailable,
    /// The sidecar process could not be spawned.
    SpawnFailed,
}

/// Where the launch stands.
#[derive(Clone, Copy, Debug, PartialEq, Eq, Structural)]
pub enum LaunchStage {
    CreatingSplash,
    AcquiringSidecar,
    SpawningBackend,
    AwaitingBackend,
    Running,
    Failed,
    Aborted(StartupError),
}

/// What the shell reports after performing a step.
#[derive(Clone, Copy, Debug, PartialEq, Eq, Structural)]
pub enum LaunchEvent {
    SplashCreated,
    SplashFailed,
    SidecarAcquired,
    SidecarUnavailable,
    BackendSpawned,
    SpawnFailed,
    WaitFinished(LaunchOutcome),
}

/// What the shell does next.
#[derive(Clone, Copy, Debug, PartialEq, Eq, Structural)]
pub enum LaunchStep {
    /// Obtain the command that starts the sidecar.
    AcquireSidecar,
    /// Spawn the sidecar with the backend's environment.
    SpawnBackend,
    /// Run the readiness controller in the background.
    StartReadinessWait,
    /// Open the main view on the backend's base URL and close the splash view.
    ShowMainView,
    /// Show the final error on the splash view, hold it, and exit.
    ReportFailure { hold_ms: u64, exit_code: i32 },
    /// Stop the startup at once.
    Abort(StartupError),
    /// The event does not apply to the current stage.
    Ignore,
}

/// The stage and the step that follow an event.
pub open spec fn launch_transition(stage: LaunchStage, event: LaunchEvent) -> (LaunchStage, LaunchStep) {
    match (stage, event) {
        (LaunchStage::CreatingSplash, LaunchEvent::SplashCreated) =>
            (LaunchStage::AcquiringSidecar, LaunchStep::AcquireSidecar),
        (LaunchStage::CreatingSplash, LaunchEvent::SplashFailed) =>
            (LaunchStage::Aborted(StartupError::SplashWindow), LaunchStep::Abort(StartupError::SplashWindow)),
        (LaunchStage::AcquiringSidecar, LaunchEvent::SidecarAcquired) =>
            (LaunchStage::SpawningBackend, LaunchStep::SpawnBackend),
        (LaunchStage::AcquiringSidecar, LaunchEvent::SidecarUnavailable) =>
            (LaunchStage::Aborted(StartupError::SidecarUnavailable), LaunchStep::Abort(StartupError::SidecarUnavailable)),
        (LaunchStage::SpawningBackend, LaunchEvent::BackendSpawned) =>
            (LaunchStage::AwaitingBackend, LaunchStep::StartReadinessWait),
        (LaunchStage::SpawningBackend, LaunchEvent::SpawnFailed) =>
            (LaunchStage::Aborted(StartupError::SpawnFailed), LaunchStep::Abort(StartupError::SpawnFailed)),
        (LaunchStage::AwaitingBackend, LaunchEvent::WaitFinished(LaunchOutcome::BackendReady)) =>
            (LaunchStage::Running, LaunchStep::ShowMainView),
        (LaunchStage::AwaitingBackend, LaunchEvent::WaitFinished(LaunchOutcome::BackendFailed)) =>
            (LaunchStage::Failed, LaunchStep::ReportFailure { hold_ms: FAILURE_HOLD_MS, exit_code: FAILURE_EXIT_CODE }),
        _ => (stage, LaunchStep::Ignore),
    }
}

/// The launch sequence's state.
pub struct LaunchOrchestrator {
    pub stage: LaunchStage,
}

impl LaunchOrchestrator {
    /// A launch whose first step, creating the splash view, is under way.
    pub fn new() -> (r: LaunchOrchestrator)
        ensures
            r.stage == LaunchStage::CreatingSplash,
    {
        LaunchOrchestrator { stage: LaunchStage::CreatingSplash }
    }

    /// Whether the readiness probe may run: only once the backend was spawned.
    pub open spec fn may_probe_spec(&self) -> bool {
        self.stage is AwaitingBackend
    }

    pub fn may_probe(&self) -> (r: bool)
        ensures
            r == self.may_probe_spec(),
    {
        match self.stage {
            LaunchStage::AwaitingBackend => true,
            _ => false,
        }
    }

    /// Takes the event the shell reports and returns the next step.
    pub fn advance(&mut self, event: LaunchEvent) -> (r: LaunchStep)
        ensures
            (final(self).stage, r) == launch_transition(old(self).stage, event),
    {
        let (stage, step) = match (self.stage, event) {
            (LaunchStage::CreatingSplash, LaunchEvent::SplashCreated) =>
                (LaunchStage::AcquiringSidecar, LaunchStep::AcquireSidecar),
            (LaunchStage::CreatingSplash, LaunchEvent::SplashFailed) =>
                (LaunchStage::Aborted(StartupError::SplashWindow), LaunchStep::Abort(StartupError::SplashWindow)),
            (LaunchStage::AcquiringSidecar, LaunchEvent::SidecarAcquired) =>
                (LaunchStage::SpawningBackend, LaunchStep::SpawnBackend),
            (LaunchStage::AcquiringSidecar, LaunchEvent::SidecarUnavailable) =>
                (LaunchStage::Aborted(StartupError::SidecarUnavailable), LaunchStep::Abort(StartupError::SidecarUnavailable)),
            (LaunchStage::SpawningBackend, LaunchEvent::BackendSpawned) =>
                (LaunchStage::AwaitingBackend, LaunchStep::StartReadinessWait),
            (LaunchStage::SpawningBackend, LaunchEvent::SpawnFailed) =>
                (LaunchStage::Aborted(StartupError::SpawnFailed), LaunchStep::Abort(StartupError::SpawnFailed)),
            (LaunchStage::AwaitingBackend, LaunchEvent::WaitFinished(LaunchOutcome::BackendReady)) =>
                (LaunchStage::Running, LaunchStep::ShowMainView),
            (LaunchStage::AwaitingBackend, LaunchEvent::WaitFinished(LaunchOutcome::BackendFailed)) =>
                (LaunchStage::Failed, LaunchStep::ReportFailure { hold_ms: FAILURE_HOLD_MS, exit_code: FAILURE_EXIT_CODE }),
            _ => (self.stage, LaunchStep::Ignore),
        };
        self.stage = stage;
        step
    }
}

/// Once startup has aborted, no event starts the readiness wait or moves the
/// launch anywhere else: no probe is ever issued.
pub proof fn lemma_abort_is_final(error: StartupError, event: LaunchEvent)
    ensures
        launch_transition(LaunchStage::Aborted(error), event)
            == (LaunchStage::Aborted(error), LaunchStep::Ignore),
{
}

/// The environment the backend is spawned with: its port, production mode,
/// and packaged-binary mode.
pub open spec fn backend_env_spec(config: BackendConfig) -> Seq<(Seq<char>, Seq<char>)> {
    seq![
        ("PORT"@, decimal(config.port as nat)),
        ("MIX_ENV"@, "prod"@),
        ("BURRITO"@, "1"@),
    ]
}

/// Builds the backend's environment as name and value pairs.
pub fn backend_env(config: &BackendConfig) -> (r: Vec<(String, String)>)
    ensures
        r@.len() == backend_env_spec(*config).len(),
        forall|i: int|
            0 <= i < r@.len() ==> (#[trigger] r@[i]).0@ == backend_env_spec(*config)[i].0
                && r@[i].1@ == backend_env_spec(*config)[i].1,
{
    let mut env: Vec<(String, String)> = Vec::new();
    env.push((String::from_str("PORT"), crate::config::port_text(config.port)));
    env.push((String::from_str("MIX_ENV"), String::from_str("prod")));
    env.push((String::from_str("BURRITO"), String::from_str("1")));
    env
}

/// What `urlencoding::encode` makes of a text.
pub uninterp spec fn percent_encoded(s: Seq<char>) -> Seq<char>;

/// Relies on `urlencoding::encode`: percent-encodes the UTF-8 bytes of the
/// text, a function of the text alone; an empty text stays empty.
#[verifier::external_body]
fn percent_encode(s: &str) -> (r: String)
    ensures
        r@ == percent_encoded(s@),
        s@.len() == 0 ==> r@.len() == 0,
{
    urlencoding::encode(s).into_owned()
}

/// A `data:` URL of HTML whose text is already percent-encoded.
pub fn html_data_url_from_encoded(encoded: &str) -> (r: String)
    ensures
        r@ == "data:text/html,"@ + encoded@,
{
    let mut url = String::from_str("data:text/html,");
    url.append(encoded);
    url
}

/// The `data:` URL that shows an HTML document as the splash view.
pub fn splash_data_url(html: &str) -> (r: String)
    ensures
        r@ == "data:text/html,"@ + percent_encoded(html@),
{
    let encoded = percent_encode(html);
    html_data_url_from_encoded(encoded.as_str())
}

} // verus!
