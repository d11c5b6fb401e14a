use vstd::prelude::*;

verus! {

/// What a poll of a port-forward child found, one second after it was spawned.
pub enum ForwarderPoll {
    /// The child had already exited, with this exit code if it had one.
    Exited(Option<i32>),
    /// The child was still running.
    Running,
    /// The poll itself failed, for this reason.
    PollFailed(String),
}

/// A forwarder that serves the local port.
#[derive(PartialEq, Eq, Structural, Clone, Copy, Debug)]
pub enum ForwardOutcome {
    /// The child is running.
    Started,
    /// The child exited at once: another forwarder most likely holds the
    /// port and goes on serving it.
    AlreadyServing,
}

/// Why a forwarder could not be set up.
pub enum ForwardError {
    /// The cluster CLI could not be launched with these arguments.
    SpawnFailed { args: Vec<String>, reason: String },
    /// The child was launched with these arguments, but could not be polled.
    PollFailed { args: Vec<String>, reason: String },
}

/// Decides the outcome of a REST forwarder launched with `args` from what
/// the poll after the settle delay found: an exited child or a running one
/// is a success, a failed poll is an error that carries the arguments.
pub fn settle_port_forward(args: Vec<String>, poll: ForwarderPoll) -> (r: Result<ForwardOutcome, ForwardError>)
    ensures
        match poll {
            ForwarderPoll::Exited(_) => r == Ok::<ForwardOutcome, ForwardError>(ForwardOutcome::AlreadyServing),
            ForwarderPoll::Running => r == Ok::<ForwardOutcome, ForwardError>(ForwardOutcome::Started),
            ForwarderPoll::PollFailed(reason) => match r {
                Err(ForwardError::PollFailed { args: a, reason: why }) => a@ == args@ && why@ == reason@,
                _ => false,
            },
        },
{
    match poll {
        ForwarderPoll::Exited(_) => Ok(ForwardOutcome::AlreadyServing),
        ForwarderPoll::Running => Ok(ForwardOutcome::Started),
        ForwarderPoll::PollFailed(reason) => Err(ForwardError::PollFailed { args, reason }),
    }
}

/// A failed liveness probe, told apart from failures of unknown kind.
pub enum HealthCheckError {
    /// The probe ran and the node did not answer as a healthy one does.
    Failure(String),
    /// Something else went wrong.
    Unknown(String),
}

/// The error of a liveness probe that failed with `reason`.
pub fn health_check_failure(reason: &str) -> (r: HealthCheckError)
    ensures
        match r {
            HealthCheckError::Failure(m) => m@ == "K8s node health_check failed: "@ + reason@,
            HealthCheckError::Unknown(_) => false,
        },
{
    let mut m = String::from_str("K8s node health_check failed: ");
    m.append(reason);
    HealthCheckError::Failure(m)
}

} // verus!
