//! The lifecycle of one disposable container: `Created`, then `Started` once the runtime has
//! handed back an id, then `Stopped`. Each operation is a step: it says which runtime command
//! to run, and takes that command's outcome back, so the caller performs the process work and
//! the decisions stay here.
use vstd::prelude::*;

use crate::address::{address_for_field, address_from_inspect, reported_ip, AddressError};
use crate::command::{
    inspect_args,
    logs_args,
    run_args,
    stop_args,
    CapturedOutput,
    CommandError,
    RuntimeCommand,
};

verus! {

/// Where a container stands. The id is assigned by a successful start and kept from then on.
#[derive(Debug, Clone, PartialEq, Eq)]
pub enum LifecycleState {
    Created,
    Started { id: String },
    Stopped { id: String },
}

/// The mathematical view of a `LifecycleState`.
pub enum StateView {
    Created,
    Started { id: Seq<char> },
    Stopped { id: Seq<char> },
}

impl View for LifecycleState {
    type V = StateView;

    open spec fn view(&self) -> StateView {
        match self {
            LifecycleState::Created => StateView::Created,
            LifecycleState::Started { id } => StateView::Started { id: id@ },
            LifecycleState::Stopped { id } => StateView::Stopped { id: id@ },
        }
    }
}

/// An operation that the current state does not allow, or a start that did not succeed.
#[derive(Debug, Clone, PartialEq, Eq)]
pub enum LifecycleError {
    /// A container is already running under this lifecycle.
    AlreadyStarted,
    /// The container has been stopped; this lifecycle is finished.
    AlreadyStopped,
    /// No container has been started yet.
    NotStarted,
    /// The run command failed.
    StartFailed(CommandError),
    /// The run command succeeded but printed no container id.
    MissingId,
}

/// The view of a `ContainerLifecycle`: the image, the state, and the address once resolved.
pub struct LifecycleView {
    pub image: Seq<char>,
    pub state: StateView,
    pub address: Option<Seq<char>>,
}

impl LifecycleView {
    /// The container id, once one has been assigned.
    pub open spec fn id(self) -> Option<Seq<char>> {
        match self.state {
            StateView::Created => None,
            StateView::Started { id } => Some(id),
            StateView::Stopped { id } => Some(id),
        }
    }

    /// Ids are never empty, and an address is only known once an id is.
    pub open spec fn wf(self) -> bool {
        &&& self.id() matches Some(id) ==> id.len() > 0
        &&& self.address is Some ==> self.id() is Some
    }

    pub open spec fn with_state(self, state: StateView) -> LifecycleView {
        LifecycleView { state, ..self }
    }
}

/// The lifecycle of one container of one image; the sole owner of the container's id.
pub struct ContainerLifecycle {
    image: String,
    state: LifecycleState,
    address: Option<String>,
}

impl View for ContainerLifecycle {
    type V = LifecycleView;

    closed spec fn view(&self) -> LifecycleView {
        LifecycleView {
            image: self.image@,
            state: self.state@,
            address: match self.address {
                Some(a) => Some(a@),
                None => None,
            },
        }
    }
}

/// The lifecycle right after construction.
pub open spec fn created(image: Seq<char>) -> LifecycleView {
    LifecycleView { image, state: StateView::Created, address: None }
}

/// The command that starts the container: allowed from `Created` only.
pub open spec fn start_request_spec(v: LifecycleView) -> Result<Seq<Seq<char>>, LifecycleError> {
    match v.state {
        StateView::Created => Ok(run_args(v.image)),
        StateView::Started { .. } => Err(LifecycleError::AlreadyStarted),
        StateView::Stopped { .. } => Err(LifecycleError::AlreadyStopped),
    }
}

/// Taking back the run command's outcome. From `Created`, a non-empty id moves the lifecycle to
/// `Started`; every failure leaves it as it was.
pub open spec fn start_spec(v: LifecycleView, outcome: Result<CapturedOutput, CommandError>) -> (
    LifecycleView,
    Result<(), LifecycleError>,
) {
    match v.state {
        StateView::Created => match outcome {
            Ok(out) => if out.stdout@.len() > 0 {
                (v.with_state(StateView::Started { id: out.stdout@ }), Ok(()))
            } else {
                (v, Err(LifecycleError::MissingId))
            },
            Err(e) => (v, Err(LifecycleError::StartFailed(e))),
        },
        StateView::Started { .. } => (v, Err(LifecycleError::AlreadyStarted)),
        StateView::Stopped { .. } => (v, Err(LifecycleError::AlreadyStopped)),
    }
}

/// Stopping: from `Started` it yields the one stop command and moves to `Stopped`; anywhere
/// else it yields nothing and changes nothing.
pub open spec fn stop_spec(v: LifecycleView) -> (LifecycleView, Option<Seq<Seq<char>>>) {
    match v.state {
        StateView::Started { id } => (v.with_state(StateView::Stopped { id }), Some(stop_args(id))),
        _ => (v, None),
    }
}

/// A query of a running container: the command for its id, or why there is none.
pub open spec fn query_spec(v: LifecycleView, args: spec_fn(Seq<char>) -> Seq<Seq<char>>) -> Result<
    Seq<Seq<char>>,
    LifecycleError,
> {
    match v.state {
        StateView::Created => Err(LifecycleError::NotStarted),
        StateView::Started { id } => Ok(args(id)),
        StateView::Stopped { .. } => Err(LifecycleError::AlreadyStopped),
    }
}

/// Taking back the outcome of the address inspection: a cached address is kept; otherwise the
/// address is read from the output and cached on success.
pub open spec fn address_spec(
    v: LifecycleView,
    outcome: Result<CapturedOutput, CommandError>,
    port: u16,
) -> (LifecycleView, Result<Seq<char>, AddressError>) {
    if !(v.state is Started) {
        (v, Err(AddressError::NotRunning))
    } else if v.address is Some {
        (v, Ok(v.address->Some_0))
    } else {
        match outcome {
            Err(e) => (v, Err(AddressError::InspectFailed(e))),
            Ok(out) => match address_for_field(reported_ip(out.stdout@), port) {
                Some(a) => (LifecycleView { address: Some(a), ..v }, Ok(a)),
                None => (v, Err(AddressError::MalformedOutput)),
            },
        }
    }
}

/// The lifecycle and the number of successful starts after a run of start attempts, one per
/// outcome, with no stop in between.
pub open spec fn start_attempts(
    v: LifecycleView,
    outcomes: Seq<Result<CapturedOutput, CommandError>>,
) -> (LifecycleView, nat)
    decreases outcomes.len(),
{
    if outcomes.len() == 0 {
        (v, 0)
    } else {
        let (v1, r) = start_spec(v, outcomes[0]);
        let (v2, n) = start_attempts(v1, outcomes.drop_first());
        (v2, n + if r is Ok {
            1nat
        } else {
            0nat
        })
    }
}

/// The number of stop commands that `calls` consecutive stop requests yield.
pub open spec fn stop_commands(v: LifecycleView, calls: nat) -> nat
    decreases calls,
{
    if calls == 0 {
        0
    } else {
        let (v1, cmd) = stop_spec(v);
        stop_commands(v1, (calls - 1) as nat) + if cmd is Some {
            1nat
        } else {
            0nat
        }
    }
}

/// Once an id is assigned, every further start attempt fails, whatever its outcome, and leaves
/// the lifecycle (and so the id) exactly as it was.
pub proof fn lemma_start_refused_once_assigned(
    v: LifecycleView,
    outcomes: Seq<Result<CapturedOutput, CommandError>>,
)
    requires
        v.id() is Some,
    ensures
        start_attempts(v, outcomes) == (v, 0nat),
    decreases outcomes.len(),
{
    if outcomes.len() > 0 {
        lemma_start_refused_once_assigned(v, outcomes.drop_first());
    }
}

/// On a fresh lifecycle, any run of start attempts succeeds at most once, and exactly once
/// when the lifecycle ends up started.
pub proof fn lemma_at_most_one_start(
    image: Seq<char>,
    outcomes: Seq<Result<CapturedOutput, CommandError>>,
)
    ensures
        start_attempts(created(image), outcomes).1 <= 1,
        start_attempts(created(image), outcomes).1 == 1 <==> start_attempts(
            created(image),
            outcomes,
        ).0.state is Started,
    decreases outcomes.len(),
{
    if outcomes.len() > 0 {
        let (v1, r) = start_spec(created(image), outcomes[0]);
        if r is Ok {
            lemma_start_refused_once_assigned(v1, outcomes.drop_first());
        } else {
            assert(v1 == created(image));
            lemma_at_most_one_start(image, outcomes.drop_first());
        }
    }
}

/// Stopping twice is stopping once: the second request yields no command and changes nothing.
pub proof fn lemma_stop_idempotent(v: LifecycleView)
    ensures
        stop_spec(stop_spec(v).0).1 is None,
        stop_spec(stop_spec(v).0).0 == stop_spec(v).0,
{
}

/// Release at scope end: after a successful start, whatever stop requests the scope's body
/// made before it left (normally or early), adding the release at the end yields exactly one
/// stop command in all.
pub proof fn lemma_release_exactly_once(v: LifecycleView, stops_in_body: nat)
    requires
        v.state is Started,
    ensures
        stop_commands(v, stops_in_body + 1) == 1,
{
    let v1 = stop_spec(v).0;
    lemma_no_stop_command_unless_started(v1, stops_in_body);
}

/// A lifecycle that is not running yields no stop command, however often it is asked.
pub proof fn lemma_no_stop_command_unless_started(v: LifecycleView, calls: nat)
    requires
        !(v.state is Started),
    ensures
        stop_commands(v, calls) == 0,
    decreases calls,
{
    if calls > 0 {
        lemma_no_stop_command_unless_started(v, (calls - 1) as nat);
    }
}

impl ContainerLifecycle {
    /// A lifecycle for a container of `image`, not started yet.
    pub fn new(image: &str) -> (r: ContainerLifecycle)
        ensures
            r@ == created(image@),
            r@.wf(),
    {
        ContainerLifecycle { image: String::from_str(image), state: LifecycleState::Created, address: None }
    }

    pub fn image(&self) -> (r: &String)
        ensures
            r@ == self@.image,
    {
        &self.image
    }

    pub fn state(&self) -> (r: &LifecycleState)
        ensures
            r@ == self@.state,
    {
        &self.state
    }

    /// The container id, once a start has succeeded.
    pub fn id(&self) -> (r: Option<&String>)
        ensures
            match r {
                Some(id) => self@.id() == Some(id@),
                None => self@.id() is None,
            },
    {
        match &self.state {
            LifecycleState::Created => None,
            LifecycleState::Started { id } => Some(id),
            LifecycleState::Stopped { id } => Some(id),
        }
    }

    /// The command to run to start the container.
    pub fn start_request(&self) -> (r: Result<RuntimeCommand, LifecycleError>)
        ensures
            match r {
                Ok(cmd) => start_request_spec(self@) == Ok::<
                    Seq<Seq<char>>,
                    LifecycleError,
                >(cmd@),
                Err(e) => start_request_spec(self@) == Err::<Seq<Seq<char>>, LifecycleError>(e),
            },
    {
        match &self.state {
            LifecycleState::Created => Ok(RuntimeCommand::Run { image: self.image.clone() }),
            LifecycleState::Started { .. } => Err(LifecycleError::AlreadyStarted),
            LifecycleState::Stopped { .. } => Err(LifecycleError::AlreadyStopped),
        }
    }

    /// Takes back the outcome of the run command that `start_request` gave.
    pub fn complete_start(&mut self, outcome: Result<CapturedOutput, CommandError>) -> (r: Result<
        (),
        LifecycleError,
    >)
        requires
            old(self)@.wf(),
        ensures
            (final(self)@, r) == start_spec(old(self)@, outcome),
            final(self)@.wf(),
    {
        match &self.state {
            LifecycleState::Created => {},
            LifecycleState::Started { .. } => {
                return Err(LifecycleError::AlreadyStarted);
            },
            LifecycleState::Stopped { .. } => {
                return Err(LifecycleError::AlreadyStopped);
            },
        }
        match outcome {
            Ok(out) => {
                if out.stdout.as_str().unicode_len() == 0 {
                    Err(LifecycleError::MissingId)
                } else {
                    self.state = LifecycleState::Started { id: out.stdout };
                    Ok(())
                }
            },
            Err(e) => Err(LifecycleError::StartFailed(e)),
        }
    }

    /// Stops the container if it is running: returns the stop command to run, at most once over
    /// the lifecycle's whole life. The lifecycle counts as stopped whatever that command's
    /// outcome, so teardown never fails.
    pub fn stop_request(&mut self) -> (r: Option<RuntimeCommand>)
        requires
            old(self)@.wf(),
        ensures
            final(self)@ == stop_spec(old(self)@).0,
            match r {
                Some(cmd) => stop_spec(old(self)@).1 == Some(cmd@),
                None => stop_spec(old(self)@).1 is None,
            },
            final(self)@.wf(),
    {
        let id = match &self.state {
            LifecycleState::Started { id } => id.clone(),
            _ => {
                return None;
            },
        };
        let cmd = RuntimeCommand::Stop { id: id.clone() };
        self.state = LifecycleState::Stopped { id };
        Some(cmd)
    }

    /// The command that fetches the running container's accumulated logs.
    pub fn logs_request(&self) -> (r: Result<RuntimeCommand, LifecycleError>)
        ensures
            match r {
                Ok(cmd) => query_spec(self@, |id| logs_args(id)) == Ok::<
                    Seq<Seq<char>>,
                    LifecycleError,
                >(cmd@),
                Err(e) => query_spec(self@, |id| logs_args(id)) == Err::<
                    Seq<Seq<char>>,
                    LifecycleError,
                >(e),
            },
    {
        match &self.state {
            LifecycleState::Created => Err(LifecycleError::NotStarted),
            LifecycleState::Started { id } => Ok(RuntimeCommand::Logs { id: id.clone() }),
            LifecycleState::Stopped { .. } => Err(LifecycleError::AlreadyStopped),
        }
    }

    /// The command that inspects the running container's network metadata.
    pub fn inspect_request(&self) -> (r: Result<RuntimeCommand, LifecycleError>)
        ensures
            match r {
                Ok(cmd) => query_spec(self@, |id| inspect_args(id)) == Ok::<
                    Seq<Seq<char>>,
                    LifecycleError,
                >(cmd@),
                Err(e) => query_spec(self@, |id| inspect_args(id)) == Err::<
                    Seq<Seq<char>>,
                    LifecycleError,
                >(e),
            },
    {
        match &self.state {
            LifecycleState::Created => Err(LifecycleError::NotStarted),
            LifecycleState::Started { id } => Ok(RuntimeCommand::Inspect { target: id.clone() }),
            LifecycleState::Stopped { .. } => Err(LifecycleError::AlreadyStopped),
        }
    }

    /// The address resolved earlier, if any; once known it never changes.
    pub fn known_address(&self) -> (r: Option<String>)
        ensures
            match r {
                Some(a) => self@.address == Some(a@),
                None => self@.address is None,
            },
    {
        match &self.address {
            Some(a) => Some(a.clone()),
            None => None,
        }
    }

    /// Takes back the outcome of the command that `inspect_request` gave and resolves the
    /// address `"<ip>:<port>"`, caching it.
    pub fn complete_address(
        &mut self,
        outcome: Result<CapturedOutput, CommandError>,
        port: u16,
    ) -> (r: Result<String, AddressError>)
        requires
            old(self)@.wf(),
        ensures
            final(self)@ == address_spec(old(self)@, outcome, port).0,
            match r {
                Ok(a) => address_spec(old(self)@, outcome, port).1 == Ok::<
                    Seq<char>,
                    AddressError,
                >(a@),
                Err(e) => address_spec(old(self)@, outcome, port).1 == Err::<
                    Seq<char>,
                    AddressError,
                >(e),
            },
            final(self)@.wf(),
    {
        match &self.state {
            LifecycleState::Started { .. } => {},
            _ => {
                return Err(AddressError::NotRunning);
            },
        }
        match &self.address {
            Some(a) => {
                return Ok(a.clone());
            },
            None => {},
        }
        match outcome {
            Err(e) => Err(AddressError::InspectFailed(e)),
            Ok(out) => {
                let r = address_from_inspect(out.stdout.as_str(), port);
                match r {
                    Ok(a) => {
                        self.address = Some(a.clone());
                        Ok(a)
                    },
                    Err(e) => Err(e),
                }
            },
        }
    }
}

} // verus!
