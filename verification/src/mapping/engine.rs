//! Lifecycle of a mapping engine: Initializing, Configured, Active, Deactivating,
//! Deactivated, in that order. The engine decides which input reaches its strategy
//! (rate limiting) and what its lifecycle steps report; running the strategy and the
//! channels around it is left to the caller.

use vstd::prelude::*;
use vstd::string::*;

use super::error::{mapping_error_text, MappingError};
use super::strategy::MappingType;
use super::RateLimiter;

verus! {

/// States of the engine lifecycle.
#[derive(Clone, Copy, Debug, PartialEq, Eq, Structural)]
pub enum MappingEngineState {
    /// Setting up the engine.
    Initializing,
    /// Strategy loaded and initialized.
    Configured,
    /// Processing input.
    Active,
    /// Shutting down.
    Deactivating,
    /// Fully stopped.
    Deactivated,
}

/// A mapping engine: its kind, its name, where it stands in the lifecycle, whether
/// a strategy is loaded, and the rate limiter the strategy asked for.
pub struct MappingEngine {
    engine_type: MappingType,
    name: String,
    state: MappingEngineState,
    has_strategy: bool,
    rate_limiter: Option<RateLimiter>,
}

/// Detail of the error reported when a strategy fails to initialize.
pub open spec fn init_failure_text(e: MappingError) -> Seq<char> {
    "Failed to initialize strategy: "@ + mapping_error_text(e)
}

impl MappingEngine {
    /// Kind of the engine.
    pub closed spec fn spec_type(&self) -> MappingType {
        self.engine_type
    }

    /// Name of the engine.
    pub closed spec fn spec_name(&self) -> Seq<char> {
        self.name@
    }

    /// Lifecycle state.
    pub closed spec fn spec_state(&self) -> MappingEngineState {
        self.state
    }

    /// Whether a strategy is loaded.
    pub closed spec fn spec_has_strategy(&self) -> bool {
        self.has_strategy
    }

    /// Minimum interval of the rate limiter, if there is one.
    pub closed spec fn spec_rate_limit(&self) -> Option<u64> {
        match self.rate_limiter {
            Some(l) => Some(l.spec_min_interval_ms()),
            None => None,
        }
    }

    /// Whether the engine's rate limiter, if it has one, has let no input through
    /// yet.
    pub closed spec fn spec_limiter_unused(&self) -> bool {
        match self.rate_limiter {
            Some(l) => l.spec_last_event_time() is None,
            None => true,
        }
    }

    /// A new engine of the given kind and name, initializing, with no strategy.
    pub fn create(engine_type: MappingType, name: String) -> (e: MappingEngine)
        ensures
            e.spec_type() == engine_type,
            e.spec_name() == name@,
            e.spec_state() == MappingEngineState::Initializing,
            !e.spec_has_strategy(),
            e.spec_rate_limit() is None,
    {
        MappingEngine {
            engine_type,
            name,
            state: MappingEngineState::Initializing,
            has_strategy: false,
            rate_limiter: None,
        }
    }

    /// Kind of the engine.
    pub fn get_type(&self) -> (t: MappingType)
        ensures
            t == self.spec_type(),
    {
        self.engine_type
    }

    /// Name of the engine.
    pub fn get_name(&self) -> (s: String)
        ensures
            s@ == self.spec_name(),
    {
        self.name.clone()
    }

    /// Lifecycle state.
    pub fn state(&self) -> (s: MappingEngineState)
        ensures
            s == self.spec_state(),
    {
        self.state
    }

    /// Loads a strategy whose initialization gave `init_result` and which asked for
    /// `rate_limit`: on success the engine is configured, holds the strategy and a
    /// rate limiter with that interval where one was asked for; on failure the
    /// error is an initialization error that names the strategy's error.
    pub fn configure(self, init_result: Result<(), MappingError>, rate_limit: Option<u64>) -> (r: Result<MappingEngine, MappingError>)
        requires
            self.spec_state() == MappingEngineState::Initializing,
        ensures
            r is Ok <==> init_result is Ok,
            r matches Ok(e) ==> e.spec_state() == MappingEngineState::Configured
                && e.spec_has_strategy()
                && e.spec_rate_limit() == rate_limit
                && e.spec_limiter_unused()
                && e.spec_type() == self.spec_type()
                && e.spec_name() == self.spec_name(),
            init_result matches Err(ie) ==> (r matches Err(MappingError::InitializationError(m))
                && m@ == init_failure_text(ie)),
    {
        match init_result {
            Ok(()) => {
                let rate_limiter = match rate_limit {
                    Some(ms) => Some(RateLimiter::new(ms)),
                    None => None,
                };
                Ok(MappingEngine {
                    engine_type: self.engine_type,
                    name: self.name,
                    state: MappingEngineState::Configured,
                    has_strategy: true,
                    rate_limiter,
                })
            },
            Err(e) => {
                let mut m = String::from_str("Failed to initialize strategy: ");
                let detail = e.message();
                m.append(detail.as_str());
                Err(MappingError::InitializationError(m))
            },
        }
    }

    /// Starts processing.
    pub fn activate(self) -> (e: MappingEngine)
        requires
            self.spec_state() == MappingEngineState::Configured,
        ensures
            e.spec_state() == MappingEngineState::Active,
            e.spec_type() == self.spec_type(),
            e.spec_name() == self.spec_name(),
            e.spec_has_strategy() == self.spec_has_strategy(),
            e.spec_rate_limit() == self.spec_rate_limit(),
            e.spec_limiter_unused() == self.spec_limiter_unused(),
    {
        MappingEngine { state: MappingEngineState::Active, ..self }
    }

    /// Decides whether an input reaches the strategy: without a strategy this is a
    /// strategy error; without input, nothing is mapped; otherwise the input is
    /// mapped when there is no rate limiter, and when there is one, when it lets
    /// the input through.
    pub fn process_event(&mut self, input_received: bool) -> (r: Result<bool, MappingError>)
        requires
            old(self).spec_state() == MappingEngineState::Active,
        ensures
            final(self).spec_state() == old(self).spec_state(),
            final(self).spec_type() == old(self).spec_type(),
            final(self).spec_name() == old(self).spec_name(),
            final(self).spec_has_strategy() == old(self).spec_has_strategy(),
            final(self).spec_rate_limit() == old(self).spec_rate_limit(),
            !old(self).spec_has_strategy() ==> (r matches Err(MappingError::StrategyError(m))
                && m@ == "No strategy available"@),
            old(self).spec_has_strategy() ==> r is Ok,
            old(self).spec_has_strategy() && !input_received ==> r == Ok::<bool, MappingError>(false),
            old(self).spec_has_strategy() && input_received && old(self).spec_rate_limit() is None
                ==> r == Ok::<bool, MappingError>(true),
            old(self).spec_has_strategy() && input_received && old(self).spec_limiter_unused()
                ==> r == Ok::<bool, MappingError>(true),
            !(old(self).spec_has_strategy() && input_received) ==> final(self).spec_limiter_unused()
                == old(self).spec_limiter_unused(),
    {
        if !self.has_strategy {
            return Err(MappingError::StrategyError(String::from_str("No strategy available")));
        }
        if !input_received {
            return Ok(false);
        }
        match &mut self.rate_limiter {
            Some(limiter) => {
                let pass = limiter.should_process();
                Ok(pass)
            },
            None => Ok(true),
        }
    }

    /// Stops processing.
    pub fn deactivate(self) -> (e: MappingEngine)
        requires
            self.spec_state() == MappingEngineState::Active,
        ensures
            e.spec_state() == MappingEngineState::Deactivating,
            e.spec_type() == self.spec_type(),
            e.spec_name() == self.spec_name(),
            e.spec_has_strategy() == self.spec_has_strategy(),
    {
        MappingEngine { state: MappingEngineState::Deactivating, ..self }
    }

    /// Finishes the shutdown; the flag says whether a strategy is loaded and must
    /// be shut down.
    pub fn shutdown(self) -> (r: (MappingEngine, bool))
        requires
            self.spec_state() == MappingEngineState::Deactivating,
        ensures
            r.0.spec_state() == MappingEngineState::Deactivated,
            r.0.spec_type() == self.spec_type(),
            r.0.spec_name() == self.spec_name(),
            r.1 == self.spec_has_strategy(),
    {
        let has = self.has_strategy;
        (MappingEngine { state: MappingEngineState::Deactivated, ..self }, has)
    }
}

/// The error reported when a mapped event cannot be sent on; `detail` is the
/// channel's own description of the failure.
pub fn send_failure(detail: &str) -> (e: MappingError)
    ensures
        e matches MappingError::ChannelError(m) && m@ == "Failed to send mapped event: "@ + detail@,
{
    let mut m = String::from_str("Failed to send mapped event: ");
    m.append(detail);
    MappingError::ChannelError(m)
}

/// How waiting for an engine task ended.
pub enum TaskEnd {
    /// The engine had no task, or it was already collected.
    NoTask,
    /// The task finished with this result.
    Finished(Result<(), MappingError>),
    /// The task panicked; the text describes the panic.
    Panicked(String),
}

/// Result of shutting down an engine handle, from how its task ended: nothing to
/// wait for is success, a finished task gives its own result, a panic is a
/// thread error that names it.
pub fn shutdown_outcome(end: TaskEnd) -> (r: Result<(), MappingError>)
    ensures
        end is NoTask ==> r is Ok,
        end matches TaskEnd::Finished(res) ==> r == res,
        end matches TaskEnd::Panicked(p) ==> (r matches Err(MappingError::ThreadError(m))
            && m@ == "Engine task panicked: "@ + p@),
{
    match end {
        TaskEnd::NoTask => Ok(()),
        TaskEnd::Finished(res) => res,
        TaskEnd::Panicked(p) => {
            let mut m = String::from_str("Engine task panicked: ");
            m.append(p.as_str());
            Err(MappingError::ThreadError(m))
        },
    }
}

/// What a running engine's handle still holds: a stop signal not yet sent, and a
/// task not yet waited for.
pub struct HandleSlots {
    pub signal_pending: bool,
    pub task_pending: bool,
}

/// What a shutdown of an engine handle does: send the stop signal, and wait for
/// the engine's task.
pub struct ShutdownActions {
    pub send_signal: bool,
    pub await_task: bool,
}

/// A shutdown takes what the handle holds: it sends the signal if one is pending,
/// waits for the task if one is pending, and leaves nothing pending.
pub open spec fn shutdown_step(s: HandleSlots) -> (HandleSlots, ShutdownActions) {
    (
        HandleSlots { signal_pending: false, task_pending: false },
        ShutdownActions { send_signal: s.signal_pending, await_task: s.task_pending },
    )
}

impl HandleSlots {
    /// A handle with no engine started: nothing to signal, nothing to wait for.
    pub fn new() -> (s: HandleSlots)
        ensures
            !s.signal_pending,
            !s.task_pending,
    {
        HandleSlots { signal_pending: false, task_pending: false }
    }

    /// An engine was started: its stop signal and its task are pending.
    pub fn started(&mut self)
        ensures
            final(self).signal_pending,
            final(self).task_pending,
    {
        self.signal_pending = true;
        self.task_pending = true;
    }

    /// Begins a shutdown: says what to do and leaves nothing pending.
    pub fn begin_shutdown(&mut self) -> (a: ShutdownActions)
        ensures
            (*final(self), a) == shutdown_step(*old(self)),
    {
        let a = ShutdownActions { send_signal: self.signal_pending, await_task: self.task_pending };
        self.signal_pending = false;
        self.task_pending = false;
        a
    }
}

/// Shutting down is idempotent: after one shutdown, another sends no signal,
/// waits for no task (so its outcome is that of no task, success) and changes
/// nothing.
pub proof fn law_shutdown_is_idempotent(s: HandleSlots)
    ensures
        !shutdown_step(shutdown_step(s).0).1.send_signal,
        !shutdown_step(shutdown_step(s).0).1.await_task,
        shutdown_step(shutdown_step(s).0).0 == shutdown_step(s).0,
{
}

} // verus!
