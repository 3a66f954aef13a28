//! The recording session controller.
//!
//! A [`Recorder`] owns the configuration of a session, the name of the
//! target it is bound to, and the recording engine while one is active. It
//! decides what starting and stopping do in each state of the session. The
//! engine itself is the caller's: the recorder is handed the operations
//! that construct and stop one and holds the engine in between.

pub mod config;

pub use self::config::{RecorderConfig, RecorderConfigBuilder};

use self::config::{BuilderOptions, RecorderSettings};
use crate::error::RecorderError;
use crate::processing::encoder::{is_catalog_from, catalog_from, EncoderCatalog, VideoEncoderInfo};
use vstd::prelude::*;

verus! {

/// A recording session. `E` is the type of the recording engine that the
/// session owns while it records.
pub struct Recorder<E> {
    rec_inner: Option<E>,
    config: RecorderConfig,
    process_name: Option<String>,
}

/// The mathematical content of a [`Recorder`]: the active engine, the
/// configuration and the name of the bound target.
pub struct RecorderState<E> {
    pub engine: Option<E>,
    pub config: RecorderSettings,
    pub process_name: Option<Seq<char>>,
}

/// The states of a session.
pub enum SessionPhase {
    /// No target is bound and no engine is active.
    Created,
    /// A target is bound and no engine is active.
    Bound,
    /// An engine is active.
    Recording,
}

impl<E> RecorderState<E> {
    /// The state of the session's life that this is.
    pub open spec fn phase(self) -> SessionPhase {
        if self.engine is Some {
            SessionPhase::Recording
        } else if self.process_name is Some {
            SessionPhase::Bound
        } else {
            SessionPhase::Created
        }
    }

    /// What holds of every session: an engine is active only while a
    /// target is bound.
    pub open spec fn is_consistent(self) -> bool {
        self.engine is Some ==> self.process_name is Some
    }
}

/// What starting a session does, given what constructing the engine gave.
///
/// Without a bound target, and with an engine already active, the start is
/// refused and the session stays as it was; the outcome plays no part.
/// Otherwise an engine that was constructed becomes the active one, and a
/// failure to construct it is reported with its description while the
/// session stays without an engine.
pub open spec fn start_transition<E>(state: RecorderState<E>, outcome: Result<E, String>) -> (
    RecorderState<E>,
    Result<(), RecorderError>,
) {
    if state.process_name is None {
        (state, Err(RecorderError::NoProcessSpecified))
    } else if state.engine is Some {
        (state, Err(RecorderError::AlreadyRecording))
    } else {
        match outcome {
            Ok(engine) => (RecorderState { engine: Some(engine), ..state }, Ok(())),
            Err(detail) => (state, Err(RecorderError::FailedToStart(detail))),
        }
    }
}

/// What stopping a session does: the engine that was active, or the error
/// where none was; either way the session is without an engine afterwards.
pub open spec fn stop_transition<E>(state: RecorderState<E>) -> (
    RecorderState<E>,
    Result<E, RecorderError>,
) {
    match state.engine {
        Some(engine) => (RecorderState { engine: None, ..state }, Ok(engine)),
        None => (state, Err(RecorderError::NoRecorderBound)),
    }
}

impl<E> View for Recorder<E> {
    type V = RecorderState<E>;

    closed spec fn view(&self) -> RecorderState<E> {
        RecorderState {
            engine: self.rec_inner,
            config: self.config@,
            process_name: match self.process_name {
                Some(name) => Some(name@),
                None => None,
            },
        }
    }
}

impl Recorder<()> {
    /// A builder for the configuration of a session, with no option set.
    pub fn builder() -> (builder: RecorderConfigBuilder)
        ensures
            builder@ == BuilderOptions::unset(),
    {
        RecorderConfig::builder()
    }
}

impl<E> Recorder<E> {
    #[verifier::type_invariant]
    spec fn engine_needs_target(self) -> bool {
        self.rec_inner is Some ==> self.process_name is Some
    }

    /// The configuration that the session holds.
    pub closed spec fn held_config(&self) -> RecorderConfig {
        self.config
    }

    /// The name of the target that the session is bound to.
    pub closed spec fn bound_name(&self) -> Option<String> {
        self.process_name
    }

    /// Creates a session that holds `config`. No target is bound and no
    /// engine is active. This never fails.
    pub fn new(config: RecorderConfig) -> (created: Result<Self, RecorderError>)
        ensures
            created matches Ok(recorder) && recorder@ == (RecorderState::<E> {
                engine: None,
                config: config@,
                process_name: None,
            }) && recorder.held_config() == config && recorder@.is_consistent(),
    {
        Ok(Recorder { rec_inner: None, config, process_name: None })
    }

    /// Binds the session to the target with the given name. The window is
    /// not looked for now but when recording starts, so it need not exist
    /// yet. A session can be bound anew at any time.
    pub fn with_process_name(self, proc_name: &str) -> (bound: Self)
        ensures
            bound@ == (RecorderState { process_name: Some(proc_name@), ..self@ }),
            bound.held_config() == self.held_config(),
            bound.bound_name() matches Some(name) && name@ == proc_name@,
            bound@.is_consistent(),
    {
        let mut bound = self;
        bound.process_name = Some(proc_name.to_owned());
        bound
    }

    /// The configuration of the session.
    pub fn config(&self) -> (config: &RecorderConfig)
        ensures
            *config == self.held_config(),
            config@ == self@.config,
    {
        &self.config
    }

    /// The name of the target that the session is bound to, if any.
    pub fn process_name(&self) -> (name: Option<&String>)
        ensures
            name matches Some(bound) ==> self.bound_name() == Some(*bound),
            name is None <==> self.bound_name() is None,
            match name {
                Some(bound) => self@.process_name == Some(bound@),
                None => self@.process_name is None,
            },
    {
        self.process_name.as_ref()
    }

    /// Whether an engine is active.
    pub fn is_recording(&self) -> (recording: bool)
        ensures
            recording == self@.engine is Some,
    {
        self.rec_inner.is_some()
    }

    /// Tells whether recording can start now, and if so, for which target
    /// the engine is to be constructed.
    pub fn start_target(&self) -> (target: Result<&String, RecorderError>)
        ensures
            self@.process_name is None ==> target == Err::<&String, RecorderError>(
                RecorderError::NoProcessSpecified,
            ),
            self@.process_name is Some && self@.engine is Some ==> target == Err::<
                &String,
                RecorderError,
            >(RecorderError::AlreadyRecording),
            self@.process_name is Some && self@.engine is None ==> (target matches Ok(name)
                && self.bound_name() == Some(*name)),
    {
        match &self.process_name {
            None => Err(RecorderError::NoProcessSpecified),
            Some(name) => {
                if self.rec_inner.is_some() {
                    Err(RecorderError::AlreadyRecording)
                } else {
                    Ok(name)
                }
            },
        }
    }

    /// Completes a start with what constructing the engine gave.
    ///
    /// Where the session could not start, `outcome` is discarded and the
    /// refusal is returned.
    pub fn engine_constructed(&mut self, outcome: Result<E, String>) -> (started: Result<
        (),
        RecorderError,
    >)
        ensures
            final(self).held_config() == old(self).held_config(),
            final(self).bound_name() == old(self).bound_name(),
            (final(self)@, started) == start_transition(old(self)@, outcome),
            old(self)@.is_consistent() && final(self)@.is_consistent(),
    {
        proof {
            use_type_invariant(&*self);
        }
        if self.process_name.is_none() {
            return Err(RecorderError::NoProcessSpecified);
        }
        if self.rec_inner.is_some() {
            return Err(RecorderError::AlreadyRecording);
        }
        match outcome {
            Ok(engine) => {
                self.rec_inner = Some(engine);
                Ok(())
            },
            Err(detail) => Err(RecorderError::FailedToStart(detail)),
        }
    }

    /// Starts recording. `init` constructs the recording engine from the
    /// configuration and the name of the bound target.
    ///
    /// Without a bound target the start fails with `NoProcessSpecified`,
    /// and while an engine is active with `AlreadyRecording`; in both cases
    /// `init` is not called and the session stays as it was. Otherwise
    /// `init` is called once. The engine it returns becomes the active one.
    /// Where it fails, the start fails with `FailedToStart`, which carries
    /// the description that `init` gave, and no engine is active.
    pub fn start_recording<F>(&mut self, init: F) -> (started: Result<(), RecorderError>) where
        F: FnOnce(&RecorderConfig, &String) -> Result<E, String>,

        requires
            old(self)@.phase() is Bound ==> init.requires(
                (&old(self).held_config(), &old(self).bound_name()->0),
            ),
        ensures
            final(self).held_config() == old(self).held_config(),
            final(self).bound_name() == old(self).bound_name(),
            old(self)@.phase() is Created ==> started == Err::<(), RecorderError>(
                RecorderError::NoProcessSpecified,
            ) && final(self)@ == old(self)@ && final(self)@.engine is None,
            old(self)@.phase() is Recording ==> started == Err::<(), RecorderError>(
                RecorderError::AlreadyRecording,
            ) && final(self)@ == old(self)@,
            old(self)@.phase() is Bound ==> exists|outcome: Result<E, String>|
                init.ensures((&old(self).held_config(), &old(self).bound_name()->0), outcome) && (
                final(self)@,
                started,
                ) == start_transition(old(self)@, outcome),
            old(self)@.is_consistent() && final(self)@.is_consistent(),
    {
        proof {
            use_type_invariant(&*self);
        }
        match self.start_target() {
            Err(refusal) => Err(refusal),
            Ok(name) => {
                let outcome = init(&self.config, name);
                self.engine_constructed(outcome)
            },
        }
    }

    /// Asks the media subsystem for the video encoders that are available.
    /// `ensure_initialized` brings the subsystem up, which is harmless to
    /// repeat; `enumerate` lists its encoders in the subsystem's order.
    ///
    /// `ensure_initialized` is called first and its failure is returned as
    /// it is, without a call of `enumerate`. A failure of `enumerate` is
    /// returned as `Generic` with its description. Otherwise the result is
    /// the catalog of what `enumerate` listed. Nothing is kept between two
    /// calls.
    pub fn get_available_video_encoders<I, L>(&self, ensure_initialized: I, enumerate: L) -> (catalog:
        Result<EncoderCatalog, RecorderError>) where
        I: FnOnce() -> Result<(), RecorderError>,
        L: FnOnce() -> Result<Vec<VideoEncoderInfo>, String>,

        requires
            ensure_initialized.requires(()),
            enumerate.requires(()),
        ensures
            exists|initialized: Result<(), RecorderError>|
                ensure_initialized.ensures((), initialized) && match initialized {
                    Err(error) => catalog == Err::<EncoderCatalog, RecorderError>(error),
                    Ok(_) => exists|listed: Result<Vec<VideoEncoderInfo>, String>|
                        enumerate.ensures((), listed) && is_catalog_from(listed, catalog),
                },
    {
        match ensure_initialized() {
            Err(error) => Err(error),
            Ok(_) => catalog_from(enumerate()),
        }
    }

    /// Releases the active engine to the caller.
    pub fn take_engine(&mut self) -> (taken: Result<E, RecorderError>)
        ensures
            final(self).held_config() == old(self).held_config(),
            final(self).bound_name() == old(self).bound_name(),
            (final(self)@, taken) == stop_transition(old(self)@),
            old(self)@.is_consistent() && final(self)@.is_consistent(),
    {
        proof {
            use_type_invariant(&*self);
        }
        let mut released: Option<E> = None;
        core::mem::swap(&mut released, &mut self.rec_inner);
        match released {
            Some(engine) => Ok(engine),
            None => Err(RecorderError::NoRecorderBound),
        }
    }

    /// Stops recording. `halt` stops the engine it is given.
    ///
    /// With no engine active the stop fails with `NoRecorderBound` and
    /// `halt` is not called. Otherwise the active engine is released from
    /// the session and handed to `halt`, whose result is returned as it
    /// is. Whatever that result, the session has no engine afterwards and
    /// can be started again.
    pub fn stop_recording<F>(&mut self, halt: F) -> (stopped: Result<(), RecorderError>) where
        F: FnOnce(E) -> Result<(), RecorderError>,

        requires
            old(self)@.engine matches Some(engine) ==> halt.requires((engine,)),
        ensures
            final(self).held_config() == old(self).held_config(),
            final(self).bound_name() == old(self).bound_name(),
            final(self)@ == (RecorderState { engine: None, ..old(self)@ }),
            old(self)@.engine is None ==> stopped == Err::<(), RecorderError>(
                RecorderError::NoRecorderBound,
            ),
            old(self)@.engine matches Some(engine) ==> halt.ensures((engine,), stopped),
            old(self)@.is_consistent() && final(self)@.is_consistent(),
    {
        proof {
            use_type_invariant(&*self);
        }
        match self.take_engine() {
            Ok(engine) => halt(engine),
            Err(refusal) => Err(refusal),
        }
    }
}

/// Starting and stopping keep a session consistent.
pub proof fn lemma_transitions_keep_consistency<E>(
    state: RecorderState<E>,
    outcome: Result<E, String>,
)
    requires
        state.is_consistent(),
    ensures
        start_transition(state, outcome).0.is_consistent(),
        stop_transition(state).0.is_consistent(),
{
}

/// A start without a bound target fails with `NoProcessSpecified`, whatever
/// constructing an engine would give, and the session has no engine
/// afterwards.
pub proof fn lemma_start_needs_target<E>(state: RecorderState<E>, outcome: Result<E, String>)
    requires
        state.is_consistent(),
        state.process_name is None,
    ensures
        start_transition(state, outcome) == (
            state,
            Err::<(), RecorderError>(RecorderError::NoProcessSpecified),
        ),
        start_transition(state, outcome).0.engine is None,
{
}

/// A stop without an active engine fails with `NoRecorderBound`.
pub proof fn lemma_stop_needs_engine<E>(state: RecorderState<E>)
    requires
        state.engine is None,
    ensures
        stop_transition(state) == (
            state,
            Err::<E, RecorderError>(RecorderError::NoRecorderBound),
        ),
{
}

/// A second start without a stop in between fails with `AlreadyRecording`
/// and leaves the engine of the first start in place.
pub proof fn lemma_second_start_is_refused<E>(
    state: RecorderState<E>,
    first: Result<E, String>,
    second: Result<E, String>,
)
    requires
        start_transition(state, first).1 is Ok,
    ensures
        start_transition(start_transition(state, first).0, second) == (
            start_transition(state, first).0,
            Err::<(), RecorderError>(RecorderError::AlreadyRecording),
        ),
        first matches Ok(engine) && start_transition(state, first).0.engine == Some(engine),
{
}

/// A start that failed because the engine could not be constructed leaves
/// the session as it was, so that the next start with an engine succeeds.
pub proof fn lemma_failed_start_can_be_repeated<E>(
    state: RecorderState<E>,
    detail: String,
    engine: E,
)
    requires
        state.phase() is Bound,
    ensures
        start_transition(state, Err(detail)) == (
            state,
            Err::<(), RecorderError>(RecorderError::FailedToStart(detail)),
        ),
        start_transition(start_transition(state, Err(detail)).0, Ok(engine)) == (
            RecorderState { engine: Some(engine), ..state },
            Ok::<(), RecorderError>(()),
        ),
{
}

/// After a stop the session is bound as before and has no engine, so that
/// it can be started again.
pub proof fn lemma_stopped_session_can_start_again<E>(state: RecorderState<E>, engine: E)
    requires
        state.is_consistent(),
        state.phase() is Recording,
    ensures
        stop_transition(state).0.phase() is Bound,
        stop_transition(state).1 == Ok::<E, RecorderError>(state.engine->0),
        start_transition(stop_transition(state).0, Ok(engine)).1 is Ok,
{
}

} // verus!
