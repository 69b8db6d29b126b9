use vstd::prelude::*;

use crate::descriptor::{has_descriptor, BundleCatalog};
use crate::errors::HostError;

verus! {

/// The states a live plugin instance moves through. Construction enters
/// `Created`; `destroy` leaves the machine entirely.
#[derive(Clone, Copy, Debug, PartialEq, Eq, Structural)]
pub enum LifecycleState {
    /// Constructed, no audio configuration negotiated yet.
    Created,
    /// An audio configuration is fixed and the audio-thread state exists.
    Activated,
    /// The realtime render entry point may be invoked.
    Processing,
}

/// The audio configuration negotiated at activation: sample rate in hertz
/// and the inclusive bounds on per-callback block lengths. Immutable until
/// the instance is deactivated and re-activated.
#[derive(Clone, Copy, Debug, PartialEq, Eq, Structural)]
pub struct AudioConfig {
    pub sample_rate: u32,
    pub min_block_frames: u32,
    pub max_block_frames: u32,
}

/// A configuration the plugin can be activated with: a positive sample
/// rate and a non-empty, positive block-length range.
pub open spec fn config_valid(c: AudioConfig) -> bool {
    c.sample_rate >= 1 && c.min_block_frames >= 1 && c.min_block_frames <= c.max_block_frames
}

/// Checks an audio configuration for validity.
pub fn check_config(c: &AudioConfig) -> (r: bool)
    ensures
        r == config_valid(*c),
{
    c.sample_rate >= 1 && c.min_block_frames >= 1 && c.min_block_frames <= c.max_block_frames
}

/// Drives one plugin instance through its lifecycle. `config` is the
/// configuration fixed by the current activation, if any; `frames_rendered`
/// models the audio-thread state: the total frames the instance has
/// rendered since it was last activated.
#[derive(Clone, Copy, Debug, PartialEq, Eq, Structural)]
pub struct LifecycleController {
    pub state: LifecycleState,
    pub config: Option<AudioConfig>,
    pub frames_rendered: u64,
}

/// The outcome of requesting activation: `IllegalState` outside `Created`,
/// `ActivationError` for an unsupported configuration, otherwise the move
/// to `Activated` with fresh audio-thread state.
pub open spec fn spec_activate(c: LifecycleController, cfg: AudioConfig) -> (LifecycleController,
    Result<(), HostError>) {
    if c.state != LifecycleState::Created {
        (c, Err(HostError::IllegalState))
    } else if !config_valid(cfg) {
        (c, Err(HostError::ActivationError))
    } else {
        (
            LifecycleController {
                state: LifecycleState::Activated,
                config: Some(cfg),
                frames_rendered: 0,
            },
            Ok(()),
        )
    }
}

/// The outcome of requesting realtime processing: `IllegalState` outside
/// `Activated`, `StartError` when the plugin refused realtime entry,
/// otherwise the move to `Processing`.
pub open spec fn spec_start(c: LifecycleController, plugin_accepted: bool) -> (LifecycleController,
    Result<(), HostError>) {
    if c.state != LifecycleState::Activated {
        (c, Err(HostError::IllegalState))
    } else if !plugin_accepted {
        (c, Err(HostError::StartError))
    } else {
        (LifecycleController { state: LifecycleState::Processing, ..c }, Ok(()))
    }
}

/// The outcome of requesting a stop: always succeeds, leaving `Processing`
/// for `Activated` and doing nothing anywhere else.
pub open spec fn spec_stop(c: LifecycleController) -> (LifecycleController, Result<
    (),
    HostError,
>) {
    if c.state == LifecycleState::Processing {
        (LifecycleController { state: LifecycleState::Activated, ..c }, Ok(()))
    } else {
        (c, Ok(()))
    }
}

/// The outcome of requesting deactivation: legal only from `Activated` —
/// a processing instance must stop first — and releases the audio-thread
/// state and the negotiated configuration.
pub open spec fn spec_deactivate(c: LifecycleController) -> (LifecycleController, Result<
    (),
    HostError,
>) {
    if c.state == LifecycleState::Activated {
        (
            LifecycleController {
                state: LifecycleState::Created,
                config: None,
                frames_rendered: 0,
            },
            Ok(()),
        )
    } else {
        (c, Err(HostError::IllegalState))
    }
}

/// The audio-thread state after one rendered block of `n` frames.
pub open spec fn spec_record_block(c: LifecycleController, n: u32) -> LifecycleController {
    LifecycleController { frames_rendered: (c.frames_rendered + n) as u64, ..c }
}

impl LifecycleController {
    /// A freshly constructed instance: `Created`, with no configuration and
    /// no audio-thread state.
    pub fn new() -> (r: LifecycleController)
        ensures
            r.state == LifecycleState::Created,
            r.config == Option::<AudioConfig>::None,
            r.frames_rendered == 0,
    {
        LifecycleController {
            state: LifecycleState::Created,
            config: None,
            frames_rendered: 0,
        }
    }

    /// Constructs the controller for one plugin instance: the target
    /// descriptor must be present in the bundle's catalog, or construction
    /// fails with `ConstructionError` (the plugin's own initialization is
    /// a further, foreign failure source and is reported by the caller).
    pub fn create(catalog: &BundleCatalog, target: &Vec<u8>) -> (r: Result<
        LifecycleController,
        HostError,
    >)
        ensures
            match r {
                Ok(c) => has_descriptor(catalog.descs@, target@) && c.state
                    == LifecycleState::Created && c.config == Option::<AudioConfig>::None
                    && c.frames_rendered == 0,
                Err(e) => e == HostError::ConstructionError && !has_descriptor(
                    catalog.descs@,
                    target@,
                ),
            },
    {
        match catalog.select(target) {
            Ok(_) => Ok(LifecycleController::new()),
            Err(_) => Err(HostError::ConstructionError),
        }
    }

    /// Fixes the audio configuration and establishes the audio-thread
    /// state. Rejected with `IllegalState` outside `Created` and with
    /// `ActivationError` for an invalid configuration; in both cases the
    /// controller is left unchanged.
    pub fn activate(&mut self, cfg: AudioConfig) -> (r: Result<(), HostError>)
        ensures
            ((*final(self), r) == spec_activate(*old(self), cfg)),
    {
        if !matches!(self.state, LifecycleState::Created) {
            return Err(HostError::IllegalState);
        }
        if !check_config(&cfg) {
            return Err(HostError::ActivationError);
        }
        self.state = LifecycleState::Activated;
        self.config = Some(cfg);
        self.frames_rendered = 0;
        Ok(())
    }

    /// Enters realtime processing. `plugin_accepted` reports whether the
    /// plugin accepted realtime entry; when it refused, the request fails
    /// with `StartError`. Outside `Activated` — in particular before any
    /// activation — the request is rejected with `IllegalState` and the
    /// controller is left unchanged.
    pub fn start_processing(&mut self, plugin_accepted: bool) -> (r: Result<(), HostError>)
        ensures
            ((*final(self), r) == spec_start(*old(self), plugin_accepted)),
    {
        if !matches!(self.state, LifecycleState::Activated) {
            return Err(HostError::IllegalState);
        }
        if !plugin_accepted {
            return Err(HostError::StartError);
        }
        self.state = LifecycleState::Processing;
        Ok(())
    }

    /// Leaves realtime processing. Always succeeds: a processing instance
    /// returns to `Activated`, anywhere else the call is an idempotent
    /// no-op.
    pub fn stop_processing(&mut self) -> (r: Result<(), HostError>)
        ensures
            ((*final(self), r) == spec_stop(*old(self))),
    {
        if matches!(self.state, LifecycleState::Processing) {
            self.state = LifecycleState::Activated;
        }
        Ok(())
    }

    /// Releases the audio-thread state and the negotiated configuration.
    /// Legal only from `Activated`: anywhere else — in particular while
    /// still `Processing` — the request is rejected with `IllegalState` and
    /// the controller is left unchanged.
    pub fn deactivate(&mut self) -> (r: Result<(), HostError>)
        ensures
            ((*final(self), r) == spec_deactivate(*old(self))),
    {
        if !matches!(self.state, LifecycleState::Activated) {
            return Err(HostError::IllegalState);
        }
        self.state = LifecycleState::Created;
        self.config = None;
        self.frames_rendered = 0;
        Ok(())
    }

    /// Destroys the instance. Legal only once it is back in `Created`;
    /// from there it always succeeds.
    pub fn destroy(self) -> (r: Result<(), HostError>)
        ensures
            r is Ok <==> self.state == LifecycleState::Created,
            r is Err ==> r == Err::<(), HostError>(HostError::IllegalState),
    {
        if matches!(self.state, LifecycleState::Created) {
            Ok(())
        } else {
            Err(HostError::IllegalState)
        }
    }

    /// Records one rendered block of `n` frames in the audio-thread state.
    /// Only `Processing` permits rendering: calling this anywhere else is a
    /// contract violation, not a recoverable error.
    pub fn record_block(&mut self, n: u32)
        requires
            old(self).state == LifecycleState::Processing,
            old(self).frames_rendered + n <= u64::MAX,
        ensures
            *final(self) == spec_record_block(*old(self), n),
    {
        self.frames_rendered = self.frames_rendered + n as u64;
    }
}

/// Starting before activating is rejected as an illegal state, and the
/// request mutates nothing: neither the lifecycle state nor the
/// audio-thread state, so no output buffer is ever written for it.
pub proof fn lemma_start_before_activate_rejected(c: LifecycleController, plugin_accepted: bool)
    requires
        c.state == LifecycleState::Created,
    ensures
        spec_start(c, plugin_accepted) == (c, Err::<(), HostError>(HostError::IllegalState)),
{
}

/// Round trip: activate, deactivate, then activate again with the same
/// configuration. Every step succeeds, and the third state equals the
/// first activation's state — in particular the audio-thread state is
/// reset, so nothing of a previous activation leaks into the next.
pub proof fn lemma_activation_round_trip(c: LifecycleController, cfg: AudioConfig)
    requires
        c.state == LifecycleState::Created,
        config_valid(cfg),
    ensures
        ({
            let (c1, r1) = spec_activate(c, cfg);
            let (c2, r2) = spec_deactivate(c1);
            let (c3, r3) = spec_activate(c2, cfg);
            r1 is Ok && r2 is Ok && r3 is Ok && c3 == c1 && c3.frames_rendered == 0
        }),
{
}

/// Re-activation resets the audio-thread state whatever it had
/// accumulated: deactivating any activated instance and activating it
/// again with a valid configuration succeeds and starts from zero frames.
pub proof fn lemma_reactivation_resets_audio_state(c: LifecycleController, cfg: AudioConfig)
    requires
        c.state == LifecycleState::Activated,
        config_valid(cfg),
    ensures
        ({
            let (c1, r1) = spec_deactivate(c);
            let (c2, r2) = spec_activate(c1, cfg);
            r1 is Ok && r2 is Ok && c2.state == LifecycleState::Activated && c2.config == Some(cfg)
                && c2.frames_rendered == 0
        }),
{
}

/// Consecutive rendered blocks continue the signal rather than restart it:
/// the audio-thread state advances across the first block and again across
/// the second, and is never reset between the two calls.
pub proof fn lemma_rendering_continues(c: LifecycleController, n: u32)
    requires
        c.state == LifecycleState::Processing,
        n >= 1,
        c.frames_rendered + n + n <= u64::MAX,
    ensures
        ({
            let c1 = spec_record_block(c, n);
            let c2 = spec_record_block(c1, n);
            c1.frames_rendered == c.frames_rendered + n && c2.frames_rendered
                == c.frames_rendered + n + n && c2.frames_rendered > c1.frames_rendered
        }),
{
}

} // verus!
