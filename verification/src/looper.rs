//! The per-frame control loop.
//!
//! A frame runs through the phases idle, stepping, syncing, uploading,
//! drawing, presented, and back to idle, once per tick of a fixed frame
//! duration; a tick before the duration has elapsed does no work. Events
//! are translated at the boundary into a bounded set of plain values; the
//! loop decides what each one means. A resize is an out-of-band
//! transition: it reconfigures the presentation resources and resumes the
//! machine at idle. Surface errors follow the taxonomy: lost or outdated
//! surfaces are reconfigured and retried, a timeout skips the frame, and
//! an out-of-memory report terminates the loop.

use vstd::prelude::*;
use crate::errors::{ConfigError, PhysicsError, SurfaceError};
use crate::frame::{bumped, FrameResources, UniformSlot};
use crate::geometry::{Rot2, Transform2};
use crate::instance::{synced_with, InstanceManager};
use crate::physics::{apply_moves, Physics, RigidBodyHandle};
use crate::uniforms::{create_rotation_matrix, rotation_record_words};

verus! {

/// The fixed frame duration, in nanoseconds: one sixtieth of a second.
pub const FRAME_DURATION_NS: u64 = 16_666_666;

/// The per-frame states of the loop.
#[derive(Clone, Copy, PartialEq, Eq, Structural, Debug)]
pub enum Phase {
    Idle,
    Stepping,
    Syncing,
    Uploading,
    Drawing,
    Presented,
}

/// The keys the loop understands.
#[derive(Clone, Copy, PartialEq, Eq, Structural, Debug)]
pub enum Key {
    Escape,
    KeyQ,
    KeyR,
    Other,
}

/// A window event, translated to plain values at the boundary.
#[derive(Clone, Copy, PartialEq, Eq, Structural, Debug)]
pub enum WindowEventKind {
    CloseRequested,
    KeyPressed(Key),
    Resized(u32, u32),
    RedrawRequested,
}

/// What the boundary must do after the loop has handled an event.
#[derive(Clone, Copy, PartialEq, Eq, Structural, Debug)]
pub enum EventAction {
    /// Leave the event loop.
    Exit,
    /// Recompute the rotation words for the new angle and hand them to
    /// `update_rotate`.
    UpdateRotation,
    /// Compute the inverse aspect ratio of the given size and hand it to
    /// `resize`.
    Reconfigure(u32, u32),
    /// Ask for a redraw and tick the loop.
    Redraw,
    /// Nothing to do.
    Ignore,
}

/// The outcome of acquiring the next surface image, reported by the
/// boundary.
#[derive(Clone, Copy, PartialEq, Eq, Structural, Debug)]
pub enum AcquireOutcome {
    Acquired,
    Failed(SurfaceError),
}

/// The one render pass of a frame: how many indices and instances to
/// draw, with the depth and stencil targets cleared and the multisampled
/// target resolved into the acquired image.
#[derive(Clone, Copy, PartialEq, Eq, Structural, Debug)]
pub struct DrawPlan {
    pub index_count: usize,
    pub instance_count: usize,
    pub clear_depth: bool,
    pub clear_stencil: bool,
    pub resolve_multisample: bool,
}

/// What the loop decides after an acquire outcome.
#[derive(Clone, Copy, PartialEq, Eq, Structural, Debug)]
pub enum FrameAction {
    /// Issue the pass and present.
    Draw(DrawPlan),
    /// Reconfigure the targets at the current size and retry next tick.
    ReconfigureRetry(u32, u32),
    /// Skip this frame and go on.
    SkipFrame,
    /// Release resources and end the loop.
    Terminate,
}

/// The render orchestrator: the simulation tables, the instance store,
/// the presentation resources, and the loop's own pacing state.
pub struct Looper {
    pub phase: Phase,
    pub exiting: bool,
    pub surface_configured: bool,
    pub physics: Physics,
    pub instance_manager: InstanceManager,
    pub frame: FrameResources,
    pub index_count: usize,
    pub frame_duration_ns: u64,
    pub last_update_ns: u64,
    pub frame_count: u64,
    pub theta_steps: u64,
}

impl Looper {
    /// Well-formedness: the parts are well-formed, the animate binding
    /// resolves, the frame duration is positive, and the configured flag
    /// mirrors the presentation resources.
    pub open spec fn wf(self) -> bool {
        &&& self.physics.wf()
        &&& self.physics.binding_resolves()
        &&& self.frame.wf()
        &&& self.frame_duration_ns > 0
        &&& self.surface_configured == self.frame.configured
    }

    /// Whether a tick at the given time is due: a full frame duration has
    /// elapsed since the last update.
    pub open spec fn due(self, now_ns: u64) -> bool {
        now_ns >= self.last_update_ns + self.frame_duration_ns
    }

    /// Builds the loop: the scene's simulation tables, one spawned
    /// instance (with the rotation the boundary drew) bound to the
    /// animated body, fresh presentation resources, and idle pacing
    /// state.
    pub fn new(index_count: usize, initial_rotation: Rot2) -> (r: Looper)
        ensures
            r.wf(),
            r.phase is Idle,
            !r.exiting,
            !r.surface_configured,
            r.instance_manager.instances@.len() == 1,
            r.instance_manager.instances@[0].rotation == initial_rotation,
            r.instance_manager.instances@[0].binding == Some(r.physics.animate_handle.rigid_body_handle),
            r.index_count == index_count,
            r.frame_duration_ns == FRAME_DURATION_NS,
            r.last_update_ns == 0,
            r.frame_count == 0,
            r.theta_steps == 0,
    {
        let physics = Physics::new();
        let mut instance_manager = InstanceManager::new();
        instance_manager.make_up_instances(initial_rotation);
        let bound = instance_manager.bind(0, physics.animate_handle.rigid_body_handle);
        assert(bound is Ok);
        let frame = FrameResources::new();
        Looper {
            phase: Phase::Idle,
            exiting: false,
            surface_configured: false,
            physics,
            instance_manager,
            frame,
            index_count,
            frame_duration_ns: FRAME_DURATION_NS,
            last_update_ns: 0,
            frame_count: 0,
            theta_steps: 0,
        }
    }

    /// Handles one window event, changing only what the event demands and
    /// telling the boundary what to do next: closing or the escape or
    /// quit keys end the loop; the rotation key bumps the rotation step
    /// counter and asks for new rotation words; a resize asks for a
    /// reconfiguration at the new size; a redraw request asks for a tick.
    pub fn handler(&mut self, event: WindowEventKind) -> (act: EventAction)
        requires
            old(self).wf(),
        ensures
            final(self).wf(),
            match event {
                WindowEventKind::CloseRequested => act == EventAction::Exit
                    && *final(self) == (Looper { exiting: true, ..*old(self) }),
                WindowEventKind::KeyPressed(k) => match k {
                    Key::Escape => act == EventAction::Exit
                        && *final(self) == (Looper { exiting: true, ..*old(self) }),
                    Key::KeyQ => act == EventAction::Exit
                        && *final(self) == (Looper { exiting: true, ..*old(self) }),
                    Key::KeyR => act == EventAction::UpdateRotation
                        && *final(self) == (Looper { theta_steps: bumped(old(self).theta_steps), ..*old(self) }),
                    Key::Other => act == EventAction::Ignore && *final(self) == *old(self),
                },
                WindowEventKind::Resized(w, h) => act == EventAction::Reconfigure(w, h)
                    && *final(self) == *old(self),
                WindowEventKind::RedrawRequested => act == EventAction::Redraw
                    && *final(self) == *old(self),
            },
    {
        match event {
            WindowEventKind::CloseRequested => {
                self.exiting = true;
                EventAction::Exit
            }
            WindowEventKind::KeyPressed(k) => match k {
                Key::Escape => {
                    self.exiting = true;
                    EventAction::Exit
                }
                Key::KeyQ => {
                    self.exiting = true;
                    EventAction::Exit
                }
                Key::KeyR => {
                    if self.theta_steps < u64::MAX {
                        self.theta_steps = self.theta_steps + 1;
                    }
                    EventAction::UpdateRotation
                }
                Key::Other => EventAction::Ignore,
            },
            WindowEventKind::Resized(w, h) => EventAction::Reconfigure(w, h),
            WindowEventKind::RedrawRequested => EventAction::Redraw,
        }
    }

    /// Rewrites the rotation uniform with the record for the new angle
    /// word and rotation the boundary computed; nothing else changes.
    pub fn update_rotate(&mut self, theta: u32, rotation: Rot2)
        requires
            old(self).wf(),
        ensures
            final(self).wf(),
            final(self).frame.mat_buf@ == rotation_record_words(theta, rotation),
            final(self).frame.feather_buf@ == old(self).frame.feather_buf@,
            final(self).frame.mvp_buf@ == old(self).frame.mvp_buf@,
            final(self).frame.width == old(self).frame.width,
            final(self).frame.height == old(self).frame.height,
            final(self).frame.configured == old(self).frame.configured,
            final(self).frame.target_epoch == old(self).frame.target_epoch,
            final(self).phase == old(self).phase,
            final(self).exiting == old(self).exiting,
            final(self).surface_configured == old(self).surface_configured,
            final(self).physics == old(self).physics,
            final(self).instance_manager == old(self).instance_manager,
            final(self).index_count == old(self).index_count,
            final(self).frame_duration_ns == old(self).frame_duration_ns,
            final(self).last_update_ns == old(self).last_update_ns,
            final(self).frame_count == old(self).frame_count,
            final(self).theta_steps == old(self).theta_steps,
    {
        let record = create_rotation_matrix(theta, rotation);
        let words = record.to_words();
        proof {
            assert(words@ =~= rotation_record_words(theta, rotation));
        }
        self.frame.write_uniform(UniformSlot::Mat, &words);
        proof {
            assert(self.frame.mat_buf@ =~= rotation_record_words(theta, rotation));
            assert(self.frame.slot_words(UniformSlot::Feather) == old(self).frame.slot_words(UniformSlot::Feather));
            assert(self.frame.slot_words(UniformSlot::Mvp) == old(self).frame.slot_words(UniformSlot::Mvp));
        }
    }

    /// Reconfigures the presentation resources, out of band: a zero
    /// dimension is ignored and changes nothing at all; a valid size
    /// reconfigures the resources and resumes the machine at idle.
    pub fn resize(&mut self, width: u32, height: u32, inv_aspect: u32) -> (r: Result<(), ConfigError>)
        requires
            old(self).wf(),
        ensures
            final(self).wf(),
            r is Ok <==> width > 0 && height > 0,
            r is Err ==> *final(self) == *old(self) && r == Err::<(), ConfigError>(ConfigError::InvalidSurfaceSize),
            r is Ok ==> {
                &&& final(self).phase is Idle
                &&& final(self).surface_configured
                &&& final(self).frame.width == width
                &&& final(self).frame.height == height
                &&& final(self).frame.configured
                &&& final(self).frame.mvp_buf@ == crate::uniforms::ortho_words(inv_aspect)
                &&& final(self).frame.feather_buf@ == old(self).frame.feather_buf@
                &&& final(self).frame.mat_buf@ == old(self).frame.mat_buf@
                &&& final(self).frame.target_epoch == bumped(old(self).frame.target_epoch)
                &&& final(self).exiting == old(self).exiting
                &&& final(self).physics == old(self).physics
                &&& final(self).instance_manager == old(self).instance_manager
                &&& final(self).index_count == old(self).index_count
                &&& final(self).frame_duration_ns == old(self).frame_duration_ns
                &&& final(self).last_update_ns == old(self).last_update_ns
                &&& final(self).frame_count == old(self).frame_count
                &&& final(self).theta_steps == old(self).theta_steps
            },
    {
        if width == 0 || height == 0 {
            return Err(ConfigError::InvalidSurfaceSize);
        }
        let r = self.frame.configure(width, height, inv_aspect);
        assert(r is Ok);
        self.surface_configured = true;
        self.phase = Phase::Idle;
        Ok(())
    }

    /// Decides whether a frame is due and, if so, begins it: the machine
    /// leaves idle for stepping and records the tick time. No work
    /// happens before the frame duration has elapsed, while a frame is in
    /// flight, before the surface is configured, or when the loop is
    /// exiting.
    pub fn tick(&mut self, now_ns: u64) -> (go: bool)
        requires
            old(self).wf(),
        ensures
            final(self).wf(),
            go <==> old(self).phase is Idle && !old(self).exiting && old(self).surface_configured
                && old(self).due(now_ns),
            go ==> *final(self) == (Looper { phase: Phase::Stepping, last_update_ns: now_ns, ..*old(self) }),
            !go ==> *final(self) == *old(self),
    {
        let idle = match self.phase {
            Phase::Idle => true,
            _ => false,
        };
        if !idle || self.exiting || !self.surface_configured {
            return false;
        }
        if now_ns < self.last_update_ns {
            return false;
        }
        if now_ns - self.last_update_ns < self.frame_duration_ns {
            return false;
        }
        self.phase = Phase::Stepping;
        self.last_update_ns = now_ns;
        true
    }

    /// Commits the timestep the engine advanced: the moved transforms go
    /// into the body arena and the machine moves on to syncing. A move
    /// whose handle does not resolve aborts the frame back to idle and
    /// reports the invalid handle; the arena is unchanged then.
    pub fn step_physics(&mut self, moves: &Vec<(RigidBodyHandle, Transform2)>) -> (r: Result<(), PhysicsError>)
        requires
            old(self).wf(),
            old(self).phase is Stepping,
        ensures
            final(self).wf(),
            r is Ok <==> (forall|k: int| 0 <= k < moves@.len() ==> old(self).physics.body_resolves(#[trigger] moves@[k].0)),
            r is Ok ==> final(self).phase is Syncing
                && final(self).physics.bodies@ == apply_moves(old(self).physics.bodies@, moves@)
                && final(self).physics.colliders@ == old(self).physics.colliders@
                && final(self).physics.animate_handle == old(self).physics.animate_handle,
            r is Err ==> final(self).phase is Idle && final(self).physics == old(self).physics
                && r == Err::<(), PhysicsError>(PhysicsError::InvalidHandle),
            final(self).exiting == old(self).exiting,
            final(self).surface_configured == old(self).surface_configured,
            final(self).instance_manager == old(self).instance_manager,
            final(self).frame == old(self).frame,
            final(self).index_count == old(self).index_count,
            final(self).frame_duration_ns == old(self).frame_duration_ns,
            final(self).last_update_ns == old(self).last_update_ns,
            final(self).frame_count == old(self).frame_count,
            final(self).theta_steps == old(self).theta_steps,
    {
        match self.physics.step(moves) {
            Ok(_) => {
                proof {
                    assert(self.physics.body_resolves(self.physics.animate_handle.rigid_body_handle));
                    assert(self.physics.collider_resolves(self.physics.animate_handle.collider_handle));
                }
                self.phase = Phase::Syncing;
                Ok(())
            }
            Err(e) => {
                self.phase = Phase::Idle;
                Err(e)
            }
        }
    }

    /// Refreshes every driven instance from the just-stepped simulation
    /// and moves on to uploading.
    pub fn sync(&mut self)
        requires
            old(self).wf(),
            old(self).phase is Syncing,
        ensures
            final(self).wf(),
            final(self).phase is Uploading,
            final(self).instance_manager.instances@.len() == old(self).instance_manager.instances@.len(),
            forall|i: int| 0 <= i < old(self).instance_manager.instances@.len()
                ==> #[trigger] final(self).instance_manager.instances@[i]
                    == synced_with(old(self).physics, old(self).instance_manager.instances@[i]),
            final(self).instance_manager.buffer_len == old(self).instance_manager.buffer_len,
            final(self).instance_manager.buffer_capacity == old(self).instance_manager.buffer_capacity,
            final(self).physics == old(self).physics,
            final(self).exiting == old(self).exiting,
            final(self).surface_configured == old(self).surface_configured,
            final(self).frame == old(self).frame,
            final(self).index_count == old(self).index_count,
            final(self).frame_duration_ns == old(self).frame_duration_ns,
            final(self).last_update_ns == old(self).last_update_ns,
            final(self).frame_count == old(self).frame_count,
            final(self).theta_steps == old(self).theta_steps,
    {
        self.instance_manager.sync_from_physics(&self.physics);
        self.phase = Phase::Uploading;
    }

    /// Rebuilds the instance-buffer bytes from the just-synced store and
    /// moves on to drawing: the bytes are the little-endian image of one
    /// record per instance, in store order, and the allocation is
    /// recreated only if the store outgrew it.
    pub fn upload(&mut self) -> (r: (Vec<u8>, bool))
        requires
            old(self).wf(),
            old(self).phase is Uploading,
        ensures
            final(self).wf(),
            final(self).phase is Drawing,
            r.0@ == crate::instance::store_le_bytes(old(self).instance_manager.instances@),
            r.0@.len() == crate::instance::RAW_STRIDE_BYTES * old(self).instance_manager.instances@.len(),
            r.1 <==> old(self).instance_manager.buffer_capacity < old(self).instance_manager.instances@.len(),
            final(self).instance_manager.instances@ == old(self).instance_manager.instances@,
            final(self).instance_manager.buffer_len == old(self).instance_manager.instances@.len(),
            final(self).physics == old(self).physics,
            final(self).exiting == old(self).exiting,
            final(self).surface_configured == old(self).surface_configured,
            final(self).frame == old(self).frame,
            final(self).index_count == old(self).index_count,
            final(self).frame_duration_ns == old(self).frame_duration_ns,
            final(self).last_update_ns == old(self).last_update_ns,
            final(self).frame_count == old(self).frame_count,
            final(self).theta_steps == old(self).theta_steps,
    {
        let r = self.instance_manager.init_buffer();
        self.phase = Phase::Drawing;
        r
    }

    /// Decides the frame's fate from the surface-acquisition outcome: an
    /// acquired image yields the draw plan of the pass and the machine
    /// reaches presented; a lost or outdated surface asks for a
    /// reconfiguration at the current size and retries next tick; a
    /// timeout skips the frame; out of memory terminates the loop.
    pub fn on_acquire(&mut self, outcome: AcquireOutcome) -> (act: FrameAction)
        requires
            old(self).wf(),
            old(self).phase is Drawing,
        ensures
            final(self).wf(),
            match outcome {
                AcquireOutcome::Acquired => act == FrameAction::Draw(DrawPlan {
                    index_count: old(self).index_count,
                    instance_count: old(self).instance_manager.instances@.len() as usize,
                    clear_depth: true,
                    clear_stencil: true,
                    resolve_multisample: true,
                }) && *final(self) == (Looper { phase: Phase::Presented, ..*old(self) }),
                AcquireOutcome::Failed(e) => match e {
                    SurfaceError::Lost => act == FrameAction::ReconfigureRetry(old(self).frame.width, old(self).frame.height)
                        && *final(self) == (Looper { phase: Phase::Idle, ..*old(self) }),
                    SurfaceError::Outdated => act == FrameAction::ReconfigureRetry(old(self).frame.width, old(self).frame.height)
                        && *final(self) == (Looper { phase: Phase::Idle, ..*old(self) }),
                    SurfaceError::Timeout => act == FrameAction::SkipFrame
                        && *final(self) == (Looper { phase: Phase::Idle, ..*old(self) }),
                    SurfaceError::OutOfMemory => act == FrameAction::Terminate
                        && *final(self) == (Looper { phase: Phase::Idle, exiting: true, ..*old(self) }),
                },
            },
    {
        match outcome {
            AcquireOutcome::Acquired => {
                let plan = DrawPlan {
                    index_count: self.index_count,
                    instance_count: self.instance_manager.instances.len(),
                    clear_depth: true,
                    clear_stencil: true,
                    resolve_multisample: true,
                };
                self.phase = Phase::Presented;
                FrameAction::Draw(plan)
            }
            AcquireOutcome::Failed(e) => match e {
                SurfaceError::Lost => {
                    self.phase = Phase::Idle;
                    FrameAction::ReconfigureRetry(self.frame.width, self.frame.height)
                }
                SurfaceError::Outdated => {
                    self.phase = Phase::Idle;
                    FrameAction::ReconfigureRetry(self.frame.width, self.frame.height)
                }
                SurfaceError::Timeout => {
                    self.phase = Phase::Idle;
                    FrameAction::SkipFrame
                }
                SurfaceError::OutOfMemory => {
                    self.exiting = true;
                    self.phase = Phase::Idle;
                    FrameAction::Terminate
                }
            },
        }
    }

    /// Presents the acquired image: the frame is counted and the machine
    /// returns to idle.
    pub fn present(&mut self)
        requires
            old(self).wf(),
            old(self).phase is Presented,
        ensures
            final(self).wf(),
            *final(self) == (Looper {
                phase: Phase::Idle,
                frame_count: bumped(old(self).frame_count),
                ..*old(self)
            }),
    {
        if self.frame_count < u64::MAX {
            self.frame_count = self.frame_count + 1;
        }
        self.phase = Phase::Idle;
    }

    /// Reconfigures to the given size and immediately runs one whole
    /// frame, committing the moves the engine produced and assuming the
    /// surface yields an image. For every positive width and height, a
    /// due tick, and resolving moves, the frame reaches presentation:
    /// the image is presented and counted, and the machine is idle again.
    pub fn reconfigure_and_render(&mut self, width: u32, height: u32, inv_aspect: u32, now_ns: u64, moves: &Vec<(RigidBodyHandle, Transform2)>) -> (presented: bool)
        requires
            old(self).wf(),
        ensures
            final(self).wf(),
            presented <==> width > 0 && height > 0 && !old(self).exiting && old(self).due(now_ns)
                && (forall|k: int| 0 <= k < moves@.len() ==> old(self).physics.body_resolves(#[trigger] moves@[k].0)),
            presented ==> final(self).phase is Idle
                && final(self).frame_count == bumped(old(self).frame_count)
                && final(self).frame.width == width
                && final(self).frame.height == height,
    {
        let resized = self.resize(width, height, inv_aspect);
        if let Err(_) = resized {
            return false;
        }
        if !self.tick(now_ns) {
            return false;
        }
        let stepped = self.step_physics(moves);
        if let Err(_) = stepped {
            return false;
        }
        self.sync();
        let _uploaded = self.upload();
        let _plan = self.on_acquire(AcquireOutcome::Acquired);
        self.present();
        true
    }
}

} // verus!
