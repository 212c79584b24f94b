//! The simulation-side tables: bodies, colliders, and the animate binding.
//!
//! Bodies and colliders live in arenas addressed by generation-checked
//! handles. A slot is retired when its body is removed and is never reused,
//! so a retired handle can never resolve again. The numeric integration of
//! a timestep is performed by the physics engine at the boundary; `step`
//! takes the transforms the engine produced and commits them to the arena,
//! after checking that the animate binding and every moved handle resolve.

use vstd::prelude::*;
use crate::geometry::{Rot2, Transform2};
use crate::scalar::{word_is_positive_finite, WORD_HALF, WORD_ZERO};
use crate::errors::PhysicsError;

verus! {

/// Word of the value ten: the drop height of the scene's bouncing ball.
pub const WORD_TEN: u32 = 0x4120_0000;

/// Word of the value seven tenths: the scene ball's restitution.
pub const WORD_RESTITUTION: u32 = 0x3f33_3333;

/// Word of the value minus nine and eighty-one hundredths: the downward
/// gravity of the scene.
pub const WORD_GRAVITY_Y: u32 = 0xc11c_f5c3;

/// Word of the fixed integration timestep, one sixtieth of a second.
pub const WORD_TIMESTEP: u32 = 0x3c88_8889;

/// A stable identifier of a rigid body in the arena.
#[derive(Clone, Copy, PartialEq, Eq, Structural, Debug)]
pub struct RigidBodyHandle {
    pub index: usize,
    pub generation: u64,
}

/// A stable identifier of a collider in the arena.
#[derive(Clone, Copy, PartialEq, Eq, Structural, Debug)]
pub struct ColliderHandle {
    pub index: usize,
    pub generation: u64,
}

/// The pair of handles that identifies the simulated body driving a piece
/// of screen geometry.
#[derive(Clone, Copy, PartialEq, Eq, Structural, Debug)]
pub struct AnimateHandle {
    pub rigid_body_handle: RigidBodyHandle,
    pub collider_handle: ColliderHandle,
}

/// A collision shape.
#[derive(Clone, Copy, PartialEq, Eq, Structural, Debug)]
pub enum Shape {
    /// A circle of the given radius word.
    Ball { radius: u32 },
}

impl Shape {
    /// Whether the shape's parameters are valid: a ball's radius must be a
    /// strictly positive finite value.
    pub open spec fn spec_valid(self) -> bool {
        match self {
            Shape::Ball { radius } => word_is_positive_finite(radius),
        }
    }

    /// Decides whether the shape's parameters are valid.
    pub fn valid(&self) -> (r: bool)
        ensures
            r == self.spec_valid(),
    {
        match self {
            Shape::Ball { radius } => crate::scalar::check_positive_finite(*radius),
        }
    }
}

/// A rigid body: its current transform and whether it is dynamic.
#[derive(Clone, Copy, PartialEq, Eq, Structural, Debug)]
pub struct RigidBody {
    pub transform: Transform2,
    pub dynamic: bool,
}

/// One slot of the body arena.
#[derive(Clone, Copy, PartialEq, Eq, Structural, Debug)]
pub struct BodySlot {
    pub generation: u64,
    pub live: bool,
    pub body: RigidBody,
}

/// A collider: its shape, restitution, and the body it is attached to, if
/// any. A collider carries no placement of its own in this model: an
/// attached collider follows its parent body, and a free collider stands
/// at the origin, as the scene's ground does.
#[derive(Clone, Copy, PartialEq, Eq, Structural, Debug)]
pub struct Collider {
    pub shape: Shape,
    pub restitution: u32,
    pub parent: Option<RigidBodyHandle>,
}

/// One slot of the collider arena.
#[derive(Clone, Copy, PartialEq, Eq, Structural, Debug)]
pub struct ColliderSlot {
    pub generation: u64,
    pub live: bool,
    pub collider: Collider,
}

/// The simulation tables: the body and collider arenas, the gravity words,
/// and the animate binding of the scene.
pub struct Physics {
    pub bodies: Vec<BodySlot>,
    pub colliders: Vec<ColliderSlot>,
    pub gravity_x: u32,
    pub gravity_y: u32,
    pub timestep: u32,
    pub animate_handle: AnimateHandle,
}

/// Whether a body handle resolves in a given arena: its index is in range,
/// the slot is live, and the generations match.
pub open spec fn body_resolves_in(bodies: Seq<BodySlot>, h: RigidBodyHandle) -> bool {
    &&& h.index < bodies.len()
    &&& bodies[h.index as int].live
    &&& bodies[h.index as int].generation == h.generation
}

/// A body slot with its transform replaced.
pub open spec fn slot_with_transform(s: BodySlot, t: Transform2) -> BodySlot {
    BodySlot { generation: s.generation, live: s.live, body: RigidBody { transform: t, dynamic: s.body.dynamic } }
}

/// One committed move: if the handle resolves, the slot's transform is
/// replaced; otherwise the arena is unchanged.
pub open spec fn apply_one(bodies: Seq<BodySlot>, h: RigidBodyHandle, t: Transform2) -> Seq<BodySlot> {
    if body_resolves_in(bodies, h) {
        bodies.update(h.index as int, slot_with_transform(bodies[h.index as int], t))
    } else {
        bodies
    }
}

/// The arena after committing a sequence of moves in order.
pub open spec fn apply_moves(bodies: Seq<BodySlot>, moves: Seq<(RigidBodyHandle, Transform2)>) -> Seq<BodySlot>
    decreases moves.len(),
{
    if moves.len() == 0 {
        bodies
    } else {
        apply_moves(apply_one(bodies, moves[0].0, moves[0].1), moves.subrange(1, moves.len() as int))
    }
}

/// Slot well-formedness: a live slot's generation equals its index, and a
/// retired slot's generation is its index plus one.
pub open spec fn body_slot_wf(s: BodySlot, i: int) -> bool {
    s.generation == i + (if s.live { 0int } else { 1int })
}

/// Collider slot well-formedness, in the same shape.
pub open spec fn collider_slot_wf(s: ColliderSlot, i: int) -> bool {
    s.generation == i + (if s.live { 0int } else { 1int })
}

impl Physics {
    /// Body arena well-formedness.
    pub open spec fn bodies_wf(self) -> bool {
        forall|i: int| 0 <= i < self.bodies@.len() ==> body_slot_wf(#[trigger] self.bodies@[i], i)
    }

    /// Collider arena well-formedness.
    pub open spec fn colliders_wf(self) -> bool {
        forall|i: int| 0 <= i < self.colliders@.len() ==> collider_slot_wf(#[trigger] self.colliders@[i], i)
    }

    /// Well-formedness of the whole table.
    pub open spec fn wf(self) -> bool {
        self.bodies_wf() && self.colliders_wf()
    }

    /// Whether a body handle resolves.
    pub open spec fn body_resolves(self, h: RigidBodyHandle) -> bool {
        body_resolves_in(self.bodies@, h)
    }

    /// Whether a collider handle resolves.
    pub open spec fn collider_resolves(self, h: ColliderHandle) -> bool {
        &&& h.index < self.colliders@.len()
        &&& self.colliders@[h.index as int].live
        &&& self.colliders@[h.index as int].generation == h.generation
    }

    /// Whether the animate binding resolves on both of its handles.
    pub open spec fn binding_resolves(self) -> bool {
        self.body_resolves(self.animate_handle.rigid_body_handle)
            && self.collider_resolves(self.animate_handle.collider_handle)
    }

    /// The transform a resolving body handle denotes.
    pub open spec fn spec_transform(self, h: RigidBodyHandle) -> Transform2 {
        self.bodies@[h.index as int].body.transform
    }

    /// Decides whether a body handle resolves.
    pub fn contains_body(&self, h: RigidBodyHandle) -> (r: bool)
        ensures
            r == self.body_resolves(h),
    {
        h.index < self.bodies.len() && self.bodies[h.index].live && self.bodies[h.index].generation == h.generation
    }

    /// Decides whether a collider handle resolves.
    pub fn contains_collider(&self, h: ColliderHandle) -> (r: bool)
        ensures
            r == self.collider_resolves(h),
    {
        h.index < self.colliders.len() && self.colliders[h.index].live && self.colliders[h.index].generation == h.generation
    }

    /// Inserts a collider. Fails exactly when the shape's parameters are
    /// invalid or a named parent does not resolve; nothing changes then.
    pub fn create_collider(&mut self, shape: Shape, restitution: u32, parent: Option<RigidBodyHandle>) -> (r: Result<ColliderHandle, PhysicsError>)
        requires
            old(self).wf(),
        ensures
            final(self).wf(),
            r is Ok <==> shape.spec_valid() && (parent matches Some(p) ==> old(self).body_resolves(p)),
            r is Err ==> *final(self) == *old(self),
            !shape.spec_valid() ==> r == Err::<ColliderHandle, PhysicsError>(PhysicsError::InvalidShape),
            shape.spec_valid() && !(parent matches Some(p) ==> old(self).body_resolves(p)) ==> r == Err::<ColliderHandle, PhysicsError>(PhysicsError::InvalidHandle),
            r matches Ok(ch) ==> {
                &&& ch.index == old(self).colliders@.len()
                &&& ch.generation == old(self).colliders@.len()
                &&& final(self).colliders@ == old(self).colliders@.push(ColliderSlot {
                    generation: ch.generation,
                    live: true,
                    collider: Collider { shape, restitution, parent },
                })
                &&& final(self).bodies@ == old(self).bodies@
                &&& final(self).gravity_x == old(self).gravity_x
                &&& final(self).gravity_y == old(self).gravity_y
                &&& final(self).timestep == old(self).timestep
                &&& final(self).animate_handle == old(self).animate_handle
                &&& final(self).collider_resolves(ch)
            },
    {
        if !shape.valid() {
            return Err(PhysicsError::InvalidShape);
        }
        if let Some(p) = parent {
            if !self.contains_body(p) {
                return Err(PhysicsError::InvalidHandle);
            }
        }
        let index: usize = self.colliders.len();
        let generation: u64 = index as u64;
        self.colliders.push(ColliderSlot {
            generation,
            live: true,
            collider: Collider { shape, restitution, parent },
        });
        Ok(ColliderHandle { index, generation })
    }

    /// Inserts a dynamic rigid body with an attached collider. Fails
    /// exactly when the shape's parameters are invalid; nothing changes
    /// then.
    pub fn create_body(&mut self, initial_position: Transform2, shape: Shape, restitution: u32) -> (r: Result<(RigidBodyHandle, ColliderHandle), PhysicsError>)
        requires
            old(self).wf(),
        ensures
            final(self).wf(),
            r is Ok <==> shape.spec_valid(),
            r is Err ==> *final(self) == *old(self) && r == Err::<(RigidBodyHandle, ColliderHandle), PhysicsError>(PhysicsError::InvalidShape),
            r matches Ok((bh, ch)) ==> {
                &&& bh.index == old(self).bodies@.len()
                &&& bh.generation == old(self).bodies@.len()
                &&& ch.index == old(self).colliders@.len()
                &&& ch.generation == old(self).colliders@.len()
                &&& final(self).bodies@ == old(self).bodies@.push(BodySlot {
                    generation: bh.generation,
                    live: true,
                    body: RigidBody { transform: initial_position, dynamic: true },
                })
                &&& final(self).colliders@ == old(self).colliders@.push(ColliderSlot {
                    generation: ch.generation,
                    live: true,
                    collider: Collider { shape, restitution, parent: Some(bh) },
                })
                &&& final(self).gravity_x == old(self).gravity_x
                &&& final(self).gravity_y == old(self).gravity_y
                &&& final(self).timestep == old(self).timestep
                &&& final(self).animate_handle == old(self).animate_handle
                &&& final(self).body_resolves(bh)
                &&& final(self).collider_resolves(ch)
                &&& final(self).spec_transform(bh) == initial_position
            },
    {
        if !shape.valid() {
            return Err(PhysicsError::InvalidShape);
        }
        let index: usize = self.bodies.len();
        let generation: u64 = index as u64;
        self.bodies.push(BodySlot {
            generation,
            live: true,
            body: RigidBody { transform: initial_position, dynamic: true },
        });
        let bh = RigidBodyHandle { index, generation };
        let cindex: usize = self.colliders.len();
        let cgeneration: u64 = cindex as u64;
        self.colliders.push(ColliderSlot {
            generation: cgeneration,
            live: true,
            collider: Collider { shape, restitution, parent: Some(bh) },
        });
        Ok((bh, ColliderHandle { index: cindex, generation: cgeneration }))
    }

    /// Builds the scene of the demo: a ground ball collider of radius one
    /// half at the origin, and a dynamic ball of radius one half dropped
    /// from height ten with restitution seven tenths, bound as the animated
    /// body, under downward gravity.
    pub fn new() -> (r: Physics)
        ensures
            r.wf(),
            r.binding_resolves(),
            r.bodies@.len() == 1,
            r.colliders@.len() == 2,
            r.animate_handle.rigid_body_handle == (RigidBodyHandle { index: 0, generation: 0 }),
            r.animate_handle.collider_handle == (ColliderHandle { index: 1, generation: 1 }),
            r.bodies@[0] == (BodySlot {
                generation: 0,
                live: true,
                body: RigidBody {
                    transform: Transform2 {
                        x: WORD_ZERO,
                        y: WORD_TEN,
                        rot: Rot2 { cos: crate::scalar::WORD_ONE, sin: WORD_ZERO },
                    },
                    dynamic: true,
                },
            }),
            r.colliders@[0] == (ColliderSlot {
                generation: 0,
                live: true,
                collider: Collider {
                    shape: Shape::Ball { radius: WORD_HALF },
                    restitution: WORD_ZERO,
                    parent: None,
                },
            }),
            r.colliders@[1] == (ColliderSlot {
                generation: 1,
                live: true,
                collider: Collider {
                    shape: Shape::Ball { radius: WORD_HALF },
                    restitution: WORD_RESTITUTION,
                    parent: Some(r.animate_handle.rigid_body_handle),
                },
            }),
            r.spec_transform(r.animate_handle.rigid_body_handle) == (Transform2 {
                x: WORD_ZERO,
                y: WORD_TEN,
                rot: Rot2 { cos: crate::scalar::WORD_ONE, sin: WORD_ZERO },
            }),
            r.gravity_x == WORD_ZERO,
            r.gravity_y == WORD_GRAVITY_Y,
            r.timestep == WORD_TIMESTEP,
    {
        let mut p = Physics {
            bodies: Vec::new(),
            colliders: Vec::new(),
            gravity_x: WORD_ZERO,
            gravity_y: WORD_GRAVITY_Y,
            timestep: WORD_TIMESTEP,
            animate_handle: AnimateHandle {
                rigid_body_handle: RigidBodyHandle { index: 0, generation: 0 },
                collider_handle: ColliderHandle { index: 0, generation: 0 },
            },
        };
        let ground = p.create_collider(Shape::Ball { radius: WORD_HALF }, WORD_ZERO, None);
        assert(ground is Ok);
        let spawn = Transform2 { x: WORD_ZERO, y: WORD_TEN, rot: Rot2::identity() };
        let created = p.create_body(spawn, Shape::Ball { radius: WORD_HALF }, WORD_RESTITUTION);
        match created {
            Ok((bh, ch)) => {
                p.animate_handle = AnimateHandle { rigid_body_handle: bh, collider_handle: ch };
            }
            Err(_) => {
                assert(false);
            }
        }
        p
    }

    /// Returns the transform of a body. Fails exactly when the handle does
    /// not resolve.
    pub fn get_transform(&self, handle: RigidBodyHandle) -> (r: Result<Transform2, PhysicsError>)
        ensures
            r is Ok <==> self.body_resolves(handle),
            self.body_resolves(handle) ==> r == Ok::<Transform2, PhysicsError>(self.spec_transform(handle)),
            !self.body_resolves(handle) ==> r == Err::<Transform2, PhysicsError>(PhysicsError::InvalidHandle),
    {
        if self.contains_body(handle) {
            Ok(self.bodies[handle.index].body.transform)
        } else {
            Err(PhysicsError::InvalidHandle)
        }
    }

    /// Removes a body, retiring its slot. Fails exactly when the handle
    /// does not resolve; nothing changes then. A retired slot's generation
    /// is bumped, so the removed handle never resolves again.
    pub fn remove_body(&mut self, handle: RigidBodyHandle) -> (r: Result<(), PhysicsError>)
        requires
            old(self).wf(),
        ensures
            final(self).wf(),
            r is Ok <==> old(self).body_resolves(handle),
            r is Err ==> *final(self) == *old(self) && r == Err::<(), PhysicsError>(PhysicsError::InvalidHandle),
            r is Ok ==> {
                &&& final(self).bodies@.len() == old(self).bodies@.len()
                &&& !final(self).body_resolves(handle)
                &&& forall|h: RigidBodyHandle| h.index != handle.index ==> #[trigger] final(self).body_resolves(h) == old(self).body_resolves(h)
                &&& forall|h: RigidBodyHandle| h.index != handle.index && old(self).body_resolves(h) ==> #[trigger] final(self).spec_transform(h) == old(self).spec_transform(h)
                &&& final(self).colliders@ == old(self).colliders@
                &&& final(self).gravity_x == old(self).gravity_x
                &&& final(self).gravity_y == old(self).gravity_y
                &&& final(self).timestep == old(self).timestep
                &&& final(self).animate_handle == old(self).animate_handle
            },
    {
        if !self.contains_body(handle) {
            return Err(PhysicsError::InvalidHandle);
        }
        let arena_len: usize = self.bodies.len();
        let slot = self.bodies[handle.index];
        proof {
            assert(body_slot_wf(slot, handle.index as int));
            assert(slot.generation == handle.index as int);
            assert(handle.index < arena_len);
            assert(slot.generation < u64::MAX);
        }
        self.bodies.set(handle.index, BodySlot {
            generation: slot.generation + 1,
            live: false,
            body: slot.body,
        });
        Ok(())
    }

    /// Commits one advanced timestep: the transforms the engine produced
    /// for the moved bodies, in order. Fails exactly when the animate
    /// binding or one of the moved handles does not resolve; nothing
    /// changes then.
    pub fn step(&mut self, moves: &Vec<(RigidBodyHandle, Transform2)>) -> (r: Result<(), PhysicsError>)
        requires
            old(self).wf(),
        ensures
            final(self).wf(),
            r is Ok <==> old(self).binding_resolves()
                && (forall|k: int| 0 <= k < moves@.len() ==> old(self).body_resolves(#[trigger] moves@[k].0)),
            r is Err ==> *final(self) == *old(self) && r == Err::<(), PhysicsError>(PhysicsError::InvalidHandle),
            r is Ok ==> {
                &&& final(self).bodies@ == apply_moves(old(self).bodies@, moves@)
                &&& final(self).colliders@ == old(self).colliders@
                &&& final(self).gravity_x == old(self).gravity_x
                &&& final(self).gravity_y == old(self).gravity_y
                &&& final(self).timestep == old(self).timestep
                &&& final(self).animate_handle == old(self).animate_handle
                &&& forall|h: RigidBodyHandle| #[trigger] final(self).body_resolves(h) == old(self).body_resolves(h)
            },
    {
        if !self.contains_body(self.animate_handle.rigid_body_handle)
            || !self.contains_collider(self.animate_handle.collider_handle) {
            return Err(PhysicsError::InvalidHandle);
        }
        let n: usize = moves.len();
        let mut k: usize = 0;
        while k < n
            invariant
                n == moves@.len(),
                k <= n,
                *self == *old(self),
                self.wf(),
                forall|j: int| 0 <= j < k ==> self.body_resolves(#[trigger] moves@[j].0),
            decreases n - k,
        {
            if !self.contains_body(moves[k].0) {
                return Err(PhysicsError::InvalidHandle);
            }
            k = k + 1;
        }
        let ghost original = self.bodies@;
        proof {
            assert(moves@.skip(0) =~= moves@);
        }
        let mut i: usize = 0;
        while i < n
            invariant
                n == moves@.len(),
                i <= n,
                self.wf(),
                original == old(self).bodies@,
                old(self).binding_resolves(),
                forall|j: int| 0 <= j < n ==> old(self).body_resolves(#[trigger] moves@[j].0),
                apply_moves(original, moves@) == apply_moves(self.bodies@, moves@.skip(i as int)),
                self.bodies@.len() == original.len(),
                forall|h: RigidBodyHandle| #[trigger] body_resolves_in(self.bodies@, h) == body_resolves_in(original, h),
                self.colliders@ == old(self).colliders@,
                self.gravity_x == old(self).gravity_x,
                self.gravity_y == old(self).gravity_y,
                self.timestep == old(self).timestep,
                self.animate_handle == old(self).animate_handle,
            decreases n - i,
        {
            let ghost before = self.bodies@;
            let ghost rest = moves@.skip(i as int);
            let (h, t) = moves[i];
            proof {
                assert(rest.len() > 0);
                assert(rest[0] == moves@[i as int]);
                assert(rest.subrange(1, rest.len() as int) =~= moves@.skip(i as int + 1));
            }
            if self.contains_body(h) {
                let slot = self.bodies[h.index];
                self.bodies.set(h.index, BodySlot {
                    generation: slot.generation,
                    live: slot.live,
                    body: RigidBody { transform: t, dynamic: slot.body.dynamic },
                });
                proof {
                    assert(self.bodies@ =~= apply_one(before, h, t));
                    assert forall|hh: RigidBodyHandle|
                        #[trigger] body_resolves_in(self.bodies@, hh) == body_resolves_in(before, hh)
                    by {
                        assert(self.bodies@[h.index as int].live == before[h.index as int].live);
                        assert(self.bodies@[h.index as int].generation == before[h.index as int].generation);
                    }
                }
            } else {
                proof {
                    assert(self.bodies@ == apply_one(before, h, t));
                }
            }
            i = i + 1;
        }
        proof {
            assert(moves@.skip(n as int) =~= Seq::<(RigidBodyHandle, Transform2)>::empty());
            assert(apply_moves(self.bodies@, moves@.skip(n as int)) == self.bodies@);
        }
        Ok(())
    }
}

} // verus!
