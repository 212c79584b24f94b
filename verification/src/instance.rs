//! The ordered store of drawable instances and their packed records.
//!
//! Each instance holds the canonical transform (position and rotation
//! words) plus per-instance animator state. Flattening an instance yields a
//! tightly packed record of nineteen scalar words: the sixteen words of the
//! column-major model matrix followed by the three origin words. The record
//! buffer always holds exactly one record per instance, in store order.

use vstd::prelude::*;
use crate::geometry::{model_words, Point3, Rot2};
use crate::scalar::{WORD_ONE, WORD_ZERO};
use crate::physics::{Physics, RigidBodyHandle};
use crate::errors::PhysicsError;

verus! {

/// The number of scalar words in one packed instance record.
pub const RAW_WORDS: usize = 19;

/// The byte stride of one packed instance record.
pub const RAW_STRIDE_BYTES: usize = 76;

/// A fixed-layout, tightly packed record of one instance: the sixteen
/// words of the column-major model matrix, then the three origin words.
#[derive(Clone, Copy, PartialEq, Eq, Debug)]
pub struct InstanceRaw {
    pub model: [u32; 16],
    pub origin3d: [u32; 3],
}

impl InstanceRaw {
    /// The nineteen words of the record, model first, origin last.
    pub open spec fn words(self) -> Seq<u32> {
        self.model@ + self.origin3d@
    }
}

/// One vertex attribute of the instance record's layout: the shader
/// location it feeds, its byte offset in the record, and how many 32-bit
/// channels it has.
#[derive(Clone, Copy, PartialEq, Eq, Structural, Debug)]
pub struct VertexAttributeDesc {
    pub shader_location: u32,
    pub offset: usize,
    pub channels: u32,
}

impl InstanceRaw {
    /// The frozen vertex-attribute layout of the record: four 4-channel
    /// columns of the model matrix at shader locations five through eight,
    /// then the 3-channel origin at location nine; offsets are contiguous
    /// and the stride is the record's byte size.
    pub fn desc() -> (v: Vec<VertexAttributeDesc>)
        ensures
            v@.len() == 5,
            v@[0] == (VertexAttributeDesc { shader_location: 5, offset: 0, channels: 4 }),
            v@[1] == (VertexAttributeDesc { shader_location: 6, offset: 16, channels: 4 }),
            v@[2] == (VertexAttributeDesc { shader_location: 7, offset: 32, channels: 4 }),
            v@[3] == (VertexAttributeDesc { shader_location: 8, offset: 48, channels: 4 }),
            v@[4] == (VertexAttributeDesc { shader_location: 9, offset: 64, channels: 3 }),
            forall|i: int| 0 <= i < 4 ==> #[trigger] v@[i + 1].offset == v@[i].offset + 4 * v@[i].channels,
    {
        let mut v: Vec<VertexAttributeDesc> = Vec::new();
        v.push(VertexAttributeDesc { shader_location: 5, offset: 0, channels: 4 });
        v.push(VertexAttributeDesc { shader_location: 6, offset: 16, channels: 4 });
        v.push(VertexAttributeDesc { shader_location: 7, offset: 32, channels: 4 });
        v.push(VertexAttributeDesc { shader_location: 8, offset: 48, channels: 4 });
        v.push(VertexAttributeDesc { shader_location: 9, offset: 64, channels: 3 });
        v
    }
}

/// A packed record of a 3x3 model matrix alone, for pipelines that take
/// planar transforms without an origin: nine words, three columns of
/// three channels.
#[derive(Clone, Copy, PartialEq, Eq, Debug)]
pub struct Instance3DRaw {
    pub model: [u32; 9],
}

impl Instance3DRaw {
    /// The frozen vertex-attribute layout of the record: three 3-channel
    /// columns at shader locations nine through eleven, contiguous, with
    /// the record's byte size as stride.
    pub fn desc() -> (v: Vec<VertexAttributeDesc>)
        ensures
            v@.len() == 3,
            v@[0] == (VertexAttributeDesc { shader_location: 9, offset: 0, channels: 3 }),
            v@[1] == (VertexAttributeDesc { shader_location: 10, offset: 12, channels: 3 }),
            v@[2] == (VertexAttributeDesc { shader_location: 11, offset: 24, channels: 3 }),
            forall|i: int| 0 <= i < 2 ==> #[trigger] v@[i + 1].offset == v@[i].offset + 4 * v@[i].channels,
    {
        let mut v: Vec<VertexAttributeDesc> = Vec::new();
        v.push(VertexAttributeDesc { shader_location: 9, offset: 0, channels: 3 });
        v.push(VertexAttributeDesc { shader_location: 10, offset: 12, channels: 3 });
        v.push(VertexAttributeDesc { shader_location: 11, offset: 24, channels: 3 });
        v
    }
}

/// One drawable instance: the canonical transform, the per-instance
/// animator state, and the simulated body that drives it, if any.
#[derive(Clone, Copy, PartialEq, Eq, Structural, Debug)]
pub struct Instance {
    pub position: Point3,
    pub rotation: Rot2,
    pub theta: u32,
    pub speed: u32,
    pub scale: u32,
    pub binding: Option<RigidBodyHandle>,
}

impl Instance {
    /// The nineteen words of the instance's packed record.
    pub open spec fn raw_words(self) -> Seq<u32> {
        model_words(self.position, self.rotation)
            + seq![self.position.x, self.position.y, self.position.z]
    }

    /// A fresh unbound instance at the given transform, with zeroed
    /// animator state.
    pub fn new(position: Point3, rotation: Rot2) -> (r: Instance)
        ensures
            r == (Instance {
                position,
                rotation,
                theta: WORD_ZERO,
                speed: WORD_ZERO,
                scale: WORD_ZERO,
                binding: None,
            }),
    {
        Instance { position, rotation, theta: WORD_ZERO, speed: WORD_ZERO, scale: WORD_ZERO, binding: None }
    }

    /// Flattens the instance into its packed record.
    pub fn to_raw(&self) -> (r: InstanceRaw)
        ensures
            r.model@ == model_words(self.position, self.rotation),
            r.origin3d@ == seq![self.position.x, self.position.y, self.position.z],
            r.words() == self.raw_words(),
    {
        let c = self.rotation.cos;
        let s = self.rotation.sin;
        let neg_s = crate::scalar::negate_word(s);
        let model: [u32; 16] = [
            c, s, WORD_ZERO, WORD_ZERO,
            neg_s, c, WORD_ZERO, WORD_ZERO,
            WORD_ZERO, WORD_ZERO, WORD_ONE, WORD_ZERO,
            self.position.x, self.position.y, self.position.z, WORD_ONE,
        ];
        let origin3d: [u32; 3] = [self.position.x, self.position.y, self.position.z];
        let r = InstanceRaw { model, origin3d };
        proof {
            assert(r.model@ =~= model_words(self.position, self.rotation));
            assert(r.origin3d@ =~= seq![self.position.x, self.position.y, self.position.z]);
            assert(r.words() =~= self.raw_words());
        }
        r
    }
}

/// The instance an instance becomes when the simulation hands it a new
/// transform: the planar position and the rotation are overwritten, the
/// depth coordinate and the animator state stay.
pub open spec fn synced_instance(inst: Instance, t: crate::geometry::Transform2) -> Instance {
    Instance {
        position: Point3 { x: t.x, y: t.y, z: inst.position.z },
        rotation: t.rot,
        theta: inst.theta,
        speed: inst.speed,
        scale: inst.scale,
        binding: inst.binding,
    }
}

/// How an instance is refreshed by one synchronization pass against a
/// simulation table: driven instances whose handle resolves take the
/// body's transform; all others are unchanged.
pub open spec fn synced_with(world: Physics, inst: Instance) -> Instance {
    match inst.binding {
        Some(h) => if world.body_resolves(h) {
            synced_instance(inst, world.spec_transform(h))
        } else {
            inst
        },
        None => inst,
    }
}

/// After a synchronization pass, the packed record of a driven instance
/// whose handle resolves shows the body's just-stepped transform, not a
/// stale one: its model matrix is assembled from the body's position and
/// rotation, and its origin is the body's position at the instance's own
/// depth.
pub proof fn lemma_sync_refreshes_record(world: Physics, inst: Instance, h: RigidBodyHandle)
    requires
        inst.binding == Some(h),
        world.body_resolves(h),
    ensures
        synced_with(world, inst).raw_words() == model_words(
            Point3 {
                x: world.spec_transform(h).x,
                y: world.spec_transform(h).y,
                z: inst.position.z,
            },
            world.spec_transform(h).rot,
        ) + seq![world.spec_transform(h).x, world.spec_transform(h).y, inst.position.z],
{
}

/// A synchronization pass leaves an instance without a binding exactly as
/// it was: independently animated instances keep their own transform.
pub proof fn lemma_sync_keeps_independent_instance(world: Physics, inst: Instance)
    requires
        inst.binding is None,
    ensures
        synced_with(world, inst) == inst,
{
}

/// The ordered instance collection and its device-buffer bookkeeping: how
/// many records the device-side buffer holds and how many fit in its
/// current allocation.
pub struct InstanceManager {
    pub instances: Vec<Instance>,
    pub buffer_len: usize,
    pub buffer_capacity: usize,
}

impl InstanceManager {
    /// An empty store with no device buffer yet.
    pub fn new() -> (r: InstanceManager)
        ensures
            r.instances@.len() == 0,
            r.buffer_len == 0,
            r.buffer_capacity == 0,
    {
        InstanceManager { instances: Vec::new(), buffer_len: 0, buffer_capacity: 0 }
    }

    /// Appends an instance; order defines draw order.
    pub fn add_instance(&mut self, instance: Instance)
        ensures
            final(self).instances@ == old(self).instances@.push(instance),
            final(self).buffer_len == old(self).buffer_len,
            final(self).buffer_capacity == old(self).buffer_capacity,
    {
        self.instances.push(instance);
    }

    /// Populates the scene: one unbound instance at the spawn point, one
    /// unit above the origin, with the rotation the caller drew.
    pub fn make_up_instances(&mut self, rotation: Rot2)
        ensures
            final(self).instances@ == old(self).instances@.push(Instance {
                position: Point3 { x: WORD_ZERO, y: WORD_ONE, z: WORD_ZERO },
                rotation,
                theta: WORD_ZERO,
                speed: WORD_ZERO,
                scale: WORD_ZERO,
                binding: None,
            }),
            final(self).buffer_len == old(self).buffer_len,
            final(self).buffer_capacity == old(self).buffer_capacity,
    {
        let position = Point3 { x: WORD_ZERO, y: WORD_ONE, z: WORD_ZERO };
        let instance = Instance::new(position, rotation);
        self.add_instance(instance);
    }

    /// Binds the instance at an index to a simulated body. Fails exactly
    /// when the index is out of range; nothing changes then.
    pub fn bind(&mut self, index: usize, handle: RigidBodyHandle) -> (r: Result<(), PhysicsError>)
        ensures
            r is Ok <==> index < old(self).instances@.len(),
            r is Err ==> *final(self) == *old(self) && r == Err::<(), PhysicsError>(PhysicsError::InvalidHandle),
            r is Ok ==> final(self).instances@ == old(self).instances@.update(index as int, Instance {
                binding: Some(handle),
                ..old(self).instances@[index as int]
            }),
            final(self).buffer_len == old(self).buffer_len,
            final(self).buffer_capacity == old(self).buffer_capacity,
    {
        if index >= self.instances.len() {
            return Err(PhysicsError::InvalidHandle);
        }
        let mut inst = self.instances[index];
        inst.binding = Some(handle);
        self.instances.set(index, inst);
        Ok(())
    }

    /// Refreshes every driven instance from the simulation table: an
    /// instance whose handle resolves takes the body's transform, an
    /// instance whose handle dangles is skipped for this frame, and
    /// independent instances keep their own transform.
    pub fn sync_from_physics(&mut self, world: &Physics)
        ensures
            final(self).instances@.len() == old(self).instances@.len(),
            forall|i: int| 0 <= i < old(self).instances@.len()
                ==> #[trigger] final(self).instances@[i] == synced_with(*world, old(self).instances@[i]),
            final(self).buffer_len == old(self).buffer_len,
            final(self).buffer_capacity == old(self).buffer_capacity,
    {
        let n: usize = self.instances.len();
        let mut i: usize = 0;
        while i < n
            invariant
                n == self.instances@.len(),
                self.instances@.len() == old(self).instances@.len(),
                i <= n,
                forall|j: int| 0 <= j < i
                    ==> #[trigger] self.instances@[j] == synced_with(*world, old(self).instances@[j]),
                forall|j: int| i <= j < n
                    ==> #[trigger] self.instances@[j] == old(self).instances@[j],
                self.buffer_len == old(self).buffer_len,
                self.buffer_capacity == old(self).buffer_capacity,
            decreases n - i,
        {
            let inst = self.instances[i];
            if let Some(h) = inst.binding {
                match world.get_transform(h) {
                    Ok(t) => {
                        let updated = Instance {
                            position: Point3 { x: t.x, y: t.y, z: inst.position.z },
                            rotation: t.rot,
                            theta: inst.theta,
                            speed: inst.speed,
                            scale: inst.scale,
                            binding: inst.binding,
                        };
                        self.instances.set(i, updated);
                    }
                    Err(_) => {}
                }
            }
            i = i + 1;
        }
    }

    /// Flattens the store: exactly one packed record per instance, in
    /// store order, reflecting the instances as they stand now.
    pub fn to_raw_buffer(&self) -> (v: Vec<InstanceRaw>)
        ensures
            v@.len() == self.instances@.len(),
            forall|i: int| 0 <= i < v@.len()
                ==> (#[trigger] v@[i]).words() == self.instances@[i].raw_words(),
    {
        let n: usize = self.instances.len();
        let mut v: Vec<InstanceRaw> = Vec::new();
        let mut i: usize = 0;
        while i < n
            invariant
                n == self.instances@.len(),
                i <= n,
                v@.len() == i,
                forall|j: int| 0 <= j < i
                    ==> (#[trigger] v@[j]).words() == self.instances@[j].raw_words(),
            decreases n - i,
        {
            let r = self.instances[i].to_raw();
            v.push(r);
            i = i + 1;
        }
        v
    }

    /// Rebuilds the device-buffer contents: the little-endian bytes of
    /// every record, in store order. The allocation is recreated only
    /// when the instance count outgrew it, and otherwise reused; the
    /// buffer afterwards holds exactly one record per instance, and the
    /// bytes are a function of the instances alone, so a call on an
    /// unchanged store gives identical contents.
    pub fn init_buffer(&mut self) -> (r: (Vec<u8>, bool))
        ensures
            final(self).instances@ == old(self).instances@,
            final(self).buffer_len == old(self).instances@.len(),
            r.1 <==> old(self).buffer_capacity < old(self).instances@.len(),
            final(self).buffer_capacity == (if old(self).buffer_capacity < old(self).instances@.len() {
                old(self).instances@.len() as int
            } else {
                old(self).buffer_capacity as int
            }),
            r.0@ == store_le_bytes(old(self).instances@),
            r.0@.len() == RAW_STRIDE_BYTES * old(self).instances@.len(),
    {
        let records = self.to_raw_buffer();
        let mut words: Vec<u32> = Vec::new();
        let n: usize = records.len();
        let mut i: usize = 0;
        proof {
            assert(self.instances@.take(0) =~= Seq::<Instance>::empty());
        }
        while i < n
            invariant
                n == records@.len(),
                n == self.instances@.len(),
                i <= n,
                words@ == flat_raw_words(self.instances@.take(i as int)),
                forall|j: int| 0 <= j < n
                    ==> (#[trigger] records@[j]).words() == self.instances@[j].raw_words(),
            decreases n - i,
        {
            let ghost prefix = words@;
            let rec = records[i];
            let mut k: usize = 0;
            while k < 16
                invariant
                    k <= 16,
                    words@ == prefix + rec.model@.take(k as int),
                decreases 16 - k,
            {
                words.push(rec.model[k]);
                proof {
                    assert(rec.model@.take(k + 1) =~= rec.model@.take(k as int).push(rec.model@[k as int]));
                    assert(words@ =~= prefix + rec.model@.take(k + 1));
                }
                k = k + 1;
            }
            let mut m: usize = 0;
            while m < 3
                invariant
                    m <= 3,
                    words@ == prefix + rec.model@ + rec.origin3d@.take(m as int),
                decreases 3 - m,
            {
                words.push(rec.origin3d[m]);
                proof {
                    assert(rec.origin3d@.take(m + 1) =~= rec.origin3d@.take(m as int).push(rec.origin3d@[m as int]));
                    assert(words@ =~= prefix + rec.model@ + rec.origin3d@.take(m + 1));
                }
                m = m + 1;
            }
            proof {
                assert(rec.model@.take(16) =~= rec.model@);
                assert(rec.origin3d@.take(3) =~= rec.origin3d@);
                assert(words@ =~= prefix + rec.words());
                let upto = self.instances@.take(i + 1);
                assert(upto.drop_last() =~= self.instances@.take(i as int));
                assert(upto.last() == self.instances@[i as int]);
                assert(rec.words() == self.instances@[i as int].raw_words());
                assert(words@ =~= flat_raw_words(upto));
            }
            i = i + 1;
        }
        proof {
            assert(self.instances@.take(n as int) =~= self.instances@);
        }
        let mut bytes: Vec<u8> = Vec::new();
        let wn: usize = words.len();
        let mut j: usize = 0;
        proof {
            assert(words@.take(0) =~= Seq::<u32>::empty());
        }
        while j < wn
            invariant
                wn == words@.len(),
                j <= wn,
                bytes@ == words_le_bytes(words@.take(j as int)),
            decreases wn - j,
        {
            push_word_le(&mut bytes, words[j]);
            proof {
                let upto = words@.take(j + 1);
                assert(upto.drop_last() =~= words@.take(j as int));
                assert(upto.last() == words@[j as int]);
                assert(bytes@ =~= words_le_bytes(upto));
            }
            j = j + 1;
        }
        proof {
            assert(words@.take(wn as int) =~= words@);
            lemma_flat_raw_words_len(self.instances@);
            lemma_words_le_bytes_len(flat_raw_words(self.instances@));
        }
        let count: usize = self.instances.len();
        let recreated: bool = self.buffer_capacity < count;
        if recreated {
            self.buffer_capacity = count;
        }
        self.buffer_len = count;
        (bytes, recreated)
    }
}

/// The four bytes of a scalar word, least significant first: the byte
/// order of the GPU-facing buffers.
pub open spec fn word_le_bytes(w: u32) -> Seq<u8> {
    seq![
        (w % 256) as u8,
        ((w / 256) % 256) as u8,
        ((w / 65536) % 256) as u8,
        ((w / 16777216) % 256) as u8,
    ]
}

/// The little-endian image of a word sequence, four bytes for each word.
pub open spec fn words_le_bytes(words: Seq<u32>) -> Seq<u8>
    decreases words.len(),
{
    if words.len() == 0 {
        Seq::empty()
    } else {
        words_le_bytes(words.drop_last()) + word_le_bytes(words.last())
    }
}

/// The words of every record of an instance sequence, in order.
pub open spec fn flat_raw_words(instances: Seq<Instance>) -> Seq<u32>
    decreases instances.len(),
{
    if instances.len() == 0 {
        Seq::empty()
    } else {
        flat_raw_words(instances.drop_last()) + instances.last().raw_words()
    }
}

/// The full little-endian buffer image of an instance sequence: the bytes
/// of one packed record per instance, in store order.
pub open spec fn store_le_bytes(instances: Seq<Instance>) -> Seq<u8> {
    words_le_bytes(flat_raw_words(instances))
}

/// The image of a word sequence is four bytes long for each word.
pub proof fn lemma_words_le_bytes_len(words: Seq<u32>)
    ensures
        words_le_bytes(words).len() == 4 * words.len(),
    decreases words.len(),
{
    if words.len() > 0 {
        lemma_words_le_bytes_len(words.drop_last());
    }
}

/// The flattened words of an instance sequence hold one record's words
/// per instance.
pub proof fn lemma_flat_raw_words_len(instances: Seq<Instance>)
    ensures
        flat_raw_words(instances).len() == RAW_WORDS * instances.len(),
    decreases instances.len(),
{
    if instances.len() > 0 {
        lemma_flat_raw_words_len(instances.drop_last());
    }
}

/// Appends the four little-endian bytes of one word.
fn push_word_le(bytes: &mut Vec<u8>, w: u32)
    ensures
        final(bytes)@ == old(bytes)@ + word_le_bytes(w),
{
    bytes.push((w % 256) as u8);
    bytes.push(((w / 256) % 256) as u8);
    bytes.push(((w / 65536) % 256) as u8);
    bytes.push(((w / 16777216) % 256) as u8);
    proof {
        assert(bytes@ =~= old(bytes)@ + word_le_bytes(w));
    }
}

/// The frozen vertex-attribute layout of the shared mesh vertex: the
/// position, the color and the texture coordinates at shader locations
/// zero through two, contiguous, thirty-two bytes per vertex.
pub fn mesh_vertex_attributes() -> (v: Vec<VertexAttributeDesc>)
    ensures
        v@.len() == 3,
        v@[0] == (VertexAttributeDesc { shader_location: 0, offset: 0, channels: 3 }),
        v@[1] == (VertexAttributeDesc { shader_location: 1, offset: 12, channels: 3 }),
        v@[2] == (VertexAttributeDesc { shader_location: 2, offset: 24, channels: 2 }),
        forall|i: int| 0 <= i < 2 ==> #[trigger] v@[i + 1].offset == v@[i].offset + 4 * v@[i].channels,
{
    let mut v: Vec<VertexAttributeDesc> = Vec::new();
    v.push(VertexAttributeDesc { shader_location: 0, offset: 0, channels: 3 });
    v.push(VertexAttributeDesc { shader_location: 1, offset: 12, channels: 3 });
    v.push(VertexAttributeDesc { shader_location: 2, offset: 24, channels: 2 });
    v
}

} // verus!
