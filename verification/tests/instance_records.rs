use embed_wgpu_lib::geometry::{Point3, Rot2};
use embed_wgpu_lib::instance::{Instance, InstanceManager, InstanceRaw, RAW_STRIDE_BYTES};
use embed_wgpu_lib::physics::Physics;

fn rot_words(angle: f32) -> Rot2 {
    Rot2 { cos: angle.cos().to_bits(), sin: angle.sin().to_bits() }
}

fn point_words(x: f32, y: f32, z: f32) -> Point3 {
    Point3 { x: x.to_bits(), y: y.to_bits(), z: z.to_bits() }
}

#[test]
fn to_raw_buffer_yields_one_record_per_instance_in_order() {
    let mut m = InstanceManager::new();
    let positions = [
        point_words(0.0, 1.0, 0.0),
        point_words(-0.5, 0.25, 0.0),
        point_words(2.0, -3.0, 1.0),
    ];
    for p in positions.iter() {
        m.add_instance(Instance::new(*p, rot_words(0.0)));
    }
    let records = m.to_raw_buffer();
    assert_eq!(records.len(), 3);
    for (i, p) in positions.iter().enumerate() {
        assert_eq!(records[i].origin3d, [p.x, p.y, p.z]);
    }
    // A second call yields the same records again.
    let again = m.to_raw_buffer();
    assert_eq!(again.len(), 3);
    for i in 0..3 {
        assert_eq!(again[i], records[i]);
    }
}

#[test]
fn to_raw_matches_reference_model_matrix() {
    let angle: f32 = 0.3;
    let p = point_words(0.25, 10.0, 0.0);
    let inst = Instance::new(p, rot_words(angle));
    let raw: InstanceRaw = inst.to_raw();

    let reference = glam::Mat4::from_translation(glam::Vec3::new(0.25, 10.0, 0.0))
        * glam::Mat4::from_rotation_z(angle);
    let cols = reference.to_cols_array();
    for i in 0..16 {
        assert_eq!(raw.model[i], cols[i].to_bits(), "model word {} differs", i);
    }
}

#[test]
fn to_raw_places_rotation_and_origin_words() {
    let c: f32 = 0.6;
    let s: f32 = 0.8;
    let inst = Instance::new(point_words(1.0, 2.0, 3.0), Rot2 { cos: c.to_bits(), sin: s.to_bits() });
    let raw = inst.to_raw();
    assert_eq!(raw.model[0], c.to_bits());
    assert_eq!(raw.model[1], s.to_bits());
    assert_eq!(raw.model[4], (-s).to_bits());
    assert_eq!(raw.model[5], c.to_bits());
    assert_eq!(raw.model[10], 1.0f32.to_bits());
    assert_eq!(raw.model[12], 1.0f32.to_bits());
    assert_eq!(raw.model[13], 2.0f32.to_bits());
    assert_eq!(raw.model[14], 3.0f32.to_bits());
    assert_eq!(raw.model[15], 1.0f32.to_bits());
    assert_eq!(raw.origin3d, [1.0f32.to_bits(), 2.0f32.to_bits(), 3.0f32.to_bits()]);
}

#[test]
fn instance_raw_desc_is_contiguous() {
    let desc = InstanceRaw::desc();
    assert_eq!(desc.len(), 5);
    let locations: Vec<u32> = desc.iter().map(|a| a.shader_location).collect();
    assert_eq!(locations, vec![5, 6, 7, 8, 9]);
    let mut expected_offset: usize = 0;
    for a in desc.iter() {
        assert_eq!(a.offset, expected_offset);
        expected_offset += 4 * a.channels as usize;
    }
    assert_eq!(expected_offset, RAW_STRIDE_BYTES);
}

#[test]
fn init_buffer_bytes_are_the_record_words() {
    let mut m = InstanceManager::new();
    m.add_instance(Instance::new(point_words(0.5, -1.5, 0.0), rot_words(1.0)));
    let (bytes, recreated) = m.init_buffer();
    assert!(recreated);
    assert_eq!(bytes.len(), RAW_STRIDE_BYTES);
    let record = m.to_raw_buffer()[0];
    for i in 0..16 {
        let expected = record.model[i].to_le_bytes();
        assert_eq!(&bytes[4 * i..4 * i + 4], &expected);
    }
    for i in 0..3 {
        let expected = record.origin3d[i].to_le_bytes();
        assert_eq!(&bytes[64 + 4 * i..64 + 4 * i + 4], &expected);
    }
}

#[test]
fn init_buffer_is_repeatable_on_an_unchanged_store() {
    let mut m = InstanceManager::new();
    m.add_instance(Instance::new(point_words(0.25, 10.0, 0.0), rot_words(0.3)));
    m.add_instance(Instance::new(point_words(-1.0, 2.0, 0.5), rot_words(1.1)));
    let instances_before = m.instances.clone();
    let (first, _) = m.init_buffer();
    let (second, _) = m.init_buffer();
    assert_eq!(first, second);
    assert_eq!(m.instances, instances_before);
}

#[test]
fn init_buffer_reuses_allocation_until_outgrown() {
    let mut m = InstanceManager::new();
    m.add_instance(Instance::new(point_words(0.0, 0.0, 0.0), rot_words(0.0)));
    let (_, recreated_first) = m.init_buffer();
    assert!(recreated_first);
    let (_, recreated_second) = m.init_buffer();
    assert!(!recreated_second);
    m.add_instance(Instance::new(point_words(1.0, 0.0, 0.0), rot_words(0.0)));
    let (bytes, recreated_third) = m.init_buffer();
    assert!(recreated_third);
    assert_eq!(bytes.len(), 2 * RAW_STRIDE_BYTES);
}

#[test]
fn init_buffer_with_empty_store_yields_no_bytes() {
    let mut m = InstanceManager::new();
    let (bytes, recreated) = m.init_buffer();
    assert!(bytes.is_empty());
    assert!(!recreated);
    assert_eq!(m.buffer_len, 0);
    assert!(m.to_raw_buffer().is_empty());
}

#[test]
fn mesh_vertex_attributes_are_contiguous() {
    let desc = embed_wgpu_lib::instance::mesh_vertex_attributes();
    assert_eq!(desc.len(), 3);
    let locations: Vec<u32> = desc.iter().map(|a| a.shader_location).collect();
    assert_eq!(locations, vec![0, 1, 2]);
    let channels: Vec<u32> = desc.iter().map(|a| a.channels).collect();
    assert_eq!(channels, vec![3, 3, 2]);
    let mut expected_offset: usize = 0;
    for a in desc.iter() {
        assert_eq!(a.offset, expected_offset);
        expected_offset += 4 * a.channels as usize;
    }
    assert_eq!(expected_offset, 32);
}

#[test]
fn make_up_instances_spawns_at_unit_height() {
    let mut m = InstanceManager::new();
    let rot = rot_words(0.7);
    m.make_up_instances(rot);
    assert_eq!(m.instances.len(), 1);
    assert_eq!(m.instances[0].position, point_words(0.0, 1.0, 0.0));
    assert_eq!(m.instances[0].rotation, rot);
    assert!(m.instances[0].binding.is_none());
}

#[test]
fn sync_overwrites_bound_and_keeps_unbound() {
    let world = Physics::new();
    let mut m = InstanceManager::new();
    m.add_instance(Instance::new(point_words(0.0, 1.0, 0.5), rot_words(0.0)));
    m.add_instance(Instance::new(point_words(3.0, 4.0, 0.0), rot_words(0.2)));
    m.bind(0, world.animate_handle.rigid_body_handle).unwrap();
    m.sync_from_physics(&world);
    // The bound instance takes the body's transform (the ball starts at
    // height ten); its depth coordinate stays.
    assert_eq!(m.instances[0].position, point_words(0.0, 10.0, 0.5));
    assert_eq!(m.instances[0].rotation, Rot2 { cos: 1.0f32.to_bits(), sin: 0.0f32.to_bits() });
    // The unbound instance is untouched.
    assert_eq!(m.instances[1].position, point_words(3.0, 4.0, 0.0));
}

#[test]
fn sync_skips_instance_with_dangling_handle() {
    let mut world = Physics::new();
    let handle = world.animate_handle.rigid_body_handle;
    let mut m = InstanceManager::new();
    m.add_instance(Instance::new(point_words(7.0, 8.0, 9.0), rot_words(0.1)));
    m.bind(0, handle).unwrap();
    world.remove_body(handle).unwrap();
    m.sync_from_physics(&world);
    assert_eq!(m.instances[0].position, point_words(7.0, 8.0, 9.0));
}
