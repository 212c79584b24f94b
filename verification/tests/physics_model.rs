use embed_wgpu_lib::errors::{classify, PhysicsError, RenderError, Severity, SurfaceError};
use embed_wgpu_lib::geometry::{Rot2, Transform2};
use embed_wgpu_lib::physics::{Physics, RigidBodyHandle, Shape};

fn t2(x: f32, y: f32, angle: f32) -> Transform2 {
    Transform2 {
        x: x.to_bits(),
        y: y.to_bits(),
        rot: Rot2 { cos: angle.cos().to_bits(), sin: angle.sin().to_bits() },
    }
}

#[test]
fn scene_has_bound_ball_at_drop_height() {
    let p = Physics::new();
    let t = p.get_transform(p.animate_handle.rigid_body_handle).unwrap();
    assert_eq!(f32::from_bits(t.x), 0.0);
    assert_eq!(f32::from_bits(t.y), 10.0);
    assert_eq!(f32::from_bits(t.rot.cos), 1.0);
    assert_eq!(f32::from_bits(t.rot.sin), 0.0);
    assert_eq!(f32::from_bits(p.gravity_y), -9.81);
    assert_eq!(f32::from_bits(p.timestep), 1.0 / 60.0);
}

#[test]
fn scene_colliders_hold_the_spec_shapes() {
    let p = Physics::new();
    assert_eq!(p.colliders.len(), 2);
    // The ground: a free ball collider of radius one half.
    let ground = &p.colliders[0];
    assert!(ground.live);
    assert_eq!(ground.collider.parent, None);
    assert_eq!(ground.collider.restitution, 0.0f32.to_bits());
    assert!(matches!(ground.collider.shape, Shape::Ball { radius } if radius == 0.5f32.to_bits()));
    // The ball: radius one half, restitution seven tenths, attached to
    // the animated body.
    let ball = &p.colliders[p.animate_handle.collider_handle.index];
    assert!(ball.live);
    assert_eq!(ball.collider.parent, Some(p.animate_handle.rigid_body_handle));
    assert_eq!(ball.collider.restitution, 0.7f32.to_bits());
    assert!(matches!(ball.collider.shape, Shape::Ball { radius } if radius == 0.5f32.to_bits()));
    assert!(p.bodies[p.animate_handle.rigid_body_handle.index].body.dynamic);
}

#[test]
fn create_body_rejects_invalid_radius() {
    let mut p = Physics::new();
    let bodies_before = p.bodies.len();
    for bad in [0.0f32, -0.5, f32::NAN, f32::INFINITY] {
        let r = p.create_body(t2(0.0, 0.0, 0.0), Shape::Ball { radius: bad.to_bits() }, 0.5f32.to_bits());
        assert_eq!(r, Err(PhysicsError::InvalidShape));
    }
    assert_eq!(p.bodies.len(), bodies_before);
    let ok = p.create_body(t2(1.0, 2.0, 0.0), Shape::Ball { radius: 0.25f32.to_bits() }, 0.5f32.to_bits());
    assert!(ok.is_ok());
    assert_eq!(p.bodies.len(), bodies_before + 1);
}

#[test]
fn get_transform_fails_on_unknown_handle() {
    let p = Physics::new();
    let bogus = RigidBodyHandle { index: 42, generation: 0 };
    assert_eq!(p.get_transform(bogus), Err(PhysicsError::InvalidHandle));
    let wrong_generation = RigidBodyHandle {
        index: p.animate_handle.rigid_body_handle.index,
        generation: p.animate_handle.rigid_body_handle.generation.wrapping_add(1),
    };
    assert_eq!(p.get_transform(wrong_generation), Err(PhysicsError::InvalidHandle));
}

#[test]
fn removed_handle_never_resolves_again() {
    let mut p = Physics::new();
    let h = p.animate_handle.rigid_body_handle;
    p.remove_body(h).unwrap();
    assert_eq!(p.get_transform(h), Err(PhysicsError::InvalidHandle));
    assert_eq!(p.remove_body(h), Err(PhysicsError::InvalidHandle));
}

#[test]
fn step_commits_moves_in_order() {
    let mut p = Physics::new();
    let h = p.animate_handle.rigid_body_handle;
    let moves = vec![(h, t2(1.25, 2.5, 0.1)), (h, t2(-0.5, 9.0, 0.2))];
    p.step(&moves).unwrap();
    // The later move wins.
    let t = p.get_transform(h).unwrap();
    assert_eq!(f32::from_bits(t.x), -0.5);
    assert_eq!(f32::from_bits(t.y), 9.0);
}

#[test]
fn step_fails_on_dangling_move_and_changes_nothing() {
    let mut p = Physics::new();
    let h = p.animate_handle.rigid_body_handle;
    let bogus = RigidBodyHandle { index: 9, generation: 9 };
    let moves = vec![(h, t2(5.0, 5.0, 0.0)), (bogus, t2(1.0, 1.0, 0.0))];
    assert_eq!(p.step(&moves), Err(PhysicsError::InvalidHandle));
    let t = p.get_transform(h).unwrap();
    assert_eq!(f32::from_bits(t.y), 10.0);
}

#[test]
fn step_fails_once_bound_body_is_removed() {
    let mut p = Physics::new();
    p.remove_body(p.animate_handle.rigid_body_handle).unwrap();
    let moves: Vec<(RigidBodyHandle, Transform2)> = Vec::new();
    assert_eq!(p.step(&moves), Err(PhysicsError::InvalidHandle));
}

#[test]
fn error_severities_follow_the_taxonomy() {
    assert_eq!(classify(RenderError::Physics(PhysicsError::InvalidHandle)), Severity::Recoverable);
    assert_eq!(classify(RenderError::Physics(PhysicsError::InvalidShape)), Severity::Recoverable);
    assert_eq!(
        classify(RenderError::Config(embed_wgpu_lib::errors::ConfigError::InvalidSurfaceSize)),
        Severity::Recoverable
    );
    assert_eq!(classify(RenderError::Surface(SurfaceError::Lost)), Severity::Recoverable);
    assert_eq!(classify(RenderError::Surface(SurfaceError::Outdated)), Severity::Recoverable);
    assert_eq!(classify(RenderError::Surface(SurfaceError::Timeout)), Severity::Transient);
    assert_eq!(classify(RenderError::Surface(SurfaceError::OutOfMemory)), Severity::Fatal);
    assert_eq!(classify(RenderError::ShaderCompileFailure), Severity::Fatal);
}
