use embed_wgpu_lib::errors::SurfaceError;
use embed_wgpu_lib::geometry::{Rot2, Transform2};
use embed_wgpu_lib::looper::{
    AcquireOutcome, EventAction, FrameAction, Key, Looper, Phase, WindowEventKind,
    FRAME_DURATION_NS,
};
use embed_wgpu_lib::physics::RigidBodyHandle;

fn inv_aspect_word(width: u32, height: u32) -> u32 {
    (height as f32 / width as f32).to_bits()
}

fn identity_rot() -> Rot2 {
    Rot2 { cos: 1.0f32.to_bits(), sin: 0.0f32.to_bits() }
}

fn no_moves() -> Vec<(RigidBodyHandle, Transform2)> {
    Vec::new()
}

/// Drives a configured, idle loop up to the drawing phase.
fn drive_to_drawing(l: &mut Looper, now: u64) {
    assert!(l.tick(now));
    l.step_physics(&no_moves()).unwrap();
    l.sync();
    let _ = l.upload();
    assert!(matches!(l.phase, Phase::Drawing));
}

#[test]
fn no_work_before_surface_is_configured() {
    let mut l = Looper::new(300, identity_rot());
    assert!(!l.tick(FRAME_DURATION_NS * 2));
}

#[test]
fn frame_pacing_skips_early_ticks() {
    let mut l = Looper::new(300, identity_rot());
    l.resize(640, 640, inv_aspect_word(640, 640)).unwrap();
    assert!(!l.tick(FRAME_DURATION_NS / 2));
    assert!(l.tick(FRAME_DURATION_NS));
    // A frame is now in flight: another tick does nothing.
    assert!(!l.tick(FRAME_DURATION_NS * 10));
}

#[test]
fn full_frame_reaches_present() {
    let mut l = Looper::new(300, identity_rot());
    l.resize(640, 640, inv_aspect_word(640, 640)).unwrap();
    drive_to_drawing(&mut l, FRAME_DURATION_NS);
    let act = l.on_acquire(AcquireOutcome::Acquired);
    match act {
        FrameAction::Draw(plan) => {
            assert_eq!(plan.index_count, 300);
            assert_eq!(plan.instance_count, 1);
            assert!(plan.clear_depth);
            assert!(plan.clear_stencil);
            assert!(plan.resolve_multisample);
        }
        _ => panic!("expected a draw plan"),
    }
    assert!(matches!(l.phase, Phase::Presented));
    l.present();
    assert!(matches!(l.phase, Phase::Idle));
    assert_eq!(l.frame_count, 1);
}

#[test]
fn resize_then_draw_presents_without_error() {
    // A resize to any positive size followed immediately by a frame
    // reaches presentation.
    let mut l = Looper::new(300, identity_rot());
    let presented = l.reconfigure_and_render(
        800,
        600,
        inv_aspect_word(800, 600),
        FRAME_DURATION_NS,
        &no_moves(),
    );
    assert!(presented);
    assert_eq!(l.frame_count, 1);
    assert_eq!(l.frame.width, 800);
    assert_eq!(l.frame.height, 600);
}

#[test]
fn resize_to_zero_is_ignored_entirely() {
    let mut l = Looper::new(300, identity_rot());
    l.resize(640, 640, inv_aspect_word(640, 640)).unwrap();
    let epoch = l.frame.target_epoch;
    assert!(l.resize(0, 600, 0).is_err());
    assert!(l.resize(800, 0, 0).is_err());
    assert_eq!(l.frame.width, 640);
    assert_eq!(l.frame.height, 640);
    assert_eq!(l.frame.target_epoch, epoch);
    let presented = l.reconfigure_and_render(0, 600, 0, FRAME_DURATION_NS, &no_moves());
    assert!(!presented);
    assert_eq!(l.frame_count, 0);
}

#[test]
fn lost_surface_reconfigures_and_retries() {
    let mut l = Looper::new(300, identity_rot());
    l.resize(640, 640, inv_aspect_word(640, 640)).unwrap();
    drive_to_drawing(&mut l, FRAME_DURATION_NS);
    let act = l.on_acquire(AcquireOutcome::Failed(SurfaceError::Lost));
    assert_eq!(act, FrameAction::ReconfigureRetry(640, 640));
    assert!(matches!(l.phase, Phase::Idle));
    assert!(!l.exiting);
    // The retry works at the next tick.
    l.resize(640, 640, inv_aspect_word(640, 640)).unwrap();
    drive_to_drawing(&mut l, FRAME_DURATION_NS * 2);
}

#[test]
fn outdated_surface_reconfigures_and_retries() {
    let mut l = Looper::new(300, identity_rot());
    l.resize(640, 640, inv_aspect_word(640, 640)).unwrap();
    drive_to_drawing(&mut l, FRAME_DURATION_NS);
    let act = l.on_acquire(AcquireOutcome::Failed(SurfaceError::Outdated));
    assert_eq!(act, FrameAction::ReconfigureRetry(640, 640));
    assert!(matches!(l.phase, Phase::Idle));
}

#[test]
fn surface_timeout_skips_the_frame() {
    let mut l = Looper::new(300, identity_rot());
    l.resize(640, 640, inv_aspect_word(640, 640)).unwrap();
    drive_to_drawing(&mut l, FRAME_DURATION_NS);
    let act = l.on_acquire(AcquireOutcome::Failed(SurfaceError::Timeout));
    assert_eq!(act, FrameAction::SkipFrame);
    assert!(matches!(l.phase, Phase::Idle));
    assert!(!l.exiting);
    assert_eq!(l.frame_count, 0);
    drive_to_drawing(&mut l, FRAME_DURATION_NS * 2);
}

#[test]
fn surface_out_of_memory_terminates_the_loop() {
    let mut l = Looper::new(300, identity_rot());
    l.resize(640, 640, inv_aspect_word(640, 640)).unwrap();
    drive_to_drawing(&mut l, FRAME_DURATION_NS);
    let act = l.on_acquire(AcquireOutcome::Failed(SurfaceError::OutOfMemory));
    assert_eq!(act, FrameAction::Terminate);
    assert!(l.exiting);
    // The loop never ticks again.
    assert!(!l.tick(FRAME_DURATION_NS * 10));
}

#[test]
fn close_and_quit_keys_exit() {
    let mut l = Looper::new(300, identity_rot());
    assert_eq!(l.handler(WindowEventKind::CloseRequested), EventAction::Exit);
    assert!(l.exiting);
    let mut l2 = Looper::new(300, identity_rot());
    assert_eq!(l2.handler(WindowEventKind::KeyPressed(Key::Escape)), EventAction::Exit);
    let mut l3 = Looper::new(300, identity_rot());
    assert_eq!(l3.handler(WindowEventKind::KeyPressed(Key::KeyQ)), EventAction::Exit);
}

#[test]
fn rotation_key_bumps_the_step_counter() {
    let mut l = Looper::new(300, identity_rot());
    assert_eq!(l.handler(WindowEventKind::KeyPressed(Key::KeyR)), EventAction::UpdateRotation);
    assert_eq!(l.theta_steps, 1);
    assert_eq!(l.handler(WindowEventKind::KeyPressed(Key::KeyR)), EventAction::UpdateRotation);
    assert_eq!(l.theta_steps, 2);
    assert_eq!(l.handler(WindowEventKind::KeyPressed(Key::Other)), EventAction::Ignore);
    assert_eq!(l.theta_steps, 2);
}

#[test]
fn resize_event_asks_for_reconfiguration() {
    let mut l = Looper::new(300, identity_rot());
    assert_eq!(l.handler(WindowEventKind::Resized(1024, 768)), EventAction::Reconfigure(1024, 768));
    assert_eq!(l.handler(WindowEventKind::RedrawRequested), EventAction::Redraw);
}

#[test]
fn update_rotate_writes_the_rotation_uniform() {
    let mut l = Looper::new(300, identity_rot());
    let angle = std::f32::consts::PI / 10.0;
    let (s, c) = angle.sin_cos();
    l.update_rotate(angle.to_bits(), Rot2 { cos: c.to_bits(), sin: s.to_bits() });
    assert_eq!(l.frame.mat_buf[0], angle.to_bits());
    assert_eq!(l.frame.mat_buf[1], c.to_bits());
    assert_eq!(l.frame.mat_buf[3], (-s).to_bits());
    assert_eq!(l.frame.mat_buf[7], s.to_bits());
    assert_eq!(l.frame.mat_buf[9], c.to_bits());
}
