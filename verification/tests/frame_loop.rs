use hlsl_box::renderer::command_list::Op;
use hlsl_box::renderer::resource::{PlaneKind, ResourceId, Usage};
use hlsl_box::renderer::{Color, Renderer};
use hlsl_box::settings;

fn test_renderer() -> Renderer {
    Renderer::new(
        settings::Resolution { width: 640, height: 480 },
        640,
        480,
        96,
        None,
        &settings::SwapChain { buffer_count: 2, max_frame_latency: 1 },
    )
}

fn clear_color() -> Color {
    Color { r: 0, g: 0, b: 32, a: 0 }
}

#[test]
fn first_frame_renders_into_slot_zero_and_presents() {
    let mut renderer = test_renderer();
    let ps = renderer.create_pixel_shader_pipeline().unwrap();
    let report = renderer.render(1, clear_color(), Some(&ps), 0).unwrap();
    assert_eq!(report.index, 0);
    assert!(report.presented);
    assert!(report.copy_signal.is_none());
    assert_eq!(report.main_signal.value, 1);
    assert_eq!(report.frame_signal.value, 3);
    // Presenting rotated the swap chain to the next back buffer.
    assert_eq!(renderer.swap_chain.current_buffer(), 1);
}

#[test]
fn pass_ops_are_bracketed_by_transitions() {
    let mut renderer = test_renderer();
    let ps = renderer.create_pixel_shader_pipeline().unwrap();
    let report = renderer.render(1, clear_color(), Some(&ps), 0).unwrap();
    let log = renderer.main_queue.log();
    assert_eq!(log.len(), 2);

    // Pass A: draw the shader into the off-screen target, bracketed, then
    // composite it onto the back buffer.
    let pass_a = &log[0].ops;
    assert_eq!(pass_a.len(), 8);
    match pass_a[0] {
        Op::Transition(t) => {
            assert_eq!(t.resource, ResourceId::OffScreen(0));
            assert_eq!(t.state_before, Usage::Common);
            assert_eq!(t.state_after, Usage::Target);
        },
        _ => panic!("expected a transition"),
    }
    assert_eq!(pass_a[2], Op::Draw(0, ResourceId::OffScreen(0), PlaneKind::Filling));
    assert_eq!(
        pass_a[7],
        Op::Layer(ResourceId::OffScreen(0), ResourceId::BackBuffer(0), PlaneKind::Adjusted)
    );

    // Pass B: overlay composited, everything left back to idle, ordered
    // after the overlay pass's signal.
    let pass_b = &log[1].ops;
    assert_eq!(pass_b.len(), 5);
    assert_eq!(
        pass_b[1],
        Op::Layer(ResourceId::UiBuffer(0), ResourceId::BackBuffer(0), PlaneKind::Filling)
    );
    match pass_b[4] {
        Op::Transition(t) => {
            assert_eq!(t.resource, ResourceId::UiBuffer(0));
            assert_eq!(t.state_after, Usage::Common);
        },
        _ => panic!("expected a transition"),
    }
    assert_eq!(log[1].waits, vec![report.ui_signal]);
}

#[test]
fn slot_reuse_waits_for_the_stored_signal() {
    let mut renderer = test_renderer();
    let report0 = renderer.render(1, clear_color(), None, 0).unwrap();
    let _report1 = renderer.render(1, clear_color(), None, 0).unwrap();
    // The swap chain is back at slot 0; the third frame reuses it and must
    // first wait until slot 0's stored signal has completed.
    assert_eq!(renderer.swap_chain.current_buffer(), report0.index);
    let stored = report0.frame_signal;
    let report2 = renderer.render(1, clear_color(), None, 0).unwrap();
    assert_eq!(report2.index, report0.index);
    assert!(renderer.fences.completed(stored.fence) >= stored.value);
}

#[test]
fn skipped_presentation_keeps_the_slot() {
    let mut renderer = test_renderer();
    renderer.swap_chain.set_latency_signaled(false);
    let report = renderer.render(1, clear_color(), None, 0).unwrap();
    assert!(!report.presented);
    // Without a present the display keeps showing the same slot.
    assert_eq!(renderer.swap_chain.current_buffer(), 0);
    assert_eq!(report.frame_signal.value, report.main_signal.value + 1);
}

#[test]
fn resize_after_drain_restarts_at_slot_zero() {
    let mut renderer = test_renderer();
    let _ = renderer.render(1, clear_color(), None, 0).unwrap();
    let _ = renderer.render(1, clear_color(), None, 0).unwrap();
    renderer.resize(800, 600).unwrap();
    assert_eq!(renderer.swap_chain.current_buffer(), 0);
    // Every stored signal was drained: nothing is in flight, so there is no
    // last frame to read back.
    assert!(renderer.screen_shot().unwrap().is_none());
    // The loop goes on normally afterwards.
    let report = renderer.render(1, clear_color(), None, 0).unwrap();
    assert_eq!(report.index, 0);
}

#[test]
fn maximize_letterboxes_by_exact_ratio() {
    let mut renderer = test_renderer();
    // A window three times as wide as the 4:3 resolution: the x axis is
    // scaled down to a third.
    renderer.maximize(1920, 480).unwrap();
    let scale = renderer.adjusted_plane;
    assert_eq!(scale.num_x * 3, scale.den_x);
    assert_eq!(scale.num_y, scale.den_y);
    // Restoring goes back to the unscaled plane.
    renderer.restore(640, 480).unwrap();
    let unit = renderer.adjusted_plane;
    assert_eq!(unit.num_x, unit.den_x);
    assert_eq!(unit.num_y, unit.den_y);
}

#[test]
fn startup_uploads_both_planes_through_the_copy_queue() {
    let renderer = test_renderer();
    let log = renderer.copy_queue.log();
    assert_eq!(log.len(), 2);
    // Each upload copies a transient upload buffer into a plane buffer,
    // bracketed by copy-destination transitions.
    for submission in log.iter() {
        assert_eq!(submission.ops.len(), 3);
        match submission.ops[1] {
            Op::CopyBuffer(ResourceId::Upload(_), ResourceId::PlaneBuffer(_)) => {},
            _ => panic!("expected a plane upload copy"),
        }
    }
}

#[test]
fn recreate_replaces_targets_and_staging() {
    let mut renderer = test_renderer();
    let _ = renderer.render(1, clear_color(), None, 0).unwrap();
    renderer
        .recreate(
            settings::Resolution { width: 1280, height: 720 },
            Some(60),
            &settings::SwapChain { buffer_count: 3, max_frame_latency: 2 },
        )
        .unwrap();
    assert_eq!(renderer.render_target.size(), settings::Resolution { width: 1280, height: 720 });
    assert_eq!(renderer.swap_chain.len(), 3);
    let report = renderer.render(1, clear_color(), None, 0).unwrap();
    assert_eq!(report.index, 0);
}
