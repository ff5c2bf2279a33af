use hlsl_box::error::Error;
use hlsl_box::renderer::buffers::ReadBackBuffer;
use hlsl_box::renderer::video::sample_time;
use hlsl_box::renderer::{Color, Renderer, StepReport};
use hlsl_box::settings;

fn test_renderer() -> Renderer {
    Renderer::new(
        settings::Resolution { width: 640, height: 480 },
        640,
        480,
        96,
        None,
        &settings::SwapChain { buffer_count: 2, max_frame_latency: 1 },
    )
}

fn clear_color() -> Color {
    Color { r: 0, g: 0, b: 0, a: 0 }
}

/// Round-trip of a known fill color through the staging buffer: a frame
/// filled with opaque red at 640 x 480 reads back as an image of that size
/// whose every sampled pixel is exactly red.
#[test]
fn staged_fill_reads_back_as_the_fill_color() {
    let resolution = settings::Resolution { width: 640, height: 480 };
    let mut buffer = ReadBackBuffer::new(resolution);
    let mut data = Vec::new();
    for _ in 0..(640 * 480) {
        data.extend_from_slice(&[255u8, 0, 0, 255]);
    }
    // The staging allocation is padded to an allocation boundary.
    while data.len() % 16 != 0 {
        data.push(0);
    }
    buffer.write_data(data);
    let img = buffer.to_image();
    assert_eq!(img.width(), 640);
    assert_eq!(img.height(), 480);
    assert_eq!(img.pixel(0, 0), [255, 0, 0, 255]);
    assert_eq!(img.pixel(639, 0), [255, 0, 0, 255]);
    assert_eq!(img.pixel(0, 479), [255, 0, 0, 255]);
    assert_eq!(img.pixel(320, 240), [255, 0, 0, 255]);
    let bytes = img.into_bytes();
    assert_eq!(bytes.len(), 640 * 480 * 4);
    assert_eq!(&bytes[0..4], &[255, 0, 0, 255]);
}

#[test]
fn screen_shot_returns_the_last_frame_size() {
    let mut renderer = test_renderer();
    assert!(renderer.screen_shot().unwrap().is_none());
    let _ = renderer.render(1, clear_color(), None, 0).unwrap();
    let img = renderer.screen_shot().unwrap().unwrap();
    assert_eq!(img.width(), 640);
    assert_eq!(img.height(), 480);
    // The copy queue was ordered after the frame's signal.
    let last = renderer.copy_queue.log().last().unwrap();
    assert_eq!(last.waits.len(), 1);
}

#[test]
fn video_frame_count_reaches_exactly_the_end_frame() {
    let mut renderer = test_renderer();
    renderer.start_video(30, Some(30), 0).unwrap();
    assert!(renderer.is_writing_video());

    let mut now: u64 = 0;
    let mut encoded: u64 = 0;
    let mut finished = false;
    // Drive well over 30 displayable frames; the session must encode
    // exactly 30 samples and then finalize on its own.
    for _ in 0..40 {
        now += 40_000;
        let report = renderer.render(1, clear_color(), None, now).unwrap();
        if !finished {
            assert!(report.copy_signal.is_some());
        } else {
            assert!(report.copy_signal.is_none());
        }
        match renderer.video_worker_step(true).unwrap() {
            StepReport::Encoded { sample, finished: f, .. } => {
                assert_eq!(sample.time, encoded * 10_000_000 / 30);
                assert_eq!(sample.duration, 10_000_000 / 30);
                encoded += 1;
                if f {
                    finished = true;
                    assert_eq!(encoded, 30);
                }
            },
            StepReport::Idle => assert!(finished),
            StepReport::Finalized => panic!("the session should end at its end frame"),
            StepReport::Discarded => panic!("every capture here is encoded before the end"),
        }
    }
    assert_eq!(encoded, 30);
    assert!(finished);
    assert!(!renderer.is_writing_video());
}

#[test]
fn stopping_early_drains_and_finalizes() {
    let mut renderer = test_renderer();
    renderer.start_video(30, None, 0).unwrap();
    let mut now: u64 = 0;
    for _ in 0..3 {
        now += 40_000;
        let report = renderer.render(1, clear_color(), None, now).unwrap();
        assert!(report.copy_signal.is_some());
    }
    renderer.stop_video();
    assert!(!renderer.is_writing_video());
    // The worker drains the three pending frames, then finalizes once.
    for _ in 0..3 {
        match renderer.video_worker_step(true).unwrap() {
            StepReport::Encoded { finished, .. } => assert!(!finished),
            _ => panic!("a pending frame should be encoded"),
        }
    }
    match renderer.video_worker_step(true).unwrap() {
        StepReport::Finalized => {},
        _ => panic!("a drained, closed session should finalize"),
    }
    match renderer.video_worker_step(true).unwrap() {
        StepReport::Idle => {},
        _ => panic!("a finalized worker does nothing more"),
    }
}

#[test]
fn failed_encode_surfaces_encode_failed() {
    let mut renderer = test_renderer();
    renderer.start_video(30, None, 0).unwrap();
    let report = renderer.render(1, clear_color(), None, 40_000).unwrap();
    assert!(report.copy_signal.is_some());
    // The driver's encoder call fails on the pending frame: the session
    // ends with the encode error and the staging buffer returns to its
    // pool.
    match renderer.video_worker_step(false) {
        Err(Error::EncodeFailed) => {},
        _ => panic!("a failed encode ends the session with EncodeFailed"),
    }
    assert!(!renderer.is_writing_video());
}

#[test]
fn capture_is_paced_by_the_video_frame_rate() {
    let mut renderer = test_renderer();
    renderer.start_video(30, None, 0).unwrap();
    // The display runs faster than the capture rate: frames inside the
    // same capture interval are dropped, not duplicated.
    let r1 = renderer.render(1, clear_color(), None, 40_000).unwrap();
    assert!(r1.copy_signal.is_some());
    let r2 = renderer.render(1, clear_color(), None, 50_000).unwrap();
    assert!(r2.copy_signal.is_none());
    let r3 = renderer.render(1, clear_color(), None, 80_000).unwrap();
    assert!(r3.copy_signal.is_some());
}

#[test]
fn capture_copy_waits_on_the_main_pass() {
    let mut renderer = test_renderer();
    renderer.start_video(30, None, 0).unwrap();
    let plane_uploads = renderer.copy_queue.log().len();
    let report = renderer.render(1, clear_color(), None, 40_000).unwrap();
    let log = renderer.copy_queue.log();
    assert_eq!(log.len(), plane_uploads + 1);
    // Cross-queue ordering: the capture copy defers until the graphics
    // queue's first pass has signaled.
    assert_eq!(log.last().unwrap().waits, vec![report.main_signal]);
    assert_eq!(report.captured_slot, Some(0));
}

#[test]
fn screen_shot_works_while_a_capture_is_pending() {
    let mut renderer = test_renderer();
    renderer.start_video(30, None, 0).unwrap();
    let report = renderer.render(1, clear_color(), None, 40_000).unwrap();
    assert!(report.copy_signal.is_some());
    // One staging buffer travels with the pending capture; the screenshot
    // takes another and puts it straight back.
    assert!(renderer.read_back_buffers.any_free());
    let img = renderer.screen_shot().unwrap().unwrap();
    assert_eq!(img.width(), 640);
    match renderer.video_worker_step(true).unwrap() {
        StepReport::Encoded { .. } => {},
        _ => panic!("the pending capture should still encode"),
    }
}

#[test]
fn leftover_captures_after_the_end_frame_are_discarded() {
    let mut renderer = test_renderer();
    renderer.start_video(30, Some(1), 0).unwrap();
    // Two captures queue up before the worker runs; the session ends at
    // frame one, and the leftover request's buffer returns to the pool.
    let r1 = renderer.render(1, clear_color(), None, 40_000).unwrap();
    let r2 = renderer.render(1, clear_color(), None, 80_000).unwrap();
    assert!(r1.copy_signal.is_some());
    assert!(r2.copy_signal.is_some());
    match renderer.video_worker_step(true).unwrap() {
        StepReport::Encoded { finished, .. } => assert!(finished),
        _ => panic!("the first capture should encode and finalize"),
    }
    match renderer.video_worker_step(true).unwrap() {
        StepReport::Discarded => {},
        _ => panic!("the leftover capture should be discarded"),
    }
    match renderer.video_worker_step(true).unwrap() {
        StepReport::Idle => {},
        _ => panic!("nothing is left to do"),
    }
    // With the old session drained, a new one may start.
    renderer.start_video(30, None, 160_000).unwrap();
    assert!(renderer.is_writing_video());
}

#[test]
fn sample_time_formula() {
    assert_eq!(sample_time(0, 30), 0);
    assert_eq!(sample_time(1, 30), 333_333);
    assert_eq!(sample_time(3, 30), 1_000_000);
    assert_eq!(sample_time(60, 60), 10_000_000);
}
