use motion_filter::config::Settings;
use motion_filter::frame::{Encoding, Frame, FrameError, GrayImage};
use motion_filter::pipeline::{on_arrived, on_masked, on_resized, step, Action, Event, Stage};

/// What a stand-in host saw and did while one frame went through.
#[derive(Debug, Default)]
struct Log {
    resizes: Vec<(u32, u32, u32, u32)>,
    detections: Vec<GrayImage>,
    forwarded: Vec<Frame>,
    reports: Vec<FrameError>,
    skipped: usize,
}

/// Scales by picking the nearest source pixel: enough for a stand-in.
fn resample(image: &GrayImage, width: u32, height: u32) -> GrayImage {
    let mut data = Vec::new();
    for y in 0..height as u64 {
        for x in 0..width as u64 {
            let sx = x * image.width as u64 / width as u64;
            let sy = y * image.height as u64 / height as u64;
            data.push(image.data[(sy * image.width as u64 + sx) as usize]);
        }
    }
    GrayImage { width, height, data }
}

/// Runs one frame to its end; `model` turns an image into a mask.
fn drive(
    settings: &Settings,
    frame: Frame,
    model: &mut dyn FnMut(&GrayImage) -> Option<Vec<u8>>,
    log: &mut Log,
) {
    let mut stage = Stage::Idle;
    let mut event = Event::Arrived(frame);
    loop {
        let (next, action) = step(settings, stage, event);
        stage = next;
        match action {
            Action::Resize { image, width, height } => {
                log.resizes.push((image.width, image.height, width, height));
                event = Event::Resized(Some(resample(&image, width, height)));
            }
            Action::Detect { image } => {
                event = Event::Masked(model(&image));
                log.detections.push(image);
            }
            Action::Forward(frame) => {
                log.forwarded.push(frame);
                break;
            }
            Action::Skip => {
                log.skipped += 1;
                break;
            }
            Action::Report(error) => {
                log.reports.push(error);
                break;
            }
        }
    }
    assert_eq!(stage, Stage::Idle);
}

fn rgb_frame(width: u32, height: u32, level: u8) -> Frame {
    Frame {
        encoding: Some(Encoding::Rgb888),
        width,
        height,
        data: vec![level; (width * height * 3) as usize],
    }
}

fn settings_with_width(target_width: u32) -> Settings {
    Settings { target_width, ..Settings::default() }
}

/// A model that remembers the last image and lights every pixel that moved
/// by more than 30 levels; the first image only fills the memory.
fn differencing_model() -> impl FnMut(&GrayImage) -> Option<Vec<u8>> {
    let mut last: Option<Vec<u8>> = None;
    move |image: &GrayImage| {
        let mask = match &last {
            None => vec![0u8; image.data.len()],
            Some(before) => image
                .data
                .iter()
                .zip(before.iter())
                .map(|(&now, &then)| if now.abs_diff(then) > 30 { 255 } else { 0 })
                .collect(),
        };
        last = Some(image.data.clone());
        Some(mask)
    }
}

#[test]
fn truecolor_frame_goes_through_on_the_first_frame() {
    let settings = settings_with_width(320);
    let frame = rgb_frame(640, 480, 90);
    assert_eq!(frame.data.len(), 640 * 480 * 3);

    let (stage, action) = step(&settings, Stage::Idle, Event::Arrived(frame.clone()));
    let image = match action {
        Action::Resize { image, width, height } => {
            assert_eq!((width, height), (320, 240));
            assert_eq!((image.width, image.height), (640, 480));
            assert_eq!(image.data.len(), 640 * 480);
            assert!(image.data.iter().all(|&level| level == 90));
            image
        }
        other => panic!("expected a resize request, got {:?}", other),
    };
    assert_eq!(stage, Stage::Resizing { frame: frame.clone(), width: 320, height: 240 });

    let scaled = resample(&image, 320, 240);
    let (stage, action) = step(&settings, stage, Event::Resized(Some(scaled.clone())));
    assert_eq!(action, Action::Detect { image: scaled });
    assert_eq!(stage, Stage::Detecting { frame: frame.clone(), pixels: 320 * 240 });

    let (stage, action) = step(&settings, stage, Event::Masked(Some(vec![0; 320 * 240])));
    assert_eq!(action, Action::Skip);
    assert_eq!(stage, Stage::Idle);
}

#[test]
fn frame_without_encoding_is_reported_once_and_never_forwarded() {
    let settings = Settings::default();
    let frame = Frame { encoding: None, width: 640, height: 480, data: vec![0; 640 * 480 * 3] };
    let mut log = Log::default();
    let mut calls = 0;
    let mut model = |_: &GrayImage| {
        calls += 1;
        Some(vec![255u8; 10])
    };
    drive(&settings, frame, &mut model, &mut log);
    assert_eq!(log.reports, vec![FrameError::UnsupportedFormat]);
    assert!(log.forwarded.is_empty());
    assert!(log.resizes.is_empty());
    assert!(log.detections.is_empty());
    assert_eq!(log.skipped, 0);
    assert_eq!(calls, 0);
}

#[test]
fn unrecognised_encoding_is_reported_as_unsupported() {
    let settings = Settings::default();
    let frame = Frame {
        encoding: Some(Encoding::Unrecognized),
        width: 2,
        height: 2,
        data: vec![0; 6],
    };
    let (stage, action) = on_arrived(&settings, frame);
    assert_eq!(action, Action::Report(FrameError::UnsupportedFormat));
    assert_eq!(stage, Stage::Idle);
}

#[test]
fn size_mismatch_drops_the_frame_before_any_host_work() {
    let settings = settings_with_width(4);
    let mut frame = rgb_frame(8, 8, 10);
    frame.data.pop();
    let mut log = Log::default();
    let mut model = differencing_model();
    drive(&settings, frame, &mut model, &mut log);
    assert_eq!(log.reports, vec![FrameError::SizeMismatch]);
    assert!(log.resizes.is_empty());
    assert!(log.detections.is_empty());
    assert!(log.forwarded.is_empty());
}

#[test]
fn frame_without_pixels_is_a_size_mismatch() {
    let settings = settings_with_width(4);
    for (width, height) in [(0u32, 8u32), (8, 0), (0, 0)] {
        let frame = Frame { encoding: Some(Encoding::Rgb888), width, height, data: vec![] };
        let (stage, action) = on_arrived(&settings, frame);
        assert_eq!(action, Action::Report(FrameError::SizeMismatch));
        assert_eq!(stage, Stage::Idle);
    }
    let yuv = Frame { encoding: Some(Encoding::Yuv420), width: 0, height: 4, data: vec![1, 2, 3] };
    let (_, action) = on_arrived(&settings, yuv);
    assert_eq!(action, Action::Report(FrameError::SizeMismatch));
}

#[test]
fn degenerate_target_is_a_resize_error() {
    let flat = Frame { encoding: Some(Encoding::Yuv444), width: 1000, height: 1, data: vec![0; 3000] };
    let (stage, action) = on_arrived(&settings_with_width(100), flat.clone());
    assert_eq!(action, Action::Report(FrameError::Resize));
    assert_eq!(stage, Stage::Idle);
    let (_, action) = on_arrived(&settings_with_width(0), flat);
    assert_eq!(action, Action::Report(FrameError::Resize));
}

#[test]
fn failed_resize_drops_the_frame_before_detection() {
    let frame = rgb_frame(8, 4, 10);
    let (stage, action) = on_resized(frame.clone(), 4, 2, None);
    assert_eq!(action, Action::Report(FrameError::Resize));
    assert_eq!(stage, Stage::Idle);
    let wrong = GrayImage { width: 4, height: 3, data: vec![0; 12] };
    let (stage, action) = on_resized(frame.clone(), 4, 2, Some(wrong));
    assert_eq!(action, Action::Report(FrameError::Resize));
    assert_eq!(stage, Stage::Idle);
    let torn = GrayImage { width: 4, height: 2, data: vec![0; 7] };
    let (_, action) = on_resized(frame, 4, 2, Some(torn));
    assert_eq!(action, Action::Report(FrameError::Resize));
}

#[test]
fn resized_image_of_the_planned_size_goes_to_detection() {
    let frame = rgb_frame(8, 4, 10);
    let scaled = GrayImage { width: 4, height: 2, data: vec![1, 2, 3, 4, 5, 6, 7, 8] };
    let (stage, action) = on_resized(frame.clone(), 4, 2, Some(scaled.clone()));
    assert_eq!(action, Action::Detect { image: scaled });
    assert_eq!(stage, Stage::Detecting { frame, pixels: 8 });
}

#[test]
fn failed_detection_drops_the_frame() {
    let settings = Settings::default();
    let frame = rgb_frame(8, 4, 10);
    let (stage, action) = on_masked(&settings, frame.clone(), 8, None);
    assert_eq!(action, Action::Report(FrameError::Detection));
    assert_eq!(stage, Stage::Idle);
    let (_, action) = on_masked(&settings, frame.clone(), 8, Some(vec![255; 7]));
    assert_eq!(action, Action::Report(FrameError::Detection));
    let (_, action) = on_masked(&settings, frame, 8, Some(vec![255; 9]));
    assert_eq!(action, Action::Report(FrameError::Detection));
}

#[test]
fn motion_forwards_the_frame_that_came_in() {
    let settings = Settings { motion_threshold: 3, ..Settings::default() };
    let frame = Frame {
        encoding: Some(Encoding::Rgba8888),
        width: 4,
        height: 2,
        data: (0u8..32).collect(),
    };
    let (stage, action) = on_masked(&settings, frame.clone(), 8, Some(vec![255, 255, 127, 1, 0, 0, 0, 0]));
    assert_eq!(action, Action::Forward(frame.clone()));
    assert_eq!(stage, Stage::Idle);
    let (_, action) = on_masked(&settings, frame, 8, Some(vec![255, 255, 127, 0, 0, 0, 0, 0]));
    assert_eq!(action, Action::Skip);
}

#[test]
fn forwarded_frame_is_full_resolution_and_unmodified() {
    let settings = Settings { target_width: 4, motion_threshold: 5, ..Settings::default() };
    let mut frame = rgb_frame(8, 8, 10);
    for (i, byte) in frame.data.iter_mut().enumerate() {
        *byte = (i % 251) as u8;
    }
    let mut log = Log::default();
    let mut model = |image: &GrayImage| Some(vec![255u8; image.data.len()]);
    drive(&settings, frame.clone(), &mut model, &mut log);
    assert_eq!(log.forwarded, vec![frame]);
    assert!(log.reports.is_empty());
    assert_eq!(log.resizes, vec![(8, 8, 4, 4)]);
    assert_eq!(log.detections.len(), 1);
    assert_eq!((log.detections[0].width, log.detections[0].height), (4, 4));
}

#[test]
fn still_scene_is_quiet_and_a_changed_block_is_motion() {
    let settings = settings_with_width(64);
    let mut model = differencing_model();
    let mut log = Log::default();
    let still = rgb_frame(128, 96, 40);
    for _ in 0..5 {
        drive(&settings, still.clone(), &mut model, &mut log);
    }
    assert_eq!(log.skipped, 5);
    assert!(log.forwarded.is_empty());

    let mut moved = still.clone();
    for y in 10..70usize {
        for x in 20..100usize {
            let at = (y * 128 + x) * 3;
            moved.data[at] = 230;
            moved.data[at + 1] = 230;
            moved.data[at + 2] = 230;
        }
    }
    drive(&settings, moved.clone(), &mut model, &mut log);
    assert_eq!(log.forwarded, vec![moved]);
    assert_eq!(log.skipped, 5);
    assert!(log.reports.is_empty());
    assert_eq!(log.detections.len(), 6);
    assert!(log.resizes.iter().all(|&size| size == (128, 96, 64, 48)));
}

#[test]
fn replaying_a_sequence_gives_the_same_decisions() {
    let settings = settings_with_width(32);
    let mut frames = Vec::new();
    for i in 0..6u8 {
        frames.push(rgb_frame(64, 64, if i % 2 == 0 { 20 } else { 200 }));
    }
    frames.push(Frame { encoding: None, width: 1, height: 1, data: vec![] });
    let mut outcomes = Vec::new();
    for _ in 0..2 {
        let mut model = differencing_model();
        let mut log = Log::default();
        let mut decisions = Vec::new();
        for frame in &frames {
            let before = (log.forwarded.len(), log.skipped, log.reports.len());
            drive(&settings, frame.clone(), &mut model, &mut log);
            let after = (log.forwarded.len(), log.skipped, log.reports.len());
            decisions.push((after.0 - before.0, after.1 - before.1, after.2 - before.2));
        }
        outcomes.push(decisions);
    }
    assert_eq!(outcomes[0], outcomes[1]);
    assert_eq!(outcomes[0][0], (0, 1, 0));
    assert_eq!(outcomes[0][1], (1, 0, 0));
    assert_eq!(outcomes[0][6], (0, 0, 1));
}

#[test]
fn dropped_frames_never_reach_the_model() {
    let settings = settings_with_width(4);
    let mut calls = 0;
    let mut log = Log::default();
    {
        let mut model = |image: &GrayImage| {
            calls += 1;
            Some(vec![255u8; image.data.len()])
        };
        let mut short = rgb_frame(8, 8, 1);
        short.data.truncate(10);
        drive(&settings, short, &mut model, &mut log);
        drive(
            &settings,
            Frame { encoding: None, width: 8, height: 8, data: vec![0; 192] },
            &mut model,
            &mut log,
        );
        drive(
            &settings,
            Frame { encoding: Some(Encoding::Yuv420), width: 0, height: 0, data: vec![] },
            &mut model,
            &mut log,
        );
    }
    assert_eq!(calls, 0);
    assert_eq!(
        log.reports,
        vec![FrameError::SizeMismatch, FrameError::UnsupportedFormat, FrameError::SizeMismatch]
    );
    assert!(log.forwarded.is_empty());
    assert!(log.detections.is_empty());
}

#[test]
fn an_event_that_answers_nothing_is_ignored_when_idle() {
    let settings = Settings::default();
    let (stage, action) = step(&settings, Stage::Idle, Event::Resized(None));
    assert_eq!((stage, action), (Stage::Idle, Action::Skip));
    let (stage, action) = step(&settings, Stage::Idle, Event::Masked(Some(vec![255; 1000])));
    assert_eq!((stage, action), (Stage::Idle, Action::Skip));
}

#[test]
fn an_event_out_of_turn_abandons_the_frame_in_flight() {
    let settings = Settings::default();
    let frame = rgb_frame(2, 2, 0);
    let resizing = Stage::Resizing { frame: frame.clone(), width: 2, height: 2 };
    let (stage, action) = step(&settings, resizing.clone(), Event::Masked(Some(vec![255; 4])));
    assert_eq!((stage, action), (Stage::Idle, Action::Report(FrameError::Resize)));
    let (stage, action) = step(&settings, resizing, Event::Arrived(frame.clone()));
    assert_eq!((stage, action), (Stage::Idle, Action::Report(FrameError::Resize)));
    let detecting = Stage::Detecting { frame: frame.clone(), pixels: 4 };
    let image = GrayImage { width: 2, height: 2, data: vec![0; 4] };
    let (stage, action) = step(&settings, detecting.clone(), Event::Resized(Some(image)));
    assert_eq!((stage, action), (Stage::Idle, Action::Report(FrameError::Detection)));
    let (stage, action) = step(&settings, detecting, Event::Arrived(frame));
    assert_eq!((stage, action), (Stage::Idle, Action::Report(FrameError::Detection)));
}

#[test]
fn yuv_frames_are_scaled_from_their_luma_plane() {
    let settings = settings_with_width(2);
    let mut data = vec![9u8; 16];
    data.extend_from_slice(&[77; 8]);
    let frame = Frame { encoding: Some(Encoding::Yuv420), width: 4, height: 4, data };
    let (stage, action) = on_arrived(&settings, frame.clone());
    assert_eq!(
        action,
        Action::Resize {
            image: GrayImage { width: 4, height: 4, data: vec![9; 16] },
            width: 2,
            height: 2
        }
    );
    assert_eq!(stage, Stage::Resizing { frame, width: 2, height: 2 });
}
