use std::sync::Arc;

use render_watch::blender::{exit_event, get_arguments, parse_line, Correlator, ParseResult};
use render_watch::{RunError, RunnerOptions, StatusUpdate};

#[test]
fn test_blank_line() {
    let line = "\n";
    assert_eq!(parse_line(line), Ok(ParseResult::NoMatch));
}

#[test]
fn test_current_line() {
    let line = "Fra:0 Mem:16.36M (0.00M, Peak 16.37M) | Time:00:00.02 | Mem:0.00M, Peak:0.00M | Scene, RenderLayer | Synchronizing object | Cube\n";
    assert_eq!(parse_line(line), Ok(ParseResult::CurrentFrame(0)));
}

#[test]
fn test_current_line_alt() {
    let line = "Fra:264 Mem:18.47M (0.00M, Peak 34.43M) | Time:00:00.64 | Remaining:00:01.12 | Mem:1.87M, Peak:2.01M | Scene, RenderLayer | Path Tracing Tile 41/135\n";
    assert_eq!(parse_line(line), Ok(ParseResult::CurrentFrame(264)));
}

#[test]
fn test_saved_frame_line() {
    let line = "Saved: '/path/to/project/frames/0000.png'\n";
    assert_eq!(parse_line(line), Ok(ParseResult::SavedFrame(0)));
}

#[test]
fn test_saved_frame_line_alt() {
    let line = "Saved: '/path/to/project/frames/0058.png'\n";
    assert_eq!(parse_line(line), Ok(ParseResult::SavedFrame(58)));
}

#[test]
fn test_render_time() {
    // 2.19 sec == 2_190 ms
    let line = " Time: 00:02.19 (Saving: 00:00.09)\n";
    assert_eq!(parse_line(line), Ok(ParseResult::FrameRenderTime(2_190)));
}

#[test]
fn test_render_time_longer() {
    // 8 min, 53.97 sec == 480_000 ms + 53_970 ms == 533_970 ms
    let line = " Time: 08:53.97 (Saving: 00:00.09)\n";
    assert_eq!(parse_line(line), Ok(ParseResult::FrameRenderTime(533_970)));
}

#[test]
fn test_render_time_without_leading_space() {
    let line = "Time: 01:00.00\n";
    assert_eq!(parse_line(line), Ok(ParseResult::FrameRenderTime(60_000)));
}

#[test]
fn test_current_frame_priority_over_time() {
    // A current-frame line also contains "Time:", but the first rule wins.
    let line = "Fra:7 Mem:1.0M | Time:00:00.10\n";
    assert_eq!(parse_line(line), Ok(ParseResult::CurrentFrame(7)));
}

#[test]
fn test_saved_frame_leftmost_digit_run() {
    // Two digit runs precede ".png" occurrences; the leftmost one counts.
    let line = "Saved: 'a12.png b34.png'\n";
    assert_eq!(parse_line(line), Ok(ParseResult::SavedFrame(12)));
}

#[test]
fn test_saved_frame_requires_digits() {
    let line = "Saved: 'frames/final.png'\n";
    assert_eq!(parse_line(line), Ok(ParseResult::NoMatch));
}

#[test]
fn test_unrelated_line() {
    let line = "Blender 2.79 (sub 0)\n";
    assert_eq!(parse_line(line), Ok(ParseResult::NoMatch));
}

#[test]
fn test_current_frame_overflow_is_malformed() {
    let line = "Fra:99999999999999 Mem:1.0M\n";
    assert_eq!(parse_line(line), Err(RunError::MalformedOutput));
}

#[test]
fn test_saved_frame_overflow_is_malformed() {
    let line = "Saved: '/x/99999999999999.png'\n";
    assert_eq!(parse_line(line), Err(RunError::MalformedOutput));
}

#[test]
fn test_correlator_pairs_in_order() {
    let mut correlator = Correlator::new();
    let mut events: Vec<StatusUpdate> = Vec::new();
    let inputs = vec![
        ParseResult::CurrentFrame(1),
        ParseResult::SavedFrame(1),
        ParseResult::FrameRenderTime(1_000),
        ParseResult::NoMatch,
        ParseResult::SavedFrame(2),
        ParseResult::FrameRenderTime(2_500),
    ];
    for input in inputs {
        if let Some(event) = correlator.step(input).unwrap() {
            events.push(event);
        }
    }
    assert_eq!(
        events,
        vec![
            StatusUpdate::RenderedFrame { frame_number: 1, render_time: 1_000 },
            StatusUpdate::RenderedFrame { frame_number: 2, render_time: 2_500 },
        ]
    );
}

#[test]
fn test_correlator_violation_when_idle() {
    let mut correlator = Correlator::new();
    assert_eq!(
        correlator.step(ParseResult::FrameRenderTime(500)),
        Err(RunError::CorrelationViolation)
    );
}

#[test]
fn test_correlator_overwrites_pending_frame() {
    let mut correlator = Correlator::new();
    assert_eq!(correlator.step(ParseResult::SavedFrame(4)), Ok(None));
    assert_eq!(correlator.step(ParseResult::SavedFrame(5)), Ok(None));
    assert_eq!(
        correlator.step(ParseResult::FrameRenderTime(700)),
        Ok(Some(StatusUpdate::RenderedFrame { frame_number: 5, render_time: 700 }))
    );
}

#[test]
fn test_exit_event_zero_finishes() {
    assert_eq!(exit_event(Some(0)), Ok(StatusUpdate::Finished));
}

#[test]
fn test_exit_event_nonzero_fails() {
    assert_eq!(exit_event(Some(11)), Err(RunError::SubprocessFailure(11)));
}

#[test]
fn test_exit_event_signal_fails() {
    assert_eq!(exit_event(None), Err(RunError::SubprocessSignal));
}

#[test]
fn test_get_arguments() {
    let options = Arc::new(RunnerOptions {
        input_file: "scene.blend".to_string(),
        output_dir: "/tmp/frames/".to_string(),
        frame_start: 1,
        frame_end: 250,
    });
    let args = get_arguments(options);
    assert_eq!(
        args,
        vec![
            "--background".to_string(),
            "scene.blend".to_string(),
            "--render-output".to_string(),
            "/tmp/frames/".to_string(),
            "--frame-start".to_string(),
            "1".to_string(),
            "--frame-end".to_string(),
            "250".to_string(),
            "--render-anim".to_string(),
            "--render-format".to_string(),
            "PNG".to_string(),
            "--use-extension".to_string(),
        ]
    );
}

#[test]
fn test_run_to_completion() {
    // Three frames are saved and timed in order, then the job exits cleanly:
    // exactly three RenderedFrame events come out, in order, and Finished
    // only once the zero exit code is observed.
    let lines = vec![
        "Fra:1 Mem:16.36M | Rendering\n".to_string(),
        "Saved: '/tmp/frames/0001.png'\n".to_string(),
        " Time: 00:01.00 (Saving: 00:00.01)\n".to_string(),
        "Fra:2 Mem:16.36M | Rendering\n".to_string(),
        "Saved: '/tmp/frames/0002.png'\n".to_string(),
        " Time: 00:02.00 (Saving: 00:00.01)\n".to_string(),
        "Fra:3 Mem:16.36M | Rendering\n".to_string(),
        "Saved: '/tmp/frames/0003.png'\n".to_string(),
        " Time: 00:03.00 (Saving: 00:00.01)\n".to_string(),
    ];
    let mut correlator = Correlator::new();
    let mut events: Vec<StatusUpdate> = vec![StatusUpdate::Started];
    for line in &lines {
        if let Some(event) = correlator.process_line(line).unwrap() {
            events.push(event);
        }
    }
    events.push(exit_event(Some(0)).unwrap());
    assert_eq!(
        events,
        vec![
            StatusUpdate::Started,
            StatusUpdate::RenderedFrame { frame_number: 1, render_time: 1_000 },
            StatusUpdate::RenderedFrame { frame_number: 2, render_time: 2_000 },
            StatusUpdate::RenderedFrame { frame_number: 3, render_time: 3_000 },
            StatusUpdate::Finished,
        ]
    );
}
