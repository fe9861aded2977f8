use render_watch::status::{
    average_line, calc_average_render_time, elapsed_line, elapsed_ms, finished_line,
    format_duration, format_time, progress_bar, range_line, rendered_line, started_line,
    summary_average_line, summary_finished_line, summary_line, summary_started_line, DisplayState,
};
use render_watch::{RunnerOptions, StatusUpdate};

#[test]
fn test_format_duration_seconds() {
    assert_eq!(format_duration(0_228), "0.2s");
    assert_eq!(format_duration(4_536), "4.5s");
}

#[test]
fn test_format_duration_seconds_rounding() {
    assert_eq!(format_duration(4_576), "4.6s");
}

#[test]
fn test_format_duration_minutes() {
    // == (4 * 60000) + (23 * 1000) + 700
    assert_eq!(format_duration(263_700), "4m 23.7s");

    // == (35 * 60000) + (18 * 1000) + 300
    assert_eq!(format_duration(2_118_300), "35m 18.3s");
}

#[test]
fn test_format_duration_hours() {
    // Note the dropped precision on seconds
    // == (5 * 3600000) + (56 * 60000) + (29 * 1000) + 300
    assert_eq!(format_duration(21_389_300), "5h 56m 29s");
}

#[test]
fn test_format_duration_hours_multiple_days() {
    // Note how we stay on hours instead of showing days
    // == (27 * 3600000) + (32 * 60000) + (6 * 1000) + 400
    assert_eq!(format_duration(99_126_400), "27h 32m 6s");
}

#[test]
fn test_average_render_time_empty() {
    let render_times: Vec<u32> = Vec::new();
    assert_eq!(calc_average_render_time(&render_times), 0);
}

#[test]
fn test_average_render_time_rounds_half_up() {
    assert_eq!(calc_average_render_time(&vec![1_000, 2_000]), 1_500);
    // 7 / 3 rounds down to 2.
    assert_eq!(calc_average_render_time(&vec![2, 2, 3]), 2);
    // 3 / 2 rounds up to 2.
    assert_eq!(calc_average_render_time(&vec![1, 2]), 2);
}

#[test]
fn test_progress_bar_empty() {
    assert_eq!(
        progress_bar(0, 3),
        "[                                ] (0%)"
    );
}

#[test]
fn test_progress_bar_half() {
    assert_eq!(
        progress_bar(1, 2),
        "[ ###############                ] (50%)"
    );
}

#[test]
fn test_progress_bar_full() {
    assert_eq!(
        progress_bar(3, 3),
        "[ ############################## ] (100%)"
    );
}

#[test]
fn test_format_time_absent() {
    assert_eq!(format_time(None), "---");
}

#[test]
fn test_format_time_present_is_nonempty() {
    // The text depends on the machine's time zone; only presence is checked.
    assert!(!format_time(Some(0)).is_empty());
}

#[test]
fn test_elapsed_ms() {
    assert_eq!(elapsed_ms(1_000, 4_500), 3_500);
    assert_eq!(elapsed_ms(4_500, 1_000), 0);
    assert_eq!(elapsed_ms(0, 10_000_000_000), u32::MAX);
}

#[test]
fn test_dashboard_run() {
    let options = RunnerOptions {
        input_file: "scene.blend".to_string(),
        output_dir: "/tmp/frames/".to_string(),
        frame_start: 1,
        frame_end: 3,
    };
    let mut state = DisplayState::new(&options);
    assert_eq!(state.frames_to_render, 3);
    assert_eq!(state.frames_rendered(), 0);
    assert_eq!(state.frames_remaining(), 3);
    assert_eq!(state.average_render_time(), 0);

    state.apply_update(StatusUpdate::Started, 10_000);
    assert_eq!(state.time_start, Some(10_000));

    state.apply_update(
        StatusUpdate::RenderedFrame { frame_number: 1, render_time: 1_000 },
        11_000,
    );
    state.apply_update(
        StatusUpdate::RenderedFrame { frame_number: 2, render_time: 2_000 },
        13_000,
    );
    state.apply_update(
        StatusUpdate::RenderedFrame { frame_number: 3, render_time: 3_000 },
        16_000,
    );
    assert_eq!(state.frames_rendered(), 3);
    assert_eq!(state.frames_remaining(), 0);
    assert_eq!(state.average_render_time(), 2_000);

    state.apply_update(StatusUpdate::Finished, 16_500);
    assert_eq!(state.time_end, Some(16_500));
    assert_eq!(elapsed_ms(state.time_start.unwrap(), state.time_end.unwrap()), 6_500);
}

#[test]
fn test_dashboard_lines() {
    assert_eq!(started_line("Jan 1, 9:00am"), "Started at Jan 1, 9:00am");
    assert_eq!(range_line(1, 250), "Rendering frames 1 through 250");
    assert_eq!(rendered_line(4, 6), "Rendered 4 frames, 6 remaining");
    assert_eq!(elapsed_line(4_536), "Total time elapsed: 4.5s");
    assert_eq!(average_line(263_700), "Average frame render time: 4m 23.7s");
    assert_eq!(finished_line("Jan 1, 9:05am"), "Finished at Jan 1, 9:05am");
}

#[test]
fn test_summary_lines() {
    assert_eq!(summary_line(3, 4_536), "Rendered 3 frames in 4.5s");
    assert_eq!(summary_started_line("Jan 1, 9:00am"), "  Started:  Jan 1, 9:00am");
    assert_eq!(summary_finished_line("Jan 1, 9:05am"), "  Finished: Jan 1, 9:05am");
    assert_eq!(summary_average_line(1_512), "  Average frame render time: 1.5s");
}
