use video_service::command::{
    action_for, encode_command, flash_copy_path, probe_command, rendition_path, scale_filter,
    snapshot_command, thumbnail_path, Action, ToolOutcome,
};
use video_service::plan::Step;

fn strings(words: &[&str]) -> Vec<String> {
    words.iter().map(|word| word.to_string()).collect()
}

#[test]
fn output_files_are_named_after_the_source() {
    assert_eq!(rendition_path("/data/v1", 480), "/data/v1_480p.mp4");
    assert_eq!(rendition_path("/data/v1", 1080), "/data/v1_1080p.mp4");
    assert_eq!(rendition_path("clip.mov", 300), "clip.mov_300p.mp4");
    assert_eq!(rendition_path("", 0), "_0p.mp4");
    assert_eq!(flash_copy_path("/data/v1"), "/data/v1_720p.mp4");
    assert_eq!(thumbnail_path("/data/v1"), "/data/v1.jpg");
}

#[test]
fn scale_filter_fixes_the_height_and_keeps_the_width_even() {
    assert_eq!(scale_filter(720), "scale=-2:720");
    assert_eq!(scale_filter(300), "scale=-2:300");
    assert_eq!(scale_filter(2160), "scale=-2:2160");
}

#[test]
fn probe_command_asks_for_width_and_height_of_the_first_stream() {
    let command = probe_command("/data/v1");
    assert_eq!(command.program, "ffprobe");
    assert_eq!(
        command.arguments,
        strings(&[
            "-v",
            "error",
            "-select_streams",
            "v:0",
            "-show_entries",
            "stream=width,height",
            "-of",
            "csv=s=x:p=0",
            "/data/v1",
        ])
    );
}

#[test]
fn encode_command_uses_fixed_quality_and_speed() {
    let command = encode_command("/data/v1", "/data/v1_720p.mp4", 720);
    assert_eq!(command.program, "ffmpeg");
    assert_eq!(
        command.arguments,
        strings(&[
            "-i",
            "/data/v1",
            "-vf",
            "scale=-2:720",
            "-vcodec",
            "libx264",
            "-crf",
            "28",
            "-preset",
            "faster",
            "-y",
            "/data/v1_720p.mp4",
        ])
    );
}

#[test]
fn snapshot_command_takes_one_frame_one_second_in() {
    let command = snapshot_command("/data/v1", "/data/v1.jpg");
    assert_eq!(command.program, "ffmpeg");
    assert_eq!(
        command.arguments,
        strings(&[
            "-i",
            "/data/v1",
            "-ss",
            "00:00:01",
            "-vframes",
            "1",
            "-q:v",
            "2",
            "-y",
            "/data/v1.jpg",
        ])
    );
}

#[test]
fn each_step_has_its_action() {
    assert_eq!(
        action_for("v1", Step::Encode(480)),
        Action::Encode { input: "v1".to_string(), output: "v1_480p.mp4".to_string(), height: 480 }
    );
    assert_eq!(
        action_for("v1", Step::Copy),
        Action::Copy { from: "v1".to_string(), to: "v1_720p.mp4".to_string() }
    );
    assert_eq!(
        action_for("v1", Step::Thumbnail),
        Action::Snapshot { input: "v1".to_string(), output: "v1.jpg".to_string() }
    );
}

#[test]
fn actions_carried_out_by_a_tool_have_a_command_line() {
    let probe = Action::Probe { path: "v1".to_string() };
    assert_eq!(probe.invocation(), Some(probe_command("v1")));
    let encode = action_for("v1", Step::Encode(1080));
    assert_eq!(encode.invocation(), Some(encode_command("v1", "v1_1080p.mp4", 1080)));
    let snapshot = action_for("v1", Step::Thumbnail);
    assert_eq!(snapshot.invocation(), Some(snapshot_command("v1", "v1.jpg")));
    assert_eq!(action_for("v1", Step::Copy).invocation(), None);
    assert_eq!(Action::Done.invocation(), None);
}

#[test]
fn outcomes_say_how_an_action_went() {
    assert_eq!(
        ToolOutcome::succeeded("1920x1080".to_string()),
        ToolOutcome { success: true, output: "1920x1080".to_string(), detail: String::new() }
    );
    assert_eq!(
        ToolOutcome::failed("exit status: 1".to_string()),
        ToolOutcome { success: false, output: String::new(), detail: "exit status: 1".to_string() }
    );
}
