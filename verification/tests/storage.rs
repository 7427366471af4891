use mov_converter::storage::{
    artifact_name_for, artifact_path_for, encoder_program_name, probe_argument_list,
    storage_directory_list, transcode_argument_list, upload_path_for,
};

#[test]
fn uploads_are_stored_under_their_name() {
    assert_eq!(upload_path_for("sample.mov"), "uploads/sample.mov");
    assert_eq!(upload_path_for(""), "uploads/");
}

#[test]
fn artifacts_carry_the_mp4_extension() {
    assert_eq!(artifact_name_for("abc"), "abc.mp4");
    assert_eq!(artifact_path_for("abc.mp4"), "output/abc.mp4");
}

#[test]
fn storage_has_two_directories() {
    assert_eq!(storage_directory_list(), vec!["uploads".to_string(), "output".to_string()]);
}

#[test]
fn encoder_is_ffmpeg() {
    assert_eq!(encoder_program_name(), "ffmpeg");
}

#[test]
fn probe_reads_the_input_only() {
    assert_eq!(probe_argument_list("uploads/sample.mov"), vec!["-i", "uploads/sample.mov"]);
}

#[test]
fn transcode_arguments_are_fixed_around_the_two_paths() {
    assert_eq!(
        transcode_argument_list("uploads/sample.mov", "output/x.mp4"),
        vec![
            "-i",
            "uploads/sample.mov",
            "-vcodec",
            "h264",
            "-acodec",
            "aac",
            "-strict",
            "-2",
            "-f",
            "mp4",
            "-y",
            "output/x.mp4",
        ]
    );
}
