use mov_converter::classify::{classify, get_user_friendly_error, rule, standard_rule_table};
use mov_converter::validate::is_rejected_by_probe;

#[test]
fn missing_stream_is_reported_as_corrupted_input() {
    let message = get_user_friendly_error("Output file does not contain any stream");
    assert_eq!(
        message,
        "The input file appears to be corrupted or doesn't contain valid video/audio streams"
    );
}

#[test]
fn invalid_data_is_reported_as_corruption() {
    let message =
        get_user_friendly_error("uploads/a.mov: Invalid data found when processing input");
    assert_eq!(message, "The file contains invalid data or is corrupted");
}

#[test]
fn missing_file_is_reported_as_installation_problem() {
    let message = get_user_friendly_error("uploads/a.mov: No such file or directory");
    assert_eq!(
        message,
        "FFmpeg failed to access the file. Make sure FFmpeg is properly installed."
    );
}

#[test]
fn invalid_argument_is_reported() {
    let message = get_user_friendly_error("Error opening output: Invalid argument");
    assert_eq!(message, "Invalid arguments passed to FFmpeg. The file might be corrupted.");
}

#[test]
fn unknown_diagnostic_is_passed_on_behind_the_prefix() {
    let message = get_user_friendly_error("Unknown encoder 'h264'");
    assert_eq!(message, "Conversion failed: Unknown encoder 'h264'");
}

#[test]
fn empty_diagnostic_still_gives_a_message() {
    assert_eq!(get_user_friendly_error(""), "Conversion failed: ");
}

#[test]
fn first_matching_rule_wins() {
    let both = "Invalid argument\nInvalid data found when processing input";
    assert_eq!(get_user_friendly_error(both), "The file contains invalid data or is corrupted");
    let all = "Invalid argument; No such file or directory; Invalid data found; \
               Output file does not contain any stream";
    assert_eq!(
        get_user_friendly_error(all),
        "The input file appears to be corrupted or doesn't contain valid video/audio streams"
    );
    let last_two = "Invalid argument: No such file or directory";
    assert_eq!(
        get_user_friendly_error(last_two),
        "FFmpeg failed to access the file. Make sure FFmpeg is properly installed."
    );
}

#[test]
fn matching_is_case_sensitive() {
    assert_eq!(
        get_user_friendly_error("invalid data found"),
        "Conversion failed: invalid data found"
    );
}

#[test]
fn a_signature_cut_short_does_not_match() {
    assert_eq!(get_user_friendly_error("Invalid argumen"), "Conversion failed: Invalid argumen");
}

#[test]
fn classifying_twice_gives_the_same_message() {
    let texts = [
        "",
        "Invalid data found",
        "No such file or directory",
        "something else entirely",
        "Output file does not contain any stream",
    ];
    for text in texts {
        assert_eq!(get_user_friendly_error(text), get_user_friendly_error(text));
    }
}

#[test]
fn standard_table_has_the_four_rules_in_order() {
    let table = standard_rule_table();
    let signatures: Vec<&str> = table.iter().map(|r| r.signature.as_str()).collect();
    assert_eq!(
        signatures,
        vec![
            "Output file does not contain any stream",
            "Invalid data found",
            "No such file or directory",
            "Invalid argument",
        ]
    );
    assert_eq!(table[1].message, "The file contains invalid data or is corrupted");
}

#[test]
fn custom_table_is_matched_in_order() {
    let table =
        vec![rule("disk full", "The server ran out of space"), rule("disk", "Disk trouble")];
    assert_eq!(classify(&table, "write failed: disk full"), "The server ran out of space");
    assert_eq!(classify(&table, "disk error"), "Disk trouble");
    assert_eq!(classify(&table, "timeout"), "Conversion failed: timeout");
}

#[test]
fn empty_table_always_falls_back() {
    assert_eq!(
        classify(&Vec::new(), "Invalid data found"),
        "Conversion failed: Invalid data found"
    );
}

#[test]
fn empty_signature_matches_every_text() {
    let table = vec![rule("", "anything")];
    assert_eq!(classify(&table, ""), "anything");
    assert_eq!(classify(&table, "abc"), "anything");
}

#[test]
fn probe_rejects_on_either_signature() {
    assert!(is_rejected_by_probe("garbage.bin: Invalid data found when processing input"));
    assert!(is_rejected_by_probe("Output file #0 does not contain any stream"));
    assert!(is_rejected_by_probe("Invalid data found; does not contain any stream"));
}

#[test]
fn probe_accepts_ordinary_diagnostics() {
    assert!(!is_rejected_by_probe(""));
    assert!(!is_rejected_by_probe("Input #0, mov,mp4,m4a,3gp,3g2,mj2, from 'uploads/sample.mov':"));
    assert!(!is_rejected_by_probe("At least one output file must be specified"));
    assert!(!is_rejected_by_probe("invalid data found"));
    assert!(!is_rejected_by_probe("Invalid data"));
}

#[test]
fn non_ascii_diagnostics_are_searched_by_character() {
    assert!(is_rejected_by_probe("vid\u{e9}o.mov: Invalid data found"));
    assert_eq!(
        get_user_friendly_error("vid\u{e9}o.mov: erreur"),
        "Conversion failed: vid\u{e9}o.mov: erreur"
    );
}
