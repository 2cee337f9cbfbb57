//! Transcript assembly and surfacing, text trimming, and the file layout for
//! configuration and model assets.

use tuxtalk::paths::{
    config_path_under, download_command, get_config_path, get_model_path, model_dir_under,
    model_path_under,
};
use tuxtalk::text::{find_char, trim_leading_blanks, trim_text};
use tuxtalk::transcript::{assemble_transcript, surfaced_transcript};

#[test]
fn transcript_joins_segments_with_newlines() {
    let segments = vec!["hello".to_string(), "world".to_string()];
    assert_eq!(assemble_transcript(&segments), "hello\nworld\n");
    let none: Vec<String> = Vec::new();
    assert_eq!(assemble_transcript(&none), "");
}

#[test]
fn blank_transcripts_are_not_surfaced() {
    assert_eq!(surfaced_transcript("  \t \n \r\n"), None);
    assert_eq!(surfaced_transcript(""), None);
}

#[test]
fn recognized_text_is_surfaced_trimmed() {
    assert_eq!(surfaced_transcript(" turn on the lights\n"), Some("turn on the lights".to_string()));
}

#[test]
fn trimming_removes_ends_only() {
    assert_eq!(trim_text("  a b \n"), "a b");
    assert_eq!(trim_text("a"), "a");
    assert_eq!(trim_text(" \t\r\n"), "");
    assert_eq!(trim_leading_blanks(" \t on"), "on");
    assert_eq!(trim_leading_blanks("\non"), "\non");
}

#[test]
fn find_char_reports_the_first_occurrence() {
    assert_eq!(find_char("a[b[c", '['), Some(1));
    assert_eq!(find_char("abc", '['), None);
}

#[test]
fn configuration_and_model_paths_follow_the_layout() {
    assert_eq!(
        config_path_under("/home/tux/.config"),
        "/home/tux/.config/tuxtalk/config.toml"
    );
    assert_eq!(model_dir_under("/home/tux/.config"), "/home/tux/.config/tuxtalk/models");
    assert_eq!(
        model_path_under("/home/tux/.config", "base.en"),
        "/home/tux/.config/tuxtalk/models/ggml-base.en.bin"
    );
}

#[test]
fn resolved_paths_end_in_the_expected_files() {
    assert!(get_config_path().ends_with("/tuxtalk/config.toml"));
    if let Some(path) = get_model_path("tiny") {
        assert!(path.ends_with("/tuxtalk/models/ggml-tiny.bin"));
    }
}

#[test]
fn download_command_names_model_and_target() {
    assert_eq!(
        download_command("/m/ggml-tiny.bin", "tiny"),
        "curl -L -o /m/ggml-tiny.bin https://huggingface.co/ggerganov/whisper.cpp/resolve/main/ggml-tiny.bin"
    );
}
