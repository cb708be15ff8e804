use d_scribe::export::srt::ms_to_srt_time;
use d_scribe::export::vtt::ms_to_vtt_time;
use d_scribe::export::{export_srt, export_vtt, parse_format, ExportFormat};
use d_scribe::project::{auto_save_name, is_expired, is_project_extension, ProjectFile};
use d_scribe::session::recorder::{SessionAudioPaths, SessionSegment, SessionState};
use d_scribe::text::{
    chars_of, contains_chars, decimal, padded, replace_chars, text_of, trim_text,
};
use d_scribe::transcription::dispatch::{
    attach_live_texts, choose_backend, pad_texts, plan_segment, push_live_text, result_entry,
    BackendChoice, BatchDispatch, BatchStep, SegmentPlan, StreamSide,
};
use d_scribe::transcription::model_download::{
    list_installed_model_names, model_sources, resolve_model_path,
};
use d_scribe::transcription::remote_api::{
    bearer_key, models_url, use_remote, RemoteTranscriptionConfig,
};
use d_scribe::transcription::wav_extract::extract_segment;
use d_scribe::transcription::whisper_cli::{parse_whisper_output, whisper_args, WhisperCliBackend};

fn seg(start: u64, end: u64, user: &str, name: Option<&str>) -> SessionSegment {
    SessionSegment {
        start_ms: start,
        end_ms: end,
        user_id: user.to_string(),
        speaker_name: name.map(String::from),
    }
}

fn state_with(segments: Vec<SessionSegment>) -> SessionState {
    SessionState {
        session_id: "a:b".to_string(),
        created_at: 1_700_000_000,
        guild_name: None,
        guild_id: None,
        channel_name: None,
        channel_id: None,
        channel_type: None,
        live_mode_enabled: true,
        self_user_id: Some("me".to_string()),
        user_labels: Vec::new(),
        segments,
        transcript_texts: Vec::new(),
        audio_paths: SessionAudioPaths { loopback: None, microphone: None },
    }
}

#[test]
fn subtitle_times() {
    assert_eq!(ms_to_srt_time(0), "00:00:00,000");
    assert_eq!(ms_to_srt_time(3_723_004), "01:02:03,004");
    assert_eq!(ms_to_vtt_time(3_723_004), "01:02:03.004");
    assert_eq!(ms_to_vtt_time(59_999), "00:00:59.999");
    assert_eq!(ms_to_srt_time(360_000_000), "100:00:00,000");
}

#[test]
fn srt_export() {
    let segments = vec![seg(0, 1500, "u1", Some("Alice")), seg(2000, 61_000, "u2", None)];
    let texts = vec!["hello".to_string(), "world".to_string(), "unpaired".to_string()];
    assert_eq!(
        export_srt(&segments, &texts),
        "1\n00:00:00,000 --> 00:00:01,500\n[Alice]: hello\n\n2\n00:00:02,000 --> 00:01:01,000\n[u2]: world\n\n"
    );
    assert_eq!(export_srt(&segments, &Vec::new()), "");
}

#[test]
fn vtt_export() {
    let segments = vec![seg(0, 1500, "u1", Some("Alice")), seg(2000, 61_000, "u2", None)];
    let texts = vec!["hello".to_string()];
    assert_eq!(
        export_vtt(&segments, &texts),
        "WEBVTT\n\n00:00:00.000 --> 00:00:01.500\n[Alice]: hello\n\n"
    );
    assert_eq!(export_vtt(&Vec::new(), &texts), "WEBVTT\n\n");
}

#[test]
fn export_formats() {
    assert_eq!(parse_format(&"srt".to_string()), Some(ExportFormat::Srt));
    assert_eq!(parse_format(&"vtt".to_string()), Some(ExportFormat::Vtt));
    assert_eq!(parse_format(&"SRT".to_string()), None);
}

#[test]
fn text_helpers() {
    assert_eq!(text_of(&decimal(0)), "0");
    assert_eq!(text_of(&decimal(u64::MAX)), u64::MAX.to_string());
    assert_eq!(text_of(&padded(7, 3)), "007");
    assert_eq!(text_of(&padded(1234, 3)), "1234");
    assert_eq!(trim_text(" \t\r\n a b \u{a0}\u{3000}"), "a b");
    assert_eq!(trim_text("   "), "");
    let replaced = replace_chars(&chars_of("aaa-aa"), &chars_of("aa"), &chars_of("b"));
    assert_eq!(text_of(&replaced), "aaa-aa".replace("aa", "b"));
    assert!(contains_chars(&chars_of("abc"), &chars_of("bc")));
    assert!(contains_chars(&chars_of("abc"), &chars_of("")));
    assert!(!contains_chars(&chars_of("abc"), &chars_of("abcd")));
}

#[test]
fn trimming_agrees_with_std() {
    for s in ["", " ", "a", " a", "a ", "\u{85}x\u{2028}", "\u{200b}x", "\u{1680}y\u{205f}"] {
        assert_eq!(trim_text(s), s.trim());
    }
}

#[test]
fn segment_plans() {
    let me = Some("me".to_string());
    assert_eq!(
        plan_segment(&seg(100, 350, "me", None), &me),
        SegmentPlan::Slice { side: StreamSide::Microphone, skip_samples: 1600, take_samples: 4000 }
    );
    assert_eq!(
        plan_segment(&seg(100, 350, "other", None), &me),
        SegmentPlan::Slice { side: StreamSide::Loopback, skip_samples: 1600, take_samples: 4000 }
    );
    assert_eq!(
        plan_segment(&seg(0, 1, "me", None), &None),
        SegmentPlan::Slice { side: StreamSide::Loopback, skip_samples: 0, take_samples: 16 }
    );
    assert_eq!(plan_segment(&seg(5, 5, "me", None), &me), SegmentPlan::Empty);
    assert_eq!(plan_segment(&seg(9, 5, "me", None), &me), SegmentPlan::Empty);
    assert_eq!(
        plan_segment(&seg(u64::MAX - 1, u64::MAX, "x", None), &me),
        SegmentPlan::Slice { side: StreamSide::Loopback, skip_samples: u64::MAX, take_samples: 16 }
    );
}

#[test]
fn backend_choice() {
    assert_eq!(choose_backend(true, true, true), BackendChoice::Remote);
    assert_eq!(choose_backend(false, true, true), BackendChoice::LocalBinary);
    assert_eq!(choose_backend(false, false, true), BackendChoice::Sidecar);
    assert_eq!(choose_backend(false, false, false), BackendChoice::Missing);
}

#[test]
fn failures_become_sentinel_texts() {
    assert_eq!(result_entry(Ok("fine".to_string()), false), "fine");
    assert_eq!(
        result_entry(Err("Whisper failed: bad".to_string()), false),
        "[Transcription error: Whisper failed: bad]"
    );
    assert_eq!(
        result_entry(Err("Failed to run whisper: x".to_string()), true),
        "[Transcription error: Failed to run whisper: x]"
    );
    assert_eq!(
        result_entry(Err("program not found".to_string()), false),
        "[Transcription error: program not found. Download whisper from https://github.com/ggml-org/whisper.cpp/releases, extract whisper-cli.exe, rename to whisper-cli-x86_64-pc-windows-msvc.exe, place in src-tauri/binaries/ (see README there).]"
    );
}

#[test]
fn texts_are_padded_to_the_segment_count() {
    let mut texts = vec!["a".to_string()];
    pad_texts(&mut texts, 3);
    assert_eq!(texts, vec!["a".to_string(), String::new(), String::new()]);
    pad_texts(&mut texts, 2);
    assert_eq!(texts.len(), 3);
    let mut state = state_with(vec![seg(0, 1, "a", None), seg(1, 2, "b", None)]);
    attach_live_texts(&mut state, vec![]);
    assert_eq!(state.transcript_texts, vec![String::new(), String::new()]);
    assert!(state.transcript_texts.len() >= state.segments.len());
    let mut live = Vec::new();
    assert_eq!(push_live_text(&mut live, "x".to_string()), 0);
    assert_eq!(push_live_text(&mut live, "y".to_string()), 1);
    assert_eq!(live, vec!["x".to_string(), "y".to_string()]);
}

#[test]
fn batch_run_keeps_texts_aligned() {
    let segments = vec![
        seg(0, 100, "me", None),
        seg(100, 100, "x", None),
        seg(200, 300, "x", None),
        seg(400, 350, "x", None),
    ];
    let me = Some("me".to_string());
    let mut run = BatchDispatch::begin(vec!["old".to_string()], segments.len());
    assert_eq!(
        run.next(&segments, &me),
        BatchStep::Transcribe {
            index: 0,
            side: StreamSide::Microphone,
            skip_samples: 0,
            take_samples: 1600
        }
    );
    assert!(run.is_waiting());
    run.record(Ok("first".to_string()), false);
    assert_eq!(
        run.next(&segments, &me),
        BatchStep::Transcribe {
            index: 2,
            side: StreamSide::Loopback,
            skip_samples: 3200,
            take_samples: 1600
        }
    );
    run.record(Err("boom".to_string()), false);
    assert_eq!(run.next(&segments, &me), BatchStep::Done);
    assert!(!run.is_waiting());
    let texts = run.finish();
    assert_eq!(
        texts,
        vec![
            "first".to_string(),
            String::new(),
            "[Transcription error: boom]".to_string(),
            String::new()
        ]
    );
}

#[test]
fn whisper_arguments() {
    let args = whisper_args("m.bin", "seg.wav", &Some("en".to_string()), "seg");
    assert_eq!(
        args,
        vec!["-m", "m.bin", "-f", "seg.wav", "-l", "en", "-np", "-nt", "-otxt", "-of", "seg"]
    );
    let args = whisper_args("m.bin", "seg.wav", &None, "seg");
    assert_eq!(args, vec!["-m", "m.bin", "-f", "seg.wav", "-np", "-nt", "-otxt", "-of", "seg"]);
    let backend = WhisperCliBackend::new(Some("m.bin".to_string()), None, Some("no".to_string()));
    assert_eq!(backend.binary(), "main");
    assert_eq!(backend.id(), "whisper-cli");
    assert_eq!(backend.name(), "Whisper (CLI)");
    assert_eq!(
        backend.transcribe_args("a.wav"),
        Ok(vec!["-m", "m.bin", "-f", "a.wav", "-l", "no"].into_iter().map(String::from).collect())
    );
    let bare = WhisperCliBackend::new(None, Some("w".to_string()), None);
    assert_eq!(bare.binary(), "w");
    assert_eq!(bare.transcribe_args("a.wav"), Err("No model path configured".to_string()));
    assert!(bare.segments_from_text(String::new()).is_empty());
    let one = bare.segments_from_text("hi".to_string());
    assert_eq!(one.len(), 1);
    assert_eq!(one[0].text, "hi");
    assert_eq!((one[0].start_ms, one[0].end_ms), (0, 0));
}

#[test]
fn whisper_output_is_cleaned() {
    assert_eq!(parse_whisper_output(""), "");
    assert_eq!(parse_whisper_output("hello\n"), "hello");
    assert_eq!(parse_whisper_output("  hello \r\n\r\n world  \n"), "hello world");
    assert_eq!(
        parse_whisper_output("[00:00:00.000 --> 00:00:02.000]   Hi there\n[00:00:02.000 --> 00:00:03.000]\nplain"),
        "Hi there plain"
    );
    assert_eq!(parse_whisper_output("[note] kept --> as is"), "kept --> as is");
    assert_eq!(parse_whisper_output("[no closing --> bracket"), "");
    assert_eq!(parse_whisper_output("[tag] no arrow"), "[tag] no arrow");
}

#[test]
fn remote_settings() {
    let config = RemoteTranscriptionConfig::new(
        "  http://h/v1/audio  ".to_string(),
        "m".to_string(),
        Some("k".to_string()),
    );
    assert_eq!(config.base_url, "http://h/v1/audio");
    assert_eq!(config.model, "m");
    assert_eq!(config.api_key, Some("k".to_string()));
    let remote = Some("remote".to_string());
    let url = Some("http://h".to_string());
    let model = Some("m".to_string());
    assert!(use_remote(&remote, &url, &model));
    assert!(!use_remote(&Some("local".to_string()), &url, &model));
    assert!(!use_remote(&None, &url, &model));
    assert!(!use_remote(&remote, &Some("  ".to_string()), &model));
    assert!(!use_remote(&remote, &url, &None));
}

#[test]
fn model_list_address() {
    assert_eq!(models_url(" http://h:8000// ", &None), "http://h:8000/v1/models");
    assert_eq!(models_url("http://h", &Some("  ".to_string())), "http://h/v1/models");
    assert_eq!(models_url("http://h/", &Some(" models ".to_string())), "http://h/models");
    assert_eq!(models_url("http://h", &Some("/api/models".to_string())), "http://h/api/models");
    assert_eq!(bearer_key(&Some(" key ".to_string())), Some("key".to_string()));
    assert_eq!(bearer_key(&Some("  ".to_string())), None);
    assert_eq!(bearer_key(&None), None);
}

#[test]
fn slices_are_cut_from_canonical_streams() {
    let samples: Vec<i16> = (0..100).collect();
    assert_eq!(extract_segment(&samples, 16000, 1, 16, 1, 3), Ok((16..48).collect()));
    assert_eq!(extract_segment(&samples, 16000, 1, 16, 5, 9), Ok((80..100).collect()));
    assert_eq!(extract_segment(&samples, 16000, 1, 16, 7, 9), Ok(Vec::new()));
    assert_eq!(extract_segment(&samples, 16000, 1, 16, 3, 2), Ok(Vec::new()));
    assert_eq!(extract_segment(&samples, 16000, 1, 16, u64::MAX, u64::MAX), Ok(Vec::new()));
    assert_eq!(extract_segment(&samples, 16000, 1, 16, 0, u64::MAX), Ok(samples.clone()));
    assert_eq!(
        extract_segment(&samples, 44100, 2, 24, 0, 1),
        Err("Expected 16kHz mono 16-bit, got 44100Hz 2ch 24bit".to_string())
    );
}

#[test]
fn model_catalogue() {
    assert_eq!(model_sources().len(), 15);
    assert_eq!(resolve_model_path(&"base.en".to_string()), Some("ggml-base.en.bin".to_string()));
    assert_eq!(resolve_model_path(&"small.en".to_string()), Some("ggml-small.bin".to_string()));
    assert_eq!(
        resolve_model_path(&"nb-whisper-large".to_string()),
        Some("nb-whisper-large.bin".to_string())
    );
    assert_eq!(resolve_model_path(&"huge".to_string()), None);
    let files: Vec<String> =
        ["notes.txt", "ggml-small.bin", "nb-whisper-base.bin", "other.bin", "ggml-tiny.bin"]
            .iter()
            .map(|s| s.to_string())
            .collect();
    assert_eq!(list_installed_model_names(&files), vec!["small.en", "nb-whisper-base", "tiny"]);
}

#[test]
fn project_files() {
    let state = state_with(vec![seg(0, 1, "a", None)]);
    assert_eq!(auto_save_name(&state), "a_b_1700000000.json");
    let file = ProjectFile::from_state(state);
    assert_eq!(file.session_id, "a:b");
    assert_eq!(file.segments.len(), 1);
    let back = file.into_state();
    assert_eq!(back.created_at, 1_700_000_000);
    assert!(back.live_mode_enabled);
    assert!(is_expired(Some(9), 10));
    assert!(!is_expired(Some(10), 10));
    assert!(!is_expired(None, 10));
    assert!(is_project_extension(&"json".to_string()));
    assert!(is_project_extension(&"dscribe".to_string()));
    assert!(!is_project_extension(&"txt".to_string()));
}
