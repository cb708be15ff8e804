use d_scribe::labels::UserLabel;
use d_scribe::session::clock::{
    flush_pending_now, format_project_name_now, record_speaking_event_now, start_recording_now,
    stop_recording_now, stop_session_now,
};
use d_scribe::session::naming::{format_project_name, format_session_id, SessionStamp};
use d_scribe::session::orchestrator::{recording_options, start_recording, stop_recording};
use d_scribe::session::recorder::{
    clear_live_segment_tx, elapsed_ms_since, flush_pending_if_elapsed, record_speaking_event,
    set_live_segment_tx, start_session, stop_session, Recorder, SessionAudioPaths,
    SessionSegment, SessionState,
};
use d_scribe::discord_rpc::events::ChannelInfo;

const T0: u64 = 50_000;

fn labels() -> Vec<UserLabel> {
    vec![UserLabel { user_id: "A".to_string(), label: "Alice".to_string() }]
}

fn begin(merge_buffer_ms: u64) -> Recorder {
    let mut recorder = Recorder::new();
    start_session(
        &mut recorder,
        Some("Guild".to_string()),
        Some("g1".to_string()),
        Some("General".to_string()),
        Some("c1".to_string()),
        Some(2),
        Some("me".to_string()),
        labels(),
        merge_buffer_ms,
        String::new(),
        false,
        T0,
    );
    recorder
}

fn start(recorder: &mut Recorder, user: &str, at: u64) -> Vec<SessionSegment> {
    record_speaking_event(recorder, true, user.to_string(), T0 + at)
}

fn stop(recorder: &mut Recorder, user: &str, at: u64) -> Vec<SessionSegment> {
    record_speaking_event(recorder, false, user.to_string(), T0 + at)
}

fn stamp() -> SessionStamp {
    SessionStamp {
        timestamp: "1700000000".to_string(),
        date: "2023-11-14".to_string(),
        time: "22-13-20".to_string(),
    }
}

fn paths() -> SessionAudioPaths {
    SessionAudioPaths {
        loopback: Some("out.wav".to_string()),
        microphone: Some("mic.wav".to_string()),
    }
}

fn finish(recorder: &mut Recorder, at: u64) -> SessionState {
    stop_session(recorder, paths(), T0 + at, &stamp()).expect("a session is active")
}

fn spans(segments: &[SessionSegment]) -> Vec<(u64, u64, String)> {
    segments.iter().map(|s| (s.start_ms, s.end_ms, s.user_id.clone())).collect()
}

fn span(start: u64, end: u64, user: &str) -> (u64, u64, String) {
    (start, end, user.to_string())
}

#[test]
fn simple_merge() {
    let mut r = begin(1000);
    start(&mut r, "A", 0);
    stop(&mut r, "A", 500);
    start(&mut r, "A", 1200);
    stop(&mut r, "A", 2000);
    let state = finish(&mut r, 2500);
    assert_eq!(spans(&state.segments), vec![span(0, 2000, "A")]);
}

#[test]
fn split_on_long_gap() {
    let mut r = begin(1000);
    start(&mut r, "A", 0);
    stop(&mut r, "A", 500);
    start(&mut r, "A", 2000);
    stop(&mut r, "A", 3000);
    let state = finish(&mut r, 3000);
    assert_eq!(spans(&state.segments), vec![span(0, 500, "A"), span(2000, 3000, "A")]);
}

#[test]
fn overlapping_speakers() {
    let mut r = begin(1000);
    start(&mut r, "A", 0);
    start(&mut r, "B", 200);
    stop(&mut r, "A", 800);
    stop(&mut r, "B", 1000);
    let state = finish(&mut r, 1500);
    let got = spans(&state.segments);
    assert_eq!(got.len(), 2);
    assert!(got.contains(&span(0, 800, "A")));
    assert!(got.contains(&span(200, 1000, "B")));
}

#[test]
fn pending_flushed_by_speaker_switch() {
    let mut r = begin(1000);
    start(&mut r, "A", 0);
    stop(&mut r, "A", 100);
    assert_eq!(r.pending_count(), 1);
    start(&mut r, "B", 300);
    assert_eq!(spans(&r.segments()), vec![span(0, 100, "A")]);
    assert_eq!(r.pending_count(), 0);
    assert_eq!(r.open_count(), 1);
    assert_eq!(r.open_start(&"B".to_string()), Some(300));
    assert_eq!(r.open_start(&"A".to_string()), None);
}

#[test]
fn merge_at_exactly_the_buffer() {
    let mut r = begin(1000);
    start(&mut r, "A", 0);
    stop(&mut r, "A", 500);
    start(&mut r, "A", 1500);
    stop(&mut r, "A", 1800);
    let state = finish(&mut r, 2000);
    assert_eq!(spans(&state.segments), vec![span(0, 1800, "A")]);
}

#[test]
fn split_one_past_the_buffer() {
    let mut r = begin(1000);
    start(&mut r, "A", 0);
    stop(&mut r, "A", 500);
    start(&mut r, "A", 1501);
    stop(&mut r, "A", 1800);
    let state = finish(&mut r, 2000);
    assert_eq!(spans(&state.segments), vec![span(0, 500, "A"), span(1501, 1800, "A")]);
}

#[test]
fn zero_merge_buffer_counts_as_one_millisecond() {
    let mut r = begin(0);
    start(&mut r, "A", 0);
    stop(&mut r, "A", 10);
    start(&mut r, "A", 11);
    stop(&mut r, "A", 20);
    start(&mut r, "A", 22);
    stop(&mut r, "A", 30);
    let state = finish(&mut r, 40);
    assert_eq!(spans(&state.segments), vec![span(0, 20, "A"), span(22, 30, "A")]);
}

#[test]
fn duplicate_start_is_ignored() {
    let mut r = begin(1000);
    start(&mut r, "A", 0);
    start(&mut r, "A", 400);
    assert_eq!(r.open_count(), 1);
    assert_eq!(r.open_start(&"A".to_string()), Some(0));
    stop(&mut r, "A", 900);
    let state = finish(&mut r, 1000);
    assert_eq!(spans(&state.segments), vec![span(0, 900, "A")]);
}

#[test]
fn duplicate_start_does_not_flush_others() {
    let mut r = begin(1000);
    start(&mut r, "A", 0);
    start(&mut r, "B", 10);
    stop(&mut r, "B", 20);
    start(&mut r, "A", 30);
    assert_eq!(r.pending_count(), 1);
    assert!(r.segments().is_empty());
    start(&mut r, "C", 40);
    assert_eq!(spans(&r.segments()), vec![span(10, 20, "B")]);
}

#[test]
fn stop_of_unknown_user_is_ignored() {
    let mut r = begin(1000);
    stop(&mut r, "Z", 100);
    assert_eq!(r.open_count(), 0);
    assert_eq!(r.pending_count(), 0);
    assert!(finish(&mut r, 200).segments.is_empty());
}

#[test]
fn second_stop_extends_pending() {
    let mut r = begin(1000);
    start(&mut r, "A", 0);
    stop(&mut r, "A", 100);
    stop(&mut r, "A", 250);
    assert_eq!(r.pending_count(), 1);
    let state = finish(&mut r, 300);
    assert_eq!(spans(&state.segments), vec![span(0, 250, "A")]);
}

#[test]
fn periodic_flush_finalizes_after_the_buffer() {
    let mut r = begin(1000);
    start(&mut r, "A", 0);
    stop(&mut r, "A", 500);
    flush_pending_if_elapsed(&mut r, T0 + 1499);
    assert_eq!(r.pending_count(), 1);
    assert!(r.segments().is_empty());
    flush_pending_if_elapsed(&mut r, T0 + 1500);
    assert_eq!(r.pending_count(), 0);
    assert_eq!(spans(&r.segments()), vec![span(0, 500, "A")]);
}

#[test]
fn stop_session_closes_open_utterances_at_now() {
    let mut r = begin(1000);
    start(&mut r, "A", 100);
    stop(&mut r, "A", 300);
    start(&mut r, "B", 400);
    start(&mut r, "C", 450);
    let state = finish(&mut r, 900);
    assert_eq!(
        spans(&state.segments),
        vec![span(100, 300, "A"), span(400, 900, "B"), span(450, 900, "C")]
    );
}

#[test]
fn after_stop_session_nothing_is_open_or_pending() {
    let mut r = begin(1000);
    start(&mut r, "A", 0);
    start(&mut r, "B", 10);
    stop(&mut r, "B", 20);
    assert_eq!(r.open_count(), 1);
    assert_eq!(r.pending_count(), 1);
    let _ = finish(&mut r, 100);
    assert!(!r.is_active());
    assert_eq!(r.open_count(), 0);
    assert_eq!(r.pending_count(), 0);
    assert!(stop_session(&mut r, paths(), T0 + 200, &stamp()).is_none());
}

#[test]
fn events_without_a_session_change_nothing() {
    let mut r = Recorder::new();
    assert!(start(&mut r, "A", 0).is_empty());
    assert!(flush_pending_if_elapsed(&mut r, T0).is_empty());
    assert!(!r.is_active());
    assert_eq!(r.open_count(), 0);
}

#[test]
fn finalized_segments_have_positive_length_and_do_not_overlap_per_user() {
    let mut r = begin(100);
    let script: [(bool, &str, u64); 12] = [
        (true, "A", 0),
        (true, "B", 50),
        (false, "A", 200),
        (true, "A", 250),
        (false, "B", 400),
        (false, "A", 500),
        (true, "B", 900),
        (true, "A", 1000),
        (false, "B", 1100),
        (false, "A", 1300),
        (true, "A", 1350),
        (false, "A", 1400),
    ];
    for (is_start, user, at) in script {
        record_speaking_event(&mut r, is_start, user.to_string(), T0 + at);
    }
    let state = finish(&mut r, 2000);
    let got = spans(&state.segments);
    assert_eq!(
        got,
        vec![
            span(0, 500, "A"),
            span(50, 400, "B"),
            span(900, 1100, "B"),
            span(1000, 1400, "A"),
        ]
    );
    for s in &got {
        assert!(s.0 < s.1);
    }
    for i in 0..got.len() {
        for j in (i + 1)..got.len() {
            if got[i].2 == got[j].2 {
                assert!(got[i].1 <= got[j].0);
                assert!(got[i].0 <= got[j].0);
            }
        }
    }
}

#[test]
fn speaker_label_is_looked_up() {
    let mut r = begin(1000);
    start(&mut r, "A", 0);
    start(&mut r, "B", 0);
    let state = finish(&mut r, 10);
    assert_eq!(state.segments[0].speaker_name, Some("Alice".to_string()));
    assert_eq!(state.segments[1].speaker_name, None);
}

#[test]
fn live_publishing_hands_out_finalized_segments() {
    let mut r = begin(1000);
    set_live_segment_tx(&mut r);
    assert!(r.is_live());
    start(&mut r, "A", 0);
    assert!(stop(&mut r, "A", 100).is_empty());
    let published = start(&mut r, "B", 300);
    assert_eq!(spans(&published), vec![span(0, 100, "A")]);
    stop(&mut r, "B", 400);
    let published = flush_pending_if_elapsed(&mut r, T0 + 1400);
    assert_eq!(spans(&published), vec![span(300, 400, "B")]);
    clear_live_segment_tx(&mut r);
    start(&mut r, "A", 1500);
    stop(&mut r, "A", 1600);
    assert!(start(&mut r, "B", 1700).is_empty());
    assert_eq!(r.segments().len(), 3);
}

#[test]
fn session_state_carries_metadata() {
    let mut r = begin(1000);
    let state = finish(&mut r, 10);
    assert_eq!(state.session_id, "Guild_General_1700000000");
    assert_eq!(state.created_at, 50);
    assert_eq!(state.guild_name, Some("Guild".to_string()));
    assert_eq!(state.guild_id, Some("g1".to_string()));
    assert_eq!(state.channel_name, Some("General".to_string()));
    assert_eq!(state.channel_id, Some("c1".to_string()));
    assert_eq!(state.channel_type, Some(2));
    assert_eq!(state.self_user_id, Some("me".to_string()));
    assert!(!state.live_mode_enabled);
    assert_eq!(state.user_labels.len(), 1);
    assert!(state.transcript_texts.is_empty());
    assert_eq!(state.audio_paths.loopback, Some("out.wav".to_string()));
    assert_eq!(state.audio_paths.microphone, Some("mic.wav".to_string()));
}

#[test]
fn elapsed_is_zero_when_the_clock_reads_earlier() {
    assert_eq!(elapsed_ms_since(100, 250), 150);
    assert_eq!(elapsed_ms_since(100, 100), 0);
    assert_eq!(elapsed_ms_since(100, 40), 0);
}

#[test]
fn session_id_fills_placeholders_and_sanitizes() {
    let id = format_session_id(
        "{guild}/{channel}:{date} {time} {timestamp}?",
        Some("My <Guild>"),
        None,
        &stamp(),
    );
    assert_eq!(id, "My _Guild__Unknown_2023-11-14 22-13-20 1700000000_");
}

#[test]
fn project_name_keeps_unsafe_characters() {
    let name = format_project_name("{guild}/{channel}", None, Some("a|b"), &stamp());
    assert_eq!(name, "Unknown/a|b");
    let twice = format_project_name("{date}{date}-{tim}", None, None, &stamp());
    assert_eq!(twice, "2023-11-142023-11-14-{tim}");
}

#[test]
fn replaced_text_is_scanned_again_by_later_placeholders() {
    let name = format_project_name("{guild}", Some("{channel}"), Some("x"), &stamp());
    assert_eq!(name, "x");
}

fn channel() -> ChannelInfo {
    ChannelInfo {
        channel_id: "c9".to_string(),
        channel_name: Some("Lobby".to_string()),
        channel_type: Some(2),
        guild_id: None,
        guild_name: None,
        self_user_id: Some("me".to_string()),
        user_labels: labels(),
    }
}

#[test]
fn recording_needs_channel_info() {
    let mut r = Recorder::new();
    let options = recording_options(None, None, None);
    assert_eq!(options.merge_buffer_ms, 1000);
    assert_eq!(options.template, "{guild}_{channel}_{timestamp}");
    assert!(!options.live);
    let refused = start_recording(&mut r, None, options, T0);
    assert_eq!(
        refused,
        Err("Not connected to Discord. Connect in Settings first.".to_string())
    );
    assert!(!r.is_active());
}

#[test]
fn live_recording_attaches_padded_texts() {
    let mut r = Recorder::new();
    let options = recording_options(Some(100), Some("{channel}".to_string()), Some(true));
    assert_eq!(start_recording(&mut r, Some(channel()), options, T0), Ok(()));
    assert!(r.is_live());
    start(&mut r, "A", 0);
    stop(&mut r, "A", 50);
    start(&mut r, "B", 500);
    stop(&mut r, "B", 600);
    start(&mut r, "A", 900);
    let state =
        stop_recording(&mut r, Some(paths()), vec!["hello".to_string()], T0 + 1000, &stamp())
            .expect("state");
    assert!(!r.is_live());
    assert!(!r.is_active());
    assert_eq!(state.segments.len(), 3);
    assert_eq!(state.transcript_texts, vec!["hello".to_string(), String::new(), String::new()]);
    assert_eq!(state.session_id, "Lobby");
    assert!(state.live_mode_enabled);
    assert_eq!(state.channel_id, Some("c9".to_string()));
}

#[test]
fn batch_recording_has_no_texts_and_keeps_session_without_paths() {
    let mut r = Recorder::new();
    let options = recording_options(None, None, Some(false));
    assert_eq!(start_recording(&mut r, Some(channel()), options, T0), Ok(()));
    start(&mut r, "A", 0);
    assert!(stop_recording(&mut r, None, vec![], T0 + 10, &stamp()).is_none());
    assert!(r.is_active());
    let state = stop_recording(&mut r, Some(paths()), vec!["x".to_string()], T0 + 20, &stamp())
        .expect("state");
    assert!(state.transcript_texts.is_empty());
    assert_eq!(spans(&state.segments), vec![span(0, 20, "A")]);
}

fn is_digits(text: &str) -> bool {
    !text.is_empty() && text.chars().all(|c| c.is_ascii_digit())
}

#[test]
fn names_for_the_present_moment() {
    let name = format_project_name_now("{guild}|{date}|{time}|{timestamp}", Some("G"), None);
    let parts: Vec<&str> = name.split('|').collect();
    assert_eq!(parts.len(), 4);
    assert_eq!(parts[0], "G");
    let date: Vec<&str> = parts[1].split('-').collect();
    assert_eq!(date.len(), 3);
    assert_eq!((date[0].len(), date[1].len(), date[2].len()), (4, 2, 2));
    assert!(date.iter().all(|d| is_digits(d)));
    let time: Vec<&str> = parts[2].split('-').collect();
    assert_eq!(time.len(), 3);
    assert!(time.iter().all(|d| d.len() == 2 && is_digits(d)));
    assert!(is_digits(parts[3]));
    assert!(parts[3].parse::<u64>().unwrap() > 1_600_000_000);
}

#[test]
fn recording_by_the_machine_clock() {
    let mut r = Recorder::new();
    let options = recording_options(Some(60_000), Some("{channel}-{date}".to_string()), None);
    assert_eq!(start_recording_now(&mut r, Some(channel()), options), Ok(()));
    assert!(record_speaking_event_now(&mut r, true, "A".to_string()).is_empty());
    assert_eq!(r.open_count(), 1);
    record_speaking_event_now(&mut r, false, "A".to_string());
    assert_eq!(r.pending_count(), 1);
    flush_pending_now(&mut r);
    assert_eq!(r.pending_count(), 1);
    record_speaking_event_now(&mut r, true, "B".to_string());
    assert_eq!(r.segments().len(), 1);
    let state = stop_recording_now(&mut r, Some(paths()), Vec::new()).expect("state");
    assert_eq!(state.segments.len(), 2);
    assert!(state.session_id.starts_with("Lobby-20"));
    assert!(state.created_at > 1_600_000_000);
    for s in &state.segments {
        assert!(s.start_ms <= s.end_ms);
        assert!(s.end_ms < 60_000);
    }
    assert!(stop_session_now(&mut r, paths()).is_none());
}
