use d_scribe::discord_rpc::ipc::{
    frame_duty, next_pipe_step, send_frame, send_handshake, send_pong, FrameDuty, IpcConnection,
    PipeStep, OPCODE_CLOSE, OPCODE_FRAME, OPCODE_HANDSHAKE, OPCODE_PING, OPCODE_PONG,
};
use d_scribe::discord_rpc::transport::{next_port, pipe_name, ws_url};

#[test]
fn frame_has_little_endian_header() {
    let frame = send_frame(1, b"{}").unwrap();
    assert_eq!(frame, vec![1, 0, 0, 0, 2, 0, 0, 0, b'{', b'}']);
    let frame = send_frame(0x0403_0201, &[]).unwrap();
    assert_eq!(frame, vec![1, 2, 3, 4, 0, 0, 0, 0]);
    let payload = vec![7u8; 300];
    let frame = send_frame(4, &payload).unwrap();
    assert_eq!(&frame[..8], &[4, 0, 0, 0, 44, 1, 0, 0]);
    assert_eq!(&frame[8..], &payload[..]);
}

#[test]
fn header_matches_std_encoding() {
    for opcode in [0u32, 1, 255, 256, 65_535, 65_536, 16_777_216, u32::MAX] {
        let frame = send_frame(opcode, b"abc").unwrap();
        assert_eq!(&frame[0..4], &opcode.to_le_bytes());
        assert_eq!(&frame[4..8], &3u32.to_le_bytes());
    }
}

#[test]
fn handshake_and_pong_use_their_opcodes() {
    assert_eq!(OPCODE_HANDSHAKE, 0);
    assert_eq!(OPCODE_FRAME, 1);
    assert_eq!(OPCODE_CLOSE, 2);
    assert_eq!(OPCODE_PING, 3);
    assert_eq!(OPCODE_PONG, 4);
    assert_eq!(send_handshake(b"hi").unwrap(), vec![0, 0, 0, 0, 2, 0, 0, 0, b'h', b'i']);
    assert_eq!(send_pong(b"ping!").unwrap()[..8], [4, 0, 0, 0, 5, 0, 0, 0]);
    assert_eq!(&send_pong(b"ping!").unwrap()[8..], b"ping!");
}

#[test]
fn frames_are_decoded_as_bytes_arrive() {
    let mut conn = IpcConnection::new();
    assert!(conn.recv_frame().is_none());
    let first = conn.send_json(b"{\"a\":1}").unwrap();
    let second = send_frame(3, b"").unwrap();
    conn.feed(&first[..5]);
    assert!(conn.recv_frame().is_none());
    conn.feed(&first[5..]);
    conn.feed(&second);
    conn.feed(&[9, 9]);
    assert_eq!(conn.recv_frame(), Some((1, b"{\"a\":1}".to_vec())));
    assert_eq!(conn.recv_frame(), Some((3, Vec::new())));
    assert!(conn.recv_frame().is_none());
}

#[test]
fn duties_follow_opcodes() {
    assert_eq!(frame_duty(0), FrameDuty::Ignore);
    assert_eq!(frame_duty(1), FrameDuty::Deliver);
    assert_eq!(frame_duty(2), FrameDuty::Close);
    assert_eq!(frame_duty(3), FrameDuty::AnswerPing);
    assert_eq!(frame_duty(4), FrameDuty::Ignore);
    assert_eq!(frame_duty(77), FrameDuty::Ignore);
}

#[test]
fn busy_pipe_is_retried_once() {
    assert_eq!(next_pipe_step(0, true, false), PipeStep::RetrySame(0));
    assert_eq!(next_pipe_step(0, true, true), PipeStep::TryNext(1));
    assert_eq!(next_pipe_step(3, false, false), PipeStep::TryNext(4));
    assert_eq!(next_pipe_step(9, true, false), PipeStep::RetrySame(9));
    assert_eq!(next_pipe_step(9, true, true), PipeStep::GiveUp);
    assert_eq!(next_pipe_step(9, false, false), PipeStep::GiveUp);
}

#[test]
fn endpoints_are_named() {
    assert_eq!(pipe_name(0), r"\\.\pipe\discord-ipc-0");
    assert_eq!(pipe_name(9), r"\\.\pipe\discord-ipc-9");
    assert_eq!(ws_url(6463, "123"), "ws://127.0.0.1:6463/?v=1&client_id=123&encoding=json");
    assert_eq!(next_port(6463), Some(6464));
    assert_eq!(next_port(6471), Some(6472));
    assert_eq!(next_port(6472), None);
    assert_eq!(next_port(80), None);
}

#[test]
fn payload_is_read_as_utf8_text() {
    let mut conn = IpcConnection::new();
    conn.feed(&send_frame(1, "h\u{e9}llo \u{1f600}".as_bytes()).unwrap());
    conn.feed(&send_frame(1, &[0x66, 0xff, 0x6f]).unwrap());
    conn.feed(&send_frame(2, b"").unwrap());
    let first = conn.recv_text().unwrap().unwrap();
    assert_eq!(first.opcode, 1);
    assert_eq!(first.text, "h\u{e9}llo \u{1f600}");
    assert!(conn.recv_text().is_err());
    let third = conn.recv_text().unwrap().unwrap();
    assert_eq!((third.opcode, third.text.as_str()), (2, ""));
    assert!(conn.recv_text().unwrap().is_none());
}
