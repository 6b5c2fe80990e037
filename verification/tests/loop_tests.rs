use video_capture::capture_loop::{closes_after_send, CaptureLoop, CapturePhase, LoopAction};
use video_capture::writer::{WriterAction, WriterLoop, WriterPhase};

/// Runs the capture decisions over reads (`Some(flags)` a packet, `None` the
/// end of input) with the closed flag given before each read; returns the
/// flags of the forwarded packets and whether the loop stopped.
fn run(reads: &[Option<i32>], closed: &[bool]) -> (Vec<i32>, bool) {
    let mut machine = CaptureLoop::new();
    let mut forwarded = Vec::new();
    let mut i = 0;
    loop {
        let flag = closed.get(i).copied().unwrap_or(false);
        match machine.next_action(flag) {
            LoopAction::Stop => return (forwarded, true),
            LoopAction::Receive => {}
        }
        if i >= reads.len() {
            return (forwarded, false);
        }
        match reads[i] {
            Some(flags) => {
                if machine.on_packet(flags) {
                    forwarded.push(flags);
                }
            }
            None => machine.on_receive_end(),
        }
        i += 1;
    }
}

#[test]
fn packets_before_the_first_key_frame_are_dropped() {
    let (forwarded, stopped) = run(&[Some(0), Some(0), Some(1), Some(0), None], &[]);
    assert_eq!(forwarded, vec![1, 0]);
    assert!(stopped);
}

#[test]
fn closed_flag_is_ignored_until_the_first_key_frame() {
    let (forwarded, stopped) = run(&[Some(0), Some(1), Some(0)], &[true, true, true]);
    assert_eq!(forwarded, vec![1]);
    assert!(stopped);
}

#[test]
fn closing_stops_forwarding() {
    let (forwarded, stopped) = run(&[Some(1), Some(0), Some(0)], &[false, false, true]);
    assert_eq!(forwarded, vec![1, 0]);
    assert!(stopped);
}

#[test]
fn end_before_any_key_frame_moves_on_to_forwarding() {
    let mut machine = CaptureLoop::new();
    assert_eq!(machine.next_action(false), LoopAction::Receive);
    machine.on_receive_end();
    assert_eq!(machine.phase(), CapturePhase::Forwarding);
    assert_eq!(machine.next_action(false), LoopAction::Receive);
    assert!(machine.on_packet(0));
    machine.on_receive_end();
    assert_eq!(machine.phase(), CapturePhase::Stopped);
    assert_eq!(machine.next_action(false), LoopAction::Stop);
    assert!(!machine.on_packet(1));
}

#[test]
fn failed_send_closes_the_connection() {
    assert!(closes_after_send(false));
    assert!(!closes_after_send(true));
}

#[test]
fn writer_writes_until_channel_closes_then_trailer() {
    let mut w = WriterLoop::new();
    let mut log = Vec::new();
    let mut packets = vec![Some(()), Some(()), None].into_iter();
    loop {
        match w.next_action() {
            WriterAction::Receive => {
                let got = packets.next().flatten().is_some();
                if w.on_received(got) {
                    log.push("push");
                    w.on_pushed(true);
                }
            }
            WriterAction::WriteTrailer => log.push("trailer"),
            WriterAction::Exit => break,
        }
    }
    assert_eq!(log, vec!["push", "push", "trailer"]);
    assert_eq!(w.phase(), WriterPhase::Done);
}

#[test]
fn writer_stops_after_failed_write() {
    let mut w = WriterLoop::new();
    assert_eq!(w.next_action(), WriterAction::Receive);
    assert!(w.on_received(true));
    w.on_pushed(false);
    assert_eq!(w.phase(), WriterPhase::Finishing);
    assert_eq!(w.next_action(), WriterAction::WriteTrailer);
    assert_eq!(w.next_action(), WriterAction::Exit);
    assert_eq!(w.next_action(), WriterAction::Exit);
}
