use criminal_recognizer::protocol::{frame_line, is_unknown_reply, Command, Event};
use criminal_recognizer::python_process::{
    on_forwarded, on_read, open_bridge, python_stream, PythonProcess, ReadOutcome, Relay, Stream,
    BRIDGE_CAPACITY,
};
use criminal_recognizer::Message;

fn s(text: &str) -> String {
    text.to_string()
}

#[test]
fn identify_image_round_trip_with_identity_reply() {
    let line = Command::IdentifyImage(s("/a/b.jpg")).encode();
    assert_eq!(line, "identify image /a/b.jpg");
    assert_eq!(Event::decode("identity 42"), Event::Identity(s("42")));
}

#[test]
fn add_command_round_trips_to_added_reply() {
    let cmd = Command::Add(7, vec![s("/p1.jpg"), s("/p2.jpg")]);
    let line = cmd.encode();
    assert_eq!(line, "add 7 /p1.jpg&/p2.jpg");
    assert_eq!(Command::parse(&line), Some(cmd));
    assert_eq!(Event::decode("added 7"), Event::Added(s("7")));
}

#[test]
fn every_command_has_its_line() {
    assert_eq!(Command::Start.encode(), "start");
    assert_eq!(Command::IdentifyVideo(s("/v/clip.mp4")).encode(), "identify video /v/clip.mp4");
    assert_eq!(Command::Add(0, vec![]).encode(), "add 0 ");
    assert_eq!(Command::Add(4294967295, vec![s("a")]).encode(), "add 4294967295 a");
    assert_eq!(Command::Add(120, vec![s("x"), s("y"), s("z")]).encode(), "add 120 x&y&z");
}

#[test]
fn parse_reads_the_first_three_words() {
    assert_eq!(Command::parse("start"), Some(Command::Start));
    assert_eq!(Command::parse("  start  now"), Some(Command::Start));
    assert_eq!(
        Command::parse("identify image /a/b.jpg"),
        Some(Command::IdentifyImage(s("/a/b.jpg")))
    );
    assert_eq!(
        Command::parse("identify\tvideo   /v.mp4 trailing words"),
        Some(Command::IdentifyVideo(s("/v.mp4")))
    );
    assert_eq!(Command::parse("add 7 /p1.jpg"), Some(Command::Add(7, vec![s("/p1.jpg")])));
    assert_eq!(
        Command::parse("add +7 a&&b"),
        Some(Command::Add(7, vec![s("a"), s(""), s("b")]))
    );
}

#[test]
fn parse_refuses_what_names_no_command() {
    assert_eq!(Command::parse(""), None);
    assert_eq!(Command::parse("   "), None);
    assert_eq!(Command::parse("identify"), None);
    assert_eq!(Command::parse("identify image"), None);
    assert_eq!(Command::parse("identify audio /a.wav"), None);
    assert_eq!(Command::parse("add seven /p.jpg"), None);
    assert_eq!(Command::parse("add 4294967296 /p.jpg"), None);
    assert_eq!(Command::parse("add 7"), None);
    assert_eq!(Command::parse("starting"), None);
}

#[test]
fn decode_never_fails_on_malformed_lines() {
    assert_eq!(Event::decode(""), Event::Unrecognized(s("")));
    assert_eq!(Event::decode("identity"), Event::Unrecognized(s("identity")));
    assert_eq!(Event::decode("added"), Event::Unrecognized(s("added")));
    assert_eq!(Event::decode("unknown"), Event::Unrecognized(s("unknown")));
    assert_eq!(Event::decode("identityX 4"), Event::Unrecognized(s("identityX 4")));
    assert_eq!(Event::decode("  loading model  "), Event::Unrecognized(s("  loading model  ")));
    assert_eq!(Event::decode("\u{2003}"), Event::Unrecognized(s("\u{2003}")));
}

#[test]
fn only_unknown_says_that_the_engine_knows_no_one() {
    for line in ["unknown", "  unknown", "unknown face", "unknown\t"] {
        assert!(is_unknown_reply(line));
        assert_eq!(Event::decode(line), Event::Unrecognized(s(line)));
    }
    for line in ["", "Unknown", "unknown1", "not unknown", "identity unknown", "loading"] {
        assert!(!is_unknown_reply(line));
    }
}

#[test]
fn decode_goes_by_the_first_two_words() {
    assert_eq!(Event::decode("  identity   42  extra"), Event::Identity(s("42")));
    assert_eq!(Event::decode("identity\tunknown"), Event::Identity(s("unknown")));
    assert_eq!(Event::decode("identity\u{00A0}9"), Event::Identity(s("9")));
    assert_eq!(Event::decode("added 12 ok"), Event::Added(s("12")));
}

#[test]
fn frame_line_appends_one_line_feed() {
    assert_eq!(frame_line("start"), "start\n");
    assert_eq!(frame_line(""), "\n");
    assert_eq!(frame_line("identify image /a b.jpg"), "identify image /a b.jpg\n");
}

#[test]
fn spawn_plans_the_launch_under_the_gpu_launcher() {
    let plan = PythonProcess::spawn("main.py", "/srv/engine");
    assert_eq!(plan.program, "prime-run");
    assert_eq!(plan.args, vec![s("python"), s("-u"), s("main.py")]);
    assert_eq!(plan.working_dir, "/srv/engine");
}

#[test]
fn events_can_be_taken_only_once() {
    let mut process = PythonProcess::new("stdin", 17u32);
    assert_eq!(process.events(), Some(17));
    assert_eq!(process.events(), None);
    assert_eq!(process.events(), None);
    assert_eq!(*process.writer(), "stdin");
}

#[test]
fn send_frames_the_message_for_the_writer() {
    let process = PythonProcess::new(5u8, ());
    let (writer, line) = process.send("identify image /x.jpg");
    assert_eq!(*writer, 5);
    assert_eq!(line, "identify image /x.jpg\n");
}

#[test]
fn output_lines_are_forwarded_and_diagnostics_logged() {
    assert_eq!(on_read(Stream::Output, ReadOutcome::Line(s("identity 3"))), Relay::Forward(s("identity 3")));
    assert_eq!(
        on_read(Stream::Diagnostic, ReadOutcome::Line(s("identity 3"))),
        Relay::Log(s("[PYTHON-ERR] identity 3"))
    );
    assert_eq!(on_read(Stream::Output, ReadOutcome::Unreadable), Relay::Skip);
    assert_eq!(on_read(Stream::Diagnostic, ReadOutcome::Unreadable), Relay::Skip);
    assert_eq!(on_read(Stream::Output, ReadOutcome::EndOfStream), Relay::Stop);
    assert_eq!(on_read(Stream::Diagnostic, ReadOutcome::EndOfStream), Relay::Stop);
}

#[test]
fn reader_stops_once_the_listener_is_gone() {
    assert!(on_forwarded(true));
    assert!(!on_forwarded(false));
    assert_eq!(BRIDGE_CAPACITY, 100);
}

#[test]
fn bridge_holds_a_hundred_lines_and_keeps_their_order() {
    let (tx, mut rx) = open_bridge();
    assert_eq!(tx.max_capacity(), 100);
    for n in 0..100u32 {
        assert!(tx.try_send(format!("line {}", n)).is_ok());
    }
    // Full: the reader would have to wait.
    assert!(tx.try_send(s("one too many")).is_err());
    for n in 0..100u32 {
        assert_eq!(rx.try_recv().ok(), Some(format!("line {}", n)));
    }
    assert!(rx.try_recv().is_err());
    // Once the listener is gone nothing is delivered any more.
    drop(rx);
    assert!(tx.try_send(s("late")).is_err());
}

#[test]
fn listener_turns_lines_into_messages_until_the_channel_ends() {
    assert_eq!(python_stream(Some(s("identity 1"))), Some(Message::PythonOutput(s("identity 1"))));
    assert_eq!(python_stream(None), None);
}
