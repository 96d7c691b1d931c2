use zpipe::codec::Mode;
use zpipe::dispatch::{Action, Dispatcher, ErrorKind, Event, Phase, Source};
use zpipe::select::{select, Operation, Transform};

/// What a scripted run did: the sources read, the bytes written, how many
/// times the output was opened and closed, and the exit.
struct Outcome {
    reads: Vec<Source>,
    output: Vec<u8>,
    opened: usize,
    closed: usize,
    exit: Result<(), ErrorKind>,
}

/// Runs a dispatcher with `inputs` standing for the named inputs (or the
/// implicit stream when `named` is false); `None` is an input that cannot
/// be opened.
fn drive(
    transform: Transform,
    named: bool,
    inputs: &[Option<Vec<u8>>],
    sink_opens: bool,
    writes_fail: bool,
) -> Outcome {
    let count = if named { inputs.len() } else { 0 };
    let (mut d, mut action) = Dispatcher::new(transform, count);
    let mut out = Outcome { reads: vec![], output: vec![], opened: 0, closed: 0, exit: Ok(()) };
    loop {
        let event = match action {
            Action::OpenSink => {
                out.opened += 1;
                if sink_opens {
                    Event::Done
                } else {
                    Event::Failed("cannot create".to_string())
                }
            }
            Action::ReadSource(source) => {
                out.reads.push(source);
                let i = match source {
                    Source::Implicit => 0,
                    Source::Named(i) => i,
                };
                match &inputs[i] {
                    Some(bytes) => Event::Data(bytes.clone()),
                    None => Event::Failed("no such file".to_string()),
                }
            }
            Action::Write(bytes) => {
                if writes_fail {
                    Event::Failed("disk full".to_string())
                } else {
                    out.output.extend(bytes);
                    Event::Done
                }
            }
            Action::CloseSink => {
                out.closed += 1;
                Event::Done
            }
            Action::Exit(r) => {
                out.exit = r.map_err(|e| e.kind);
                assert_eq!(d.state().phase, Phase::Finished);
                return out;
            }
        };
        assert!(d.accepts(&event));
        action = d.step(event);
    }
}

fn zlib6() -> Transform {
    Transform { mode: Mode::Zlib, op: Operation::Compress(6) }
}

#[test]
fn inputs_are_concatenated_as_members() {
    let a = b"first input ".repeat(5);
    let b = b"second input".repeat(3);
    let out = drive(zlib6(), true, &[Some(a.clone()), Some(b.clone())], true, false);
    assert_eq!(out.exit, Ok(()));
    assert_eq!(out.reads, vec![Source::Named(0), Source::Named(1)]);
    assert_eq!((out.opened, out.closed), (1, 1));
    let mut expected = Mode::Zlib.compress(6, &a).unwrap();
    expected.extend(Mode::Zlib.compress(6, &b).unwrap());
    assert_eq!(out.output, expected);
    let mut joined = a.clone();
    joined.extend(&b);
    assert_ne!(out.output, Mode::Zlib.compress(6, &joined).unwrap());
    assert_eq!(Mode::Zlib.decompress(&out.output).unwrap(), a);
}

#[test]
fn raw_deflate_members_concatenate_too() {
    let t = Transform { mode: Mode::Deflate, op: Operation::Compress(9) };
    let inputs = [Some(b"x".to_vec()), Some(b"yy".to_vec()), Some(vec![])];
    let out = drive(t, true, &inputs, true, false);
    let mut expected = vec![];
    for i in &inputs {
        expected.extend(Mode::Deflate.compress(9, i.as_ref().unwrap()).unwrap());
    }
    assert_eq!(out.output, expected);
    assert_eq!(out.reads.len(), 3);
}

#[test]
fn missing_input_fails_fast() {
    let exists = b"present".to_vec();
    let inputs = [Some(exists.clone()), None, Some(b"never read".to_vec())];
    let out = drive(zlib6(), true, &inputs, true, false);
    assert_eq!(out.exit, Err(ErrorKind::ReadSource(Source::Named(1))));
    assert_eq!(out.reads, vec![Source::Named(0), Source::Named(1)]);
    assert_eq!(out.output, Mode::Zlib.compress(6, &exists).unwrap());
    assert_eq!(out.closed, 1);
}

#[test]
fn empty_implicit_input_writes_empty_member() {
    let out = drive(zlib6(), false, &[Some(vec![])], true, false);
    assert_eq!(out.exit, Ok(()));
    assert_eq!(out.reads, vec![Source::Implicit]);
    assert_eq!(out.output, vec![0x78, 0x9c, 0x03, 0x00, 0x00, 0x00, 0x00, 0x01]);
    let gzip = Transform { mode: Mode::Gzip, op: Operation::Compress(6) };
    let out = drive(gzip, false, &[Some(vec![])], true, false);
    assert_eq!(out.output.len(), 20);
    assert_eq!(Mode::Gzip.decompress(&out.output).unwrap(), Vec::<u8>::new());
}

#[test]
fn decompressing_run_restores_input() {
    let packed = Mode::Gzip.compress(2, b"round the run").unwrap();
    let t = select(Mode::Gzip, true, &[]).unwrap();
    let out = drive(t, false, &[Some(packed)], true, false);
    assert_eq!(out.exit, Ok(()));
    assert_eq!(out.output, b"round the run".to_vec());
}

#[test]
fn corrupt_input_fails_run() {
    let t = Transform { mode: Mode::Zlib, op: Operation::Decompress };
    let good = Mode::Zlib.compress(6, b"ok").unwrap();
    let out = drive(t, true, &[Some(good), Some(vec![1, 2, 3, 4]), Some(vec![])], true, false);
    assert_eq!(out.exit, Err(ErrorKind::Transcode(Source::Named(1))));
    assert_eq!(out.output, b"ok".to_vec());
    assert_eq!(out.reads.len(), 2);
    assert_eq!(out.closed, 1);
}

#[test]
fn sink_open_failure_reads_nothing() {
    let out = drive(zlib6(), true, &[Some(b"a".to_vec())], false, false);
    assert_eq!(out.exit, Err(ErrorKind::OpenSink));
    assert!(out.reads.is_empty());
    assert_eq!(out.closed, 0);
}

#[test]
fn write_failure_stops_run() {
    let out = drive(zlib6(), true, &[Some(b"a".to_vec()), Some(b"b".to_vec())], true, true);
    assert_eq!(out.exit, Err(ErrorKind::WriteSink));
    assert_eq!(out.reads, vec![Source::Named(0)]);
    assert_eq!(out.closed, 1);
}

#[test]
fn close_failure_is_reported() {
    let (mut d, _) = Dispatcher::new(zlib6(), 0);
    assert!(matches!(d.step(Event::Done), Action::ReadSource(Source::Implicit)));
    assert!(matches!(d.step(Event::Data(vec![])), Action::Write(_)));
    assert!(matches!(d.step(Event::Done), Action::CloseSink));
    match d.step(Event::Failed("close failed".to_string())) {
        Action::Exit(Err(e)) => {
            assert_eq!(e.kind, ErrorKind::CloseSink);
            assert_eq!(e.detail, "close failed");
        }
        _ => panic!("expected a failed exit"),
    }
    assert!(!d.accepts(&Event::Done));
}

#[test]
fn first_failure_is_kept_when_close_fails() {
    let (mut d, _) = Dispatcher::new(zlib6(), 1);
    d.step(Event::Done);
    assert!(matches!(d.step(Event::Failed("gone".to_string())), Action::CloseSink));
    match d.step(Event::Failed("close failed".to_string())) {
        Action::Exit(Err(e)) => {
            assert_eq!(e.kind, ErrorKind::ReadSource(Source::Named(0)));
            assert_eq!(e.detail, "gone");
        }
        _ => panic!("expected a failed exit"),
    }
}

#[test]
fn deliver_takes_codec_result() {
    let (mut d, _) = Dispatcher::new(zlib6(), 2);
    d.step(Event::Done);
    match d.deliver(Ok(vec![9, 8, 7])) {
        Action::Write(bytes) => assert_eq!(bytes, vec![9, 8, 7]),
        _ => panic!("expected a write"),
    }
    let (mut d, _) = Dispatcher::new(zlib6(), 2);
    d.step(Event::Done);
    assert!(matches!(d.deliver(Err("bad".to_string())), Action::CloseSink));
    match d.step(Event::Done) {
        Action::Exit(Err(e)) => {
            assert_eq!(e.kind, ErrorKind::Transcode(Source::Named(0)));
            assert_eq!(e.detail, "bad");
        }
        _ => panic!("expected a failed exit"),
    }
}

#[test]
fn event_must_match_last_action() {
    let (d, _) = Dispatcher::new(zlib6(), 1);
    assert!(d.accepts(&Event::Done));
    assert!(d.accepts(&Event::Failed(String::new())));
    assert!(!d.accepts(&Event::Data(vec![])));
}
