use hash_runner::director::{Action, Event, Log, Phase, RunDirector};
use hash_runner::error::Error;
use hash_runner::script::{Script, MAX_SCRIPT_SIZE};
use hash_runner::runner::Runner;

const PATH: &str = "/media/usb/t.ha.sh";

fn script() -> Script {
    Script::from_file(PATH, true, false, Ok(PATH.to_string())).unwrap()
}

fn director(decoder: Option<&str>, encoder: Option<&str>, wait: bool) -> RunDirector {
    let runner = Runner::new(
        "host".to_string(),
        decoder.map(|s| s.to_string()),
        encoder.map(|s| s.to_string()),
    );
    let (director, first) = runner.start(&script(), wait);
    assert_eq!(first, Action::CreateDir);
    director
}

fn error_log(e: Error) -> Action {
    Action::WriteLog { log: Log::Error, contents: e.message().into_bytes() }
}

#[test]
fn scenario_plain_script_in_wait_mode() {
    let body = b"echo hi\n".to_vec();
    let mut d = director(None, None, true);
    assert_eq!(d.phase(), Phase::Creating);
    assert_eq!(d.step(Event::Done), Action::MeasureScript);
    assert_eq!(d.step(Event::Size(body.len() as u64)), Action::ReadScript);
    assert_eq!(
        d.step(Event::Contents(body)),
        Action::Execute { text: "echo hi\n".to_string() }
    );
    let out = d.step(Event::Output { stdout: b"hi\n".to_vec(), stderr: Vec::new() });
    assert_eq!(out, Action::WriteLog { log: Log::Stdout, contents: b"hi\n".to_vec() });
    assert_eq!(d.step(Event::Done), Action::Finish(Ok(())));
    assert_eq!(d.phase(), Phase::Done);
}

#[test]
fn scenario_failing_decoder() {
    let mut d = director(Some("false"), None, true);
    assert_eq!(d.step(Event::Done), Action::MeasureScript);
    assert_eq!(d.step(Event::Size(8)), Action::ReadScript);
    assert_eq!(
        d.step(Event::Contents(b"echo hi\n".to_vec())),
        Action::Filter { command: "false".to_string(), input: b"echo hi\n".to_vec() }
    );
    let a = d.step(Event::Filtered { success: false, output: Vec::new() });
    assert_eq!(a, error_log(Error::DecodeFailed(PATH.to_string())));
    assert_eq!(
        d.step(Event::Done),
        Action::Finish(Err(Error::DecodeFailed(PATH.to_string())))
    );
}

#[test]
fn decoder_output_is_executed() {
    let mut d = director(Some("base64 -d"), None, false);
    d.step(Event::Done);
    d.step(Event::Size(12));
    d.step(Event::Contents(b"ZWNobyBoaQo=".to_vec()));
    assert_eq!(
        d.step(Event::Filtered { success: true, output: b"echo hi\n".to_vec() }),
        Action::Execute { text: "echo hi\n".to_string() }
    );
    assert_eq!(d.step(Event::Done), Action::Finish(Ok(())));
}

#[test]
fn oversized_script_is_rejected() {
    let mut d = director(None, None, true);
    d.step(Event::Done);
    let a = d.step(Event::Size(MAX_SCRIPT_SIZE + 1));
    assert_eq!(a, error_log(Error::UnsupportedScript(PATH.to_string())));
    assert_eq!(d.phase(), Phase::Reporting);
    assert_eq!(
        d.step(Event::Done),
        Action::Finish(Err(Error::UnsupportedScript(PATH.to_string())))
    );
}

#[test]
fn script_at_the_ceiling_is_read() {
    let mut d = director(None, None, true);
    d.step(Event::Done);
    assert_eq!(d.step(Event::Size(MAX_SCRIPT_SIZE)), Action::ReadScript);
}

#[test]
fn binary_decode_result_is_unsupported() {
    let mut d = director(None, None, true);
    d.step(Event::Done);
    d.step(Event::Size(2));
    let a = d.step(Event::Contents(vec![0xff, 0xfe]));
    assert_eq!(a, error_log(Error::UnsupportedScript(PATH.to_string())));
}

#[test]
fn directory_creation_failure_is_not_logged() {
    let mut d = director(None, None, true);
    assert_eq!(
        d.step(Event::Failed("exists".to_string())),
        Action::Finish(Err(Error::IO("exists".to_string())))
    );
}

#[test]
fn io_failure_after_creation_is_logged() {
    let mut d = director(None, None, true);
    d.step(Event::Done);
    let a = d.step(Event::Failed("unreadable".to_string()));
    assert_eq!(a, error_log(Error::IO("unreadable".to_string())));
    assert_eq!(
        d.step(Event::Failed("write failed".to_string())),
        Action::Finish(Err(Error::IO("unreadable".to_string())))
    );
}

#[test]
fn both_streams_are_encoded_and_logged() {
    let mut d = director(None, Some("gzip"), true);
    d.step(Event::Done);
    d.step(Event::Size(4));
    d.step(Event::Contents(b"true".to_vec()));
    assert_eq!(
        d.step(Event::Output { stdout: b"o".to_vec(), stderr: b"e".to_vec() }),
        Action::Filter { command: "gzip".to_string(), input: b"o".to_vec() }
    );
    assert_eq!(
        d.step(Event::Filtered { success: true, output: b"O".to_vec() }),
        Action::WriteLog { log: Log::Stdout, contents: b"O".to_vec() }
    );
    assert_eq!(
        d.step(Event::Done),
        Action::Filter { command: "gzip".to_string(), input: b"e".to_vec() }
    );
    assert_eq!(
        d.step(Event::Filtered { success: true, output: b"E".to_vec() }),
        Action::WriteLog { log: Log::Stderr, contents: b"E".to_vec() }
    );
    assert_eq!(d.step(Event::Done), Action::Finish(Ok(())));
}

#[test]
fn failing_encoder_stops_the_stage() {
    let mut d = director(None, Some("false"), true);
    d.step(Event::Done);
    d.step(Event::Size(4));
    d.step(Event::Contents(b"true".to_vec()));
    d.step(Event::Output { stdout: b"o".to_vec(), stderr: b"e".to_vec() });
    let a = d.step(Event::Filtered { success: false, output: b"partial".to_vec() });
    assert_eq!(a, error_log(Error::EncodeFailed(PATH.to_string())));
    assert_eq!(
        d.step(Event::Done),
        Action::Finish(Err(Error::EncodeFailed(PATH.to_string())))
    );
}

#[test]
fn empty_stdout_skips_to_stderr() {
    let mut d = director(None, None, true);
    d.step(Event::Done);
    d.step(Event::Size(4));
    d.step(Event::Contents(b"true".to_vec()));
    assert_eq!(
        d.step(Event::Output { stdout: Vec::new(), stderr: b"warn\n".to_vec() }),
        Action::WriteLog { log: Log::Stderr, contents: b"warn\n".to_vec() }
    );
    assert_eq!(d.step(Event::Done), Action::Finish(Ok(())));
}

#[test]
fn silent_script_writes_no_log() {
    let mut d = director(None, None, true);
    d.step(Event::Done);
    d.step(Event::Size(4));
    d.step(Event::Contents(b"true".to_vec()));
    assert_eq!(
        d.step(Event::Output { stdout: Vec::new(), stderr: Vec::new() }),
        Action::Finish(Ok(()))
    );
}

#[test]
fn accepts_follows_the_phase() {
    let mut d = director(None, None, false);
    assert!(d.accepts(&Event::Done));
    assert!(!d.accepts(&Event::Size(1)));
    d.step(Event::Done);
    assert!(d.accepts(&Event::Size(1)));
    assert!(d.accepts(&Event::Failed(String::new())));
    d.step(Event::Size(4));
    d.step(Event::Contents(b"true".to_vec()));
    assert!(d.accepts(&Event::Done));
    assert!(!d.accepts(&Event::Output { stdout: Vec::new(), stderr: Vec::new() }));
    d.step(Event::Done);
    assert!(!d.accepts(&Event::Failed(String::new())));
}

#[test]
fn log_file_names() {
    assert_eq!(Log::Stdout.file_name(), "stdout.log");
    assert_eq!(Log::Stderr.file_name(), "stderr.log");
    assert_eq!(Log::Error.file_name(), "error.log");
}
