use hash_runner::error::Error;
use hash_runner::runner::{run_dir, run_dir_at, run_dir_at_time, Mode, Runner, YEAR_10000_SECS};
use hash_runner::script::Script;

fn script_at(path: &str) -> Script {
    Script::from_file("t.ha.sh", true, false, Ok(path.to_string())).unwrap()
}

#[test]
fn run_picks_the_mode() {
    let (r, m) = Runner::run("h".to_string(), None, None, true, true);
    assert_eq!(m, Mode::Script);
    assert_eq!(r.host_id(), "h");
    assert_eq!(Runner::run("h".to_string(), None, None, false, true).1, Mode::Watch);
    assert_eq!(Runner::run("h".to_string(), None, None, false, false).1, Mode::Sweep);
}

#[test]
fn run_dir_is_a_sibling_of_the_script() {
    let s = script_at("/media/usb/t.ha.sh");
    assert_eq!(
        run_dir_at(&s, "2024-01-02-03-04-05").unwrap(),
        "/media/usb/t-run-2024-01-02-03-04-05"
    );
    assert_eq!(run_dir_at(&script_at("/t.ha.sh"), "S").unwrap(), "/t-run-S");
    assert_eq!(run_dir_at(&script_at("t.ha.sh"), "S").unwrap(), "t-run-S");
}

#[test]
fn run_dir_is_stamped_with_the_time() {
    let d = run_dir(&script_at("/media/usb/t.ha.sh")).unwrap();
    let stamp = d.strip_prefix("/media/usb/t-run-").unwrap();
    assert_eq!(stamp.len(), 19);
    let digits: Vec<char> = stamp.chars().filter(|c| c.is_ascii_digit()).collect();
    assert_eq!(digits.len(), 14);
    for i in [4, 7, 10, 13, 16] {
        assert_eq!(stamp.as_bytes()[i], b'-');
    }
}

#[test]
fn environment_of_a_run() {
    let r = Runner::new("kiosk-7".to_string(), Some("gunzip".to_string()), None);
    let env = r.environment(&script_at("/m/t.ha.sh"), "/m/t-run-S");
    let expected: Vec<(String, String)> = vec![
        ("HASH_HOST".to_string(), "kiosk-7".to_string()),
        ("HASH_DECODER".to_string(), "gunzip".to_string()),
        ("HASH_ENCODER".to_string(), String::new()),
        ("HASH_SCRIPT".to_string(), "/m/t.ha.sh".to_string()),
        ("HASH_RUN_DIR".to_string(), "/m/t-run-S".to_string()),
    ];
    assert_eq!(env, expected);
}

#[test]
fn run_dir_at_time_formats_utc() {
    let s = script_at("/media/usb/t.ha.sh");
    assert_eq!(run_dir_at_time(&s, 0).unwrap(), "/media/usb/t-run-1970-01-01-00-00-00");
    assert_eq!(
        run_dir_at_time(&s, 1_704_164_645).unwrap(),
        "/media/usb/t-run-2024-01-02-03-04-05"
    );
    assert_eq!(
        run_dir_at_time(&s, YEAR_10000_SECS - 1).unwrap(),
        "/media/usb/t-run-9999-12-31-23-59-59"
    );
}

#[test]
fn run_dir_at_time_out_of_range() {
    let s = script_at("/media/usb/t.ha.sh");
    assert_eq!(
        run_dir_at_time(&s, u64::MAX).unwrap_err(),
        Error::IO("time out of the supported range".to_string())
    );
    assert!(run_dir_at_time(&s, YEAR_10000_SECS).unwrap().starts_with("/media/usb/t-run-+10000-"));
}
