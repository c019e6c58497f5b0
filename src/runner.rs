//! Runner configuration, the choice of mode, run directory naming and the
//! environment handed to every command.

use vstd::prelude::*;

use crate::director::{opt_view, Action, ActionView, Phase, RunDirector, RunState};
use crate::error::{Error, ErrorView};
use crate::script::{name_of, parent_of, Script};

verus! {

/// How an invocation proceeds.
#[derive(Clone, Copy, PartialEq, Eq, Debug, Structural)]
pub enum Mode {
    /// Run the one script that the path names.
    Script,
    /// Watch the mount point that the path names and sweep it on each mount.
    Watch,
    /// Sweep the directory that the path names once.
    Sweep,
}

/// Settings shared by every run of a process.
#[derive(Debug)]
pub struct Runner {
    host_id: String,
    decoder: Option<String>,
    encoder: Option<String>,
}

/// `name` placed inside directory `dir`, as `PathBuf::push` does for a
/// relative name.
pub open spec fn join(dir: Seq<char>, name: Seq<char>) -> Seq<char> {
    if dir.len() == 0 {
        name
    } else if dir.last() == '/' {
        dir + name
    } else {
        dir + seq!['/'] + name
    }
}

/// Name of the run directory of the script called `name`, started at `stamp`.
pub open spec fn run_dir_name(name: Seq<char>, stamp: Seq<char>) -> Seq<char> {
    name + "-run-"@ + stamp
}

/// Path of the run directory of the script at `path`, started at `stamp`:
/// a sibling of the script.
pub open spec fn run_dir_of(path: Seq<char>, stamp: Seq<char>) -> Option<Seq<char>> {
    match parent_of(path) {
        Some(d) => Some(join(d, run_dir_name(name_of(path), stamp))),
        None => None,
    }
}

/// Whether `c` is an ASCII decimal digit.
pub open spec fn is_digit(c: char) -> bool {
    '0' <= c && c <= '9'
}

/// Whether `s` reads `YYYY-MM-DD-HH-MM-SS`: digits, with a dash at each of
/// the five separating places.
pub open spec fn stamp_shape(s: Seq<char>) -> bool {
    &&& s.len() == 19
    &&& forall|i: int|
        0 <= i < 19 ==> if i == 4 || i == 7 || i == 10 || i == 13 || i == 16 {
            s[i] == '-'
        } else {
            is_digit(s[i])
        }
}

/// Seconds since the Unix epoch at which the year 10000 begins: later times
/// need a fifth digit and a sign in the year.
pub const YEAR_10000_SECS: u64 = 253_402_300_800;

/// The UTC time `secs` seconds after the Unix epoch, written with the pattern
/// `%Y-%m-%d-%H-%M-%S`.
pub uninterp spec fn utc_stamp_text(secs: int) -> Seq<char>;

/// Relies on chrono's `DateTime::from_timestamp`, which returns `None` only for
/// seconds outside chrono's range of years, and on `format`, whose `%Y` is the
/// year zero-padded to 4 digits up to the year 9999 and whose `%m`, `%d`, `%H`,
/// `%M`, `%S` are zero-padded to 2 digits.
#[verifier::external_body]
fn format_utc(secs: i64) -> (r: Option<String>)
    ensures
        r matches Some(s) ==> s@ == utc_stamp_text(secs as int),
        r is None ==> !(0 <= secs < YEAR_10000_SECS),
        r matches Some(s) ==> (0 <= secs < YEAR_10000_SECS ==> stamp_shape(s@)),
{
    chrono::DateTime::from_timestamp(secs, 0).map(|t| t.format("%Y-%m-%d-%H-%M-%S").to_string())
}

/// Relies on std's `SystemTime::now` and `duration_since`: whole seconds since
/// the Unix epoch, or `None` when the clock reads earlier. Nothing more is
/// promised: it depends on the clock.
#[verifier::external_body]
fn unix_seconds() -> (r: Option<u64>) {
    std::time::SystemTime::now().duration_since(std::time::UNIX_EPOCH).ok().map(|d| d.as_secs())
}

/// Path of the run directory of `script` started at time `stamp`.
pub fn run_dir_at(script: &Script, stamp: &str) -> (r: Result<String, Error>)
    ensures
        run_dir_of(script.spec_path(), stamp@) is Some,
        r matches Ok(d) && Some(d@) == run_dir_of(script.spec_path(), stamp@),
{
    let dir = match script.parent() {
        Ok(d) => d,
        Err(e) => return Err(e),
    };
    let name = script.name().concat("-run-").concat(stamp);
    proof {
        reveal_strlit("-run-");
    }
    let n = dir.as_str().unicode_len();
    if n == 0 {
        Ok(name)
    } else if dir.as_str().get_char(n - 1) == '/' {
        Ok(dir.concat(name.as_str()))
    } else {
        let r = dir.concat("/").concat(name.as_str());
        proof {
            reveal_strlit("/");
        }
        assert(r@ =~= dir@ + seq!['/'] + name@);
        Ok(r)
    }
}

/// Description of the failure for a time that the stamp cannot express.
pub open spec fn out_of_range_text() -> Seq<char> {
    "time out of the supported range"@
}

/// Path of the run directory of `script` started `secs` seconds after the
/// Unix epoch, in UTC. Up to the end of the year 9999 the stamp reads
/// `YYYY-MM-DD-HH-MM-SS`.
pub fn run_dir_at_time(script: &Script, secs: u64) -> (r: Result<String, Error>)
    ensures
        secs < YEAR_10000_SECS ==> r is Ok,
        r matches Ok(d) ==> Some(d@) == run_dir_of(script.spec_path(), utc_stamp_text(secs as int)),
        secs < YEAR_10000_SECS ==> stamp_shape(utc_stamp_text(secs as int)),
        r matches Err(e) ==> e@ == ErrorView::IO(out_of_range_text()),
{
    let stamp = if secs <= i64::MAX as u64 {
        format_utc(secs as i64)
    } else {
        None
    };
    match stamp {
        Some(s) => run_dir_at(script, s.as_str()),
        None => {
            proof {
                reveal_strlit("time out of the supported range");
            }
            Err(Error::IO("time out of the supported range".to_owned()))
        },
    }
}

/// Description of the failure for a clock that reads before the Unix epoch.
pub open spec fn clock_before_epoch_text() -> Seq<char> {
    "system clock reads before the Unix epoch"@
}

/// Path of a new run directory for `script`, stamped with the current UTC
/// time. It fails only when the clock reads before the Unix epoch or beyond
/// what the stamp can express.
pub fn run_dir(script: &Script) -> (r: Result<String, Error>)
    ensures
        r matches Ok(d) ==> exists|secs: u64| Some(d@) == run_dir_of(
            script.spec_path(),
            utc_stamp_text(secs as int),
        ),
        r matches Err(e) ==> e@ == ErrorView::IO(clock_before_epoch_text()) || e@ == ErrorView::IO(
            out_of_range_text(),
        ),
{
    match unix_seconds() {
        Some(secs) => run_dir_at_time(script, secs),
        None => {
            proof {
                reveal_strlit("system clock reads before the Unix epoch");
            }
            Err(Error::IO("system clock reads before the Unix epoch".to_owned()))
        },
    }
}

/// The environment variables handed to every command of a run.
pub open spec fn environment_of(
    host: Seq<char>,
    decoder: Option<Seq<char>>,
    encoder: Option<Seq<char>>,
    script: Seq<char>,
    run_dir: Seq<char>,
) -> Seq<(Seq<char>, Seq<char>)> {
    seq![
        ("HASH_HOST"@, host),
        ("HASH_DECODER"@, decoder.unwrap_or(Seq::empty())),
        ("HASH_ENCODER"@, encoder.unwrap_or(Seq::empty())),
        ("HASH_SCRIPT"@, script),
        ("HASH_RUN_DIR"@, run_dir),
    ]
}

pub open spec fn pair_view(p: (String, String)) -> (Seq<char>, Seq<char>) {
    (p.0@, p.1@)
}

fn text_or_empty(o: &Option<String>) -> (r: String)
    ensures
        r@ == opt_view(*o).unwrap_or(Seq::empty()),
{
    match o {
        Some(s) => s.as_str().to_owned(),
        None => String::new(),
    }
}

impl Runner {
    pub closed spec fn spec_host_id(&self) -> Seq<char> {
        self.host_id@
    }

    pub closed spec fn spec_decoder(&self) -> Option<Seq<char>> {
        opt_view(self.decoder)
    }

    pub closed spec fn spec_encoder(&self) -> Option<Seq<char>> {
        opt_view(self.encoder)
    }

    /// Settings with host identifier `host_id` and the optional decoder and
    /// encoder commands.
    pub fn new(host_id: String, decoder: Option<String>, encoder: Option<String>) -> (r: Runner)
        ensures
            r.spec_host_id() == host_id@,
            r.spec_decoder() == opt_view(decoder),
            r.spec_encoder() == opt_view(encoder),
    {
        Runner { host_id, decoder, encoder }
    }

    /// Settles an invocation: a path naming a file runs that script; otherwise
    /// the directory is watched in watch mode, or swept once.
    pub fn run(
        host_id: String,
        decoder: Option<String>,
        encoder: Option<String>,
        is_file: bool,
        watch: bool,
    ) -> (r: (Runner, Mode))
        ensures
            r.0.spec_host_id() == host_id@,
            r.0.spec_decoder() == opt_view(decoder),
            r.0.spec_encoder() == opt_view(encoder),
            r.1 == if is_file {
                Mode::Script
            } else if watch {
                Mode::Watch
            } else {
                Mode::Sweep
            },
    {
        let runner = Runner::new(host_id, decoder, encoder);
        let mode = if is_file {
            Mode::Script
        } else if watch {
            Mode::Watch
        } else {
            Mode::Sweep
        };
        (runner, mode)
    }

    /// Host identifier.
    pub fn host_id(&self) -> (r: &str)
        ensures
            r@ == self.spec_host_id(),
    {
        self.host_id.as_str()
    }

    /// A run of `script` with these settings, with its first action; `wait`
    /// tells whether the caller waits for the script and captures its output.
    pub fn start(&self, script: &Script, wait: bool) -> (r: (RunDirector, Action))
        ensures
            r.1@ == ActionView::CreateDir,
            r.0@ == (RunState {
                phase: Phase::Creating,
                script: script.spec_path(),
                decoder: self.spec_decoder(),
                encoder: self.spec_encoder(),
                wait,
                held: Seq::empty(),
                failure: None,
            }),
    {
        let decoder = match &self.decoder {
            Some(c) => Some(c.as_str().to_owned()),
            None => None,
        };
        let encoder = match &self.encoder {
            Some(c) => Some(c.as_str().to_owned()),
            None => None,
        };
        RunDirector::new(script.path(), decoder, encoder, wait)
    }

    /// Environment variables for the commands of a run of `script` in `run_dir`.
    pub fn environment(&self, script: &Script, run_dir: &str) -> (r: Vec<(String, String)>)
        ensures
            r@.map_values(|p: (String, String)| pair_view(p)) == environment_of(
                self.spec_host_id(),
                self.spec_decoder(),
                self.spec_encoder(),
                script.spec_path(),
                run_dir@,
            ),
    {
        let mut r: Vec<(String, String)> = Vec::new();
        r.push((String::from_str("HASH_HOST"), self.host_id.as_str().to_owned()));
        r.push((String::from_str("HASH_DECODER"), text_or_empty(&self.decoder)));
        r.push((String::from_str("HASH_ENCODER"), text_or_empty(&self.encoder)));
        r.push((String::from_str("HASH_SCRIPT"), script.path()));
        r.push((String::from_str("HASH_RUN_DIR"), run_dir.to_owned()));
        assert(r@.map_values(|p: (String, String)| pair_view(p)) =~= environment_of(
            self.spec_host_id(),
            self.spec_decoder(),
            self.spec_encoder(),
            script.spec_path(),
            run_dir@,
        ));
        r
    }
}

} // verus!
