//! The on-disk layout of the client's home directory, and the file names it
//! derives: logs, reports and sessions carry timestamps, configuration files
//! carry fixed names. The home directory itself, and the clock, come from the
//! caller's environment; everything derived from them is computed here.

use vstd::prelude::*;

verus! {

use vstd::string::StrSliceExecFns;

/// Relies on chrono's Utc::now and DateTime::format with `%Y%m%d_%H%M%S`:
/// the compact timestamp of the present moment.
#[verifier::external_body]
pub fn now_stamp() -> String {
    chrono::Utc::now().format("%Y%m%d_%H%M%S").to_string()
}

/// Relies on chrono's Utc::now and DateTime::format with `%Y%m%d`: the date
/// of the present moment.
#[verifier::external_body]
pub fn now_date() -> String {
    chrono::Utc::now().format("%Y%m%d").to_string()
}

/// Relies on chrono's Utc::now and DateTime::format with `%H%M%S`: the time
/// of day of the present moment.
#[verifier::external_body]
pub fn now_time() -> String {
    chrono::Utc::now().format("%H%M%S").to_string()
}

/// Relies on chrono's Utc::now and DateTime::timestamp_millis: the present
/// moment as milliseconds since the epoch, clamped below at zero.
#[verifier::external_body]
pub fn now_millis() -> u64 {
    let ms = chrono::Utc::now().timestamp_millis();
    if ms < 0 {
        0
    } else {
        ms as u64
    }
}

/// Joins path segments with one separator.
fn join(base: &str, rest: &str) -> (r: String)
    ensures
        r@ == base@ + "/"@ + rest@,
{
    let mut r = String::from_str(base);
    r.append("/");
    r.append(rest);
    r
}

/// The five directories the client keeps under its home.
#[derive(Debug)]
pub struct McpProbePaths {
    pub home_dir: String,
    pub logs_dir: String,
    pub reports_dir: String,
    pub sessions_dir: String,
    pub config_dir: String,
}

impl McpProbePaths {
    /// Lays the directory structure out under the given home directory.
    /// Creating the directories on disk is the caller's work.
    pub fn new(home_dir: &str) -> (r: McpProbePaths)
        ensures
            r.home_dir@ == home_dir@,
            r.logs_dir@ == home_dir@ + "/logs"@,
            r.reports_dir@ == home_dir@ + "/reports"@,
            r.sessions_dir@ == home_dir@ + "/sessions"@,
            r.config_dir@ == home_dir@ + "/config"@,
    {
        proof {
            reveal_strlit("/logs");
            reveal_strlit("logs");
            reveal_strlit("/reports");
            reveal_strlit("reports");
            reveal_strlit("/sessions");
            reveal_strlit("sessions");
            reveal_strlit("/config");
            reveal_strlit("config");
            reveal_strlit("/");
            assert("/logs"@ =~= "/"@ + "logs"@);
            assert("/reports"@ =~= "/"@ + "reports"@);
            assert("/sessions"@ =~= "/"@ + "sessions"@);
            assert("/config"@ =~= "/"@ + "config"@);
        }
        let r = McpProbePaths {
            home_dir: String::from_str(home_dir),
            logs_dir: join(home_dir, "logs"),
            reports_dir: join(home_dir, "reports"),
            sessions_dir: join(home_dir, "sessions"),
            config_dir: join(home_dir, "config"),
        };
        proof {
            assert(r.logs_dir@ =~= home_dir@ + "/logs"@);
            assert(r.reports_dir@ =~= home_dir@ + "/reports"@);
            assert(r.sessions_dir@ =~= home_dir@ + "/sessions"@);
            assert(r.config_dir@ =~= home_dir@ + "/config"@);
        }
        r
    }

    /// A log file named for this run: the name, the moment, and the log
    /// suffix under the logs directory.
    pub fn log_file(&self, name: &str) -> (r: String)
        ensures
            exists|stamp: Seq<char>|
                r@ == self.logs_dir@ + "/"@ + name@ + "-"@ + stamp + #[trigger] suffix_log(stamp),
    {
        let stamp = now_stamp();
        let ghost gs = stamp@;
        let mut file = String::from_str(name);
        file.append("-");
        file.append(stamp.as_str());
        file.append(".log");
        let r = join(self.logs_dir.as_str(), file.as_str());
        proof {
            assert(r@ =~= self.logs_dir@ + "/"@ + name@ + "-"@ + gs + suffix_log(gs));
        }
        r
    }

    /// The fixed debug log used while the interactive interface runs.
    pub fn debug_log_file(&self) -> (r: String)
        ensures
            r@ == self.logs_dir@ + "/mcp-probe-debug.log"@,
    {
        let r = join(self.logs_dir.as_str(), "mcp-probe-debug.log");
        proof {
            reveal_strlit("/mcp-probe-debug.log");
            reveal_strlit("mcp-probe-debug.log");
            reveal_strlit("/");
            assert("/mcp-probe-debug.log"@ =~= "/"@ + "mcp-probe-debug.log"@);
            assert(r@ =~= self.logs_dir@ + "/mcp-probe-debug.log"@);
        }
        r
    }

    /// A report file named by date, name, time and extension.
    pub fn report_file(&self, name: &str, extension: &str) -> (r: String)
        ensures
            exists|date: Seq<char>, time: Seq<char>|
                r@ == #[trigger] report_file_name(self.reports_dir@, date, name@, time,
                    extension@),
    {
        let date = now_date();
        let time = now_time();
        let ghost gd = date@;
        let ghost gt = time@;
        let mut file = date;
        file.append("-");
        file.append(name);
        file.append("-");
        file.append(time.as_str());
        file.append(".");
        file.append(extension);
        let r = join(self.reports_dir.as_str(), file.as_str());
        proof {
            assert(r@ =~= report_file_name(self.reports_dir@, gd, name@, gt, extension@));
        }
        r
    }

    /// A report file named by date, name and extension alone.
    pub fn dated_report_file(&self, name: &str, extension: &str) -> (r: String)
        ensures
            exists|date: Seq<char>|
                r@ == self.reports_dir@ + "/"@ + date + "-"@ + name@ + #[trigger] suffix_dot(
                    date,
                    extension@,
                ),
    {
        let date = now_date();
        let ghost gd = date@;
        let mut file = date;
        file.append("-");
        file.append(name);
        file.append(".");
        file.append(extension);
        let r = join(self.reports_dir.as_str(), file.as_str());
        proof {
            assert(r@ =~= self.reports_dir@ + "/"@ + gd + "-"@ + name@ + suffix_dot(
                gd,
                extension@,
            ));
        }
        r
    }

    /// A session file named for this run.
    pub fn session_file(&self, name: &str) -> (r: String)
        ensures
            exists|stamp: Seq<char>|
                r@ == self.sessions_dir@ + "/"@ + name@ + "-"@ + stamp + #[trigger] suffix_dot(
                    stamp,
                    "json"@,
                ),
    {
        let stamp = now_stamp();
        let ghost gs = stamp@;
        let mut file = String::from_str(name);
        file.append("-");
        file.append(stamp.as_str());
        file.append(".json");
        let r = join(self.sessions_dir.as_str(), file.as_str());
        proof {
            reveal_strlit(".json");
            reveal_strlit("json");
            reveal_strlit(".");
            assert(".json"@ =~= "."@ + "json"@);
            assert(r@ =~= self.sessions_dir@ + "/"@ + name@ + "-"@ + gs + suffix_dot(gs, "json"@));
        }
        r
    }

    /// A configuration file of the given name.
    pub fn config_file(&self, name: &str) -> (r: String)
        ensures
            r@ == self.config_dir@ + "/"@ + name@ + ".toml"@,
    {
        let mut file = String::from_str(name);
        file.append(".toml");
        let r = join(self.config_dir.as_str(), file.as_str());
        proof {
            assert(r@ =~= self.config_dir@ + "/"@ + name@ + ".toml"@);
        }
        r
    }

    /// The default configuration file.
    pub fn default_config_file(&self) -> (r: String)
        ensures
            r@ == self.config_dir@ + "/"@ + "mcp-probe"@ + ".toml"@,
    {
        self.config_file("mcp-probe")
    }

    /// A scratch file under the home directory.
    pub fn temp_file(&self, name: &str, extension: &str) -> (r: String)
        ensures
            exists|stamp: Seq<char>|
                r@ == self.home_dir@ + "/"@ + name@ + "-"@ + stamp + #[trigger] suffix_dot(
                    stamp,
                    extension@,
                ),
    {
        let stamp = now_stamp();
        let ghost gs = stamp@;
        let mut file = String::from_str(name);
        file.append("-");
        file.append(stamp.as_str());
        file.append(".");
        file.append(extension);
        let r = join(self.home_dir.as_str(), file.as_str());
        proof {
            assert(r@ =~= self.home_dir@ + "/"@ + name@ + "-"@ + gs + suffix_dot(gs, extension@));
        }
        r
    }

    /// The given path with the home directory and its separator stripped:
    /// `Some(rest)` exactly when the path is the home directory, a
    /// separator, and `rest`; `None` on every other path.
    pub fn relative_to_home(&self, path: &str) -> (r: Option<String>)
        ensures
            match r {
                Some(rest) => path@ == self.home_dir@ + "/"@ + rest@,
                None => forall|rest: Seq<char>| path@ != #[trigger] (self.home_dir@ + "/"@
                    + rest),
            },
    {
        let prefix = join(self.home_dir.as_str(), "");
        let n = prefix.as_str().unicode_len();
        let total = String::from_str(path).as_str().unicode_len();
        proof {
            reveal_strlit("");
            reveal_strlit("/");
            assert(""@.len() == 0 && "/"@.len() == 1);
            assert(self.home_dir@ + "/"@ + ""@ =~= self.home_dir@ + "/"@);
            assert(prefix@.len() == self.home_dir@.len() + 1);
        }
        if total < n {
            proof {
                assert forall|rest: Seq<char>| path@ != #[trigger] (self.home_dir@ + "/"@
                    + rest) by {
                    assert((self.home_dir@ + "/"@ + rest).len() >= n as int);
                }
            }
            return None;
        }
        let p = String::from_str(path);
        let head = p.as_str().substring_char(0, n);
        if crate::correlation::str_eq(head, prefix.as_str()) {
            let rest = p.as_str().substring_char(n, total);
            proof {
                assert(path@ =~= path@.subrange(0, n as int) + path@.subrange(
                    n as int,
                    total as int,
                ));
                assert(path@ =~= self.home_dir@ + "/"@ + rest@);
            }
            Some(String::from_str(rest))
        } else {
            proof {
                assert(head@ == path@.subrange(0, n as int));
                assert(head@ != prefix@);
                assert forall|rest: Seq<char>| path@ != #[trigger] (self.home_dir@ + "/"@
                    + rest) by {
                    if path@ == self.home_dir@ + "/"@ + rest {
                        assert(path@.subrange(0, n as int) =~= self.home_dir@ + "/"@);
                        assert(head@ =~= prefix@);
                    }
                }
            }
            None
        }
    }
}

/// The shape of a report file name: the directory, the date, the name, the
/// time and the extension.
pub open spec fn report_file_name(
    dir: Seq<char>,
    date: Seq<char>,
    name: Seq<char>,
    time: Seq<char>,
    ext: Seq<char>,
) -> Seq<char> {
    dir + "/"@ + date + "-"@ + name + "-"@ + time + "."@ + ext
}

/// The log suffix, once the stamp ends.
pub open spec fn suffix_log(stamp: Seq<char>) -> Seq<char> {
    ".log"@
}

/// A dot and the extension, once the stamp ends.
pub open spec fn suffix_dot(stamp: Seq<char>, extension: Seq<char>) -> Seq<char> {
    "."@ + extension
}

/// The directory layout under the given home directory.
pub fn get_mcp_probe_paths(home_dir: &str) -> (r: McpProbePaths)
    ensures
        r.home_dir@ == home_dir@,
        r.reports_dir@ == home_dir@ + "/reports"@,
        r.logs_dir@ == home_dir@ + "/logs"@,
        r.sessions_dir@ == home_dir@ + "/sessions"@,
{
    McpProbePaths::new(home_dir)
}

/// A dated report path under the given home directory.
pub fn get_report_path(home_dir: &str, name: &str, extension: &str) -> (r: String)
    ensures
        exists|date: Seq<char>, time: Seq<char>|
            r@ == #[trigger] report_file_name(home_dir@ + "/reports"@, date, name@, time,
                extension@),
{
    get_mcp_probe_paths(home_dir).report_file(name, extension)
}

/// A stamped log path under the given home directory.
pub fn get_log_path(home_dir: &str, name: &str) -> (r: String)
    ensures
        exists|stamp: Seq<char>|
            r@ == home_dir@ + "/logs"@ + "/"@ + name@ + "-"@ + stamp + #[trigger] suffix_log(
                stamp,
            ),
{
    get_mcp_probe_paths(home_dir).log_file(name)
}

/// A stamped session path under the given home directory.
pub fn get_session_path(home_dir: &str, name: &str) -> (r: String)
    ensures
        exists|stamp: Seq<char>|
            r@ == home_dir@ + "/sessions"@ + "/"@ + name@ + "-"@ + stamp + #[trigger] suffix_dot(
                stamp,
                "json"@,
            ),
{
    get_mcp_probe_paths(home_dir).session_file(name)
}

/// The decimal digit characters of a non-negative number, most significant
/// first.
pub open spec fn dec_chars(n: nat) -> Seq<char>
    decreases n,
{
    if n < 10 {
        seq![digit_char(n)]
    } else {
        dec_chars(n / 10) + seq![digit_char(n % 10)]
    }
}

/// The character of one decimal digit.
pub open spec fn digit_char(d: nat) -> char {
    if d == 0 {
        '0'
    } else if d == 1 {
        '1'
    } else if d == 2 {
        '2'
    } else if d == 3 {
        '3'
    } else if d == 4 {
        '4'
    } else if d == 5 {
        '5'
    } else if d == 6 {
        '6'
    } else if d == 7 {
        '7'
    } else if d == 8 {
        '8'
    } else {
        '9'
    }
}

/// The string of one decimal digit.
fn digit_str(d: u64) -> (r: &'static str)
    requires
        d < 10,
    ensures
        r@ == seq![digit_char(d as nat)],
{
    proof {
        reveal_strlit("0");
        reveal_strlit("1");
        reveal_strlit("2");
        reveal_strlit("3");
        reveal_strlit("4");
        reveal_strlit("5");
        reveal_strlit("6");
        reveal_strlit("7");
        reveal_strlit("8");
        reveal_strlit("9");
        assert("0"@ =~= seq!['0']);
        assert("1"@ =~= seq!['1']);
        assert("2"@ =~= seq!['2']);
        assert("3"@ =~= seq!['3']);
        assert("4"@ =~= seq!['4']);
        assert("5"@ =~= seq!['5']);
        assert("6"@ =~= seq!['6']);
        assert("7"@ =~= seq!['7']);
        assert("8"@ =~= seq!['8']);
        assert("9"@ =~= seq!['9']);
    }
    if d == 0 {
        "0"
    } else if d == 1 {
        "1"
    } else if d == 2 {
        "2"
    } else if d == 3 {
        "3"
    } else if d == 4 {
        "4"
    } else if d == 5 {
        "5"
    } else if d == 6 {
        "6"
    } else if d == 7 {
        "7"
    } else if d == 8 {
        "8"
    } else {
        "9"
    }
}

/// Appends the decimal digits of `n`.
fn append_u64(n: u64, s: &mut String)
    ensures
        final(s)@ == old(s)@ + dec_chars(n as nat),
    decreases n,
{
    if n >= 10 {
        append_u64(n / 10, s);
    }
    s.append(digit_str(n % 10));
}

/// The number as decimal text.
pub fn u64_to_string(n: u64) -> (r: String)
    ensures
        r@ == dec_chars(n as nat),
{
    let mut s = String::new();
    append_u64(n, &mut s);
    s
}

/// The rendering of a byte count: plain bytes below one kibibyte, otherwise
/// the count scaled to the largest of three binary units that keeps it at or
/// over one, with one decimal digit, rounded to the nearest tenth, ties up.
pub open spec fn file_size_chars(bytes: nat) -> Seq<char> {
    if bytes < 1024 {
        dec_chars(bytes) + " B"@
    } else {
        let d = size_divisor(bytes);
        let tenths = (10 * bytes + d / 2) as int / (d as int);
        dec_chars((tenths as nat) / 10) + "."@ + seq![digit_char((tenths as nat) % 10)]
            + size_unit(bytes)
    }
}

/// The divisor of the unit a byte count is shown in.
pub open spec fn size_divisor(bytes: nat) -> nat {
    if bytes < 1048576 {
        1024
    } else if bytes < 1073741824 {
        1048576
    } else {
        1073741824
    }
}

/// The unit suffix a byte count is shown with.
pub open spec fn size_unit(bytes: nat) -> Seq<char> {
    if bytes < 1048576 {
        " KB"@
    } else if bytes < 1073741824 {
        " MB"@
    } else {
        " GB"@
    }
}

/// Renders a byte count exactly as `file_size_chars` prescribes.
pub fn format_file_size(bytes: u64) -> (r: String)
    ensures
        r@ == file_size_chars(bytes as nat),
{
    if bytes < 1024 {
        let mut s = u64_to_string(bytes);
        s.append(" B");
        return s;
    }
    let (d, unit): (u64, &'static str) = if bytes < 1048576 {
        (1024, " KB")
    } else if bytes < 1073741824 {
        (1048576, " MB")
    } else {
        (1073741824, " GB")
    };
    let tenths128 = (10u128 * (bytes as u128) + ((d / 2) as u128)) / (d as u128);
    proof {
        let b = bytes as int;
        let dd = d as int;
        assert((10 * b + dd / 2) / dd <= (10 * b + dd) / dd) by {
            vstd::arithmetic::div_mod::lemma_div_is_ordered(10 * b + dd / 2, 10 * b + dd, dd);
        }
        assert((10 * b + dd) / dd <= 10 * b / dd + 1) by (nonlinear_arith)
            requires
                dd >= 1024,
                b >= 0,
        ;
        assert(10 * b / dd <= 10 * b / 1024) by {
            vstd::arithmetic::div_mod::lemma_div_is_ordered_by_denominator(10 * b, 1024, dd);
        }
        assert(10 * b / 1024 < u64::MAX) by (nonlinear_arith)
            requires
                b <= u64::MAX,
        ;
    }
    let tenths = tenths128 as u64;
    let mut s = u64_to_string(tenths / 10);
    s.append(".");
    s.append(digit_str(tenths % 10));
    s.append(unit);
    s
}

} // verus!
