use vstd::prelude::*;

verus! {

/// Relies on chrono's Local::now rendered by DateTime::format: the current
/// local time as a timestamp in the one pattern log-file names use, for
/// which formatting cannot fail. The value depends on the clock, so nothing
/// is promised of it.
#[verifier::external_body]
fn now_timestamp(pattern: &str) -> (r: String)
    requires
        pattern@ == "%Y-%m-%d_%H-%M-%S"@,
{
    chrono::Local::now().format(pattern).to_string()
}

/// Application-wide settings a user can edit.
#[derive(Clone, Debug)]
pub struct AppSettings {
    pub max_log_string_length: usize,
    pub log_file_default_name: String,
    pub log_file_default_extension: String,
    pub clear_message_after_send: bool,
    pub auto_scroll_log: bool,
    pub update_check_on_startup: bool,
    pub repaint_interval_ms: u64,
    pub byte_mode: bool,
}

impl Default for AppSettings {
    /// The settings the application starts with.
    fn default() -> (r: Self)
        ensures
            r.max_log_string_length == 30000,
            r.log_file_default_name@ == "LogFile"@,
            r.log_file_default_extension@ == ".txt"@,
            !r.clear_message_after_send,
            r.auto_scroll_log,
            r.update_check_on_startup,
            r.repaint_interval_ms == 50,
            !r.byte_mode,
    {
        AppSettings {
            max_log_string_length: 30000,
            log_file_default_name: String::from_str("LogFile"),
            log_file_default_extension: String::from_str(".txt"),
            clear_message_after_send: false,
            auto_scroll_log: true,
            update_check_on_startup: true,
            repaint_interval_ms: 50,
            byte_mode: false,
        }
    }
}

/// The extension with its leading dots removed.
pub open spec fn trim_leading_dots(s: Seq<char>) -> Seq<char>
    decreases s.len(),
{
    if s.len() > 0 && s[0] == '.' {
        trim_leading_dots(s.drop_first())
    } else {
        s
    }
}

/// The log-file name for a base name, a timestamp and an extension: inside
/// a directory the extension's leading dots are normalized away before one
/// dot is put back; without a directory name, timestamp and extension are
/// simply joined.
pub open spec fn log_filename(
    dir: Option<Seq<char>>,
    name: Seq<char>,
    ts: Seq<char>,
    ext: Seq<char>,
) -> Seq<char> {
    match dir {
        Some(d) => d + seq!['/'] + name + seq!['_'] + ts + seq!['.'] + trim_leading_dots(ext),
        None => name + seq!['_'] + ts + ext,
    }
}

proof fn lemma_trim_skip(s: Seq<char>, i: int)
    requires
        0 <= i <= s.len(),
        forall|j: int| 0 <= j < i ==> s[j] == '.',
        i < s.len() ==> s[i] != '.',
    ensures
        trim_leading_dots(s) == s.skip(i),
    decreases i,
{
    if i == 0 {
        assert(s.skip(0) =~= s);
    } else {
        assert(s[0] == '.');
        lemma_trim_skip(s.drop_first(), i - 1);
        assert(s.skip(i) =~= s.drop_first().skip(i - 1));
    }
}

fn trim_dots(s: &str) -> (r: String)
    ensures
        r@ == trim_leading_dots(s@),
{
    let n = s.unicode_len();
    let mut i: usize = 0;
    loop
        invariant_except_break
            i <= n,
            n == s@.len(),
            forall|j: int| 0 <= j < i ==> s@[j] == '.',
        ensures
            i <= n,
            n == s@.len(),
            forall|j: int| 0 <= j < i ==> s@[j] == '.',
            i < n ==> s@[i as int] != '.',
        decreases n - i,
    {
        if i == n {
            break;
        }
        if s.get_char(i) != '.' {
            break;
        }
        i += 1;
    }
    let tail = s.substring_char(i, n);
    proof {
        lemma_trim_skip(s@, i as int);
        assert(tail@ =~= s@.skip(i as int));
    }
    tail.to_owned()
}

/// Build the log-file name from its parts, exactly as `log_filename`
/// describes.
pub fn compose_log_filename(
    dir: Option<&str>,
    name: &str,
    timestamp: &str,
    extension: &str,
) -> (r: String)
    ensures
        dir matches Some(d) ==> r@ == log_filename(Some(d@), name@, timestamp@, extension@),
        dir is None ==> r@ == log_filename(None, name@, timestamp@, extension@),
{
    proof {
        reveal_strlit("/");
        reveal_strlit("_");
        reveal_strlit(".");
    }
    match dir {
        Some(d) => {
            let mut r = d.to_owned();
            r.append("/");
            r.append(name);
            r.append("_");
            r.append(timestamp);
            r.append(".");
            let t = trim_dots(extension);
            r.append(t.as_str());
            proof {
                assert(r@ =~= d@ + seq!['/'] + name@ + seq!['_'] + timestamp@ + seq!['.']
                    + trim_leading_dots(extension@));
            }
            r
        },
        None => {
            let mut r = name.to_owned();
            r.append("_");
            r.append(timestamp);
            r.append(extension);
            proof {
                assert(r@ =~= name@ + seq!['_'] + timestamp@ + extension@);
            }
            r
        },
    }
}

impl AppSettings {
    /// A log-file name carrying the current local time, placed in the given
    /// directory if one is known.
    pub fn generate_log_filename(&self, dir: Option<&str>) -> (r: String)
        ensures
            dir matches Some(d) ==> exists|ts: Seq<char>|
                r@ == log_filename(
                    Some(d@),
                    self.log_file_default_name@,
                    ts,
                    self.log_file_default_extension@,
                ),
            dir is None ==> exists|ts: Seq<char>|
                r@ == log_filename(
                    None,
                    self.log_file_default_name@,
                    ts,
                    self.log_file_default_extension@,
                ),
    {
        let stamp = now_timestamp("%Y-%m-%d_%H-%M-%S");
        let r = compose_log_filename(
            dir,
            self.log_file_default_name.as_str(),
            stamp.as_str(),
            self.log_file_default_extension.as_str(),
        );
        r
    }
}

} // verus!
