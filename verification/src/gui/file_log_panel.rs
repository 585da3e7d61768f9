use vstd::prelude::*;

use crate::generalsettings::{log_filename, AppSettings};

verus! {

/// The file-logging panel: the path to log to, the toggle button's label,
/// and whether a log file is currently open. The file handle itself lives
/// with the surrounding runtime; this panel only decides.
pub struct FileLogPanel {
    pub file_path: String,
    pub button_text: String,
    pub logging: bool,
}

impl FileLogPanel {
    /// Not logging, offering to start, aimed at the given path.
    pub fn new(default_path: String) -> (r: Self)
        ensures
            r.file_path@ == default_path@,
            r.button_text@ == "Start logging"@,
            !r.logging,
    {
        FileLogPanel {
            file_path: default_path,
            button_text: String::from_str("Start logging"),
            logging: false,
        }
    }

    /// A stamped log-file name for the current settings, placed in the
    /// given directory if one is known.
    pub fn generate_filename(&self, settings: &AppSettings, dir: Option<&str>) -> (r: String)
        ensures
            dir matches Some(d) ==> exists|ts: Seq<char>|
                r@ == log_filename(
                    Some(d@),
                    settings.log_file_default_name@,
                    ts,
                    settings.log_file_default_extension@,
                ),
            dir is None ==> exists|ts: Seq<char>|
                r@ == log_filename(
                    None,
                    settings.log_file_default_name@,
                    ts,
                    settings.log_file_default_extension@,
                ),
    {
        settings.generate_log_filename(dir)
    }

    /// Record that the runtime opened the log file at the current path: the
    /// button now offers to stop.
    pub fn begin_logging(&mut self)
        ensures
            final(self).logging,
            final(self).button_text@ == "Stop logging"@,
            final(self).file_path@ == old(self).file_path@,
    {
        self.logging = true;
        self.button_text = String::from_str("Stop logging");
    }

    /// Stop logging and pick a fresh stamped path for the next session; the
    /// runtime drops its file handle alongside.
    pub fn end_logging(&mut self, settings: &AppSettings, dir: Option<&str>)
        ensures
            !final(self).logging,
            final(self).button_text@ == "Start logging"@,
            dir matches Some(d) ==> exists|ts: Seq<char>|
                final(self).file_path@ == log_filename(
                    Some(d@),
                    settings.log_file_default_name@,
                    ts,
                    settings.log_file_default_extension@,
                ),
            dir is None ==> exists|ts: Seq<char>|
                final(self).file_path@ == log_filename(
                    None,
                    settings.log_file_default_name@,
                    ts,
                    settings.log_file_default_extension@,
                ),
    {
        self.logging = false;
        self.button_text = String::from_str("Start logging");
        self.file_path = settings.generate_log_filename(dir);
    }

    /// Whether a log file is currently open.
    pub fn is_logging(&self) -> (r: bool)
        ensures
            r == self.logging,
    {
        self.logging
    }
}

impl Default for FileLogPanel {
    /// Aimed at the default path, not logging.
    fn default() -> (r: Self)
        ensures
            r.file_path@ == "LogFile.txt"@,
            r.button_text@ == "Start logging"@,
            !r.logging,
    {
        FileLogPanel::new(String::from_str("LogFile.txt"))
    }
}

} // verus!
