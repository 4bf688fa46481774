//! Resolved kernel-command-line configuration.
//!
//! Parsing the command-line syntax is out of scope for the core: the shell
//! reads `/proc/cmdline` and hands in the already-parsed option values. This
//! module resolves their precedence — `quiet` against `easyinit.loglevel`,
//! `easyinit.crash-path` against `easyinit.crash-prefix` — and answers where
//! the crash report of this boot goes.

use crate::crash_path::Date;
use crate::crash_path::crash_name_spec;
use crate::crash_path::gen_filename;
use crate::crash_path::name_taken;
use crate::levels::LogFilter;
use vstd::prelude::*;

verus! {

/// Whether a configuration value was set, and how deliberately.
#[derive(Debug, PartialEq, Eq, PartialOrd, Ord)]
pub enum IsSet<T> {
    /// Implied by another option rather than spelled out.
    Implicit(T),
    /// Spelled out in the command line.
    Explicit(T),
    /// Not given: find it out when needed.
    Lazily,
}

/// The resolved crash-reporting preference.
#[derive(Debug)]
pub enum CrashFile {
    /// `easyinit.crash-path` was set: write to exactly this path, even over
    /// an existing file.
    Explicit(String),
    /// Allocate a fresh name under this directory prefix; the default
    /// prefix `/var/log/` suits a filesystem-hierarchy-compliant system.
    UnderPrefix(String),
}

/// Parameters passed to easyinit via the kernel command line, resolved to
/// plain values.
#[derive(Debug)]
#[non_exhaustive]
pub struct Cmdline {
    /// From the kernel's `quiet` and `easyinit.loglevel` options. `quiet`
    /// is an alias for silencing the log; `easyinit.loglevel` takes
    /// priority if both are present. Defaults to warnings.
    pub loglevel: LogFilter,
    /// From `easyinit.crash-path`, preferred over `easyinit.crash-prefix`.
    pub crash_file: CrashFile,
}

/// Precedence of the verbosity options: an explicit `easyinit.loglevel`
/// wins; otherwise `quiet` silences the log; otherwise warnings.
pub open spec fn resolved_loglevel_spec(quiet: bool, loglevel: Option<LogFilter>) -> LogFilter {
    match loglevel {
        Some(level) => level,
        None => if quiet {
            LogFilter::Off
        } else {
            LogFilter::Warn
        },
    }
}

impl Cmdline {
    /// Builds the configuration from the values parsed out of the kernel
    /// command line: the `quiet` switch, the `easyinit.loglevel` value, and
    /// the `easyinit.crash-path` and `easyinit.crash-prefix` values, each
    /// `None` when absent.
    pub fn new(
        quiet: bool,
        loglevel: Option<LogFilter>,
        crash_path: Option<String>,
        crash_prefix: Option<String>,
    ) -> (c: Cmdline)
        ensures
            c.loglevel == resolved_loglevel_spec(quiet, loglevel),
            crash_path matches Some(p) ==> (c.crash_file matches CrashFile::Explicit(f) && f
                == p),
            crash_path is None ==> (crash_prefix matches Some(pre) ==> (c.crash_file matches
                CrashFile::UnderPrefix(f) && f == pre)),
            crash_path is None && crash_prefix is None ==> (c.crash_file matches
                CrashFile::UnderPrefix(f) && f@ == "/var/log/"@),
    {
        let resolved = match loglevel {
            Some(level) => level,
            None => if quiet {
                LogFilter::Off
            } else {
                LogFilter::Warn
            },
        };
        let crash_file = match crash_path {
            Some(p) => CrashFile::Explicit(p),
            None => match crash_prefix {
                Some(pre) => CrashFile::UnderPrefix(pre),
                None => CrashFile::UnderPrefix("/var/log/".to_owned()),
            },
        };
        Cmdline { loglevel: resolved, crash_file }
    }

    /// The path the crash report of this boot goes to. An explicit
    /// `easyinit.crash-path` is used as it stands; otherwise the first free
    /// crash-artifact name under the prefix, given the prefix directory's
    /// listing and today's date.
    pub fn crash_report_path(&self, existing: &Vec<String>, today: &Date) -> (p: String)
        requires
            today.wf(),
        ensures
            self.crash_file matches CrashFile::Explicit(f) ==> p == f,
            self.crash_file matches CrashFile::UnderPrefix(pre) ==> exists|k: nat|
                {
                    &&& p@ == pre@ + crash_name_spec(*today, k)
                    &&& !name_taken(existing@, crash_name_spec(*today, k))
                    &&& forall|j: nat| j < k ==> name_taken(existing@, crash_name_spec(*today, j))
                },
    {
        match &self.crash_file {
            CrashFile::Explicit(f) => f.clone(),
            CrashFile::UnderPrefix(pre) => {
                let name = gen_filename(existing, today);
                let mut p = pre.clone();
                p.append(name.as_str());
                p
            },
        }
    }
}

impl Default for Cmdline {
    /// The configuration of an empty command line: warnings, and crash
    /// reports under `/var/log/`.
    fn default() -> (c: Cmdline)
        ensures
            c.loglevel == LogFilter::Warn,
            c.crash_file matches CrashFile::UnderPrefix(f) && f@ == "/var/log/"@,
    {
        Cmdline {
            loglevel: LogFilter::Warn,
            crash_file: CrashFile::UnderPrefix("/var/log/".to_owned()),
        }
    }
}

} // verus!
