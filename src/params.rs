//! The run's parameters, merged from the command line and the configuration file.

use vstd::prelude::*;
use crate::text::chars_of;

verus! {

/// What the command line gives. Paths are held as strings.
#[derive(Debug, Clone, PartialEq, Eq)]
pub struct Cli {
    /// The directory in which to scan for symlink-specification files.
    pub dir: String,
    /// The base name of the symlink-specification files, if given.
    pub filename: Option<String>,
    /// The backup directory, if given.
    pub backup_dir: Option<String>,
    /// Always skip conflicting links.
    pub always_skip: bool,
    /// Always back up conflicting files.
    pub always_backup: bool,
}

/// What the configuration file gives.
#[derive(Debug, Clone, PartialEq, Eq)]
pub struct Config {
    /// The base name of the symlink-specification files.
    pub filename: String,
    /// The backup directory; it must be absolute.
    pub backup_dir: String,
    /// Always skip conflicting links.
    pub always_skip: bool,
    /// Always back up conflicting files.
    pub always_backup: bool,
}

impl Config {
    /// The configuration used when none is written yet: specification files
    /// named `sls`, backups in `backup_dir`, and no policy fixed.
    pub fn defaults(backup_dir: String) -> (r: Config)
        ensures
            r.filename@ == "sls"@,
            r.backup_dir == backup_dir,
            !r.always_skip,
            !r.always_backup,
    {
        Config { filename: "sls".to_string(), backup_dir, always_skip: false, always_backup: false }
    }
}

/// The merged parameters of a run. A value given on the command line takes
/// precedence over the configuration file.
#[derive(Debug, Clone, PartialEq, Eq)]
pub struct Params {
    pub dir: String,
    pub filename: String,
    pub backup_dir: String,
    pub always_skip: bool,
    pub always_backup: bool,
}

/// Why a command line and a configuration file cannot be merged.
#[derive(Debug, Clone, Copy, PartialEq, Eq, Structural)]
pub enum ParamsError {
    /// The configuration file gives a relative backup directory.
    RelativeBackupDir,
    /// The configuration file sets both `always_skip` and `always_backup`.
    ConflictingPolicies,
}

impl ParamsError {
    pub open spec fn spec_message(&self) -> Seq<char> {
        match self {
            ParamsError::RelativeBackupDir => "Got a relative path for backup_dir in the configuration file, but backup_dir should be absolute."@,
            ParamsError::ConflictingPolicies => "Got always_skip and always_backup set to true in the configuration file, but only one of them can be true."@,
        }
    }

    pub fn message(&self) -> (r: String)
        ensures
            r@ == self.spec_message(),
    {
        match self {
            ParamsError::RelativeBackupDir => "Got a relative path for backup_dir in the configuration file, but backup_dir should be absolute.".to_string(),
            ParamsError::ConflictingPolicies => "Got always_skip and always_backup set to true in the configuration file, but only one of them can be true.".to_string(),
        }
    }
}

/// A Unix path is absolute when it starts at the root.
pub open spec fn is_absolute(p: Seq<char>) -> bool {
    p.len() > 0 && p[0] == '/'
}

pub fn is_absolute_path(p: &str) -> (r: bool)
    ensures
        r == is_absolute(p@),
{
    let s = chars_of(p);
    s.len() > 0 && s[0] == '/'
}

pub open spec fn or_default(o: Option<String>, d: String) -> Seq<char> {
    match o {
        Some(v) => v@,
        None => d@,
    }
}

impl Params {
    /// Merges `cli` over `cfg`. The two policy flags are taken from `cli`
    /// when it sets one of them, else from `cfg`.
    pub fn new(cli: Cli, cfg: Config) -> (r: Result<Params, ParamsError>)
        requires
            !(cli.always_skip && cli.always_backup),
        ensures
            !is_absolute(cfg.backup_dir@) ==> r == Err::<Params, ParamsError>(ParamsError::RelativeBackupDir),
            is_absolute(cfg.backup_dir@) && cfg.always_skip && cfg.always_backup
                ==> r == Err::<Params, ParamsError>(ParamsError::ConflictingPolicies),
            is_absolute(cfg.backup_dir@) && !(cfg.always_skip && cfg.always_backup) ==> {
                &&& r is Ok
                &&& r->Ok_0.dir@ == cli.dir@
                &&& r->Ok_0.filename@ == or_default(cli.filename, cfg.filename)
                &&& r->Ok_0.backup_dir@ == or_default(cli.backup_dir, cfg.backup_dir)
                &&& if cli.always_skip || cli.always_backup {
                    r->Ok_0.always_skip == cli.always_skip && r->Ok_0.always_backup == cli.always_backup
                } else {
                    r->Ok_0.always_skip == cfg.always_skip && r->Ok_0.always_backup == cfg.always_backup
                }
            },
            r is Ok ==> !(r->Ok_0.always_skip && r->Ok_0.always_backup),
    {
        if !is_absolute_path(cfg.backup_dir.as_str()) {
            return Err(ParamsError::RelativeBackupDir);
        }
        if cfg.always_skip && cfg.always_backup {
            return Err(ParamsError::ConflictingPolicies);
        }
        let filename = match cli.filename {
            Some(f) => f,
            None => cfg.filename,
        };
        let backup_dir = match cli.backup_dir {
            Some(b) => b,
            None => cfg.backup_dir,
        };
        let mut always_skip = cli.always_skip;
        let mut always_backup = cli.always_backup;
        if !(always_skip || always_backup) {
            always_skip = cfg.always_skip;
            always_backup = cfg.always_backup;
        }
        Ok(Params { dir: cli.dir, filename, backup_dir, always_skip, always_backup })
    }
}

} // verus!
