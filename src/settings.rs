use vstd::prelude::*;

use std::path::PathBuf;

use crate::args::Args;

verus! {

/// Why the arguments cannot be used.
#[derive(Debug, PartialEq, Eq, Structural, Clone, Copy)]
pub enum SettingsError {
    InvalidInputFile,
    InvalidOutputDir,
    ForceOptionRequired,
}

/// What the file system says of the paths that the arguments name.
#[derive(Debug, Clone, Copy)]
pub struct PathFacts {
    /// The input path is an existing regular file.
    pub input_is_file: bool,
    /// The output directory path is in fact a regular file.
    pub outdir_is_file: bool,
    /// The device output file already exists.
    pub device_file_exists: bool,
    /// The operating system output file already exists.
    pub os_file_exists: bool,
    /// The user agent output file already exists.
    pub user_agent_file_exists: bool,
}

/// The first reason, checked in this order, why the arguments cannot be
/// used: a missing input file, an output directory that is a file, then an
/// output file that would be overwritten without `force`.
pub open spec fn settings_error(facts: PathFacts, force: bool) -> Option<SettingsError> {
    if !facts.input_is_file {
        Some(SettingsError::InvalidInputFile)
    } else if facts.outdir_is_file {
        Some(SettingsError::InvalidOutputDir)
    } else if !force && (facts.device_file_exists || facts.os_file_exists
        || facts.user_agent_file_exists) {
        Some(SettingsError::ForceOptionRequired)
    } else {
        None
    }
}

/// Decides whether the arguments can be used, given what the file system
/// says of their paths.
pub fn check_paths(facts: &PathFacts, force: bool) -> (r: Result<(), SettingsError>)
    ensures
        r is Ok <==> settings_error(*facts, force) is None,
        r matches Err(e) ==> settings_error(*facts, force) == Some(e),
{
    if !facts.input_is_file {
        return Err(SettingsError::InvalidInputFile);
    }
    if facts.outdir_is_file {
        return Err(SettingsError::InvalidOutputDir);
    }
    if !force && facts.device_file_exists {
        return Err(SettingsError::ForceOptionRequired);
    }
    if !force && facts.os_file_exists {
        return Err(SettingsError::ForceOptionRequired);
    }
    if !force && facts.user_agent_file_exists {
        return Err(SettingsError::ForceOptionRequired);
    }
    Ok(())
}

/// The paths that the run reads from and writes to: the rule set, and the
/// directory that receives the three output files under their names.
pub struct Settings {
    pub input_file: PathBuf,
    pub outdir: PathBuf,
    pub device_file_name: String,
    pub os_file_name: String,
    pub user_agent_file_name: String,
}

impl Settings {
    /// Settings for `args`, or the reason they cannot be used.
    pub fn try_from_facts(args: Args, facts: &PathFacts) -> (r: Result<Settings, SettingsError>)
        ensures
            r is Ok <==> settings_error(*facts, args.force) is None,
            r matches Err(e) ==> settings_error(*facts, args.force) == Some(e),
            r matches Ok(s) ==> {
                &&& s.input_file == args.input_file
                &&& s.outdir == args.outdir
                &&& s.device_file_name@ == args.device@
                &&& s.os_file_name@ == args.os@
                &&& s.user_agent_file_name@ == args.user_agent@
            },
    {
        match check_paths(facts, args.force) {
            Err(e) => Err(e),
            Ok(()) => Ok(
                Settings {
                    input_file: args.input_file,
                    outdir: args.outdir,
                    device_file_name: args.device,
                    os_file_name: args.os,
                    user_agent_file_name: args.user_agent,
                },
            ),
        }
    }
}

} // verus!
