//! Browsing and restoring backed-up versions: the records exchanged with the GUI and
//! the errors the restore commands report.
use vstd::prelude::*;
use crate::error::{envelope_message, ErrorEnvelope};

verus! {

/// One recovery version of a source.
#[derive(Debug)]
pub struct VersionInfoDto {
    pub id: String,
    pub created_at_unix: i64,
}

/// The recovery versions of one source folder.
#[derive(Debug)]
pub struct FolderVersionsDto {
    pub source_path: String,
    pub versions: Vec<VersionInfoDto>,
}

/// Where restored files go.
#[derive(Debug)]
pub enum RestoreModeDto {
    InPlace,
    ToDirectory,
}

/// A request to restore a whole version.
#[derive(Debug)]
pub struct RestoreArgs {
    pub source_path: String,
    pub version_id: String,
    pub mode: RestoreModeDto,
    pub target_dir: Option<String>,
}

/// What a restore did.
#[derive(Debug)]
pub struct RestoreResultDto {
    pub files_written: usize,
    pub files_removed: usize,
    pub dirs_created: usize,
}

/// One file inside a recovery version.
#[derive(Debug)]
pub struct VersionFileInfoDto {
    pub rel_path: String,
    pub len: u64,
    pub mtime_unix: i64,
    pub mtime_nanos: u32,
    pub sha256: String,
}

/// A page of the files inside a recovery version, with the total count.
#[derive(Debug)]
pub struct ListVersionFilesResultDto {
    pub total_files: usize,
    pub files: Vec<VersionFileInfoDto>,
}

/// A request to list the files inside a recovery version.
#[derive(Debug)]
pub struct ListVersionFilesArgs {
    pub source_path: String,
    pub version_id: String,
    pub query: Option<String>,
    pub limit: Option<usize>,
}

/// A request to restore chosen files of a version.
#[derive(Debug)]
pub struct RestoreFilesArgs {
    pub source_path: String,
    pub version_id: String,
    pub rel_paths: Vec<String>,
    pub mode: RestoreModeDto,
    pub target_dir: Option<String>,
}

/// The number of files listed when the request names no limit.
pub const DEFAULT_FILE_LIST_LIMIT: usize = 200;

/// The listing limit: the requested one, or 200.
pub fn file_list_limit(args: &ListVersionFilesArgs) -> (r: usize)
    ensures
        r == match args.limit { Some(l) => l, None => DEFAULT_FILE_LIST_LIMIT },
{
    match args.limit {
        Some(l) => l,
        None => DEFAULT_FILE_LIST_LIMIT,
    }
}

/// The restore commands, by the name their messages use.
#[derive(Debug)]
pub enum RestoreCommand {
    ListVersions,
    ListVersionFiles,
    RestoreVersion,
    RestoreFiles,
}

/// The name a restore command's messages use.
pub open spec fn command_name(c: RestoreCommand) -> Seq<char> {
    match c {
        RestoreCommand::ListVersions => "list_versions_cmd"@,
        RestoreCommand::ListVersionFiles => "list_version_files_cmd"@,
        RestoreCommand::RestoreVersion => "restore_version_cmd"@,
        RestoreCommand::RestoreFiles => "restore_files_cmd"@,
    }
}

/// The error code of a failed restore command.
pub open spec fn failure_code(c: RestoreCommand) -> Seq<char> {
    match c {
        RestoreCommand::ListVersions => "LIST_FAILED"@,
        RestoreCommand::ListVersionFiles => "LIST_FILES_FAILED"@,
        RestoreCommand::RestoreVersion => "RESTORE_FAILED"@,
        RestoreCommand::RestoreFiles => "RESTORE_FILES_FAILED"@,
    }
}

fn name_of(c: &RestoreCommand) -> (r: &'static str)
    ensures
        r@ == command_name(*c),
{
    match c {
        RestoreCommand::ListVersions => "list_versions_cmd",
        RestoreCommand::ListVersionFiles => "list_version_files_cmd",
        RestoreCommand::RestoreVersion => "restore_version_cmd",
        RestoreCommand::RestoreFiles => "restore_files_cmd",
    }
}

/// The error when a restore command cannot load the configuration.
pub fn config_load_error(command: RestoreCommand, cid: &str, detail: &str) -> (r: ErrorEnvelope)
    ensures
        r.code@ == "CONFIG_LOAD"@,
        r.message@ == envelope_message("CONFIG_LOAD"@,
            "[cid="@ + cid@ + "] "@ + command_name(command) + " failed to load config: "@ + detail@),
{
    let mut text = String::from_str(name_of(&command));
    crate::text::push_str(&mut text, " failed to load config: ");
    let e = ErrorEnvelope::with_cid("CONFIG_LOAD", cid, text.as_str(), detail);
    proof {
        assert("[cid="@ + cid@ + "] "@ + text@ + detail@ =~=
            "[cid="@ + cid@ + "] "@ + command_name(command) + " failed to load config: "@ + detail@);
    }
    e
}

/// The error when a restore command's own work fails.
pub fn command_failure(command: RestoreCommand, cid: &str, detail: &str) -> (r: ErrorEnvelope)
    ensures
        r.code@ == failure_code(command),
        r.message@ == envelope_message(failure_code(command),
            "[cid="@ + cid@ + "] "@ + command_name(command) + " failed: "@ + detail@),
{
    let code = match command {
        RestoreCommand::ListVersions => "LIST_FAILED",
        RestoreCommand::ListVersionFiles => "LIST_FILES_FAILED",
        RestoreCommand::RestoreVersion => "RESTORE_FAILED",
        RestoreCommand::RestoreFiles => "RESTORE_FILES_FAILED",
    };
    let mut text = String::from_str(name_of(&command));
    crate::text::push_str(&mut text, " failed: ");
    let e = ErrorEnvelope::with_cid(code, cid, text.as_str(), detail);
    proof {
        assert("[cid="@ + cid@ + "] "@ + text@ + detail@ =~=
            "[cid="@ + cid@ + "] "@ + command_name(command) + " failed: "@ + detail@);
    }
    e
}

} // verus!
