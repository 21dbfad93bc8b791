//! Locations of the recorder's configuration, history and output files.
//!
//! Paths are built with the Windows separator. The platform's base
//! directories come from the environment, so only the shape of each result is
//! promised.

use vstd::prelude::*;
use vstd::string::StringExecFns;
use crate::error::RecorderError;

verus! {

/// `s` ends with `suffix`.
pub open spec fn spec_ends_with(s: Seq<char>, suffix: Seq<char>) -> bool {
    s.len() >= suffix.len() && s.subrange(s.len() - suffix.len(), s.len() as int) == suffix
}

/// Relies on dirs::data_dir: the platform's application-data directory, if
/// one is known. The value depends on the environment, so nothing is promised
/// of it.
#[verifier::external_body]
pub(crate) fn data_dir_string() -> (r: Option<String>) {
    dirs::data_dir().map(|p| p.to_string_lossy().to_string())
}

/// Relies on dirs::document_dir: the user's documents directory, if one is
/// known. The value depends on the environment, so nothing is promised of it.
#[verifier::external_body]
pub(crate) fn document_dir_string() -> (r: Option<String>) {
    dirs::document_dir().map(|p| p.to_string_lossy().to_string())
}

/// The recorder's application-data directory: the platform data directory
/// plus the application folder. Fails with a file error when the platform
/// knows no data directory.
pub fn get_app_data_dir() -> (r: Result<String, RecorderError>)
    ensures
        r matches Ok(p) ==> spec_ends_with(p@, "\\RecordFlow"@),
        r matches Err(e) ==> e.is_file_error(),
{
    let base: String = match data_dir_string() {
        Some(b) => b,
        None => {
            return Err(
                RecorderError::file_error(
                    "Could not resolve the application data directory",
                ),
            );
        },
    };
    let joined = base.concat("\\RecordFlow");
    proof {
        reveal_strlit("\\RecordFlow");
        assert(joined@.subrange(
            joined@.len() - "\\RecordFlow"@.len(),
            joined@.len() as int,
        ) =~= "\\RecordFlow"@);
    }
    Ok(joined)
}

/// The default folder for finished recordings, under the user's documents.
/// Fails with a file error when the platform knows no documents directory.
pub fn get_default_recordings_path() -> (r: Result<String, RecorderError>)
    ensures
        r matches Ok(p) ==> spec_ends_with(p@, "\\RecordFlow\\Recordings"@),
        r matches Err(e) ==> e.is_file_error(),
{
    let docs: String = match document_dir_string() {
        Some(d) => d,
        None => {
            return Err(
                RecorderError::file_error("Could not resolve the documents directory"),
            );
        },
    };
    let joined = docs.concat("\\RecordFlow\\Recordings");
    proof {
        reveal_strlit("\\RecordFlow\\Recordings");
        assert(joined@.subrange(
            joined@.len() - "\\RecordFlow\\Recordings"@.len(),
            joined@.len() as int,
        ) =~= "\\RecordFlow\\Recordings"@);
    }
    Ok(joined)
}

/// The configuration file inside the application-data directory.
pub fn get_config_path() -> (r: Result<String, RecorderError>)
    ensures
        r matches Ok(p) ==> spec_ends_with(p@, "\\RecordFlow\\config.json"@),
        r matches Err(e) ==> e.is_file_error(),
{
    let dir: String = match get_app_data_dir() {
        Ok(d) => d,
        Err(e) => {
            return Err(e);
        },
    };
    let joined = dir.concat("\\config.json");
    proof {
        reveal_strlit("\\RecordFlow");
        reveal_strlit("\\config.json");
        reveal_strlit("\\RecordFlow\\config.json");
        let dlen = dir@.len() as int;
        let jlen = joined@.len() as int;
        assert(joined@.subrange(jlen - 23, jlen) =~= dir@.subrange(dlen - 11, dlen)
            + "\\config.json"@);
        assert(joined@.subrange(jlen - 23, jlen) =~= "\\RecordFlow\\config.json"@);
    }
    Ok(joined)
}

/// The history file inside the application-data directory.
pub fn get_history_path() -> (r: Result<String, RecorderError>)
    ensures
        r matches Ok(p) ==> spec_ends_with(p@, "\\RecordFlow\\history.json"@),
        r matches Err(e) ==> e.is_file_error(),
{
    let dir: String = match get_app_data_dir() {
        Ok(d) => d,
        Err(e) => {
            return Err(e);
        },
    };
    let joined = dir.concat("\\history.json");
    proof {
        reveal_strlit("\\RecordFlow");
        reveal_strlit("\\history.json");
        reveal_strlit("\\RecordFlow\\history.json");
        let dlen = dir@.len() as int;
        let jlen = joined@.len() as int;
        assert(joined@.subrange(jlen - 24, jlen) =~= dir@.subrange(dlen - 11, dlen)
            + "\\history.json"@);
        assert(joined@.subrange(jlen - 24, jlen) =~= "\\RecordFlow\\history.json"@);
    }
    Ok(joined)
}

} // verus!
