//! Checks that the two tools are there before a command uses them.

use vstd::prelude::*;
use crate::error::{CmdError, TranscodeError, TranscodeErrorView};
use crate::locator::{found, resolve, resolved, ToolLookup};

verus! {

/// The path of the encoder: the copy on the search path where there is one,
/// else the bundled copy. Without either the encoder is reported missing.
pub fn find_ffmpeg(lookup: &ToolLookup) -> (r: Result<String, TranscodeError>)
    ensures
        match r {
            Ok(path) => resolved("ffmpeg"@, lookup@) is Ok && path@ == resolved(
                "ffmpeg"@,
                lookup@,
            )->Ok_0.0,
            Err(e) => !found(lookup@) && e@ == TranscodeErrorView::ToolNotFound("ffmpeg"@),
        },
{
    match resolve("ffmpeg", lookup) {
        Ok((path, _)) => Ok(path),
        Err(e) => Err(e),
    }
}

/// The path of the probe: the copy on the search path where there is one,
/// else the bundled copy. Without either the probe is reported missing.
pub fn find_ffprobe(lookup: &ToolLookup) -> (r: Result<String, TranscodeError>)
    ensures
        match r {
            Ok(path) => resolved("ffprobe"@, lookup@) is Ok && path@ == resolved(
                "ffprobe"@,
                lookup@,
            )->Ok_0.0,
            Err(e) => !found(lookup@) && e@ == TranscodeErrorView::ToolNotFound("ffprobe"@),
        },
{
    match resolve("ffprobe", lookup) {
        Ok((path, _)) => Ok(path),
        Err(e) => Err(e),
    }
}

/// Succeeds exactly where the encoder was found.
pub fn ensure_ffmpeg(lookup: &ToolLookup) -> (r: Result<(), CmdError>)
    ensures
        r is Ok <==> found(lookup@),
        r is Err ==> r->Err_0@.message == TranscodeErrorView::ToolNotFound("ffmpeg"@).message(),
{
    match find_ffmpeg(lookup) {
        Ok(_) => Ok(()),
        Err(e) => Err(CmdError::from(e)),
    }
}

/// Succeeds exactly where the probe was found.
pub fn ensure_ffprobe(lookup: &ToolLookup) -> (r: Result<(), CmdError>)
    ensures
        r is Ok <==> found(lookup@),
        r is Err ==> r->Err_0@.message == TranscodeErrorView::ToolNotFound("ffprobe"@).message(),
{
    match find_ffprobe(lookup) {
        Ok(_) => Ok(()),
        Err(e) => Err(CmdError::from(e)),
    }
}

} // verus!
