//! The binary locator: which copy of a tool is used.
//!
//! A tool is looked for on the execution search path first and among the
//! locations bundled with the application second. Nothing is remembered
//! between two resolutions, so a tool that is installed while the
//! application runs is found the next time.

use vstd::prelude::*;
use vstd::string::StringExecFns;
use crate::error::{TranscodeError, TranscodeErrorView};

verus! {

/// Where a tool was found.
#[derive(Debug, Clone, Copy, PartialEq, Eq, Structural)]
pub enum FfmpegSource {
    /// On the execution search path.
    System,
    /// In a location bundled with the application.
    Filesystem,
}

/// What the environment answered when it was asked for one tool.
#[derive(Debug, Clone, PartialEq, Eq)]
pub struct ToolLookup {
    /// The tool's path on the execution search path, if it is there.
    pub system: Option<String>,
    /// The first bundled location at which the tool exists, if there is one.
    pub bundled: Option<String>,
}

/// What a `ToolLookup` holds.
pub struct ToolLookupView {
    pub system: Option<Seq<char>>,
    pub bundled: Option<Seq<char>>,
}

impl View for ToolLookup {
    type V = ToolLookupView;

    open spec fn view(&self) -> ToolLookupView {
        ToolLookupView { system: self.system.deep_view(), bundled: self.bundled.deep_view() }
    }
}

impl DeepView for ToolLookup {
    type V = ToolLookupView;

    open spec fn deep_view(&self) -> ToolLookupView {
        self@
    }
}

/// The bundled locations of the file `name`, in the order in which they are
/// tried: the development tree, then beside the executable, then the
/// installer's resource directory beside the executable.
pub open spec fn bundled_paths(name: Seq<char>, exe_dir: Option<Seq<char>>) -> Seq<Seq<char>> {
    match exe_dir {
        None => seq!["binaries/windows/"@ + name],
        Some(dir) => seq![
            "binaries/windows/"@ + name,
            dir + "/"@ + name,
            dir + "/resources/binaries/windows/"@ + name,
        ],
    }
}

/// The first of `candidates` that is marked present; a candidate without a
/// mark counts as absent.
pub open spec fn first_present(candidates: Seq<Seq<char>>, present: Seq<bool>, from: int) -> Option<
    Seq<char>,
>
    decreases candidates.len() - from,
{
    if from < 0 || from >= candidates.len() || from >= present.len() {
        None
    } else if present[from] {
        Some(candidates[from])
    } else {
        first_present(candidates, present, from + 1)
    }
}

/// The copy of the tool `name` that is used, and where it comes from: the
/// one on the search path where there is one, else the bundled one, else
/// none.
pub open spec fn resolved(name: Seq<char>, lookup: ToolLookupView) -> Result<
    (Seq<char>, FfmpegSource),
    TranscodeErrorView,
> {
    match lookup.system {
        Some(path) => Ok((path, FfmpegSource::System)),
        None => match lookup.bundled {
            Some(path) => Ok((path, FfmpegSource::Filesystem)),
            None => Err(TranscodeErrorView::ToolNotFound(name)),
        },
    }
}

/// A copy of the tool was found.
pub open spec fn found(lookup: ToolLookupView) -> bool {
    lookup.system is Some || lookup.bundled is Some
}

/// `first_present` gives the first candidate that is marked present.
pub proof fn lemma_first_present(candidates: Seq<Seq<char>>, present: Seq<bool>, from: int)
    requires
        0 <= from,
    ensures
        match first_present(candidates, present, from) {
            Some(path) => exists|i: int|
                from <= i < candidates.len() && i < present.len() && present[i] && candidates[i]
                    == path && forall|j: int| from <= j < i ==> !present[j],
            None => forall|j: int|
                from <= j < candidates.len() && j < present.len() ==> !present[j],
        },
    decreases candidates.len() - from,
{
    if from >= candidates.len() || from >= present.len() {
    } else if present[from] {
    } else {
        lemma_first_present(candidates, present, from + 1);
    }
}

/// The bundled locations of the file `name`, in the order in which they are
/// tried. `exe_dir` is the directory of the running executable, where it is
/// known.
pub fn bundled_locations(name: &str, exe_dir: Option<&str>) -> (paths: Vec<String>)
    ensures
        paths.deep_view() == bundled_paths(name@, exe_dir.deep_view()),
{
    let mut paths: Vec<String> = Vec::new();
    paths.push("binaries/windows/".to_owned().concat(name));
    match exe_dir {
        None => {},
        Some(dir) => {
            paths.push(dir.to_owned().concat("/").concat(name));
            paths.push(dir.to_owned().concat("/resources/binaries/windows/").concat(name));
        },
    }
    paths
}

/// The first of `candidates` that exists. `present` says of each candidate,
/// in the same order, whether a file exists there; a candidate without a
/// mark counts as absent.
pub fn get_filesystem_binary(candidates: &Vec<String>, present: &Vec<bool>) -> (path: Option<
    String,
>)
    ensures
        path.deep_view() == first_present(candidates.deep_view(), present@, 0),
{
    let mut i: usize = 0;
    while i < candidates.len() && i < present.len()
        invariant
            first_present(candidates.deep_view(), present@, 0) == first_present(
                candidates.deep_view(),
                present@,
                i as int,
            ),
        decreases candidates.len() - i,
    {
        if present[i] {
            return Some(candidates[i].clone());
        }
        i += 1;
    }
    None
}

/// Whether a packaged binary has to be written to the scratch location
/// again: only where the copy on disk is missing or differs in size.
pub fn needs_extraction(on_disk_size: Option<u64>, packaged_size: u64) -> (needed: bool)
    ensures
        needed == (on_disk_size != Some(packaged_size)),
{
    match on_disk_size {
        Some(size) => size != packaged_size,
        None => true,
    }
}

/// The copy of the tool `name` that is used, and where it comes from.
pub fn resolve(name: &str, lookup: &ToolLookup) -> (r: Result<(String, FfmpegSource), TranscodeError>)
    ensures
        match r {
            Ok((path, source)) => resolved(name@, lookup@) == Ok::<
                (Seq<char>, FfmpegSource),
                TranscodeErrorView,
            >((path@, source)),
            Err(e) => resolved(name@, lookup@) == Err::<
                (Seq<char>, FfmpegSource),
                TranscodeErrorView,
            >(e@),
        },
{
    match &lookup.system {
        Some(path) => Ok((path.clone(), FfmpegSource::System)),
        None => match &lookup.bundled {
            Some(path) => Ok((path.clone(), FfmpegSource::Filesystem)),
            None => Err(TranscodeError::ToolNotFound(name.to_owned())),
        },
    }
}

/// The path of the encoder, or the message that says it was not found.
pub fn get_ffmpeg_path(lookup: &ToolLookup) -> (r: Result<String, String>)
    ensures
        match r {
            Ok(path) => resolved("ffmpeg"@, lookup@) is Ok && path@ == resolved(
                "ffmpeg"@,
                lookup@,
            )->Ok_0.0,
            Err(message) => !found(lookup@) && message@ == "ffmpeg"@ + " not found in system PATH"@,
        },
{
    match resolve("ffmpeg", lookup) {
        Ok((path, _)) => Ok(path),
        Err(e) => Err(e.message()),
    }
}

/// The path of the probe, or the message that says it was not found.
pub fn get_ffprobe_path(lookup: &ToolLookup) -> (r: Result<String, String>)
    ensures
        match r {
            Ok(path) => resolved("ffprobe"@, lookup@) is Ok && path@ == resolved(
                "ffprobe"@,
                lookup@,
            )->Ok_0.0,
            Err(message) => !found(lookup@) && message@ == "ffprobe"@ + " not found in system PATH"@,
        },
{
    match resolve("ffprobe", lookup) {
        Ok((path, _)) => Ok(path),
        Err(e) => Err(e.message()),
    }
}

} // verus!
