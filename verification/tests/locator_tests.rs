use transcoder::commands::{check_ffmpeg_available, source_to_string};
use transcoder::error::{CmdError, TranscodeError};
use transcoder::locator::{
    bundled_locations, get_ffmpeg_path, get_ffprobe_path, get_filesystem_binary,
    needs_extraction, resolve, FfmpegSource, ToolLookup,
};
use transcoder::models::FfmpegAvailability;
use transcoder::validator::{ensure_ffmpeg, ensure_ffprobe, find_ffmpeg, find_ffprobe};

fn lookup(system: Option<&str>, bundled: Option<&str>) -> ToolLookup {
    ToolLookup { system: system.map(|s| s.to_string()), bundled: bundled.map(|s| s.to_string()) }
}

#[test]
fn search_path_comes_first() {
    let both = lookup(Some("/usr/bin/ffmpeg"), Some("binaries/windows/ffmpeg.exe"));
    assert_eq!(
        resolve("ffmpeg", &both),
        Ok(("/usr/bin/ffmpeg".to_string(), FfmpegSource::System))
    );
}

#[test]
fn bundled_copy_comes_second() {
    let bundled = lookup(None, Some("binaries/windows/ffmpeg.exe"));
    assert_eq!(
        resolve("ffmpeg", &bundled),
        Ok(("binaries/windows/ffmpeg.exe".to_string(), FfmpegSource::Filesystem))
    );
}

#[test]
fn missing_tool_is_reported_by_name() {
    let nothing = lookup(None, None);
    assert_eq!(
        resolve("ffprobe", &nothing),
        Err(TranscodeError::ToolNotFound("ffprobe".to_string()))
    );
    assert_eq!(
        find_ffmpeg(&nothing),
        Err(TranscodeError::ToolNotFound("ffmpeg".to_string()))
    );
    assert_eq!(
        find_ffprobe(&nothing),
        Err(TranscodeError::ToolNotFound("ffprobe".to_string()))
    );
    assert_eq!(
        get_ffmpeg_path(&nothing),
        Err("ffmpeg not found in system PATH".to_string())
    );
    assert_eq!(
        get_ffprobe_path(&nothing),
        Err("ffprobe not found in system PATH".to_string())
    );
    assert_eq!(
        ensure_ffmpeg(&nothing),
        Err(CmdError { message: "ffmpeg not found in system PATH".to_string() })
    );
    assert_eq!(
        ensure_ffprobe(&nothing),
        Err(CmdError { message: "ffprobe not found in system PATH".to_string() })
    );
}

#[test]
fn found_tool_gives_its_path() {
    let system = lookup(Some("/usr/bin/tool"), None);
    let bundled = lookup(None, Some("bin/tool.exe"));
    assert_eq!(find_ffmpeg(&system), Ok("/usr/bin/tool".to_string()));
    assert_eq!(find_ffprobe(&bundled), Ok("bin/tool.exe".to_string()));
    assert_eq!(get_ffmpeg_path(&bundled), Ok("bin/tool.exe".to_string()));
    assert_eq!(get_ffprobe_path(&system), Ok("/usr/bin/tool".to_string()));
    assert_eq!(ensure_ffmpeg(&system), Ok(()));
    assert_eq!(ensure_ffprobe(&bundled), Ok(()));
}

#[test]
fn resolution_keeps_nothing_between_calls() {
    let before = lookup(None, None);
    assert!(find_ffmpeg(&before).is_err());
    let after = lookup(Some("/usr/local/bin/ffmpeg"), None);
    assert_eq!(find_ffmpeg(&after), Ok("/usr/local/bin/ffmpeg".to_string()));
    assert!(find_ffmpeg(&before).is_err());
}

#[test]
fn bundled_locations_in_order() {
    assert_eq!(
        bundled_locations("ffmpeg.exe", None),
        vec!["binaries/windows/ffmpeg.exe"]
    );
    assert_eq!(
        bundled_locations("ffprobe.exe", Some("C:/Program Files/App")),
        vec![
            "binaries/windows/ffprobe.exe",
            "C:/Program Files/App/ffprobe.exe",
            "C:/Program Files/App/resources/binaries/windows/ffprobe.exe",
        ]
    );
}

#[test]
fn first_existing_location_is_taken() {
    let candidates = bundled_locations("ffmpeg.exe", Some("/opt/app"));
    assert_eq!(get_filesystem_binary(&candidates, &vec![false, false, false]), None);
    assert_eq!(
        get_filesystem_binary(&candidates, &vec![true, true, true]),
        Some("binaries/windows/ffmpeg.exe".to_string())
    );
    assert_eq!(
        get_filesystem_binary(&candidates, &vec![false, true, true]),
        Some("/opt/app/ffmpeg.exe".to_string())
    );
    assert_eq!(
        get_filesystem_binary(&candidates, &vec![false, false, true]),
        Some("/opt/app/resources/binaries/windows/ffmpeg.exe".to_string())
    );
}

#[test]
fn location_without_a_mark_counts_as_absent() {
    let candidates = bundled_locations("ffmpeg.exe", Some("/opt/app"));
    assert_eq!(get_filesystem_binary(&candidates, &vec![false]), None);
    assert_eq!(get_filesystem_binary(&candidates, &Vec::new()), None);
    assert_eq!(
        get_filesystem_binary(&candidates, &vec![false, true]),
        Some("/opt/app/ffmpeg.exe".to_string())
    );
    assert_eq!(get_filesystem_binary(&Vec::new(), &vec![true]), None);
}

#[test]
fn extraction_only_where_sizes_differ() {
    assert!(needs_extraction(None, 1000));
    assert!(needs_extraction(Some(999), 1000));
    assert!(needs_extraction(Some(0), 1000));
    assert!(!needs_extraction(Some(1000), 1000));
    assert!(!needs_extraction(Some(0), 0));
    assert!(needs_extraction(None, 0));
}

#[test]
fn source_names() {
    assert_eq!(source_to_string(FfmpegSource::System), "system");
    assert_eq!(source_to_string(FfmpegSource::Filesystem), "filesystem");
}

#[test]
fn availability_of_both_tools() {
    let system = lookup(Some("/usr/bin/ffmpeg"), Some("bin/ffmpeg.exe"));
    let bundled = lookup(None, Some("bin/ffprobe.exe"));
    let nothing = lookup(None, None);
    assert_eq!(
        check_ffmpeg_available(&system, &bundled),
        Ok(FfmpegAvailability {
            ffmpeg: true,
            ffprobe: true,
            ffmpeg_source: Some("system".to_string()),
        })
    );
    assert_eq!(
        check_ffmpeg_available(&bundled, &nothing),
        Ok(FfmpegAvailability {
            ffmpeg: true,
            ffprobe: false,
            ffmpeg_source: Some("filesystem".to_string()),
        })
    );
    assert_eq!(
        check_ffmpeg_available(&nothing, &system),
        Ok(FfmpegAvailability { ffmpeg: false, ffprobe: true, ffmpeg_source: None })
    );
}
