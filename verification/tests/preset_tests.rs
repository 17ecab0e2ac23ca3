use transcoder::models::{MediaMetadata, OutputPreset, TimeSegment, VideoStream};
use transcoder::preset::{add_arg, trim_args};

const X264_PARAMS: &str = "keyint=240:min-keyint=24:scenecut=40:bframes=3:b-pyramid=normal:ref=4:deblock=-1,-1:aq-mode=3:aq-strength=0.8:psy-rd=1.0:psy-trellis=0.15:qcomp=0.65:rc-lookahead=40:weightp=2";

const ALL_PRESETS: [OutputPreset; 5] = [
    OutputPreset::ProRes422,
    OutputPreset::ProRes422LT,
    OutputPreset::ProRes422Proxy,
    OutputPreset::DnxHRHQX,
    OutputPreset::H264Crf18,
];

fn metadata(path: &str) -> MediaMetadata {
    MediaMetadata {
        file_path: path.to_string(),
        duration_us: 180_000_000,
        video: VideoStream {
            codec: "h264".to_string(),
            width: 1920,
            height: 1080,
            framerate: "30000/1001".to_string(),
            bit_depth: 8,
            pix_fmt: "yuv420p".to_string(),
            chroma_subsampling: "4:2:0".to_string(),
        },
        audio: None,
    }
}

fn strings(items: &[&str]) -> Vec<String> {
    items.iter().map(|s| s.to_string()).collect()
}

#[test]
fn prores_args() {
    let args = OutputPreset::ProRes422.build_ffmpeg_args(&metadata("in.mp4"), "out.mov", None);
    assert_eq!(
        args,
        strings(&[
            "-i", "in.mp4", "-c:v", "prores_ks", "-profile:v", "3", "-vendor", "ap10", "-c:a",
            "pcm_s16le", "out.mov", "-y",
        ])
    );
}

#[test]
fn prores_lt_args() {
    let args = OutputPreset::ProRes422LT.build_ffmpeg_args(&metadata("in.mp4"), "out.mov", None);
    assert_eq!(
        args,
        strings(&[
            "-i", "in.mp4", "-c:v", "prores_ks", "-profile:v", "1", "-vendor", "ap10", "-c:a",
            "pcm_s16le", "out.mov", "-y",
        ])
    );
}

#[test]
fn prores_proxy_args() {
    let args =
        OutputPreset::ProRes422Proxy.build_ffmpeg_args(&metadata("in.mp4"), "out.mov", None);
    assert_eq!(
        args,
        strings(&[
            "-i", "in.mp4", "-c:v", "prores_ks", "-profile:v", "0", "-vendor", "ap10", "-pix_fmt",
            "yuv420p", "-c:a", "aac", "-b:a", "320k", "out.mov", "-y",
        ])
    );
}

#[test]
fn dnxhr_args() {
    let args = OutputPreset::DnxHRHQX.build_ffmpeg_args(&metadata("in.mp4"), "out.mov", None);
    assert_eq!(
        args,
        strings(&[
            "-i", "in.mp4", "-c:v", "dnxhd", "-profile:v", "dnxhr_hqx", "-c:a", "pcm_s16le",
            "out.mov", "-y",
        ])
    );
}

#[test]
fn h264_args() {
    let args = OutputPreset::H264Crf18.build_ffmpeg_args(&metadata("in.mov"), "out.mp4", None);
    assert_eq!(
        args,
        strings(&[
            "-i", "in.mov", "-c:v", "libx264", "-preset", "slow", "-crf", "18", "-pix_fmt",
            "yuv420p", "-profile:v", "high", "-level", "4.1", "-x264-params", X264_PARAMS, "-c:a",
            "aac", "-b:a", "320k", "-movflags", "+faststart", "out.mp4", "-y",
        ])
    );
}

#[test]
fn segment_with_end_is_trimmed_before_the_input() {
    let segment = TimeSegment { start_us: 30_000_000, end_us: Some(90_500_000) };
    let args = OutputPreset::DnxHRHQX.build_ffmpeg_args(
        &metadata("in.mp4"),
        "out.mov",
        Some(&segment),
    );
    assert_eq!(
        args,
        strings(&[
            "-ss", "30.000000", "-to", "90.500000", "-i", "in.mp4", "-c:v", "dnxhd", "-profile:v",
            "dnxhr_hqx", "-c:a", "pcm_s16le", "out.mov", "-y",
        ])
    );
}

#[test]
fn open_segment_has_only_a_start() {
    let segment = TimeSegment { start_us: 1_250_000, end_us: None };
    let args = OutputPreset::DnxHRHQX.build_ffmpeg_args(
        &metadata("in.mp4"),
        "out.mov",
        Some(&segment),
    );
    assert_eq!(
        args,
        strings(&[
            "-ss", "1.250000", "-i", "in.mp4", "-c:v", "dnxhd", "-profile:v", "dnxhr_hqx", "-c:a",
            "pcm_s16le", "out.mov", "-y",
        ])
    );
}

#[test]
fn trim_args_values() {
    assert_eq!(trim_args(None), Vec::<String>::new());
    let open_ended = TimeSegment { start_us: 0, end_us: None };
    assert_eq!(trim_args(Some(&open_ended)), strings(&["-ss", "0.000000"]));
    let bounded = TimeSegment { start_us: 500_000, end_us: Some(2_000_001) };
    assert_eq!(
        trim_args(Some(&bounded)),
        strings(&["-ss", "0.500000", "-to", "2.000001"])
    );
}

#[test]
fn add_arg_appends() {
    let mut args = strings(&["-i"]);
    add_arg(&mut args, "in.mp4");
    assert_eq!(args, strings(&["-i", "in.mp4"]));
}

#[test]
fn parts_of_each_preset() {
    assert_eq!(OutputPreset::ProRes422.video_codec(), "prores_ks");
    assert_eq!(OutputPreset::ProRes422LT.video_codec(), "prores_ks");
    assert_eq!(OutputPreset::ProRes422Proxy.video_codec(), "prores_ks");
    assert_eq!(OutputPreset::DnxHRHQX.video_codec(), "dnxhd");
    assert_eq!(OutputPreset::H264Crf18.video_codec(), "libx264");
    assert_eq!(
        OutputPreset::ProRes422.preset_args(),
        strings(&["-profile:v", "3", "-vendor", "ap10"])
    );
    assert_eq!(
        OutputPreset::DnxHRHQX.preset_args(),
        strings(&["-profile:v", "dnxhr_hqx"])
    );
    assert_eq!(
        OutputPreset::ProRes422.audio_args(),
        strings(&["-c:a", "pcm_s16le"])
    );
    assert_eq!(
        OutputPreset::ProRes422LT.audio_args(),
        strings(&["-c:a", "pcm_s16le"])
    );
    assert_eq!(
        OutputPreset::DnxHRHQX.audio_args(),
        strings(&["-c:a", "pcm_s16le"])
    );
    assert_eq!(
        OutputPreset::ProRes422Proxy.audio_args(),
        strings(&["-c:a", "aac", "-b:a", "320k"])
    );
    assert_eq!(
        OutputPreset::H264Crf18.audio_args(),
        strings(&["-c:a", "aac", "-b:a", "320k"])
    );
    assert_eq!(
        OutputPreset::H264Crf18.container_args(),
        strings(&["-movflags", "+faststart"])
    );
    assert_eq!(OutputPreset::ProRes422.container_args(), Vec::<String>::new());
}

#[test]
fn compile_is_deterministic() {
    let segment = TimeSegment { start_us: 30_000_000, end_us: Some(90_000_000) };
    for preset in ALL_PRESETS {
        let first = preset.build_ffmpeg_args(&metadata("a b.mp4"), "out dir/o.mov", Some(&segment));
        let second =
            preset.build_ffmpeg_args(&metadata("a b.mp4"), "out dir/o.mov", Some(&segment));
        assert_eq!(first, second);
        let whole = preset.build_ffmpeg_args(&metadata("a b.mp4"), "out dir/o.mov", None);
        let again = preset.build_ffmpeg_args(&metadata("a b.mp4"), "out dir/o.mov", None);
        assert_eq!(whole, again);
    }
}

#[test]
fn one_selector_of_each_kind_and_destination_before_overwrite() {
    let segment = TimeSegment { start_us: 30_000_000, end_us: Some(90_000_000) };
    for preset in ALL_PRESETS {
        for seg in [None, Some(&segment)] {
            let args = preset.build_ffmpeg_args(&metadata("in.mp4"), "out.mov", seg);
            assert_eq!(args.iter().filter(|a| a.as_str() == "-c:v").count(), 1);
            assert_eq!(args.iter().filter(|a| a.as_str() == "-c:a").count(), 1);
            assert_eq!(args.iter().filter(|a| a.as_str() == "out.mov").count(), 1);
            assert_eq!(args[args.len() - 2], "out.mov");
            assert_eq!(args[args.len() - 1], "-y");
        }
    }
}

#[test]
fn a_path_spelled_like_a_selector_counts_once_more() {
    let args = OutputPreset::ProRes422.build_ffmpeg_args(&metadata("-c:v"), "-c:a", None);
    assert_eq!(args.iter().filter(|a| a.as_str() == "-c:v").count(), 2);
    assert_eq!(args.iter().filter(|a| a.as_str() == "-c:a").count(), 2);
    let same = OutputPreset::ProRes422.build_ffmpeg_args(&metadata("clip.mov"), "clip.mov", None);
    assert_eq!(same.iter().filter(|a| a.as_str() == "clip.mov").count(), 2);
}

#[test]
fn input_follows_the_input_flag() {
    let segment = TimeSegment { start_us: 0, end_us: Some(1) };
    for preset in ALL_PRESETS {
        let args = preset.build_ffmpeg_args(&metadata("in.mp4"), "out.mov", Some(&segment));
        let at = args.iter().position(|a| a == "-i").unwrap();
        assert_eq!(at, 4);
        assert_eq!(args[at + 1], "in.mp4");
        assert_eq!(args[0], "-ss");
        assert_eq!(args[2], "-to");
    }
}
