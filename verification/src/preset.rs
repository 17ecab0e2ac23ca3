//! The preset compiler: from a preset, a source and an optional segment to
//! the encoder's argument list.

use vstd::prelude::*;
use crate::decimal::{
    format_seconds, lemma_decimal_reads_back, lemma_trailing_digits_read_back, seconds_text,
};
use crate::models::{MediaMetadata, OutputPreset, TimeSegment};

verus! {

/// The segment behind an optional reference.
pub open spec fn segment_of(segment: Option<&TimeSegment>) -> Option<TimeSegment> {
    match segment {
        Some(s) => Some(*s),
        None => None,
    }
}

/// The flags that trim the input to a segment: the start offset and, where
/// the segment has an end, the position at which reading stops.
pub open spec fn trim_flags(segment: Option<TimeSegment>) -> Seq<Seq<char>> {
    match segment {
        None => Seq::empty(),
        Some(s) => match s.end_us {
            None => seq!["-ss"@, seconds_text(s.start_us as int)],
            Some(end) => seq![
                "-ss"@,
                seconds_text(s.start_us as int),
                "-to"@,
                seconds_text(end as int),
            ],
        },
    }
}

impl OutputPreset {
    /// The encoder's name for the preset's video codec.
    pub open spec fn codec_name(self) -> Seq<char> {
        match self {
            OutputPreset::ProRes422 => "prores_ks"@,
            OutputPreset::ProRes422LT => "prores_ks"@,
            OutputPreset::ProRes422Proxy => "prores_ks"@,
            OutputPreset::DnxHRHQX => "dnxhd"@,
            OutputPreset::H264Crf18 => "libx264"@,
        }
    }

    /// The preset's quality and profile flags.
    pub open spec fn quality_flags(self) -> Seq<Seq<char>> {
        match self {
            OutputPreset::ProRes422 => seq!["-profile:v"@, "3"@, "-vendor"@, "ap10"@],
            OutputPreset::ProRes422LT => seq!["-profile:v"@, "1"@, "-vendor"@, "ap10"@],
            OutputPreset::ProRes422Proxy => seq![
                "-profile:v"@,
                "0"@,
                "-vendor"@,
                "ap10"@,
                "-pix_fmt"@,
                "yuv420p"@,
            ],
            OutputPreset::DnxHRHQX => seq!["-profile:v"@, "dnxhr_hqx"@],
            OutputPreset::H264Crf18 => seq![
                "-preset"@,
                "slow"@,
                "-crf"@,
                "18"@,
                "-pix_fmt"@,
                "yuv420p"@,
                "-profile:v"@,
                "high"@,
                "-level"@,
                "4.1"@,
                "-x264-params"@,
                "keyint=240:min-keyint=24:scenecut=40:bframes=3:b-pyramid=normal:ref=4:deblock=-1,-1:aq-mode=3:aq-strength=0.8:psy-rd=1.0:psy-trellis=0.15:qcomp=0.65:rc-lookahead=40:weightp=2"@,
            ],
        }
    }

    /// The preset's audio policy: compressed audio for the proxy and web
    /// presets, 16-bit PCM for the others.
    pub open spec fn audio_flags(self) -> Seq<Seq<char>> {
        match self {
            OutputPreset::ProRes422Proxy | OutputPreset::H264Crf18 => seq![
                "-c:a"@,
                "aac"@,
                "-b:a"@,
                "320k"@,
            ],
            _ => seq!["-c:a"@, "pcm_s16le"@],
        }
    }

    /// The preset's container flags: web delivery moves the index to the
    /// front of the file.
    pub open spec fn container_flags(self) -> Seq<Seq<char>> {
        match self {
            OutputPreset::H264Crf18 => seq!["-movflags"@, "+faststart"@],
            _ => Seq::empty(),
        }
    }

    /// Everything that the argument list holds before the destination.
    pub open spec fn leading_args(
        self,
        input: Seq<char>,
        segment: Option<TimeSegment>,
    ) -> Seq<Seq<char>> {
        trim_flags(segment) + seq!["-i"@, input, "-c:v"@, self.codec_name()]
            + self.quality_flags() + self.audio_flags() + self.container_flags()
    }

    /// The encoder's argument list: trim flags, input, video codec, quality
    /// flags, audio policy, container flags, destination, overwrite flag.
    pub open spec fn ffmpeg_args(
        self,
        input: Seq<char>,
        output: Seq<char>,
        segment: Option<TimeSegment>,
    ) -> Seq<Seq<char>> {
        self.leading_args(input, segment) + seq![output, "-y"@]
    }

    /// The encoder's argument list for this preset. The trim flags stand
    /// before the input, so that the encoder seeks in the source.
    pub fn build_ffmpeg_args(
        &self,
        metadata: &MediaMetadata,
        output: &str,
        segment: Option<&TimeSegment>,
    ) -> (args: Vec<String>)
        ensures
            args.deep_view() == self.ffmpeg_args(metadata.file_path@, output@, segment_of(segment)),
    {
        let mut args: Vec<String> = trim_args(segment);
        add_arg(&mut args, "-i");
        add_arg(&mut args, metadata.file_path.as_str());
        add_arg(&mut args, "-c:v");
        let codec: String = self.video_codec();
        add_arg(&mut args, codec.as_str());
        let ghost head = args.deep_view();
        let mut quality: Vec<String> = self.preset_args();
        let mut audio: Vec<String> = self.audio_args();
        let mut container: Vec<String> = self.container_args();
        let ghost parts = head + quality.deep_view() + audio.deep_view() + container.deep_view();
        args.append(&mut quality);
        args.append(&mut audio);
        args.append(&mut container);
        add_arg(&mut args, output);
        add_arg(&mut args, "-y");
        assert(args.deep_view() =~= parts + seq![output@, "-y"@]);
        args
    }

    /// The encoder's name for the preset's video codec.
    pub fn video_codec(&self) -> (name: String)
        ensures
            name@ == self.codec_name(),
    {
        match self {
            OutputPreset::ProRes422 => "prores_ks".to_owned(),
            OutputPreset::ProRes422LT => "prores_ks".to_owned(),
            OutputPreset::ProRes422Proxy => "prores_ks".to_owned(),
            OutputPreset::DnxHRHQX => "dnxhd".to_owned(),
            OutputPreset::H264Crf18 => "libx264".to_owned(),
        }
    }

    /// The preset's quality and profile flags.
    pub fn preset_args(&self) -> (args: Vec<String>)
        ensures
            args.deep_view() == self.quality_flags(),
    {
        let mut args: Vec<String> = Vec::new();
        match self {
            OutputPreset::ProRes422 => {
                add_arg(&mut args, "-profile:v");
                add_arg(&mut args, "3");
                add_arg(&mut args, "-vendor");
                add_arg(&mut args, "ap10");
            },
            OutputPreset::ProRes422LT => {
                add_arg(&mut args, "-profile:v");
                add_arg(&mut args, "1");
                add_arg(&mut args, "-vendor");
                add_arg(&mut args, "ap10");
            },
            OutputPreset::ProRes422Proxy => {
                add_arg(&mut args, "-profile:v");
                add_arg(&mut args, "0");
                add_arg(&mut args, "-vendor");
                add_arg(&mut args, "ap10");
                add_arg(&mut args, "-pix_fmt");
                add_arg(&mut args, "yuv420p");
            },
            OutputPreset::DnxHRHQX => {
                add_arg(&mut args, "-profile:v");
                add_arg(&mut args, "dnxhr_hqx");
            },
            OutputPreset::H264Crf18 => {
                add_arg(&mut args, "-preset");
                add_arg(&mut args, "slow");
                add_arg(&mut args, "-crf");
                add_arg(&mut args, "18");
                add_arg(&mut args, "-pix_fmt");
                add_arg(&mut args, "yuv420p");
                add_arg(&mut args, "-profile:v");
                add_arg(&mut args, "high");
                add_arg(&mut args, "-level");
                add_arg(&mut args, "4.1");
                add_arg(&mut args, "-x264-params");
                add_arg(
                    &mut args,
                    "keyint=240:min-keyint=24:scenecut=40:bframes=3:b-pyramid=normal:ref=4:deblock=-1,-1:aq-mode=3:aq-strength=0.8:psy-rd=1.0:psy-trellis=0.15:qcomp=0.65:rc-lookahead=40:weightp=2",
                );
            },
        }
        args
    }

    /// The preset's audio policy.
    pub fn audio_args(&self) -> (args: Vec<String>)
        ensures
            args.deep_view() == self.audio_flags(),
    {
        let mut args: Vec<String> = Vec::new();
        match self {
            OutputPreset::ProRes422Proxy | OutputPreset::H264Crf18 => {
                add_arg(&mut args, "-c:a");
                add_arg(&mut args, "aac");
                add_arg(&mut args, "-b:a");
                add_arg(&mut args, "320k");
            },
            _ => {
                add_arg(&mut args, "-c:a");
                add_arg(&mut args, "pcm_s16le");
            },
        }
        args
    }

    /// The preset's container flags.
    pub fn container_args(&self) -> (args: Vec<String>)
        ensures
            args.deep_view() == self.container_flags(),
    {
        let mut args: Vec<String> = Vec::new();
        match self {
            OutputPreset::H264Crf18 => {
                add_arg(&mut args, "-movflags");
                add_arg(&mut args, "+faststart");
            },
            _ => {},
        }
        args
    }
}

/// Appends one argument to an argument list.
pub fn add_arg(args: &mut Vec<String>, arg: &str)
    ensures
        final(args).deep_view() == old(args).deep_view().push(arg@),
{
    args.push(arg.to_owned());
}

/// The flags that trim the input to `segment`.
pub fn trim_args(segment: Option<&TimeSegment>) -> (args: Vec<String>)
    ensures
        args.deep_view() == trim_flags(segment_of(segment)),
{
    let mut args: Vec<String> = Vec::new();
    match segment {
        None => {},
        Some(s) => {
            add_arg(&mut args, "-ss");
            let start: String = format_seconds(s.start_us);
            add_arg(&mut args, start.as_str());
            match s.end_us {
                None => {},
                Some(end) => {
                    add_arg(&mut args, "-to");
                    let stop: String = format_seconds(end);
                    add_arg(&mut args, stop.as_str());
                },
            }
        },
    }
    args
}

/// How often `item` stands in `args`.
pub open spec fn occurrences(args: Seq<Seq<char>>, item: Seq<char>) -> nat
    decreases args.len(),
{
    if args.len() == 0 {
        0
    } else {
        occurrences(args.drop_last(), item) + if args.last() == item {
            1nat
        } else {
            0nat
        }
    }
}

/// One for an argument that is `item`, zero for any other.
pub open spec fn one_if(arg: Seq<char>, item: Seq<char>) -> nat {
    if arg == item {
        1
    } else {
        0
    }
}

/// The occurrences in a list are those in its two parts together.
pub proof fn lemma_occurrences_concat(a: Seq<Seq<char>>, b: Seq<Seq<char>>, item: Seq<char>)
    ensures
        occurrences(a + b, item) == occurrences(a, item) + occurrences(b, item),
    decreases b.len(),
{
    if b.len() == 0 {
        assert(a + b =~= a);
    } else {
        assert((a + b).drop_last() =~= a + b.drop_last());
        lemma_occurrences_concat(a, b.drop_last(), item);
    }
}

/// A list in which no argument is `item` holds `item` zero times.
pub proof fn lemma_occurrences_absent(args: Seq<Seq<char>>, item: Seq<char>)
    requires
        forall|i: int| 0 <= i < args.len() ==> args[i] != item,
    ensures
        occurrences(args, item) == 0,
    decreases args.len(),
{
    if args.len() > 0 {
        lemma_occurrences_absent(args.drop_last(), item);
    }
}

/// A list holds `item` at least once exactly where it contains it.
pub proof fn lemma_occurrences_contains(args: Seq<Seq<char>>, item: Seq<char>)
    ensures
        occurrences(args, item) > 0 <==> args.contains(item),
    decreases args.len(),
{
    if args.len() > 0 {
        lemma_occurrences_contains(args.drop_last(), item);
        if args.drop_last().contains(item) {
            let i = choose|i: int| 0 <= i < args.drop_last().len() && args.drop_last()[i] == item;
            assert(args[i] == item);
        }
        if args.contains(item) && args.last() != item {
            let i = choose|i: int| 0 <= i < args.len() && args[i] == item;
            assert(args.drop_last()[i] == item);
        }
    }
}

/// The occurrences in a list of one argument.
pub proof fn lemma_occurrences_one(arg: Seq<char>, item: Seq<char>)
    ensures
        occurrences(seq![arg], item) == one_if(arg, item),
{
    assert(seq![arg].drop_last() =~= Seq::<Seq<char>>::empty());
    assert(occurrences(Seq::<Seq<char>>::empty(), item) == 0);
}

/// Seconds are written with at least eight characters, so no flag of four
/// characters is mistaken for them.
pub proof fn lemma_seconds_text_is_long(micros: int)
    ensures
        seconds_text(micros).len() >= 8,
{
    let size = if micros < 0 {
        (-micros) as nat
    } else {
        micros as nat
    };
    lemma_decimal_reads_back(size / 1_000_000);
    lemma_trailing_digits_read_back(size % 1_000_000, 6);
}

/// `arg` is spelled like a codec selector: four characters that begin
/// with `-c:`.
spec fn selector_shaped(arg: Seq<char>) -> bool {
    arg.len() == 4 && arg[0] == '-' && arg[1] == 'c' && arg[2] == ':'
}

/// A list without an argument that is spelled like a codec selector holds
/// no codec selector.
proof fn lemma_unshaped_hold_no_selector(args: Seq<Seq<char>>, item: Seq<char>)
    requires
        selector_shaped(item),
        forall|i: int| 0 <= i < args.len() ==> !selector_shaped(#[trigger] args[i]),
    ensures
        occurrences(args, item) == 0,
{
    lemma_occurrences_absent(args, item);
}

/// No trim flag is a codec selector.
proof fn lemma_trim_flags_hold_no_selector(segment: Option<TimeSegment>, item: Seq<char>)
    requires
        selector_shaped(item),
    ensures
        occurrences(trim_flags(segment), item) == 0,
{
    reveal_strlit("-ss");
    reveal_strlit("-to");
    match segment {
        None => {},
        Some(s) => {
            lemma_seconds_text_is_long(s.start_us as int);
            if s.end_us is Some {
                lemma_seconds_text_is_long(s.end_us->Some_0 as int);
            }
        },
    }
    lemma_unshaped_hold_no_selector(trim_flags(segment), item);
}

/// The preset's own flags hold the audio selector once and the video
/// selector never.
proof fn lemma_policy_selectors(preset: OutputPreset)
    ensures
        occurrences(preset.quality_flags(), "-c:v"@) == 0,
        occurrences(preset.quality_flags(), "-c:a"@) == 0,
        occurrences(preset.audio_flags(), "-c:v"@) == 0,
        occurrences(preset.audio_flags(), "-c:a"@) == 1,
        occurrences(preset.container_flags(), "-c:v"@) == 0,
        occurrences(preset.container_flags(), "-c:a"@) == 0,
        one_if(preset.codec_name(), "-c:v"@) == 0,
        one_if(preset.codec_name(), "-c:a"@) == 0,
{
    reveal_strlit("-c:v");
    reveal_strlit("-c:a");
    reveal_strlit("prores_ks");
    reveal_strlit("dnxhd");
    reveal_strlit("libx264");
    reveal_strlit("-profile:v");
    reveal_strlit("3");
    reveal_strlit("1");
    reveal_strlit("0");
    reveal_strlit("-vendor");
    reveal_strlit("ap10");
    reveal_strlit("-pix_fmt");
    reveal_strlit("yuv420p");
    reveal_strlit("dnxhr_hqx");
    reveal_strlit("-preset");
    reveal_strlit("slow");
    reveal_strlit("-crf");
    reveal_strlit("18");
    reveal_strlit("high");
    reveal_strlit("-level");
    reveal_strlit("4.1");
    reveal_strlit("-x264-params");
    reveal_strlit(
        "keyint=240:min-keyint=24:scenecut=40:bframes=3:b-pyramid=normal:ref=4:deblock=-1,-1:aq-mode=3:aq-strength=0.8:psy-rd=1.0:psy-trellis=0.15:qcomp=0.65:rc-lookahead=40:weightp=2",
    );
    reveal_strlit("aac");
    reveal_strlit("-b:a");
    reveal_strlit("320k");
    reveal_strlit("pcm_s16le");
    reveal_strlit("-movflags");
    reveal_strlit("+faststart");
    assert(selector_shaped("-c:v"@) && "-c:v"@[3] == 'v');
    assert(selector_shaped("-c:a"@) && "-c:a"@[3] == 'a');
    assert(!selector_shaped(preset.codec_name()));
    lemma_unshaped_hold_no_selector(preset.quality_flags(), "-c:v"@);
    lemma_unshaped_hold_no_selector(preset.quality_flags(), "-c:a"@);
    lemma_unshaped_hold_no_selector(preset.container_flags(), "-c:v"@);
    lemma_unshaped_hold_no_selector(preset.container_flags(), "-c:a"@);
    let audio = preset.audio_flags();
    let rest = audio.skip(1);
    assert(audio =~= seq!["-c:a"@] + rest);
    lemma_occurrences_concat(seq!["-c:a"@], rest, "-c:a"@);
    lemma_occurrences_concat(seq!["-c:a"@], rest, "-c:v"@);
    lemma_occurrences_one("-c:a"@, "-c:a"@);
    lemma_occurrences_one("-c:a"@, "-c:v"@);
    lemma_unshaped_hold_no_selector(rest, "-c:a"@);
    lemma_unshaped_hold_no_selector(rest, "-c:v"@);
}

/// How often a codec selector stands in the argument list: once as the
/// selector, and once more for each of the two paths that is spelled like
/// it.
proof fn lemma_selector_occurrences(
    preset: OutputPreset,
    input: Seq<char>,
    output: Seq<char>,
    segment: Option<TimeSegment>,
    item: Seq<char>,
)
    requires
        item == "-c:v"@ || item == "-c:a"@,
    ensures
        occurrences(preset.ffmpeg_args(input, output, segment), item) == 1 + one_if(input, item)
            + one_if(output, item),
{
    reveal_strlit("-c:v");
    reveal_strlit("-c:a");
    reveal_strlit("-i");
    reveal_strlit("-y");
    assert(selector_shaped("-c:v"@) && "-c:v"@[3] == 'v');
    assert(selector_shaped("-c:a"@) && "-c:a"@[3] == 'a');
    assert(!selector_shaped("-i"@) && !selector_shaped("-y"@));
    lemma_trim_flags_hold_no_selector(segment, item);
    lemma_policy_selectors(preset);
    let trim = trim_flags(segment);
    let head = seq!["-i"@, input, "-c:v"@, preset.codec_name()];
    let quality = preset.quality_flags();
    let audio = preset.audio_flags();
    let container = preset.container_flags();
    let tail = seq![output, "-y"@];
    assert(head =~= seq!["-i"@] + seq![input] + seq!["-c:v"@] + seq![preset.codec_name()]);
    lemma_occurrences_one("-i"@, item);
    lemma_occurrences_one(input, item);
    lemma_occurrences_one("-c:v"@, item);
    lemma_occurrences_one(preset.codec_name(), item);
    lemma_occurrences_concat(seq!["-i"@], seq![input], item);
    lemma_occurrences_concat(seq!["-i"@] + seq![input], seq!["-c:v"@], item);
    lemma_occurrences_concat(
        seq!["-i"@] + seq![input] + seq!["-c:v"@],
        seq![preset.codec_name()],
        item,
    );
    assert(tail =~= seq![output] + seq!["-y"@]);
    lemma_occurrences_one(output, item);
    lemma_occurrences_one("-y"@, item);
    lemma_occurrences_concat(seq![output], seq!["-y"@], item);
    lemma_occurrences_concat(trim, head, item);
    lemma_occurrences_concat(trim + head, quality, item);
    lemma_occurrences_concat(trim + head + quality, audio, item);
    lemma_occurrences_concat(trim + head + quality + audio, container, item);
    lemma_occurrences_concat(trim + head + quality + audio + container, tail, item);
}

/// The argument list is determined by the preset, the source, the
/// destination and the segment: two compilations of equal inputs give the
/// same list.
pub proof fn lemma_args_are_determined(
    first_preset: OutputPreset,
    first_source: MediaMetadata,
    first_output: Seq<char>,
    first_segment: Option<TimeSegment>,
    second_preset: OutputPreset,
    second_source: MediaMetadata,
    second_output: Seq<char>,
    second_segment: Option<TimeSegment>,
)
    requires
        first_preset == second_preset,
        first_source@ == second_source@,
        first_output == second_output,
        first_segment == second_segment,
    ensures
        first_preset.ffmpeg_args(first_source.file_path@, first_output, first_segment)
            == second_preset.ffmpeg_args(
            second_source.file_path@,
            second_output,
            second_segment,
        ),
{
}

/// The trim flags open the argument list and the input follows them at
/// once, so that the encoder takes them as options of the input; without a
/// segment the list opens with the input.
pub proof fn lemma_trim_precedes_input(
    preset: OutputPreset,
    input: Seq<char>,
    output: Seq<char>,
    segment: Option<TimeSegment>,
)
    ensures
        ({
            let args = preset.ffmpeg_args(input, output, segment);
            let trim = trim_flags(segment);
            &&& segment is None ==> trim.len() == 0
            &&& segment is Some ==> trim.len() >= 2 && trim[0] == "-ss"@ && trim[1] == seconds_text(
                segment->Some_0.start_us as int,
            )
            &&& args.len() >= trim.len() + 2
            &&& args.subrange(0, trim.len() as int) == trim
            &&& args[trim.len() as int] == "-i"@
            &&& args[trim.len() as int + 1] == input
        }),
{
    let args = preset.ffmpeg_args(input, output, segment);
    let trim = trim_flags(segment);
    assert(args.subrange(0, trim.len() as int) =~= trim);
}

/// The argument list holds exactly one video-codec selector, unless the
/// source's path or the destination is itself spelled `-c:v`: each of them
/// that is counts once more.
pub proof fn lemma_one_video_selector(
    preset: OutputPreset,
    input: Seq<char>,
    output: Seq<char>,
    segment: Option<TimeSegment>,
)
    ensures
        occurrences(preset.ffmpeg_args(input, output, segment), "-c:v"@) == 1 + one_if(
            input,
            "-c:v"@,
        ) + one_if(output, "-c:v"@),
        input != "-c:v"@ && output != "-c:v"@ ==> occurrences(
            preset.ffmpeg_args(input, output, segment),
            "-c:v"@,
        ) == 1,
{
    lemma_selector_occurrences(preset, input, output, segment, "-c:v"@);
}

/// The argument list holds exactly one audio-codec selector, unless the
/// source's path or the destination is itself spelled `-c:a`: each of them
/// that is counts once more.
pub proof fn lemma_one_audio_selector(
    preset: OutputPreset,
    input: Seq<char>,
    output: Seq<char>,
    segment: Option<TimeSegment>,
)
    ensures
        occurrences(preset.ffmpeg_args(input, output, segment), "-c:a"@) == 1 + one_if(
            input,
            "-c:a"@,
        ) + one_if(output, "-c:a"@),
        input != "-c:a"@ && output != "-c:a"@ ==> occurrences(
            preset.ffmpeg_args(input, output, segment),
            "-c:a"@,
        ) == 1,
{
    lemma_selector_occurrences(preset, input, output, segment, "-c:a"@);
}

/// The destination is the argument just before the overwrite flag, which
/// ends the list. It stands in the list exactly once, unless it is spelled
/// like the overwrite flag or like one of the arguments before it.
pub proof fn lemma_destination_precedes_overwrite(
    preset: OutputPreset,
    input: Seq<char>,
    output: Seq<char>,
    segment: Option<TimeSegment>,
)
    ensures
        ({
            let args = preset.ffmpeg_args(input, output, segment);
            &&& args.len() >= 2
            &&& args[args.len() - 2] == output
            &&& args[args.len() - 1] == "-y"@
            &&& occurrences(args, output) == 1 <==> output != "-y"@ && !preset.leading_args(
                input,
                segment,
            ).contains(output)
        }),
{
    let leading = preset.leading_args(input, segment);
    let tail = seq![output, "-y"@];
    assert(tail =~= seq![output] + seq!["-y"@]);
    lemma_occurrences_one(output, output);
    lemma_occurrences_one("-y"@, output);
    lemma_occurrences_concat(seq![output], seq!["-y"@], output);
    lemma_occurrences_concat(leading, tail, output);
    lemma_occurrences_contains(leading, output);
}

} // verus!
