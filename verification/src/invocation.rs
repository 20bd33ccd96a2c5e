//! The two invocations of the tool: one still frame, or one trimmed clip.
//!
//! Each builder checks that the source is an existing regular file before it
//! builds anything, and then puts the arguments in a fixed order. The order matters to the tool: the
//! seek position stands before the input, which lets the decoder jump to the
//! nearest keyframe instead of decoding everything up to the position.
//!
//! A token that holds the NUL character cannot be a process argument. The
//! builders still build: every other token stands at its place, and starting
//! the command is what fails.

use vstd::prelude::*;
use ffmpeg_sidecar::command::FfmpegCommand;
use crate::command::{
    allow_overwrite, command_args, decimal_text, disable_audio, hardware_acceleration, holds_nul,
    input_path, limit_duration, limit_frames, new_command, output_path, push_arg, read_args,
    seek_to, suppress_window,
};
use crate::error::OperationError;
use crate::geometry::{build_crop_filter, lemma_filter_text_holds_nul, CropRect};
use crate::text::texts;

verus! {

/// One operation, fully described.
#[derive(Clone, Debug, PartialEq, Eq)]
pub enum OperationRequest {
    ExtractFrame { source: String, dest: String, time: String, crop: CropRect },
    ExtractClip {
        source: String,
        dest: String,
        start: String,
        duration: String,
        keep_audio: bool,
        crop: CropRect,
    },
}

/// `actual` carries `intended`: it is as long, and every intended token that
/// holds no NUL stands at its place.
pub open spec fn carries(actual: Seq<Seq<char>>, intended: Seq<Seq<char>>) -> bool {
    &&& actual.len() == intended.len()
    &&& forall|i: int|
        0 <= i < intended.len() && !holds_nul(intended[i]) ==> #[trigger] actual[i] == intended[i]
}

/// `after` is `before` with `tokens` appended: what was there stays, and what
/// follows carries the tokens.
pub open spec fn appended(
    before: Seq<Seq<char>>,
    after: Seq<Seq<char>>,
    tokens: Seq<Seq<char>>,
) -> bool {
    &&& after.len() == before.len() + tokens.len()
    &&& after.subrange(0, before.len() as int) == before
    &&& carries(after.subrange(before.len() as int, after.len() as int), tokens)
}

/// The arguments that select the crop filter: none for a rectangle that
/// covers the frame, else the video filter flag and the filter text.
pub open spec fn filter_arguments(crop: CropRect, pad_to_even_dimensions: bool) -> Seq<Seq<char>> {
    if crop.is_full_frame() {
        Seq::empty()
    } else {
        seq!["-filter:v"@, crop.filter_text(pad_to_even_dimensions)]
    }
}

/// The audio switch of a clip: the flag that drops audio, unless audio is kept.
pub open spec fn audio_arguments(keep_audio: bool) -> Seq<Seq<char>> {
    if keep_audio {
        Seq::empty()
    } else {
        seq!["-an"@]
    }
}

/// The arguments that extract the frame at `time`: log level, overwrite,
/// hardware acceleration, no audio, no frame-rate sync, seek, input, a single
/// frame that replaces the output, the lossless quality block, the crop without
/// padding, and the output.
pub open spec fn frame_arguments(
    source: Seq<char>,
    dest: Seq<char>,
    time: Seq<char>,
    crop: CropRect,
) -> Seq<Seq<char>> {
    seq![
        "-loglevel"@,
        "level+info"@,
        "-y"@,
        "-hwaccel"@,
        "auto"@,
        "-an"@,
        "-vsync"@,
        "0"@,
        "-ss"@,
        time,
        "-i"@,
        source,
        "-update"@,
        "1"@,
        "-frames:v"@,
        "1"@,
        "-lossless"@,
        "1"@,
        "-compression_level"@,
        "6"@,
        "-quality"@,
        "100"@,
        "-qscale"@,
        "100"@,
        "-qmin"@,
        "1"@,
        "-q:v"@,
        "1"@,
    ] + filter_arguments(crop, false) + seq![dest]
}

/// The arguments that extract the clip of length `duration` from `start`: log
/// level, overwrite, hardware acceleration, the audio switch, no frame-rate
/// sync, seek, duration, input, the crop with padding, and the output.
pub open spec fn clip_arguments(
    source: Seq<char>,
    dest: Seq<char>,
    start: Seq<char>,
    duration: Seq<char>,
    keep_audio: bool,
    crop: CropRect,
) -> Seq<Seq<char>> {
    seq!["-loglevel"@, "level+info"@, "-y"@, "-hwaccel"@, "auto"@] + audio_arguments(keep_audio)
        + seq!["-vsync"@, "0"@, "-ss"@, start, "-t"@, duration, "-i"@, source] + filter_arguments(
        crop,
        true,
    ) + seq![dest]
}

impl OperationRequest {
    /// Whether none of the request's texts holds NUL.
    pub open spec fn is_clean(&self) -> bool {
        match self {
            OperationRequest::ExtractFrame { source, dest, time, crop } => !holds_nul(source@)
                && !holds_nul(dest@) && !holds_nul(time@) && crop.is_clean(),
            OperationRequest::ExtractClip { source, dest, start, duration, keep_audio, crop } =>
                !holds_nul(source@) && !holds_nul(dest@) && !holds_nul(start@) && !holds_nul(
                    duration@,
                ) && crop.is_clean(),
        }
    }

    /// The arguments that carry out this request.
    pub open spec fn arguments(&self) -> Seq<Seq<char>> {
        match self {
            OperationRequest::ExtractFrame { source, dest, time, crop } => frame_arguments(
                source@,
                dest@,
                time@,
                *crop,
            ),
            OperationRequest::ExtractClip {
                source,
                dest,
                start,
                duration,
                keep_audio,
                crop,
            } => clip_arguments(source@, dest@, start@, duration@, *keep_audio, *crop),
        }
    }
}

/// `std::path::Path::is_file`: whether `path` leads to a regular file right
/// now. The answer is the file system's, so nothing is promised of it.
#[verifier::external_body]
pub(crate) fn is_regular_file(path: &str) -> (found: bool) {
    std::path::Path::new(path).is_file()
}

proof fn lemma_decimal_one()
    ensures
        decimal_text(1) == "1"@,
{
    reveal_strlit("1");
    assert(decimal_text(1) =~= "1"@);
}

proof fn lemma_flags_hold_no_nul()
    ensures
        !holds_nul("auto"@),
        !holds_nul("-vsync"@),
        !holds_nul("0"@),
        !holds_nul("-update"@),
        !holds_nul("1"@),
        !holds_nul("-lossless"@),
        !holds_nul("-compression_level"@),
        !holds_nul("6"@),
        !holds_nul("-quality"@),
        !holds_nul("100"@),
        !holds_nul("-qscale"@),
        !holds_nul("-qmin"@),
        !holds_nul("-q:v"@),
        !holds_nul("-filter:v"@),
{
    reveal_strlit("auto");
    reveal_strlit("-vsync");
    reveal_strlit("0");
    reveal_strlit("-update");
    reveal_strlit("1");
    reveal_strlit("-lossless");
    reveal_strlit("-compression_level");
    reveal_strlit("6");
    reveal_strlit("-quality");
    reveal_strlit("100");
    reveal_strlit("-qscale");
    reveal_strlit("-qmin");
    reveal_strlit("-q:v");
    reveal_strlit("-filter:v");
}

/// Adds the crop filter of `crop` to a command, if the rectangle asks for one.
/// The filter text is kept as it is where none of the rectangle's texts holds
/// NUL.
pub fn apply_crop(command: &mut FfmpegCommand, crop: &CropRect, pad_to_even_dimensions: bool)
    ensures
        appended(
            command_args(*old(command)),
            command_args(*final(command)),
            filter_arguments(*crop, pad_to_even_dimensions),
        ),
        crop.is_clean() ==> command_args(*final(command)) == command_args(*old(command))
            + filter_arguments(*crop, pad_to_even_dimensions),
{
    match build_crop_filter(crop, pad_to_even_dimensions) {
        Some(filter) => {
            proof {
                lemma_flags_hold_no_nul();
                lemma_filter_text_holds_nul(*crop, pad_to_even_dimensions);
            }
            push_arg(command, "-filter:v");
            push_arg(command, filter.as_str());
        },
        None => {},
    }
    proof {
        let before = command_args(*old(command));
        let after = command_args(*command);
        let tokens = filter_arguments(*crop, pad_to_even_dimensions);
        assert(after.subrange(0, before.len() as int) =~= before);
        if !crop.is_full_frame() {
            let tail = after.subrange(before.len() as int, after.len() as int);
            assert(tail[0] == after[before.len() as int]);
            assert(tail[1] == after[before.len() as int + 1]);
        }
        if crop.is_clean() {
            assert(after =~= before + tokens);
        }
    }
}

/// The command that extracts one frame, given whether the source was found.
/// With the source missing it is `SourceNotFound` and no command is made; with
/// the source there it is a command that carries `frame_arguments`, and whose
/// arguments are exactly those where no token of the caller holds NUL.
pub fn frame_extraction(
    source_found: bool,
    source: &String,
    dest: &String,
    time: &String,
    crop: &CropRect,
) -> (built: Result<FfmpegCommand, OperationError>)
    ensures
        source_found ==> (built matches Ok(command) && carries(
            command_args(command),
            frame_arguments(source@, dest@, time@, *crop),
        )),
        source_found && !holds_nul(source@) && !holds_nul(dest@) && !holds_nul(time@)
            && crop.is_clean() ==> (built matches Ok(command) && command_args(command)
            == frame_arguments(source@, dest@, time@, *crop)),
        !source_found ==> (built matches Err(e) && e is SourceNotFound),
{
    if !source_found {
        return Err(OperationError::SourceNotFound);
    }
    proof {
        lemma_decimal_one();
        lemma_flags_hold_no_nul();
    }
    let mut command = new_command();
    suppress_window(&mut command);
    allow_overwrite(&mut command);
    hardware_acceleration(&mut command, "auto");
    disable_audio(&mut command);
    push_arg(&mut command, "-vsync");
    push_arg(&mut command, "0");
    seek_to(&mut command, time.as_str());
    input_path(&mut command, source.as_str());
    push_arg(&mut command, "-update");
    push_arg(&mut command, "1");
    limit_frames(&mut command, 1);
    push_arg(&mut command, "-lossless");
    push_arg(&mut command, "1");
    push_arg(&mut command, "-compression_level");
    push_arg(&mut command, "6");
    push_arg(&mut command, "-quality");
    push_arg(&mut command, "100");
    push_arg(&mut command, "-qscale");
    push_arg(&mut command, "100");
    push_arg(&mut command, "-qmin");
    push_arg(&mut command, "1");
    push_arg(&mut command, "-q:v");
    push_arg(&mut command, "1");
    let ghost fixed = command_args(command);
    apply_crop(&mut command, crop, false);
    let ghost cropped = command_args(command);
    output_path(&mut command, dest.as_str());
    proof {
        let actual = command_args(command);
        let intended = frame_arguments(source@, dest@, time@, *crop);
        let tokens = filter_arguments(*crop, false);
        assert(actual.len() == intended.len());
        assert forall|i: int| 0 <= i < intended.len() && !holds_nul(intended[i]) implies actual[i]
            == intended[i] by {
            if i < fixed.len() {
                assert(cropped.subrange(0, fixed.len() as int)[i] == cropped[i]);
            } else if i < cropped.len() {
                assert(cropped.subrange(fixed.len() as int, cropped.len() as int)[i - fixed.len()]
                    == cropped[i]);
                assert(intended[i] == tokens[i - fixed.len()]);
            }
        }
        if !holds_nul(source@) && !holds_nul(dest@) && !holds_nul(time@) && crop.is_clean() {
            assert(actual =~= intended);
        }
    }
    Ok(command)
}

/// The command that extracts one clip, given whether the source was found.
/// With the source missing it is `SourceNotFound` and no command is made; with
/// the source there it is a command that carries `clip_arguments`, and whose
/// arguments are exactly those where no token of the caller holds NUL.
pub fn clip_extraction(
    source_found: bool,
    source: &String,
    dest: &String,
    start: &String,
    duration: &String,
    keep_audio: bool,
    crop: &CropRect,
) -> (built: Result<FfmpegCommand, OperationError>)
    ensures
        source_found ==> (built matches Ok(command) && carries(
            command_args(command),
            clip_arguments(source@, dest@, start@, duration@, keep_audio, *crop),
        )),
        source_found && !holds_nul(source@) && !holds_nul(dest@) && !holds_nul(start@)
            && !holds_nul(duration@) && crop.is_clean() ==> (built matches Ok(command)
            && command_args(command) == clip_arguments(
            source@,
            dest@,
            start@,
            duration@,
            keep_audio,
            *crop,
        )),
        !source_found ==> (built matches Err(e) && e is SourceNotFound),
{
    if !source_found {
        return Err(OperationError::SourceNotFound);
    }
    proof {
        lemma_flags_hold_no_nul();
    }
    let mut command = new_command();
    suppress_window(&mut command);
    allow_overwrite(&mut command);
    hardware_acceleration(&mut command, "auto");
    if !keep_audio {
        disable_audio(&mut command);
    }
    push_arg(&mut command, "-vsync");
    push_arg(&mut command, "0");
    seek_to(&mut command, start.as_str());
    limit_duration(&mut command, duration.as_str());
    input_path(&mut command, source.as_str());
    let ghost fixed = command_args(command);
    apply_crop(&mut command, crop, true);
    let ghost cropped = command_args(command);
    output_path(&mut command, dest.as_str());
    proof {
        let actual = command_args(command);
        let intended = clip_arguments(source@, dest@, start@, duration@, keep_audio, *crop);
        let tokens = filter_arguments(*crop, true);
        assert(actual.len() == intended.len());
        assert forall|i: int| 0 <= i < intended.len() && !holds_nul(intended[i]) implies actual[i]
            == intended[i] by {
            if i < fixed.len() {
                assert(cropped.subrange(0, fixed.len() as int)[i] == cropped[i]);
            } else if i < cropped.len() {
                assert(cropped.subrange(fixed.len() as int, cropped.len() as int)[i - fixed.len()]
                    == cropped[i]);
                assert(intended[i] == tokens[i - fixed.len()]);
            }
        }
        if !holds_nul(source@) && !holds_nul(dest@) && !holds_nul(start@) && !holds_nul(duration@)
            && crop.is_clean() {
            assert(actual =~= intended);
        }
    }
    Ok(command)
}

/// Looks for the source, once, and builds the frame extraction. Whatever the
/// file system answers, the result is either `SourceNotFound` or a command
/// that carries `frame_arguments`, exactly so where no token of the caller
/// holds NUL.
pub fn build_frame_extraction(source: &String, dest: &String, time: &String, crop: &CropRect) -> (built:
    Result<FfmpegCommand, OperationError>)
    ensures
        match built {
            Ok(command) => {
                let intended = frame_arguments(source@, dest@, time@, *crop);
                &&& carries(command_args(command), intended)
                &&& !holds_nul(source@) && !holds_nul(dest@) && !holds_nul(time@)
                    && crop.is_clean() ==> command_args(command) == intended
            },
            Err(e) => e is SourceNotFound,
        },
{
    let source_found = is_regular_file(source.as_str());
    frame_extraction(source_found, source, dest, time, crop)
}

/// Looks for the source, once, and builds the clip extraction. Whatever the
/// file system answers, the result is either `SourceNotFound` or a command
/// that carries `clip_arguments`, exactly so where no token of the caller
/// holds NUL.
pub fn build_clip_extraction(
    source: &String,
    dest: &String,
    start: &String,
    duration: &String,
    keep_audio: bool,
    crop: &CropRect,
) -> (built: Result<FfmpegCommand, OperationError>)
    ensures
        match built {
            Ok(command) => {
                let intended = clip_arguments(source@, dest@, start@, duration@, keep_audio, *crop);
                &&& carries(command_args(command), intended)
                &&& !holds_nul(source@) && !holds_nul(dest@) && !holds_nul(start@) && !holds_nul(
                    duration@,
                ) && crop.is_clean() ==> command_args(command) == intended
            },
            Err(e) => e is SourceNotFound,
        },
{
    let source_found = is_regular_file(source.as_str());
    clip_extraction(source_found, source, dest, start, duration, keep_audio, crop)
}

/// The command for a request, given whether its source was found: the error
/// with the source missing, else a command that carries the request's
/// arguments, exactly so where the request is clean.
pub fn invocation(source_found: bool, request: &OperationRequest) -> (built: Result<
    FfmpegCommand,
    OperationError,
>)
    ensures
        source_found ==> (built matches Ok(command) && carries(
            command_args(command),
            request.arguments(),
        )),
        source_found && request.is_clean() ==> (built matches Ok(command) && command_args(command)
            == request.arguments()),
        !source_found ==> (built matches Err(e) && e is SourceNotFound),
{
    match request {
        OperationRequest::ExtractFrame { source, dest, time, crop } => frame_extraction(
            source_found,
            source,
            dest,
            time,
            crop,
        ),
        OperationRequest::ExtractClip {
            source,
            dest,
            start,
            duration,
            keep_audio,
            crop,
        } => clip_extraction(source_found, source, dest, start, duration, *keep_audio, crop),
    }
}

/// Looks for the request's source, once, and builds its command.
pub fn build_invocation(request: &OperationRequest) -> (built: Result<FfmpegCommand, OperationError>)
    ensures
        match built {
            Ok(command) => {
                &&& carries(command_args(command), request.arguments())
                &&& request.is_clean() ==> command_args(command) == request.arguments()
            },
            Err(e) => e is SourceNotFound,
        },
{
    let source_found = match request {
        OperationRequest::ExtractFrame { source, .. } => is_regular_file(source.as_str()),
        OperationRequest::ExtractClip { source, .. } => is_regular_file(source.as_str()),
    };
    invocation(source_found, request)
}

/// The frame extraction seeks before it names its input, asks for a single
/// frame, and names the output last.
pub proof fn lemma_frame_layout(source: Seq<char>, dest: Seq<char>, time: Seq<char>, crop: CropRect)
    ensures
        ({
            let arguments = frame_arguments(source, dest, time, crop);
            &&& arguments.len() == if crop.is_full_frame() {
                29int
            } else {
                31int
            }
            &&& arguments[8] == "-ss"@
            &&& arguments[9] == time
            &&& arguments[10] == "-i"@
            &&& arguments[11] == source
            &&& arguments[14] == "-frames:v"@
            &&& arguments[15] == "1"@
            &&& arguments.last() == dest
            &&& !crop.is_full_frame() ==> arguments[28] == "-filter:v"@ && arguments[29]
                == crop.filter_text(false)
        }),
{
}

/// The clip extraction seeks before it limits the duration and names its
/// input, and names the output last. The audio switch, where there is one,
/// stands right before the frame-rate switch.
pub proof fn lemma_clip_layout(
    source: Seq<char>,
    dest: Seq<char>,
    start: Seq<char>,
    duration: Seq<char>,
    keep_audio: bool,
    crop: CropRect,
)
    ensures
        ({
            let arguments = clip_arguments(source, dest, start, duration, keep_audio, crop);
            let shift = if keep_audio {
                0int
            } else {
                1int
            };
            &&& arguments.len() == 14 + shift + filter_arguments(crop, true).len()
            &&& !keep_audio ==> arguments[5] == "-an"@
            &&& arguments[5 + shift] == "-vsync"@
            &&& arguments[7 + shift] == "-ss"@
            &&& arguments[8 + shift] == start
            &&& arguments[9 + shift] == "-t"@
            &&& arguments[10 + shift] == duration
            &&& arguments[11 + shift] == "-i"@
            &&& arguments[12 + shift] == source
            &&& arguments.last() == dest
            &&& !crop.is_full_frame() ==> arguments[13 + shift] == "-filter:v"@ && arguments[14
                + shift] == crop.filter_text(true)
        }),
{
}

/// A clip that does not keep its audio carries the flag that drops it.
pub proof fn lemma_audio_dropped_unless_kept(
    source: Seq<char>,
    dest: Seq<char>,
    start: Seq<char>,
    duration: Seq<char>,
    crop: CropRect,
)
    ensures
        clip_arguments(source, dest, start, duration, false, crop).contains("-an"@),
{
    let arguments = clip_arguments(source, dest, start, duration, false, crop);
    lemma_clip_layout(source, dest, start, duration, false, crop);
    assert(arguments[5] == "-an"@);
}

/// The crop filter's text begins with the name of the crop filter.
pub proof fn lemma_filter_begins_with_crop(crop: CropRect, pad_to_even_dimensions: bool)
    ensures
        crop.filter_text(pad_to_even_dimensions).len() >= 5,
        crop.filter_text(pad_to_even_dimensions).subrange(0, 5) == "crop="@,
{
    reveal_strlit("crop=");
    assert(crop.filter_text(pad_to_even_dimensions).subrange(0, 5) =~= "crop="@);
}

/// Where the caller's own tokens are not themselves the flag that drops
/// audio, the flag is among the arguments of a clip exactly when the audio is
/// not kept.
pub proof fn lemma_audio_flag_iff_not_kept(
    source: Seq<char>,
    dest: Seq<char>,
    start: Seq<char>,
    duration: Seq<char>,
    keep_audio: bool,
    crop: CropRect,
)
    requires
        source != "-an"@,
        dest != "-an"@,
        start != "-an"@,
        duration != "-an"@,
    ensures
        clip_arguments(source, dest, start, duration, keep_audio, crop).contains("-an"@)
            <==> !keep_audio,
{
    let arguments = clip_arguments(source, dest, start, duration, keep_audio, crop);
    if keep_audio {
        reveal_strlit("-an");
        reveal_strlit("-loglevel");
        reveal_strlit("level+info");
        reveal_strlit("-y");
        reveal_strlit("-hwaccel");
        reveal_strlit("auto");
        reveal_strlit("-vsync");
        reveal_strlit("0");
        reveal_strlit("-ss");
        reveal_strlit("-t");
        reveal_strlit("-i");
        reveal_strlit("-filter:v");
        lemma_filter_begins_with_crop(crop, true);
        lemma_clip_layout(source, dest, start, duration, true, crop);
        assert("-ss"@[1] != "-an"@[1]);
        assert forall|i: int| 0 <= i < arguments.len() implies arguments[i] != "-an"@ by {
            if i == 0 {
                assert(arguments[0] == "-loglevel"@);
            } else if i == 1 {
                assert(arguments[1] == "level+info"@);
            } else if i == 2 {
                assert(arguments[2] == "-y"@);
            } else if i == 3 {
                assert(arguments[3] == "-hwaccel"@);
            } else if i == 4 {
                assert(arguments[4] == "auto"@);
            } else if i == 5 {
                assert(arguments[5] == "-vsync"@);
            } else if i == 6 {
                assert(arguments[6] == "0"@);
            } else if i == 7 {
                assert(arguments[7] == "-ss"@);
            } else if i == 8 {
                assert(arguments[8] == start);
            } else if i == 9 {
                assert(arguments[9] == "-t"@);
            } else if i == 10 {
                assert(arguments[10] == duration);
            } else if i == 11 {
                assert(arguments[11] == "-i"@);
            } else if i == 12 {
                assert(arguments[12] == source);
            } else if i == arguments.len() - 1 {
                assert(arguments[i] == dest);
            } else if i == 13 {
                assert(arguments[13] == "-filter:v"@);
            } else {
                assert(i == 14);
                assert(arguments[14] == crop.filter_text(true));
                assert(arguments[i].len() >= 5);
            }
        }
    } else {
        lemma_audio_dropped_unless_kept(source, dest, start, duration, crop);
    }
}

/// The arguments of a command, in order.
pub fn argument_list(command: &FfmpegCommand) -> (arguments: Vec<String>)
    ensures
        texts(arguments@) == command_args(*command),
{
    read_args(command)
}

} // verus!
