//! The command value of `ffmpeg-sidecar`, seen as the ordered list of the
//! arguments it holds.
//!
//! Nothing in this module is proved: each function states what one method of
//! `ffmpeg_sidecar::command::FfmpegCommand` does to the argument list, as that
//! crate's source shows it. Every method appends; a text handed in by the
//! caller is promised to be kept as it is only where it holds no NUL.

use vstd::prelude::*;
use ffmpeg_sidecar::command::FfmpegCommand;
use crate::text::texts;

verus! {

#[verifier::external_type_specification]
#[verifier::external_body]
pub struct ExFfmpegCommand(ffmpeg_sidecar::command::FfmpegCommand);

/// The arguments that a command holds, in the order in which the tool will
/// receive them.
pub uninterp spec fn command_args(c: FfmpegCommand) -> Seq<Seq<char>>;

/// Whether a text holds the NUL character. No process argument can carry
/// one: a command that is handed such a text may keep something else in its
/// place, and cannot be started.
pub open spec fn holds_nul(text: Seq<char>) -> bool {
    text.contains('\0')
}

/// The character that stands for a single decimal digit.
pub open spec fn digit_char(d: nat) -> char {
    if d == 0 {
        '0'
    } else if d == 1 {
        '1'
    } else if d == 2 {
        '2'
    } else if d == 3 {
        '3'
    } else if d == 4 {
        '4'
    } else if d == 5 {
        '5'
    } else if d == 6 {
        '6'
    } else if d == 7 {
        '7'
    } else if d == 8 {
        '8'
    } else {
        '9'
    }
}

/// A natural number written in decimal, without sign or leading zeros.
pub open spec fn decimal_text(n: nat) -> Seq<char>
    decreases n,
{
    if n < 10 {
        seq![digit_char(n)]
    } else {
        decimal_text(n / 10).push(digit_char(n % 10))
    }
}

/// `FfmpegCommand::new`: a command for the tool at its default path. It starts
/// out with the two arguments that set the log level the event parser expects.
#[verifier::external_body]
pub(crate) fn new_command() -> (c: FfmpegCommand)
    ensures
        command_args(c) == seq!["-loglevel"@, "level+info"@],
{
    FfmpegCommand::new()
}

/// `FfmpegCommand::create_no_window`: sets a process creation flag on Windows
/// and does nothing elsewhere; the arguments stay as they are.
#[verifier::external_body]
pub(crate) fn suppress_window(c: &mut FfmpegCommand)
    ensures
        command_args(*final(c)) == command_args(*old(c)),
{
    c.create_no_window();
}

/// `FfmpegCommand::overwrite`: appends `-y`.
#[verifier::external_body]
pub(crate) fn allow_overwrite(c: &mut FfmpegCommand)
    ensures
        command_args(*final(c)) == command_args(*old(c)).push("-y"@),
{
    c.overwrite();
}

/// `FfmpegCommand::hwaccel`: appends `-hwaccel` and one more argument, which
/// is the given method where that holds no NUL.
#[verifier::external_body]
pub(crate) fn hardware_acceleration(c: &mut FfmpegCommand, method: &str)
    ensures
        command_args(*final(c)) == command_args(*old(c)).push("-hwaccel"@).push(
            command_args(*final(c)).last(),
        ),
        !holds_nul(method@) ==> command_args(*final(c)).last() == method@,
{
    c.hwaccel(method);
}

/// `FfmpegCommand::no_audio`: appends `-an`.
#[verifier::external_body]
pub(crate) fn disable_audio(c: &mut FfmpegCommand)
    ensures
        command_args(*final(c)) == command_args(*old(c)).push("-an"@),
{
    c.no_audio();
}

/// `FfmpegCommand::arg`: appends one argument, which is the given text where
/// that holds no NUL. What stands in the place of a text with NUL is left open.
#[verifier::external_body]
pub(crate) fn push_arg(c: &mut FfmpegCommand, arg: &str)
    ensures
        command_args(*final(c)) == command_args(*old(c)).push(command_args(*final(c)).last()),
        !holds_nul(arg@) ==> command_args(*final(c)).last() == arg@,
{
    c.arg(arg);
}

/// `FfmpegCommand::seek`: appends `-ss` and one more argument, which is the
/// given position where that holds no NUL.
#[verifier::external_body]
pub(crate) fn seek_to(c: &mut FfmpegCommand, position: &str)
    ensures
        command_args(*final(c)) == command_args(*old(c)).push("-ss"@).push(
            command_args(*final(c)).last(),
        ),
        !holds_nul(position@) ==> command_args(*final(c)).last() == position@,
{
    c.seek(position);
}

/// `FfmpegCommand::duration`: appends `-t` and one more argument, which is the
/// given duration where that holds no NUL.
#[verifier::external_body]
pub(crate) fn limit_duration(c: &mut FfmpegCommand, duration: &str)
    ensures
        command_args(*final(c)) == command_args(*old(c)).push("-t"@).push(
            command_args(*final(c)).last(),
        ),
        !holds_nul(duration@) ==> command_args(*final(c)).last() == duration@,
{
    c.duration(duration);
}

/// `FfmpegCommand::input`: appends `-i` and one more argument, which is the
/// given path where that holds no NUL.
#[verifier::external_body]
pub(crate) fn input_path(c: &mut FfmpegCommand, path: &str)
    ensures
        command_args(*final(c)) == command_args(*old(c)).push("-i"@).push(
            command_args(*final(c)).last(),
        ),
        !holds_nul(path@) ==> command_args(*final(c)).last() == path@,
{
    c.input(path);
}

/// `FfmpegCommand::frames`: appends `-frames:v` and the count in decimal.
#[verifier::external_body]
pub(crate) fn limit_frames(c: &mut FfmpegCommand, count: u32)
    ensures
        command_args(*final(c)) == command_args(*old(c)).push("-frames:v"@).push(
            decimal_text(count as nat),
        ),
{
    c.frames(count);
}

/// `FfmpegCommand::output`: appends one argument, which is the given path
/// where that holds no NUL.
#[verifier::external_body]
pub(crate) fn output_path(c: &mut FfmpegCommand, path: &str)
    ensures
        command_args(*final(c)) == command_args(*old(c)).push(command_args(*final(c)).last()),
        !holds_nul(path@) ==> command_args(*final(c)).last() == path@,
{
    c.output(path);
}

/// `FfmpegCommand::get_args`: hands out the arguments in order, each as text.
#[verifier::external_body]
pub(crate) fn read_args(c: &FfmpegCommand) -> (args: Vec<String>)
    ensures
        texts(args@) == command_args(*c),
{
    let mut args = Vec::new();
    for a in c.get_args() {
        args.push(a.to_string_lossy().into_owned());
    }
    args
}

} // verus!
