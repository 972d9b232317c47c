//! The encode operations: from paths and options to the shell command lines
//! that produce the output file. Nothing is run here.
//!
//! A path goes into a command line as it is given, without quotes. The
//! server passes paths of temporary files that it names itself; a path that
//! a shell does not read as one word would change what the line means.

use crate::decimal::{decimal_digits, push_decimal};
use crate::options::{
    effective_quality, quality_accepted, quality_in_force, settings_in_force, AVIFOptions,
    AvifSettings, EncodeError, SizeControl,
};
use vstd::prelude::*;

verus! {

/// The number of command lines of a JPEG conversion.
pub const JPEG_COMMANDS: usize = 2;

/// The number of command lines of an AVIF conversion.
pub const AVIF_COMMANDS: usize = 1;

/// The command line that decodes `input` to a bitmap stream and compresses
/// the stream to a JPEG file at `output`.
pub open spec fn jpeg_command(input: Seq<char>, output: Seq<char>, quality: u8) -> Seq<char> {
    "magick "@ + input + " ppm:- | cjpeg -outfile "@ + output + " -quality "@ + decimal_digits(
        quality as nat,
    )
}

/// The command line that optimises the JPEG file at `output` in place,
/// without loss.
pub open spec fn optimise_command(output: Seq<char>) -> Seq<char> {
    "jpegoptim "@ + output
}

/// The one flag that tells the AVIF encoder what size to aim for, with the
/// blank that parts it from what stands before.
pub open spec fn size_control_flag(control: SizeControl) -> Seq<char> {
    match control {
        SizeControl::Lossless => " -l"@,
        SizeControl::TargetSize(n) => " --target-size "@ + decimal_digits(n as nat),
        SizeControl::Quality(q) => " -q "@ + decimal_digits(q as nat),
    }
}

/// The command line that encodes `input` to an AVIF file at `output`.
pub open spec fn avif_command(input: Seq<char>, output: Seq<char>, settings: AvifSettings) -> Seq<
    char,
> {
    "avifenc -o "@ + output + " -s "@ + decimal_digits(settings.speed as nat) + " -d "@
        + decimal_digits(settings.depth as nat) + size_control_flag(settings.size_control) + " "@
        + input
}

/// The command lines of a JPEG conversion, in the order in which they run.
pub open spec fn jpeg_commands(input: Seq<char>, output: Seq<char>, quality: Option<u8>) -> Seq<
    Seq<char>,
> {
    seq![jpeg_command(input, output, quality_in_force(quality)), optimise_command(output)]
}

/// The command lines of an AVIF conversion, in the order in which they run.
pub open spec fn avif_commands(input: Seq<char>, output: Seq<char>, options: AVIFOptions) -> Seq<
    Seq<char>,
> {
    seq![avif_command(input, output, settings_in_force(options))]
}

/// Writes the command line of the JPEG compressor.
pub fn write_jpeg_command(input: &str, output: &str, quality: u8) -> (line: String)
    ensures
        line@ == jpeg_command(input@, output@, quality),
{
    let mut line = "magick ".to_owned();
    line.append(input);
    line.append(" ppm:- | cjpeg -outfile ");
    line.append(output);
    line.append(" -quality ");
    push_decimal(&mut line, quality as u64);
    line
}

/// Writes the command line of the JPEG optimiser.
pub fn write_optimise_command(output: &str) -> (line: String)
    ensures
        line@ == optimise_command(output@),
{
    let mut line = "jpegoptim ".to_owned();
    line.append(output);
    line
}

/// Writes the command line of the AVIF encoder.
pub fn write_avif_command(input: &str, output: &str, settings: &AvifSettings) -> (line: String)
    ensures
        line@ == avif_command(input@, output@, *settings),
{
    let mut line = "avifenc -o ".to_owned();
    line.append(output);
    line.append(" -s ");
    push_decimal(&mut line, settings.speed as u64);
    line.append(" -d ");
    push_decimal(&mut line, settings.depth as u64);
    let ghost head = line@;
    match settings.size_control {
        SizeControl::Lossless => {
            line.append(" -l");
        },
        SizeControl::TargetSize(n) => {
            line.append(" --target-size ");
            push_decimal(&mut line, n);
        },
        SizeControl::Quality(q) => {
            line.append(" -q ");
            push_decimal(&mut line, q as u64);
        },
    }
    assert(line@ =~= head + size_control_flag(settings.size_control));
    line.append(" ");
    line.append(input);
    line
}

/// The JPEG encode operation. A quality above 100 is refused; otherwise the
/// result holds the compressor's command line, then the optimiser's.
pub fn encode_jpeg(input: &str, output: &str, quality: Option<u8>) -> (result: Result<
    Vec<String>,
    EncodeError,
>)
    ensures
        quality_accepted(quality) ==> result is Ok && result->Ok_0.deep_view() == jpeg_commands(
            input@,
            output@,
            quality,
        ) && result->Ok_0.len() == JPEG_COMMANDS,
        !quality_accepted(quality) ==> result is Err && result->Err_0
            == EncodeError::InvalidQuality,
{
    let jpeg_quality = match effective_quality(quality) {
        Ok(q) => q,
        Err(e) => {
            return Err(e);
        },
    };
    let mut commands: Vec<String> = Vec::new();
    commands.push(write_jpeg_command(input, output, jpeg_quality));
    commands.push(write_optimise_command(output));
    assert(commands.deep_view() =~= jpeg_commands(input@, output@, quality));
    Ok(commands)
}

/// The AVIF encode operation. A quality above 100 is refused, whether or not
/// the quality would be in force; otherwise the result holds the encoder's
/// command line.
pub fn encode_avif(input: &str, output: &str, options: &AVIFOptions) -> (result: Result<
    Vec<String>,
    EncodeError,
>)
    ensures
        quality_accepted(options.quality) ==> result is Ok && result->Ok_0.deep_view()
            == avif_commands(input@, output@, *options) && result->Ok_0.len() == AVIF_COMMANDS,
        !quality_accepted(options.quality) ==> result is Err && result->Err_0
            == EncodeError::InvalidQuality,
{
    let settings = match options.resolve() {
        Ok(s) => s,
        Err(e) => {
            return Err(e);
        },
    };
    let mut commands: Vec<String> = Vec::new();
    commands.push(write_avif_command(input, output, &settings));
    assert(commands.deep_view() =~= avif_commands(input@, output@, *options));
    Ok(commands)
}

/// A conversion has as many command lines as its handler awaits outcomes.
pub proof fn lemma_command_counts(
    input: Seq<char>,
    output: Seq<char>,
    quality: Option<u8>,
    options: AVIFOptions,
)
    ensures
        jpeg_commands(input, output, quality).len() == JPEG_COMMANDS,
        avif_commands(input, output, options).len() == AVIF_COMMANDS,
{
}

/// A requested depth other than 8, 10 and 12 counts as 8: the encoder is run
/// at depth 8, by the command line that a request for 8 gives.
pub proof fn lemma_depth_snaps_to_eight(input: Seq<char>, output: Seq<char>, options: AVIFOptions)
    requires
        options.depth matches Some(d) && d != 8 && d != 10 && d != 12,
    ensures
        settings_in_force(options).depth == 8,
        avif_commands(input, output, options) == avif_commands(
            input,
            output,
            AVIFOptions { depth: Some(8), ..options },
        ),
{
}

/// A requested speed above 10 counts as 10: the encoder is run at speed 10,
/// by the command line that a request for 10 gives.
pub proof fn lemma_speed_is_capped(input: Seq<char>, output: Seq<char>, options: AVIFOptions)
    requires
        options.speed matches Some(s) && s > 10,
    ensures
        settings_in_force(options).speed == 10,
        avif_commands(input, output, options) == avif_commands(
            input,
            output,
            AVIFOptions { speed: Some(10), ..options },
        ),
{
}

/// The command line of the AVIF encoder holds one size-control flag. It is
/// the lossless flag where lossless encoding is asked for, whatever else is;
/// without that, the target-size flag where a target size is given, whatever
/// the quality is; and the quality flag only where neither is.
pub proof fn lemma_size_control_precedence(options: AVIFOptions)
    ensures
        ({
            let control = settings_in_force(options).size_control;
            let flag = size_control_flag(control);
            if options.lossless == Some(true) {
                &&& control == SizeControl::Lossless
                &&& flag == " -l"@
            } else if let Some(target_size) = options.target_size {
                &&& control == SizeControl::TargetSize(target_size)
                &&& flag == " --target-size "@ + decimal_digits(target_size as nat)
            } else {
                &&& control == SizeControl::Quality(quality_in_force(options.quality))
                &&& flag == " -q "@ + decimal_digits(quality_in_force(options.quality) as nat)
            }
        }),
{
}

} // verus!
