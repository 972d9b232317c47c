//! Conversion options as a client gives them, and the settings an encoder is
//! run with.

use vstd::prelude::*;

verus! {

/// The highest quality an encoder accepts.
pub const MAX_QUALITY: u8 = 100;

/// The quality used where the client names none.
pub const DEFAULT_QUALITY: u8 = 75;

/// The highest encode speed of the AVIF encoder.
pub const MAX_SPEED: u8 = 10;

/// The encode speed used where the client names none.
pub const DEFAULT_SPEED: u8 = 6;

/// The bit depth used unless the client asks for 10 or 12.
pub const DEFAULT_DEPTH: u8 = 8;

/// Options of a JPEG conversion.
#[derive(Clone, Copy, Debug, PartialEq, Eq)]
pub struct JpegOptions {
    pub quality: Option<u8>,
}

/// Options of an AVIF conversion.
#[derive(Clone, Copy, Debug, PartialEq, Eq)]
pub struct AVIFOptions {
    pub quality: Option<u8>,
    pub speed: Option<u8>,
    pub depth: Option<u8>,
    pub lossless: Option<bool>,
    pub target_size: Option<u64>,
}

/// Why an encode operation was refused before any command was built.
#[derive(Clone, Copy, Debug, PartialEq, Eq, Structural)]
pub enum EncodeError {
    /// The requested quality is above `MAX_QUALITY`.
    InvalidQuality,
}

/// How the AVIF encoder is told what size to aim for. Exactly one of these is
/// in force for a conversion.
#[derive(Clone, Copy, Debug, PartialEq, Eq, Structural)]
pub enum SizeControl {
    /// Encode without loss.
    Lossless,
    /// Aim for an output of this many bytes.
    TargetSize(u64),
    /// Encode at this quality.
    Quality(u8),
}

/// What the AVIF encoder is run with.
#[derive(Clone, Copy, Debug, PartialEq, Eq, Structural)]
pub struct AvifSettings {
    pub speed: u8,
    pub depth: u8,
    pub size_control: SizeControl,
}

impl AvifSettings {
    /// Whether the settings are ones the encoder takes: a speed of at most
    /// 10, a depth of 8, 10 or 12, and a quality, where one is in force, of
    /// at most 100.
    pub open spec fn well_formed(self) -> bool {
        &&& self.speed <= MAX_SPEED
        &&& self.depth == 8 || self.depth == 10 || self.depth == 12
        &&& self.size_control matches SizeControl::Quality(q) ==> q <= MAX_QUALITY
    }
}

/// Whether a requested quality is one an encoder accepts.
pub open spec fn quality_accepted(quality: Option<u8>) -> bool {
    match quality {
        Some(q) => q <= MAX_QUALITY,
        None => true,
    }
}

/// The quality in force: the requested one, or the default.
pub open spec fn quality_in_force(quality: Option<u8>) -> u8 {
    match quality {
        Some(q) => q,
        None => DEFAULT_QUALITY,
    }
}

/// The encode speed in force: the requested one, at most `MAX_SPEED`, or the
/// default.
pub open spec fn speed_in_force(speed: Option<u8>) -> u8 {
    match speed {
        Some(s) => if s > MAX_SPEED {
            MAX_SPEED
        } else {
            s
        },
        None => DEFAULT_SPEED,
    }
}

/// The bit depth in force: 10 or 12 where exactly that is requested, else 8.
pub open spec fn depth_in_force(depth: Option<u8>) -> u8 {
    match depth {
        Some(d) => if d == 12 || d == 10 {
            d
        } else {
            DEFAULT_DEPTH
        },
        None => DEFAULT_DEPTH,
    }
}

/// The size control in force: lossless before a target size, a target size
/// before a quality.
pub open spec fn size_control_in_force(options: AVIFOptions) -> SizeControl {
    if options.lossless == Some(true) {
        SizeControl::Lossless
    } else if let Some(n) = options.target_size {
        SizeControl::TargetSize(n)
    } else {
        SizeControl::Quality(quality_in_force(options.quality))
    }
}

/// The settings that `options` stand for.
pub open spec fn settings_in_force(options: AVIFOptions) -> AvifSettings {
    AvifSettings {
        speed: speed_in_force(options.speed),
        depth: depth_in_force(options.depth),
        size_control: size_control_in_force(options),
    }
}

impl EncodeError {
    /// The text that describes the error in a log.
    pub fn message(&self) -> (text: String)
        ensures
            text@ == "Invalid quality value"@,
    {
        match self {
            EncodeError::InvalidQuality => "Invalid quality value".to_owned(),
        }
    }
}

/// Checks a requested quality and gives the quality to encode at.
pub fn effective_quality(quality: Option<u8>) -> (result: Result<u8, EncodeError>)
    ensures
        quality_accepted(quality) ==> result == Ok::<u8, EncodeError>(quality_in_force(quality)),
        !quality_accepted(quality) ==> result == Err::<u8, EncodeError>(
            EncodeError::InvalidQuality,
        ),
{
    match quality {
        Some(q) => {
            if q > MAX_QUALITY {
                Err(EncodeError::InvalidQuality)
            } else {
                Ok(q)
            }
        },
        None => Ok(DEFAULT_QUALITY),
    }
}

/// Gives the encode speed to run at.
pub fn effective_speed(speed: Option<u8>) -> (result: u8)
    ensures
        result == speed_in_force(speed),
        result <= MAX_SPEED,
{
    match speed {
        Some(s) => {
            if s > MAX_SPEED {
                MAX_SPEED
            } else {
                s
            }
        },
        None => DEFAULT_SPEED,
    }
}

/// Gives the bit depth to encode at.
pub fn effective_depth(depth: Option<u8>) -> (result: u8)
    ensures
        result == depth_in_force(depth),
        result == 8 || result == 10 || result == 12,
{
    match depth {
        Some(d) => {
            if d == 12 {
                12
            } else if d == 10 {
                10
            } else {
                DEFAULT_DEPTH
            }
        },
        None => DEFAULT_DEPTH,
    }
}

impl AVIFOptions {
    /// Checks the options and gives the settings to run the encoder with.
    /// Fails exactly where the requested quality is not accepted, whether or
    /// not the quality would be in force.
    pub fn resolve(&self) -> (result: Result<AvifSettings, EncodeError>)
        ensures
            quality_accepted(self.quality) ==> result == Ok::<AvifSettings, EncodeError>(
                settings_in_force(*self),
            ),
            !quality_accepted(self.quality) ==> result == Err::<AvifSettings, EncodeError>(
                EncodeError::InvalidQuality,
            ),
            result matches Ok(settings) ==> settings.well_formed(),
    {
        let quality = match effective_quality(self.quality) {
            Ok(q) => q,
            Err(e) => {
                return Err(e);
            },
        };
        let lossless = match self.lossless {
            Some(l) => l,
            None => false,
        };
        let size_control = if lossless {
            SizeControl::Lossless
        } else {
            match self.target_size {
                Some(n) => SizeControl::TargetSize(n),
                None => SizeControl::Quality(quality),
            }
        };
        Ok(
            AvifSettings {
                speed: effective_speed(self.speed),
                depth: effective_depth(self.depth),
                size_control,
            },
        )
    }
}

} // verus!
