use vstd::prelude::*;

verus! {

/// The bits of the `f64` one.
pub const F64_ONE_BITS: u64 = 0x3ff0_0000_0000_0000u64;

/// How clipped highlights are treated.
#[allow(non_camel_case_types)]
#[derive(Debug, Clone, Copy, PartialEq, Eq, Structural, Hash)]
pub enum DCRawHighlightMode {
    Clip,
    Unclip,
    Blend,
    Rebuild3,
    Rebuild4,
    Rebuild5,
    Rebuild6,
    Rebuild7,
    Rebuild8,
    Rebuild9,
}

impl DCRawHighlightMode {
    /// The number libraw takes for this setting.
    pub open spec fn spec_code(self) -> i32 {
        match self {
            DCRawHighlightMode::Clip => 0,
            DCRawHighlightMode::Unclip => 1,
            DCRawHighlightMode::Blend => 2,
            DCRawHighlightMode::Rebuild3 => 3,
            DCRawHighlightMode::Rebuild4 => 4,
            DCRawHighlightMode::Rebuild5 => 5,
            DCRawHighlightMode::Rebuild6 => 6,
            DCRawHighlightMode::Rebuild7 => 7,
            DCRawHighlightMode::Rebuild8 => 8,
            DCRawHighlightMode::Rebuild9 => 9,
        }
    }

    /// The number libraw takes for this setting.
    pub fn code(&self) -> (r: i32)
        ensures
            r == self.spec_code(),
    {
        match self {
            DCRawHighlightMode::Clip => 0,
            DCRawHighlightMode::Unclip => 1,
            DCRawHighlightMode::Blend => 2,
            DCRawHighlightMode::Rebuild3 => 3,
            DCRawHighlightMode::Rebuild4 => 4,
            DCRawHighlightMode::Rebuild5 => 5,
            DCRawHighlightMode::Rebuild6 => 6,
            DCRawHighlightMode::Rebuild7 => 7,
            DCRawHighlightMode::Rebuild8 => 8,
            DCRawHighlightMode::Rebuild9 => 9,
        }
    }
}

/// When the colour matrix embedded by the camera is used.
#[allow(non_camel_case_types)]
#[derive(Debug, Clone, Copy, PartialEq, Eq, Structural, Hash)]
pub enum DCRawUseCameraMatrix {
    NotUse,
    EmbeddedProfile,
    EmbeddedData,
}

impl DCRawUseCameraMatrix {
    /// The number libraw takes for this setting.
    pub open spec fn spec_code(self) -> i32 {
        match self {
            DCRawUseCameraMatrix::NotUse => 0,
            DCRawUseCameraMatrix::EmbeddedProfile => 1,
            DCRawUseCameraMatrix::EmbeddedData => 3,
        }
    }

    /// The number libraw takes for this setting.
    pub fn code(&self) -> (r: i32)
        ensures
            r == self.spec_code(),
    {
        match self {
            DCRawUseCameraMatrix::NotUse => 0,
            DCRawUseCameraMatrix::EmbeddedProfile => 1,
            DCRawUseCameraMatrix::EmbeddedData => 3,
        }
    }
}

/// The colour space of the output.
#[allow(non_camel_case_types)]
#[derive(Debug, Clone, Copy, PartialEq, Eq, Structural, Hash)]
pub enum DCRawOutputColor {
    Raw,
    SRGB,
    Adobe,
    WideGamut,
    ProPhoto,
    XYZ,
    ACES,
    DciP3,
    Rec2020,
}

impl DCRawOutputColor {
    /// The number libraw takes for this setting.
    pub open spec fn spec_code(self) -> i32 {
        match self {
            DCRawOutputColor::Raw => 0,
            DCRawOutputColor::SRGB => 1,
            DCRawOutputColor::Adobe => 2,
            DCRawOutputColor::WideGamut => 3,
            DCRawOutputColor::ProPhoto => 4,
            DCRawOutputColor::XYZ => 5,
            DCRawOutputColor::ACES => 6,
            DCRawOutputColor::DciP3 => 7,
            DCRawOutputColor::Rec2020 => 8,
        }
    }

    /// The number libraw takes for this setting.
    pub fn code(&self) -> (r: i32)
        ensures
            r == self.spec_code(),
    {
        match self {
            DCRawOutputColor::Raw => 0,
            DCRawOutputColor::SRGB => 1,
            DCRawOutputColor::Adobe => 2,
            DCRawOutputColor::WideGamut => 3,
            DCRawOutputColor::ProPhoto => 4,
            DCRawOutputColor::XYZ => 5,
            DCRawOutputColor::ACES => 6,
            DCRawOutputColor::DciP3 => 7,
            DCRawOutputColor::Rec2020 => 8,
        }
    }
}

/// The bits per sample of the output.
#[allow(non_camel_case_types)]
#[derive(Debug, Clone, Copy, PartialEq, Eq, Structural, Hash)]
pub enum DCRawOutputBps {
    _8bit,
    _16bit,
}

impl DCRawOutputBps {
    /// The number libraw takes for this setting.
    pub open spec fn spec_code(self) -> i32 {
        match self {
            DCRawOutputBps::_8bit => 8,
            DCRawOutputBps::_16bit => 16,
        }
    }

    /// The number libraw takes for this setting.
    pub fn code(&self) -> (r: i32)
        ensures
            r == self.spec_code(),
    {
        match self {
            DCRawOutputBps::_8bit => 8,
            DCRawOutputBps::_16bit => 16,
        }
    }
}

/// The file format of the output.
#[allow(non_camel_case_types)]
#[derive(Debug, Clone, Copy, PartialEq, Eq, Structural, Hash)]
pub enum DCRawOutputTiff {
    Ppm,
    Tiff,
}

impl DCRawOutputTiff {
    /// The number libraw takes for this setting.
    pub open spec fn spec_code(self) -> i32 {
        match self {
            DCRawOutputTiff::Ppm => 0,
            DCRawOutputTiff::Tiff => 1,
        }
    }

    /// The number libraw takes for this setting.
    pub fn code(&self) -> (r: i32)
        ensures
            r == self.spec_code(),
    {
        match self {
            DCRawOutputTiff::Ppm => 0,
            DCRawOutputTiff::Tiff => 1,
        }
    }
}

/// The rotation of the output.
#[allow(non_camel_case_types)]
#[derive(Debug, Clone, Copy, PartialEq, Eq, Structural, Hash)]
pub enum DCRawUserFlip {
    NoRotation,
    Rotate180,
    Rotate90CCW,
    Rotate90CW,
}

impl DCRawUserFlip {
    /// The number libraw takes for this setting.
    pub open spec fn spec_code(self) -> i32 {
        match self {
            DCRawUserFlip::NoRotation => 0,
            DCRawUserFlip::Rotate180 => 3,
            DCRawUserFlip::Rotate90CCW => 5,
            DCRawUserFlip::Rotate90CW => 6,
        }
    }

    /// The number libraw takes for this setting.
    pub fn code(&self) -> (r: i32)
        ensures
            r == self.spec_code(),
    {
        match self {
            DCRawUserFlip::NoRotation => 0,
            DCRawUserFlip::Rotate180 => 3,
            DCRawUserFlip::Rotate90CCW => 5,
            DCRawUserFlip::Rotate90CW => 6,
        }
    }
}

/// The interpolation algorithm.
#[allow(non_camel_case_types)]
#[derive(Debug, Clone, Copy, PartialEq, Eq, Structural, Hash)]
pub enum DCRawUserQual {
    Linear,
    VNG,
    PPG,
    AHD,
    DCB,
    DHT,
    AAHD,
}

impl DCRawUserQual {
    /// The number libraw takes for this setting.
    pub open spec fn spec_code(self) -> i32 {
        match self {
            DCRawUserQual::Linear => 0,
            DCRawUserQual::VNG => 1,
            DCRawUserQual::PPG => 2,
            DCRawUserQual::AHD => 3,
            DCRawUserQual::DCB => 4,
            DCRawUserQual::DHT => 11,
            DCRawUserQual::AAHD => 12,
        }
    }

    /// The number libraw takes for this setting.
    pub fn code(&self) -> (r: i32)
        ensures
            r == self.spec_code(),
    {
        match self {
            DCRawUserQual::Linear => 0,
            DCRawUserQual::VNG => 1,
            DCRawUserQual::PPG => 2,
            DCRawUserQual::AHD => 3,
            DCRawUserQual::DCB => 4,
            DCRawUserQual::DHT => 11,
            DCRawUserQual::AAHD => 12,
        }
    }
}

/// The FBDD noise reduction applied before interpolation.
#[allow(non_camel_case_types)]
#[derive(Debug, Clone, Copy, PartialEq, Eq, Structural, Hash)]
pub enum DCRawFbddNoiserd {
    Off,
    Light,
    Full,
}

impl DCRawFbddNoiserd {
    /// The number libraw takes for this setting.
    pub open spec fn spec_code(self) -> i32 {
        match self {
            DCRawFbddNoiserd::Off => 0,
            DCRawFbddNoiserd::Light => 1,
            DCRawFbddNoiserd::Full => 2,
        }
    }

    /// The number libraw takes for this setting.
    pub fn code(&self) -> (r: i32)
        ensures
            r == self.spec_code(),
    {
        match self {
            DCRawFbddNoiserd::Off => 0,
            DCRawFbddNoiserd::Light => 1,
            DCRawFbddNoiserd::Full => 2,
        }
    }
}

/// The number libraw takes for a switch.
pub open spec fn flag(b: bool) -> i32 {
    if b {
        1
    } else {
        0
    }
}

/// The value a setting leaves: the one given, or the current one.
pub open spec fn chosen<A>(given: Option<A>, current: A) -> A {
    match given {
        Some(v) => v,
        None => current,
    }
}

fn clone_path(p: &Option<String>) -> (r: Option<String>)
    ensures
        r == *p,
{
    match p {
        Some(s) => Some(s.clone()),
        None => None,
    }
}

/// Whether `s` holds a NUL character.
fn contains_nul(s: &str) -> (r: bool)
    ensures
        r == s@.contains('\0'),
{
    proof {
        vstd::string::axiom_spec_iter(s);
    }
    for c in iter: s.chars()
        invariant
            iter.seq() == s@,
            forall|j: int| 0 <= j < iter.index() ==> iter.seq()[j] != '\0',
    {
        if c == '\0' {
            return true;
        }
    }
    false
}

/// The path a setting leaves: the one given, or the current one.
pub open spec fn path_written(given: Option<String>, current: Option<String>) -> Option<String> {
    match given {
        Some(v) => Some(v),
        None => current,
    }
}

/// Writes the path given, where it is set and holds no NUL character; says
/// whether it was accepted.
fn write_path(given: &Option<String>, target: &mut Option<String>) -> (ok: bool)
    ensures
        ok == path_accepted(*given),
        ok ==> *final(target) == path_written(*given, *old(target)),
        !ok ==> *final(target) == *old(target),
{
    if let Some(v) = given {
        if contains_nul(v.as_str()) {
            return false;
        }
        *target = Some(v.clone());
    }
    true
}

/// A path that is not set, or that holds no NUL character.
pub open spec fn path_accepted(given: Option<String>) -> bool {
    match given {
        Some(v) => !v@.contains('\0'),
        None => true,
    }
}

/// Why libraw's settings could not be written.
#[derive(Debug, Clone, Copy, PartialEq, Eq, Structural, Hash)]
pub enum LibrawError {
    /// A path holds a NUL character, which no C string can carry.
    NulInPath,
}

/// The raw-processing settings libraw reads, as the values it stores: numbers
/// libraw keeps as floating point are held as their bits, paths as strings.
#[derive(Debug, Clone, PartialEq, Eq, Default)]
pub struct LibrawOutputParams {
    /// The grey box used for white balance: left, top, width, height.
    pub greybox: [u32; 4],
    /// The crop box applied before processing: left, top, width, height.
    pub cropbox: [u32; 4],
    /// Chromatic aberration correction, red then blue scale (each the bits of an `f64`).
    pub aber: [u64; 4],
    /// The gamma curve: power and toe slope (each the bits of an `f64`).
    pub gamm: [u64; 6],
    /// The user's white balance multipliers (each the bits of an `f32`).
    pub user_mul: [u32; 4],
    /// The brightness factor (the bits of an `f32`).
    pub bright: u32,
    /// The wavelet denoising threshold (the bits of an `f32`).
    pub threshold: u32,
    /// Whether to output a half-size image.
    pub half_size: i32,
    /// Whether to interpolate RGB as four colours.
    pub four_color_rgb: i32,
    /// The highlight mode.
    pub highlight: i32,
    /// Whether to average the whole image for white balance.
    pub use_auto_wb: i32,
    /// Whether to use the white balance the camera recorded.
    pub use_camera_wb: i32,
    /// When to use the camera's colour matrix.
    pub use_camera_matrix: i32,
    /// The output colour space.
    pub output_color: i32,
    /// The path of the output ICC profile.
    pub output_profile: Option<String>,
    /// The path of the camera ICC profile.
    pub camera_profile: Option<String>,
    /// The path of the bad pixel map.
    pub bad_pixels: Option<String>,
    /// The path of the dark frame.
    pub dark_frame: Option<String>,
    /// The bits per output sample.
    pub output_bps: i32,
    /// The output file format.
    pub output_tiff: i32,
    /// The rotation of the output.
    pub user_flip: i32,
    /// The interpolation algorithm.
    pub user_qual: i32,
    /// The user's black level.
    pub user_black: i32,
    /// The user's per-channel black levels.
    pub user_cblack: [i32; 4],
    /// The user's saturation level.
    pub user_sat: i32,
    /// The number of median filter passes.
    pub med_passes: i32,
    /// Whether to turn automatic brightening off.
    pub no_auto_bright: i32,
    /// The share of clipped pixels for automatic brightening (the bits of an `f32`).
    pub auto_bright_thr: u32,
    /// The threshold for adjusting the maximum value (the bits of an `f32`).
    pub adjust_maximum_thr: u32,
    /// Whether to rotate Fuji images.
    pub use_fuji_rotate: i32,
    /// The number of DCB correction passes.
    pub dcb_iterations: i32,
    /// The DCB colour enhancement setting.
    pub dcb_enhance_fl: i32,
    /// The FBDD noise reduction.
    pub fbdd_noiserd: i32,
    /// Whether to correct the exposure before interpolation.
    pub exp_correc: i32,
    /// The exposure shift in linear scale (the bits of an `f32`).
    pub exp_shift: u32,
    /// The highlight preservation of the exposure shift (the bits of an `f32`).
    pub exp_preser: u32,
    /// Whether to turn pixel value scaling off.
    pub no_auto_scale: i32,
    /// Whether to turn interpolation off.
    pub no_interpolation: i32,
}

/// The settings of the dcraw-style raw processing; a setting left `None`
/// keeps libraw's own value. Floating-point settings are held as their bits.
#[derive(Debug, Clone, PartialEq, Eq)]
pub struct DCRawParams {
    /// The grey box used for white balance: left, top, width, height.
    pub greybox: Option<[u32; 4]>,
    /// The crop box applied before processing: left, top, width, height.
    pub cropbox: Option<[u32; 4]>,
    /// Chromatic aberration correction, red then blue scale (each the bits of an `f64`).
    pub aber: Option<[u64; 2]>,
    /// The gamma curve: power and toe slope (each the bits of an `f64`).
    pub gamm: Option<[u64; 2]>,
    /// The user's white balance multipliers (each the bits of an `f32`).
    pub user_mul: Option<[u32; 4]>,
    /// The brightness factor (the bits of an `f32`).
    pub bright: Option<u32>,
    /// The wavelet denoising threshold (the bits of an `f32`).
    pub threshold: Option<u32>,
    /// Whether to output a half-size image.
    pub half_size: Option<bool>,
    /// Whether to interpolate RGB as four colours.
    pub four_color_rgb: Option<bool>,
    /// The highlight mode.
    pub highlight: Option<DCRawHighlightMode>,
    /// Whether to average the whole image for white balance.
    pub use_auto_wb: Option<bool>,
    /// Whether to use the white balance the camera recorded.
    pub use_camera_wb: Option<bool>,
    /// When to use the camera's colour matrix.
    pub use_camera_matrix: Option<DCRawUseCameraMatrix>,
    /// The output colour space.
    pub output_color: Option<DCRawOutputColor>,
    /// The path of the output ICC profile.
    pub output_profile: Option<String>,
    /// The path of the camera ICC profile.
    pub camera_profile: Option<String>,
    /// The path of the bad pixel map.
    pub bad_pixels: Option<String>,
    /// The path of the dark frame.
    pub dark_frame: Option<String>,
    /// The bits per output sample.
    pub output_bps: Option<DCRawOutputBps>,
    /// The output file format.
    pub output_tiff: Option<DCRawOutputTiff>,
    /// The rotation of the output.
    pub user_flip: Option<DCRawUserFlip>,
    /// The interpolation algorithm.
    pub user_qual: Option<DCRawUserQual>,
    /// The user's black level.
    pub user_black: Option<i32>,
    /// The user's per-channel black levels.
    pub user_cblack: Option<[i32; 4]>,
    /// The user's saturation level.
    pub user_sat: Option<i32>,
    /// The number of median filter passes.
    pub med_passes: Option<i32>,
    /// Whether to turn automatic brightening off.
    pub no_auto_bright: Option<bool>,
    /// The share of clipped pixels for automatic brightening (the bits of an `f32`).
    pub auto_bright_thr: Option<u32>,
    /// The threshold for adjusting the maximum value (the bits of an `f32`).
    pub adjust_maximum_thr: Option<u32>,
    /// Whether to rotate Fuji images.
    pub use_fuji_rotate: Option<bool>,
    /// The number of DCB correction passes.
    pub dcb_iterations: Option<i32>,
    /// The DCB colour enhancement setting.
    pub dcb_enhance_fl: Option<i32>,
    /// The FBDD noise reduction.
    pub fbdd_noiserd: Option<DCRawFbddNoiserd>,
    /// Whether to correct the exposure before interpolation.
    pub exp_correc: Option<i32>,
    /// The exposure shift in linear scale (the bits of an `f32`).
    pub exp_shift: Option<u32>,
    /// The highlight preservation of the exposure shift (the bits of an `f32`).
    pub exp_preser: Option<u32>,
    /// Whether to turn pixel value scaling off.
    pub no_auto_scale: Option<bool>,
    /// Whether to turn interpolation off.
    pub no_interpolation: Option<bool>,
}

impl DCRawParams {
    /// The settings with nothing set.
    pub open spec fn unset() -> DCRawParams {
        DCRawParams {
            greybox: None,
            cropbox: None,
            aber: None,
            gamm: None,
            user_mul: None,
            bright: None,
            threshold: None,
            half_size: None,
            four_color_rgb: None,
            highlight: None,
            use_auto_wb: None,
            use_camera_wb: None,
            use_camera_matrix: None,
            output_color: None,
            output_profile: None,
            camera_profile: None,
            bad_pixels: None,
            dark_frame: None,
            output_bps: None,
            output_tiff: None,
            user_flip: None,
            user_qual: None,
            user_black: None,
            user_cblack: None,
            user_sat: None,
            med_passes: None,
            no_auto_bright: None,
            auto_bright_thr: None,
            adjust_maximum_thr: None,
            use_fuji_rotate: None,
            dcb_iterations: None,
            dcb_enhance_fl: None,
            fbdd_noiserd: None,
            exp_correc: None,
            exp_shift: None,
            exp_preser: None,
            no_auto_scale: None,
            no_interpolation: None,
        }
    }

    /// What libraw's settings become once these are written into `current`.
    pub open spec fn applied_to(self, current: LibrawOutputParams) -> LibrawOutputParams {
        LibrawOutputParams {
            greybox: chosen(self.greybox, current.greybox),
            cropbox: chosen(self.cropbox, current.cropbox),
            aber: match self.aber {
                Some(v) => [v[0], current.aber[1], v[1], current.aber[3]],
                None => current.aber,
            },
            gamm: match self.gamm {
                Some(v) => [v[0], v[1], current.gamm[2], current.gamm[3], current.gamm[4], current.gamm[5]],
                None => current.gamm,
            },
            user_mul: chosen(self.user_mul, current.user_mul),
            bright: chosen(self.bright, current.bright),
            threshold: chosen(self.threshold, current.threshold),
            half_size: match self.half_size {
                Some(v) => flag(v),
                None => current.half_size,
            },
            four_color_rgb: match self.four_color_rgb {
                Some(v) => flag(v),
                None => current.four_color_rgb,
            },
            highlight: match self.highlight {
                Some(v) => v.spec_code(),
                None => current.highlight,
            },
            use_auto_wb: match self.use_auto_wb {
                Some(v) => flag(v),
                None => current.use_auto_wb,
            },
            use_camera_wb: match self.use_camera_wb {
                Some(v) => flag(v),
                None => current.use_camera_wb,
            },
            use_camera_matrix: match self.use_camera_matrix {
                Some(v) => v.spec_code(),
                None => current.use_camera_matrix,
            },
            output_color: match self.output_color {
                Some(v) => v.spec_code(),
                None => current.output_color,
            },
            output_profile: match self.output_profile {
                Some(v) => Some(v),
                None => current.output_profile,
            },
            camera_profile: match self.camera_profile {
                Some(v) => Some(v),
                None => current.camera_profile,
            },
            bad_pixels: match self.bad_pixels {
                Some(v) => Some(v),
                None => current.bad_pixels,
            },
            dark_frame: match self.dark_frame {
                Some(v) => Some(v),
                None => current.dark_frame,
            },
            output_bps: match self.output_bps {
                Some(v) => v.spec_code(),
                None => current.output_bps,
            },
            output_tiff: match self.output_tiff {
                Some(v) => v.spec_code(),
                None => current.output_tiff,
            },
            user_flip: match self.user_flip {
                Some(v) => v.spec_code(),
                None => current.user_flip,
            },
            user_qual: match self.user_qual {
                Some(v) => v.spec_code(),
                None => current.user_qual,
            },
            user_black: chosen(self.user_black, current.user_black),
            user_cblack: chosen(self.user_cblack, current.user_cblack),
            user_sat: chosen(self.user_sat, current.user_sat),
            med_passes: chosen(self.med_passes, current.med_passes),
            no_auto_bright: match self.no_auto_bright {
                Some(v) => flag(v),
                None => current.no_auto_bright,
            },
            auto_bright_thr: chosen(self.auto_bright_thr, current.auto_bright_thr),
            adjust_maximum_thr: chosen(self.adjust_maximum_thr, current.adjust_maximum_thr),
            use_fuji_rotate: match self.use_fuji_rotate {
                Some(v) => flag(v),
                None => current.use_fuji_rotate,
            },
            dcb_iterations: chosen(self.dcb_iterations, current.dcb_iterations),
            dcb_enhance_fl: chosen(self.dcb_enhance_fl, current.dcb_enhance_fl),
            fbdd_noiserd: match self.fbdd_noiserd {
                Some(v) => v.spec_code(),
                None => current.fbdd_noiserd,
            },
            exp_correc: chosen(self.exp_correc, current.exp_correc),
            exp_shift: chosen(self.exp_shift, current.exp_shift),
            exp_preser: chosen(self.exp_preser, current.exp_preser),
            no_auto_scale: match self.no_auto_scale {
                Some(v) => flag(v),
                None => current.no_auto_scale,
            },
            no_interpolation: match self.no_interpolation {
                Some(v) => flag(v),
                None => current.no_interpolation,
            },
        }
    }

    /// Libraw's settings once the settings that come before the paths are
    /// written into `current`.
    pub open spec fn head_applied(self, current: LibrawOutputParams) -> LibrawOutputParams {
        LibrawOutputParams {
            greybox: chosen(self.greybox, current.greybox),
            cropbox: chosen(self.cropbox, current.cropbox),
            aber: match self.aber {
                Some(v) => [v[0], current.aber[1], v[1], current.aber[3]],
                None => current.aber,
            },
            gamm: match self.gamm {
                Some(v) => [v[0], v[1], current.gamm[2], current.gamm[3], current.gamm[4], current.gamm[5]],
                None => current.gamm,
            },
            user_mul: chosen(self.user_mul, current.user_mul),
            bright: chosen(self.bright, current.bright),
            threshold: chosen(self.threshold, current.threshold),
            half_size: match self.half_size {
                Some(v) => flag(v),
                None => current.half_size,
            },
            four_color_rgb: match self.four_color_rgb {
                Some(v) => flag(v),
                None => current.four_color_rgb,
            },
            highlight: match self.highlight {
                Some(v) => v.spec_code(),
                None => current.highlight,
            },
            use_auto_wb: match self.use_auto_wb {
                Some(v) => flag(v),
                None => current.use_auto_wb,
            },
            use_camera_wb: match self.use_camera_wb {
                Some(v) => flag(v),
                None => current.use_camera_wb,
            },
            use_camera_matrix: match self.use_camera_matrix {
                Some(v) => v.spec_code(),
                None => current.use_camera_matrix,
            },
            output_color: match self.output_color {
                Some(v) => v.spec_code(),
                None => current.output_color,
            },
            ..current
        }
    }

    /// Every path that is set can be handed to libraw as a C string: it holds
    /// no NUL character.
    pub open spec fn paths_accepted(self) -> bool {
        &&& path_accepted(self.output_profile)
        &&& path_accepted(self.camera_profile)
        &&& path_accepted(self.bad_pixels)
        &&& path_accepted(self.dark_frame)
    }

    /// Libraw's settings when writing stops at the first path that holds a
    /// NUL character: everything before that path is written, nothing after.
    pub open spec fn written_before_refused_path(self, current: LibrawOutputParams) -> LibrawOutputParams {
        let s0 = self.head_applied(current);
        let s1 = LibrawOutputParams { output_profile: path_written(self.output_profile, s0.output_profile), ..s0 };
        let s2 = LibrawOutputParams { camera_profile: path_written(self.camera_profile, s1.camera_profile), ..s1 };
        let s3 = LibrawOutputParams { bad_pixels: path_written(self.bad_pixels, s2.bad_pixels), ..s2 };
        if !path_accepted(self.output_profile) {
            s0
        } else if !path_accepted(self.camera_profile) {
            s1
        } else if !path_accepted(self.bad_pixels) {
            s2
        } else {
            s3
        }
    }

    /// Libraw's settings once the settings that come after the paths are
    /// written into `current`.
    pub open spec fn tail_applied(self, current: LibrawOutputParams) -> LibrawOutputParams {
        LibrawOutputParams {
            output_bps: match self.output_bps {
                Some(v) => v.spec_code(),
                None => current.output_bps,
            },
            output_tiff: match self.output_tiff {
                Some(v) => v.spec_code(),
                None => current.output_tiff,
            },
            user_flip: match self.user_flip {
                Some(v) => v.spec_code(),
                None => current.user_flip,
            },
            user_qual: match self.user_qual {
                Some(v) => v.spec_code(),
                None => current.user_qual,
            },
            user_black: chosen(self.user_black, current.user_black),
            user_cblack: chosen(self.user_cblack, current.user_cblack),
            user_sat: chosen(self.user_sat, current.user_sat),
            med_passes: chosen(self.med_passes, current.med_passes),
            no_auto_bright: match self.no_auto_bright {
                Some(v) => flag(v),
                None => current.no_auto_bright,
            },
            auto_bright_thr: chosen(self.auto_bright_thr, current.auto_bright_thr),
            adjust_maximum_thr: chosen(self.adjust_maximum_thr, current.adjust_maximum_thr),
            use_fuji_rotate: match self.use_fuji_rotate {
                Some(v) => flag(v),
                None => current.use_fuji_rotate,
            },
            dcb_iterations: chosen(self.dcb_iterations, current.dcb_iterations),
            dcb_enhance_fl: chosen(self.dcb_enhance_fl, current.dcb_enhance_fl),
            fbdd_noiserd: match self.fbdd_noiserd {
                Some(v) => v.spec_code(),
                None => current.fbdd_noiserd,
            },
            exp_correc: chosen(self.exp_correc, current.exp_correc),
            exp_shift: chosen(self.exp_shift, current.exp_shift),
            exp_preser: chosen(self.exp_preser, current.exp_preser),
            no_auto_scale: match self.no_auto_scale {
                Some(v) => flag(v),
                None => current.no_auto_scale,
            },
            no_interpolation: match self.no_interpolation {
                Some(v) => flag(v),
                None => current.no_interpolation,
            },
            ..current
        }
    }

    /// All settings written, one stretch after the other.
    proof fn lemma_applied_in_stretches(self, current: LibrawOutputParams)
        ensures
            self.applied_to(current) == self.tail_applied(LibrawOutputParams {
                output_profile: path_written(self.output_profile, current.output_profile),
                camera_profile: path_written(self.camera_profile, current.camera_profile),
                bad_pixels: path_written(self.bad_pixels, current.bad_pixels),
                dark_frame: path_written(self.dark_frame, current.dark_frame),
                ..self.head_applied(current)
            }),
    {
        let s = self.tail_applied(LibrawOutputParams {
            output_profile: path_written(self.output_profile, current.output_profile),
            camera_profile: path_written(self.camera_profile, current.camera_profile),
            bad_pixels: path_written(self.bad_pixels, current.bad_pixels),
            dark_frame: path_written(self.dark_frame, current.dark_frame),
            ..self.head_applied(current)
        });
        assert(self.applied_to(current) =~= s);
    }

    fn write_head(&self, params: &mut LibrawOutputParams)
        ensures
            *final(params) == self.head_applied(*old(params)),
    {
        let head = LibrawOutputParams {
            greybox: match self.greybox {
                Some(v) => v,
                None => params.greybox,
            },
            cropbox: match self.cropbox {
                Some(v) => v,
                None => params.cropbox,
            },
            aber: match self.aber {
                Some(v) => [v[0], params.aber[1], v[1], params.aber[3]],
                None => params.aber,
            },
            gamm: match self.gamm {
                Some(v) => [v[0], v[1], params.gamm[2], params.gamm[3], params.gamm[4], params.gamm[5]],
                None => params.gamm,
            },
            user_mul: match self.user_mul {
                Some(v) => v,
                None => params.user_mul,
            },
            bright: match self.bright {
                Some(v) => v,
                None => params.bright,
            },
            threshold: match self.threshold {
                Some(v) => v,
                None => params.threshold,
            },
            half_size: match self.half_size {
                Some(v) => if v { 1 } else { 0 },
                None => params.half_size,
            },
            four_color_rgb: match self.four_color_rgb {
                Some(v) => if v { 1 } else { 0 },
                None => params.four_color_rgb,
            },
            highlight: match self.highlight {
                Some(v) => v.code(),
                None => params.highlight,
            },
            use_auto_wb: match self.use_auto_wb {
                Some(v) => if v { 1 } else { 0 },
                None => params.use_auto_wb,
            },
            use_camera_wb: match self.use_camera_wb {
                Some(v) => if v { 1 } else { 0 },
                None => params.use_camera_wb,
            },
            use_camera_matrix: match self.use_camera_matrix {
                Some(v) => v.code(),
                None => params.use_camera_matrix,
            },
            output_color: match self.output_color {
                Some(v) => v.code(),
                None => params.output_color,
            },
            output_profile: clone_path(&params.output_profile),
            camera_profile: clone_path(&params.camera_profile),
            bad_pixels: clone_path(&params.bad_pixels),
            dark_frame: clone_path(&params.dark_frame),
            output_bps: params.output_bps,
            output_tiff: params.output_tiff,
            user_flip: params.user_flip,
            user_qual: params.user_qual,
            user_black: params.user_black,
            user_cblack: params.user_cblack,
            user_sat: params.user_sat,
            med_passes: params.med_passes,
            no_auto_bright: params.no_auto_bright,
            auto_bright_thr: params.auto_bright_thr,
            adjust_maximum_thr: params.adjust_maximum_thr,
            use_fuji_rotate: params.use_fuji_rotate,
            dcb_iterations: params.dcb_iterations,
            dcb_enhance_fl: params.dcb_enhance_fl,
            fbdd_noiserd: params.fbdd_noiserd,
            exp_correc: params.exp_correc,
            exp_shift: params.exp_shift,
            exp_preser: params.exp_preser,
            no_auto_scale: params.no_auto_scale,
            no_interpolation: params.no_interpolation,
        };
        *params = head;
    }

    fn write_tail(&self, params: &mut LibrawOutputParams)
        ensures
            *final(params) == self.tail_applied(*old(params)),
    {
        let tail = LibrawOutputParams {
            greybox: params.greybox,
            cropbox: params.cropbox,
            aber: params.aber,
            gamm: params.gamm,
            user_mul: params.user_mul,
            bright: params.bright,
            threshold: params.threshold,
            half_size: params.half_size,
            four_color_rgb: params.four_color_rgb,
            highlight: params.highlight,
            use_auto_wb: params.use_auto_wb,
            use_camera_wb: params.use_camera_wb,
            use_camera_matrix: params.use_camera_matrix,
            output_color: params.output_color,
            output_profile: clone_path(&params.output_profile),
            camera_profile: clone_path(&params.camera_profile),
            bad_pixels: clone_path(&params.bad_pixels),
            dark_frame: clone_path(&params.dark_frame),
            output_bps: match self.output_bps {
                Some(v) => v.code(),
                None => params.output_bps,
            },
            output_tiff: match self.output_tiff {
                Some(v) => v.code(),
                None => params.output_tiff,
            },
            user_flip: match self.user_flip {
                Some(v) => v.code(),
                None => params.user_flip,
            },
            user_qual: match self.user_qual {
                Some(v) => v.code(),
                None => params.user_qual,
            },
            user_black: match self.user_black {
                Some(v) => v,
                None => params.user_black,
            },
            user_cblack: match self.user_cblack {
                Some(v) => v,
                None => params.user_cblack,
            },
            user_sat: match self.user_sat {
                Some(v) => v,
                None => params.user_sat,
            },
            med_passes: match self.med_passes {
                Some(v) => v,
                None => params.med_passes,
            },
            no_auto_bright: match self.no_auto_bright {
                Some(v) => if v { 1 } else { 0 },
                None => params.no_auto_bright,
            },
            auto_bright_thr: match self.auto_bright_thr {
                Some(v) => v,
                None => params.auto_bright_thr,
            },
            adjust_maximum_thr: match self.adjust_maximum_thr {
                Some(v) => v,
                None => params.adjust_maximum_thr,
            },
            use_fuji_rotate: match self.use_fuji_rotate {
                Some(v) => if v { 1 } else { 0 },
                None => params.use_fuji_rotate,
            },
            dcb_iterations: match self.dcb_iterations {
                Some(v) => v,
                None => params.dcb_iterations,
            },
            dcb_enhance_fl: match self.dcb_enhance_fl {
                Some(v) => v,
                None => params.dcb_enhance_fl,
            },
            fbdd_noiserd: match self.fbdd_noiserd {
                Some(v) => v.code(),
                None => params.fbdd_noiserd,
            },
            exp_correc: match self.exp_correc {
                Some(v) => v,
                None => params.exp_correc,
            },
            exp_shift: match self.exp_shift {
                Some(v) => v,
                None => params.exp_shift,
            },
            exp_preser: match self.exp_preser {
                Some(v) => v,
                None => params.exp_preser,
            },
            no_auto_scale: match self.no_auto_scale {
                Some(v) => if v { 1 } else { 0 },
                None => params.no_auto_scale,
            },
            no_interpolation: match self.no_interpolation {
                Some(v) => if v { 1 } else { 0 },
                None => params.no_interpolation,
            },
        };
        *params = tail;
    }

    /// Writes the settings that are set into libraw's settings, in order,
    /// converting switches and choices to the numbers libraw takes; the others
    /// keep their current values. A path that holds a NUL character cannot be
    /// handed to libraw: writing stops there with an error.
    pub fn set_output_params(&self, params: &mut LibrawOutputParams) -> (r: Result<(), LibrawError>)
        ensures
            r is Ok <==> self.paths_accepted(),
            r is Ok ==> *final(params) == self.applied_to(*old(params)),
            r is Err ==> r == Err::<(), LibrawError>(LibrawError::NulInPath)
                && *final(params) == self.written_before_refused_path(*old(params)),
    {
        proof {
            self.lemma_applied_in_stretches(*params);
        }
        self.write_head(params);
        if !write_path(&self.output_profile, &mut params.output_profile) {
            return Err(LibrawError::NulInPath);
        }
        if !write_path(&self.camera_profile, &mut params.camera_profile) {
            return Err(LibrawError::NulInPath);
        }
        if !write_path(&self.bad_pixels, &mut params.bad_pixels) {
            return Err(LibrawError::NulInPath);
        }
        if !write_path(&self.dark_frame, &mut params.dark_frame) {
            return Err(LibrawError::NulInPath);
        }
        self.write_tail(params);
        Ok(())
    }

    /// The settings of the cg workflow: gamma one, ACES colour, 16-bit output.
    pub open spec fn cg() -> DCRawParams {
        DCRawParams {
            gamm: Some([F64_ONE_BITS, F64_ONE_BITS]),
            output_color: Some(DCRawOutputColor::ACES),
            output_bps: Some(DCRawOutputBps::_16bit),
            ..DCRawParams::unset()
        }
    }

    /// Match output to cg workflow.
    /// - `gamm` = `[1.0, 1.0]`
    /// - `output_color`: ACES
    /// - `output_bps`: 16bit
    pub fn preset_cg() -> (r: Self)
        ensures
            r == DCRawParams::cg(),
    {
        DCRawParams {
            gamm: Some([F64_ONE_BITS, F64_ONE_BITS]),
            output_color: Some(DCRawOutputColor::ACES),
            output_bps: Some(DCRawOutputBps::_16bit),
            ..Default::default()
        }
    }
}

impl Default for DCRawParams {
    fn default() -> (r: Self)
        ensures
            r == DCRawParams::unset(),
    {
        DCRawParams {
            greybox: None,
            cropbox: None,
            aber: None,
            gamm: None,
            user_mul: None,
            bright: None,
            threshold: None,
            half_size: None,
            four_color_rgb: None,
            highlight: None,
            use_auto_wb: None,
            use_camera_wb: None,
            use_camera_matrix: None,
            output_color: None,
            output_profile: None,
            camera_profile: None,
            bad_pixels: None,
            dark_frame: None,
            output_bps: None,
            output_tiff: None,
            user_flip: None,
            user_qual: None,
            user_black: None,
            user_cblack: None,
            user_sat: None,
            med_passes: None,
            no_auto_bright: None,
            auto_bright_thr: None,
            adjust_maximum_thr: None,
            use_fuji_rotate: None,
            dcb_iterations: None,
            dcb_enhance_fl: None,
            fbdd_noiserd: None,
            exp_correc: None,
            exp_shift: None,
            exp_preser: None,
            no_auto_scale: None,
            no_interpolation: None,
        }
    }
}

} // verus!
