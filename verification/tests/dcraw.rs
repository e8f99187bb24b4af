use fornax::dcraw::{
    DCRawFbddNoiserd, DCRawHighlightMode, DCRawOutputTiff, DCRawUseCameraMatrix, DCRawUserFlip, DCRawUserQual,
    LibrawError, F64_ONE_BITS,
};
use fornax::{DCRawOutputBps, DCRawOutputColor, DCRawParams, LibrawOutputParams};

#[test]
fn preset_cg_sets_gamma_colour_and_depth() {
    let p = DCRawParams::preset_cg();
    assert_eq!(p.gamm, Some([1.0f64.to_bits(), 1.0f64.to_bits()]));
    assert_eq!(p.output_color, Some(DCRawOutputColor::ACES));
    assert_eq!(p.output_bps, Some(DCRawOutputBps::_16bit));
    let mut rest = p.clone();
    rest.gamm = None;
    rest.output_color = None;
    rest.output_bps = None;
    assert_eq!(rest, DCRawParams::default());
}

#[test]
fn preset_cg_written_into_libraw_settings() {
    let mut target = LibrawOutputParams::default();
    target.gamm = [7, 8, 9, 10, 11, 12];
    target.user_qual = 3;
    DCRawParams::preset_cg().set_output_params(&mut target).unwrap();
    assert_eq!(target.gamm, [F64_ONE_BITS, F64_ONE_BITS, 9, 10, 11, 12]);
    assert_eq!(target.output_color, 6);
    assert_eq!(target.output_bps, 16);
    assert_eq!(target.user_qual, 3);
}

#[test]
fn unset_settings_change_nothing() {
    let mut target = LibrawOutputParams::default();
    target.bright = 5;
    target.output_profile = Some("in.icc".to_string());
    let before = target.clone();
    DCRawParams::default().set_output_params(&mut target).unwrap();
    assert_eq!(target, before);
}

#[test]
fn every_kind_of_setting_is_converted() {
    let mut p = DCRawParams::default();
    p.greybox = Some([1, 2, 3, 4]);
    p.aber = Some([1.5f64.to_bits(), 0.5f64.to_bits()]);
    p.half_size = Some(true);
    p.use_auto_wb = Some(false);
    p.highlight = Some(DCRawHighlightMode::Rebuild5);
    p.use_camera_matrix = Some(DCRawUseCameraMatrix::EmbeddedData);
    p.output_tiff = Some(DCRawOutputTiff::Tiff);
    p.user_flip = Some(DCRawUserFlip::Rotate90CW);
    p.user_qual = Some(DCRawUserQual::DHT);
    p.fbdd_noiserd = Some(DCRawFbddNoiserd::Full);
    p.user_cblack = Some([-1, 0, 1, 2]);
    p.dark_frame = Some("dark.pgm".to_string());
    let mut target = LibrawOutputParams::default();
    target.aber = [11, 12, 13, 14];
    target.use_auto_wb = 1;
    p.set_output_params(&mut target).unwrap();
    assert_eq!(target.greybox, [1, 2, 3, 4]);
    assert_eq!(target.aber, [1.5f64.to_bits(), 12, 0.5f64.to_bits(), 14]);
    assert_eq!(target.half_size, 1);
    assert_eq!(target.use_auto_wb, 0);
    assert_eq!(target.highlight, 5);
    assert_eq!(target.use_camera_matrix, 3);
    assert_eq!(target.output_tiff, 1);
    assert_eq!(target.user_flip, 6);
    assert_eq!(target.user_qual, 11);
    assert_eq!(target.fbdd_noiserd, 2);
    assert_eq!(target.user_cblack, [-1, 0, 1, 2]);
    assert_eq!(target.dark_frame.as_deref(), Some("dark.pgm"));
    assert_eq!(target.bad_pixels, None);
}

#[test]
fn setting_twice_is_setting_once() {
    let p = DCRawParams::preset_cg();
    let mut once = LibrawOutputParams::default();
    once.gamm = [3, 3, 3, 3, 3, 3];
    p.set_output_params(&mut once).unwrap();
    let mut twice = once.clone();
    p.set_output_params(&mut twice).unwrap();
    assert_eq!(once, twice);
}

#[test]
fn codes_follow_libraw() {
    assert_eq!(DCRawOutputColor::Raw.code(), 0);
    assert_eq!(DCRawOutputColor::Rec2020.code(), 8);
    assert_eq!(DCRawOutputBps::_8bit.code(), 8);
    assert_eq!(DCRawUserQual::AAHD.code(), 12);
    assert_eq!(DCRawUserFlip::Rotate180.code(), 3);
}

#[test]
fn path_with_nul_stops_writing_there() {
    let mut p = DCRawParams::default();
    p.bright = Some(9);
    p.output_profile = Some("out.icc".to_string());
    p.camera_profile = Some("cam\0.icc".to_string());
    p.dark_frame = Some("dark.pgm".to_string());
    p.user_sat = Some(4000);
    let mut target = LibrawOutputParams::default();
    assert_eq!(p.set_output_params(&mut target), Err(LibrawError::NulInPath));
    // Everything before the refused path is written, nothing after it.
    assert_eq!(target.bright, 9);
    assert_eq!(target.output_profile.as_deref(), Some("out.icc"));
    assert_eq!(target.camera_profile, None);
    assert_eq!(target.dark_frame, None);
    assert_eq!(target.user_sat, 0);
}

#[test]
fn paths_without_nul_are_accepted() {
    let mut p = DCRawParams::default();
    p.bad_pixels = Some("bad.txt".to_string());
    let mut target = LibrawOutputParams::default();
    assert_eq!(p.set_output_params(&mut target), Ok(()));
    assert_eq!(target.bad_pixels.as_deref(), Some("bad.txt"));
}
