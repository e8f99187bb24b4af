use fornax::{BayerImage, BayerPattern, Dalim, DalimParams, DemosaicLinear, Demosaicer, Mosaic};

fn params() -> DalimParams {
    DalimParams { demosaicer: Demosaicer::Linear }
}

#[test]
fn post_process_demosaics_linearly() {
    let dalim = Dalim::<u16>::new(params());
    let data: Vec<u16> = (1..=9).collect();
    let decoded: Result<BayerImage<u16>, String> =
        Ok(BayerImage::new(Mosaic::from_vec(3, 3, data.clone()).unwrap(), BayerPattern::RGGB));
    let out = dalim.post_process(decoded).unwrap();
    let expected = DemosaicLinear.demosaic(&BayerImage::new(Mosaic::from_vec(3, 3, data).unwrap(), BayerPattern::RGGB));
    assert_eq!(out.as_raw(), expected.as_raw());
    assert_eq!(&out.as_raw()[0..3], &[1, 3, 5]);
}

#[test]
fn post_process_hands_back_decoder_errors() {
    let dalim = Dalim::<u8>::new(params());
    let decoded: Result<BayerImage<u8>, String> = Err("no raw data".to_string());
    match dalim.post_process(decoded) {
        Err(e) => assert_eq!(e, "no raw data"),
        Ok(_) => panic!("an error was expected"),
    }
}

#[test]
fn dalim_keeps_its_params() {
    let a = Dalim::<u16>::new(params());
    let b = a.clone();
    assert_eq!(a, b);
}
