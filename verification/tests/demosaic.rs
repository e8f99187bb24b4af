use fornax::{BayerChannel, BayerImage, BayerPattern, DemosaicLinear, Mosaic};

fn image_3x3(pattern: BayerPattern) -> BayerImage<u16> {
    let test_vec: Vec<u16> = vec![
        1, 2, 3, // Row 1
        4, 5, 6, // Row 2
        7, 8, 9, // Row 3
    ];
    BayerImage::new(Mosaic::from_vec(3, 3, test_vec).unwrap(), pattern)
}

fn as_rows(raw: &[u16], width: usize) -> Vec<Vec<Vec<u16>>> {
    raw.chunks(width * 3)
        .map(|chunk| chunk.chunks(3).map(|c| c.to_vec()).collect())
        .collect()
}

#[test]
fn test_linear_rggb() {
    let bayer_image = image_3x3(BayerPattern::RGGB);
    let demosaicer = DemosaicLinear;
    assert!(demosaicer.can_demosaic(&bayer_image));
    let output_img = demosaicer.demosaic(&bayer_image);
    let out_vec = as_rows(output_img.as_raw(), 3);
    assert_eq!(
        vec![
            vec![vec![1, 3, 5], vec![2, 2, 5], vec![3, 4, 5]],
            vec![vec![4, 4, 5], vec![5, 5, 5], vec![6, 6, 5]],
            vec![vec![7, 6, 5], vec![8, 8, 5], vec![9, 7, 5]]
        ],
        out_vec
    );
}

#[test]
fn test_linear_bggr() {
    let bayer_image = image_3x3(BayerPattern::BGGR);
    let demosaicer = DemosaicLinear;
    let output_img = demosaicer.demosaic(&bayer_image);
    let out_vec = as_rows(output_img.as_raw(), 3);
    assert_eq!(
        vec![
            vec![vec![5, 3, 1], vec![5, 2, 2], vec![5, 4, 3]],
            vec![vec![5, 4, 4], vec![5, 5, 5], vec![5, 6, 6]],
            vec![vec![5, 6, 7], vec![5, 8, 8], vec![5, 7, 9]],
        ],
        out_vec
    );
}

// With integer channels the means of three neighbours round down: the
// 4.33 and 5.67 of floating-point channels become 4 and 5.
#[test]
fn test_linear_grbg_integer_rounds_down() {
    let bayer_image = image_3x3(BayerPattern::GRBG);
    let output_img = DemosaicLinear.demosaic(&bayer_image);
    let out_vec = as_rows(output_img.as_raw(), 3);
    assert_eq!(
        vec![
            vec![vec![2, 1, 4], vec![2, 3, 5], vec![2, 3, 6]],
            vec![vec![5, 4, 4], vec![5, 5, 5], vec![5, 5, 6]],
            vec![vec![8, 7, 4], vec![8, 7, 5], vec![8, 9, 6]],
        ],
        out_vec
    );
}

#[test]
fn test_linear_gbrg_integer_rounds_down() {
    let bayer_image = image_3x3(BayerPattern::GBRG);
    let output_img = DemosaicLinear.demosaic(&bayer_image);
    let out_vec = as_rows(output_img.as_raw(), 3);
    assert_eq!(
        vec![
            vec![vec![4, 1, 2], vec![5, 3, 2], vec![6, 3, 2]],
            vec![vec![4, 4, 5], vec![5, 5, 5], vec![6, 5, 5]],
            vec![vec![4, 7, 8], vec![5, 7, 8], vec![6, 9, 8]],
        ],
        out_vec
    );
}

#[test]
fn interior_pixel_uses_all_neighbours() {
    // 4x4 RGGB; pixel (1, 1) is blue and lies inside, (2, 2) is red.
    let data: Vec<u16> = (1..=16).collect();
    let img = BayerImage::new(Mosaic::from_vec(4, 4, data).unwrap(), BayerPattern::RGGB);
    let out = DemosaicLinear.demosaic(&img);
    let raw = out.as_raw();
    let at = |x: usize, y: usize| raw[3 * (y * 4 + x)..3 * (y * 4 + x) + 3].to_vec();
    // Blue at (1,1) = 6: diagonal (1+3+9+11)/4 = 6, edge (2+5+7+10)/4 = 6.
    assert_eq!(at(1, 1), vec![6, 6, 6]);
    // Red at (2,2) = 11: edge (10+12+7+15)/4 = 11, diagonal (6+8+14+16)/4 = 11.
    assert_eq!(at(2, 2), vec![11, 11, 11]);
    // Green at (2,1) = 7 on a blue row: top-down (3+11)/2 = 7 for red, left-right (6+8)/2 = 7 for blue.
    assert_eq!(at(2, 1), vec![7, 7, 7]);
    // Corner (0,0) red = 1: edge (2+5)/2 = 3, diagonal 6.
    assert_eq!(at(0, 0), vec![1, 3, 6]);
}

#[test]
fn output_has_the_size_of_the_input() {
    let data: Vec<u8> = vec![10; 5 * 2];
    let img = BayerImage::new(Mosaic::from_vec(5, 2, data).unwrap(), BayerPattern::GRBG);
    let out = DemosaicLinear.demosaic(&img);
    assert_eq!(out.dimensions(), (5, 2));
    assert_eq!(out.as_raw().len(), 30);
}

#[test]
fn empty_image_gives_empty_output() {
    let img = BayerImage::new(Mosaic::from_vec(0, 7, Vec::<u16>::new()).unwrap(), BayerPattern::RGGB);
    assert!(DemosaicLinear.can_demosaic(&img));
    let out = DemosaicLinear.demosaic(&img);
    assert_eq!(out.dimensions(), (0, 7));
    assert!(out.into_raw().is_empty());
}

#[test]
fn single_pixel_cannot_be_demosaiced() {
    // A lone red photosite has no neighbour to take green from.
    let img = BayerImage::new(Mosaic::from_vec(1, 1, vec![7u16]).unwrap(), BayerPattern::RGGB);
    assert!(!DemosaicLinear.can_demosaic(&img));
}

#[test]
fn single_column_cannot_be_demosaiced() {
    // Green sites of a one-pixel-wide image have no left or right neighbour.
    let img = BayerImage::new(Mosaic::from_vec(1, 4, vec![1u16, 2, 3, 4]).unwrap(), BayerPattern::GRBG);
    assert!(!DemosaicLinear.can_demosaic(&img));
}

#[test]
fn sums_that_overflow_the_channel_type_are_refused() {
    let img = BayerImage::new(Mosaic::from_vec(3, 3, vec![200u8; 9]).unwrap(), BayerPattern::RGGB);
    assert!(!DemosaicLinear.can_demosaic(&img));
    let img = BayerImage::new(Mosaic::from_vec(3, 3, vec![63u8; 9]).unwrap(), BayerPattern::RGGB);
    assert!(DemosaicLinear.can_demosaic(&img));
    let img = BayerImage::new(Mosaic::from_vec(3, 3, vec![64u8; 9]).unwrap(), BayerPattern::RGGB);
    assert!(!DemosaicLinear.can_demosaic(&img));
}

#[test]
fn mosaic_needs_enough_samples() {
    assert!(Mosaic::from_vec(3, 3, vec![0u16; 8]).is_none());
    let m = Mosaic::from_vec(3, 3, vec![0u16; 10]).unwrap();
    assert_eq!(m.dimensions(), (3, 3));
    assert_eq!(m.as_raw().len(), 10);
}

#[test]
fn flat_field_stays_flat() {
    let img = BayerImage::new(Mosaic::from_vec(6, 5, vec![123u16; 30]).unwrap(), BayerPattern::GBRG);
    let out = DemosaicLinear.demosaic(&img);
    assert!(out.as_raw().iter().all(|&v| v == 123));
}

#[test]
fn result_stays_within_sample_range() {
    let data: Vec<u16> = (0..42u16).map(|i| 100 + (i * 37) % 50).collect();
    let lo = *data.iter().min().unwrap();
    let hi = *data.iter().max().unwrap();
    let img = BayerImage::new(Mosaic::from_vec(7, 6, data).unwrap(), BayerPattern::BGGR);
    let out = DemosaicLinear.demosaic(&img);
    assert!(out.as_raw().iter().all(|&v| lo <= v && v <= hi));
}

#[test]
fn recorded_samples_are_kept() {
    let data: Vec<u16> = (0..20u16).map(|i| i * 3 + 1).collect();
    let img = BayerImage::new(Mosaic::from_vec(5, 4, data.clone()).unwrap(), BayerPattern::GRBG);
    let mask = BayerPattern::GRBG.as_mask();
    let out = DemosaicLinear.demosaic(&img);
    for y in 0..4usize {
        for x in 0..5usize {
            let slot = match mask[(x & 1) + 2 * (y & 1)] {
                BayerChannel::R => 0,
                BayerChannel::G | BayerChannel::G2 => 1,
                BayerChannel::B => 2,
            };
            assert_eq!(out.as_raw()[3 * (y * 5 + x) + slot], data[y * 5 + x]);
        }
    }
}

#[test]
fn exchanging_red_and_blue_patterns_exchanges_channels() {
    let data: Vec<u16> = (0..30u16).map(|i| (i * 7) % 11).collect();
    for (a, b) in [(BayerPattern::RGGB, BayerPattern::BGGR), (BayerPattern::GRBG, BayerPattern::GBRG)] {
        let out_a = DemosaicLinear.demosaic(&BayerImage::new(Mosaic::from_vec(6, 5, data.clone()).unwrap(), a));
        let out_b = DemosaicLinear.demosaic(&BayerImage::new(Mosaic::from_vec(6, 5, data.clone()).unwrap(), b));
        for (pa, pb) in out_a.as_raw().chunks(3).zip(out_b.as_raw().chunks(3)) {
            assert_eq!(pa, &[pb[2], pb[1], pb[0]]);
        }
    }
}

#[test]
fn rows_assemble_the_image() {
    let data: Vec<u16> = (0..24u16).map(|i| (i * 13) % 17).collect();
    let img = BayerImage::new(Mosaic::from_vec(6, 4, data).unwrap(), BayerPattern::RGGB);
    let out = DemosaicLinear.demosaic(&img);
    let mut rows = Vec::new();
    for y in 0..4 {
        rows.extend(DemosaicLinear.demosaic_row(&img, y));
    }
    assert_eq!(&rows, out.as_raw());
}

#[test]
fn tiles_hold_each_channel_once() {
    for p in [BayerPattern::RGGB, BayerPattern::BGGR, BayerPattern::GRBG, BayerPattern::GBRG] {
        let mask = p.as_mask();
        for c in [BayerChannel::R, BayerChannel::G, BayerChannel::B, BayerChannel::G2] {
            assert_eq!(mask.iter().filter(|&&m| m == c).count(), 1);
        }
    }
    assert_eq!(
        BayerPattern::BGGR.as_mask(),
        [BayerChannel::B, BayerChannel::G2, BayerChannel::G, BayerChannel::R]
    );
}

#[test]
fn pattern_repeats_every_two_pixels() {
    for p in [BayerPattern::RGGB, BayerPattern::BGGR, BayerPattern::GRBG, BayerPattern::GBRG] {
        let mask = p.as_mask();
        let channel = |x: usize, y: usize| mask[(x & 1) + 2 * (y & 1)];
        for y in 0..4 {
            for x in 0..4 {
                assert_eq!(channel(x + 2, y), channel(x, y));
                assert_eq!(channel(x, y + 2), channel(x, y));
            }
        }
    }
}
