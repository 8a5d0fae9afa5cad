use pixel_ops::{
    ChannelBuffer, Colorspace, Image, Invert, OpError, OpName, ReinterpretError, SampleEncoding,
    Transpose, TransposePath,
};
use pixel_ops::dispatch::check_colorspace_support;
use pixel_ops::invert::invert;
use pixel_ops::transpose::{select_transpose_path, transpose_generic, transpose_u16, transpose_u8};

fn sample_bytes(n: usize) -> Vec<u8> {
    let mut v = Vec::new();
    for i in 0..n {
        v.push(((i * 31 + 7) % 251) as u8);
    }
    v
}

fn sample_words(n: usize) -> Vec<u16> {
    let mut v = Vec::new();
    for i in 0..n {
        v.push(((i * 2531 + 99) % 60013) as u16);
    }
    v
}

#[test]
fn test_multiband_invert() {
    let mut image = Image::filled_u8(
        0_u8,
        Colorspace::MultiBand(6),
        100,
        100,
    )
    .unwrap();
    let r = Invert::new().execute(&mut image);
    assert_eq!(
        r,
        Err(OpError::UnsupportedColorspace(
            OpName::Invert,
            Colorspace::MultiBand(6)
        ))
    );
    // validation failures leave the image untouched
    assert_eq!(image.channel_count(), 6);
    for i in 0..6 {
        assert!(image.channels[i].data.iter().all(|&b| b == 0));
    }
}

#[test]
fn invert_u8_involution() {
    let orig = sample_bytes(1000);
    let mut v = orig.clone();
    invert(&mut v);
    invert(&mut v);
    assert_eq!(v, orig);
}

#[test]
fn invert_u16_involution() {
    let orig = sample_words(1000);
    let mut v = orig.clone();
    invert(&mut v);
    invert(&mut v);
    assert_eq!(v, orig);
}

#[test]
fn invert_u8_full_scale() {
    let mut zeros = vec![0_u8; 64];
    invert(&mut zeros);
    assert!(zeros.iter().all(|&b| b == 255));
    let mut maxed = vec![255_u8; 64];
    invert(&mut maxed);
    assert!(maxed.iter().all(|&b| b == 0));
}

#[test]
fn invert_u16_full_scale() {
    let mut zeros = vec![0_u16; 64];
    invert(&mut zeros);
    assert!(zeros.iter().all(|&b| b == 65535));
    let mut maxed = vec![65535_u16; 64];
    invert(&mut maxed);
    assert!(maxed.iter().all(|&b| b == 0));
}

#[test]
fn invert_exact_values() {
    let mut v8: Vec<u8> = vec![0, 1, 10, 100, 255];
    invert(&mut v8);
    assert_eq!(v8, vec![255, 254, 245, 155, 0]);
    let mut v16: Vec<u16> = vec![0, 1000, 65535];
    invert(&mut v16);
    assert_eq!(v16, vec![65535, 64535, 0]);
}

#[test]
fn invert_800x600_fill_10() {
    let mut image = Image::filled_u8(10, Colorspace::Luma, 800, 600).unwrap();
    assert_eq!(Invert::new().execute(&mut image), Ok(()));
    let (w, h) = image.dimensions();
    assert_eq!((w, h), (800, 600));
    assert_eq!(image.channels[0].data.len(), 800 * 600);
    assert!(image.channels[0].data.iter().all(|&b| b == 245));
}

#[test]
fn invert_rgba_skips_alpha() {
    let mut image = Image::filled_u8(10, Colorspace::RGBA, 4, 3).unwrap();
    assert_eq!(Invert::new().execute(&mut image), Ok(()));
    for band in 0..3 {
        assert!(image.channels[band].data.iter().all(|&b| b == 245));
    }
    assert!(image.channels[3].data.iter().all(|&b| b == 10));
}

#[test]
fn invert_u16_image() {
    let samples: Vec<u16> = vec![0, 1000, 65535, 257, 40000, 5];
    let ch = ChannelBuffer::from_u16_samples(&samples);
    let mut image = Image::from_channels(vec![ch], Colorspace::Luma, SampleEncoding::U16, 3, 2)
        .unwrap();
    assert_eq!(Invert::new().execute(&mut image), Ok(()));
    let out = image.channels[0].to_u16_samples().unwrap();
    assert_eq!(out, vec![65535, 64535, 0, 65278, 25535, 65530]);
}

#[test]
fn invert_f32_reports_missing_kernel() {
    let ch = ChannelBuffer::from_u32_groups(&vec![0, 0], SampleEncoding::F32);
    let mut image = Image::from_channels(vec![ch], Colorspace::Luma, SampleEncoding::F32, 2, 1)
        .unwrap();
    let r = Invert::new().execute(&mut image);
    assert_eq!(
        r,
        Err(OpError::NotImplemented(OpName::Invert, SampleEncoding::F32))
    );
}

#[test]
fn invert_u32_unsupported_encoding() {
    let ch = ChannelBuffer::from_u32_groups(&vec![1, 2], SampleEncoding::U32);
    let mut image = Image::from_channels(vec![ch], Colorspace::Luma, SampleEncoding::U32, 2, 1)
        .unwrap();
    let r = Invert::new().execute(&mut image);
    assert_eq!(
        r,
        Err(OpError::UnsupportedSampleEncoding(
            OpName::Invert,
            SampleEncoding::U32
        ))
    );
}

#[test]
fn luma_only_operation_rejects_rgb() {
    let image = Image::filled_u8(7, Colorspace::RGB, 4, 4).unwrap();
    // a one-band operation that declares support for Luma alone
    let luma_only = vec![Colorspace::Luma];
    let r = check_colorspace_support(OpName::Invert, &luma_only, &image);
    assert_eq!(
        r,
        Err(OpError::UnsupportedColorspace(OpName::Invert, Colorspace::RGB))
    );
    for band in 0..3 {
        assert!(image.channels[band].data.iter().all(|&b| b == 7));
    }
}

#[test]
fn transpose_3x2_scenario() {
    let ch = ChannelBuffer::from_u8_samples(vec![1, 2, 3, 4, 5, 6]);
    let mut image = Image::from_channels(vec![ch], Colorspace::Luma, SampleEncoding::U8, 3, 2)
        .unwrap();
    assert_eq!(Transpose::new().execute(&mut image), Ok(()));
    let (w, h) = image.dimensions();
    assert_eq!((w, h), (2, 3));
    assert_eq!(image.channels[0].data, vec![1, 4, 2, 5, 3, 6]);
}

#[test]
fn transpose_unsupported_encoding() {
    let ch = ChannelBuffer::from_u32_groups(&vec![1, 2], SampleEncoding::U32);
    let mut image = Image::from_channels(vec![ch], Colorspace::Luma, SampleEncoding::U32, 2, 1)
        .unwrap();
    let r = Transpose::new().execute(&mut image);
    assert_eq!(
        r,
        Err(OpError::UnsupportedSampleEncoding(
            OpName::Transpose,
            SampleEncoding::U32
        ))
    );
    let (w, h) = image.dimensions();
    assert_eq!((w, h), (2, 1));
    assert_eq!(image.channels[0].data.len(), 8);
}

#[test]
fn transpose_kernel_involution() {
    let src = sample_bytes(5 * 3);
    let mut once = vec![0_u8; 15];
    transpose_generic(&src, &mut once, 5, 3);
    let mut twice = vec![0_u8; 15];
    transpose_generic(&once, &mut twice, 3, 5);
    assert_eq!(twice, src);
}

#[test]
fn transpose_execute_involution() {
    let orig = sample_bytes(20 * 9);
    let ch = ChannelBuffer::from_u8_samples(orig.clone());
    let mut image = Image::from_channels(vec![ch], Colorspace::Luma, SampleEncoding::U8, 20, 9)
        .unwrap();
    assert_eq!(Transpose::new().execute(&mut image), Ok(()));
    assert_eq!(image.dimensions(), (9, 20));
    assert_eq!(Transpose::new().execute(&mut image), Ok(()));
    assert_eq!(image.dimensions(), (20, 9));
    assert_eq!(image.channels[0].data, orig);
}

#[test]
fn transpose_paths_agree_u8() {
    // exact block multiples, one less, one more, and degenerate strips
    let dims: [(usize, usize); 6] = [(16, 8), (15, 7), (17, 9), (1, 13), (13, 1), (40, 24)];
    for (w, h) in dims {
        let src = sample_bytes(w * h);
        let mut scalar = vec![0_u8; w * h];
        transpose_generic(&src, &mut scalar, w, h);
        let mut blocked = vec![0_u8; w * h];
        transpose_u8(&src, &mut blocked, w, h);
        assert_eq!(scalar, blocked);
    }
}

#[test]
fn transpose_paths_agree_u16() {
    let dims: [(usize, usize); 6] = [(16, 8), (15, 7), (17, 9), (1, 13), (13, 1), (32, 32)];
    for (w, h) in dims {
        let src = sample_words(w * h);
        let mut scalar = vec![0_u16; w * h];
        transpose_generic(&src, &mut scalar, w, h);
        let mut blocked = vec![0_u16; w * h];
        transpose_u16(&src, &mut blocked, w, h);
        assert_eq!(scalar, blocked);
    }
}

#[test]
fn transpose_execute_paths_agree() {
    let src = sample_bytes(15 * 7);
    let ch_a = ChannelBuffer::from_u8_samples(src.clone());
    let mut a = Image::from_channels(vec![ch_a], Colorspace::Luma, SampleEncoding::U8, 15, 7)
        .unwrap();
    let ch_b = ChannelBuffer::from_u8_samples(src);
    let mut b = Image::from_channels(vec![ch_b], Colorspace::Luma, SampleEncoding::U8, 15, 7)
        .unwrap();
    let t = Transpose::new();
    assert_eq!(t.execute_with_path(&mut a, TransposePath::Scalar), Ok(()));
    assert_eq!(t.execute_with_path(&mut b, TransposePath::Blocked8), Ok(()));
    assert_eq!(a.channels[0].data, b.channels[0].data);
    assert_eq!(a.dimensions(), b.dimensions());
}

#[test]
fn transpose_u16_image() {
    let samples: Vec<u16> = vec![10, 20, 30, 40];
    let ch = ChannelBuffer::from_u16_samples(&samples);
    let mut image = Image::from_channels(vec![ch], Colorspace::Luma, SampleEncoding::U16, 2, 2)
        .unwrap();
    assert_eq!(Transpose::new().execute(&mut image), Ok(()));
    assert_eq!(image.dimensions(), (2, 2));
    let out = image.channels[0].to_u16_samples().unwrap();
    assert_eq!(out, vec![10, 30, 20, 40]);
}

#[test]
fn transpose_f32_image() {
    let bits: Vec<u32> = vec![
        1.0_f32.to_bits(),
        2.5_f32.to_bits(),
        (-3.25_f32).to_bits(),
        0.125_f32.to_bits(),
    ];
    let ch = ChannelBuffer::from_u32_groups(&bits, SampleEncoding::F32);
    let mut image = Image::from_channels(vec![ch], Colorspace::Luma, SampleEncoding::F32, 2, 2)
        .unwrap();
    assert_eq!(Transpose::new().execute(&mut image), Ok(()));
    let out = image.channels[0].to_u32_groups(SampleEncoding::F32).unwrap();
    assert_eq!(f32::from_bits(out[0]), 1.0);
    assert_eq!(f32::from_bits(out[1]), -3.25);
    assert_eq!(f32::from_bits(out[2]), 2.5);
    assert_eq!(f32::from_bits(out[3]), 0.125);
}

#[test]
fn transpose_multiband_supported() {
    // transpose imposes no colorspace restriction
    let mut image = Image::filled_u8(3, Colorspace::MultiBand(5), 6, 4).unwrap();
    assert_eq!(Transpose::new().execute(&mut image), Ok(()));
    assert_eq!(image.dimensions(), (4, 6));
    assert_eq!(image.channel_count(), 5);
}

#[test]
fn reinterpret_error_cases() {
    let odd = ChannelBuffer {
        data: vec![1, 2, 3],
        encoding: SampleEncoding::U16,
    };
    assert_eq!(
        odd.to_u16_samples(),
        Err(ReinterpretError::LengthMismatch)
    );
    let bytes = ChannelBuffer::from_u8_samples(vec![1, 2]);
    assert_eq!(
        bytes.to_u16_samples(),
        Err(ReinterpretError::EncodingMismatch)
    );
    assert_eq!(
        bytes.to_u32_groups(SampleEncoding::F32),
        Err(ReinterpretError::EncodingMismatch)
    );
}

#[test]
fn channel_u16_round_trip() {
    let samples: Vec<u16> = vec![0, 1, 255, 256, 65535, 4660];
    let ch = ChannelBuffer::from_u16_samples(&samples);
    assert_eq!(ch.data.len(), 12);
    assert_eq!(ch.to_u16_samples().unwrap(), samples);
}

#[test]
fn channel_u32_round_trip() {
    let groups: Vec<u32> = vec![0, 1, 0xdead_beef, u32::MAX];
    let ch = ChannelBuffer::from_u32_groups(&groups, SampleEncoding::U32);
    assert_eq!(ch.data.len(), 16);
    assert_eq!(ch.to_u32_groups(SampleEncoding::U32).unwrap(), groups);
}

#[test]
fn image_construction_rules() {
    // zero dimension
    assert!(Image::filled_u8(0, Colorspace::Luma, 0, 5).is_none());
    // multi-band count must be positive
    assert!(Image::filled_u8(0, Colorspace::MultiBand(0), 2, 2).is_none());
    // band count must match the colorspace
    let ch = ChannelBuffer::from_u8_samples(vec![0; 4]);
    assert!(Image::from_channels(vec![ch], Colorspace::RGB, SampleEncoding::U8, 2, 2).is_none());
    // channel length must match the shape
    let short = ChannelBuffer::from_u8_samples(vec![0; 3]);
    assert!(
        Image::from_channels(vec![short], Colorspace::Luma, SampleEncoding::U8, 2, 2).is_none()
    );
    // encoding of each channel must match the declared encoding
    let ch16 = ChannelBuffer::from_u16_samples(&vec![0, 0, 0, 0]);
    assert!(
        Image::from_channels(vec![ch16], Colorspace::Luma, SampleEncoding::U8, 2, 2).is_none()
    );
    let ok = Image::from_channels(
        vec![ChannelBuffer::from_u8_samples(vec![9; 6])],
        Colorspace::Luma,
        SampleEncoding::U8,
        3,
        2,
    )
    .unwrap();
    assert!(ok.is_well_formed());
    assert_eq!(ok.sample_encoding(), SampleEncoding::U8);
    assert_eq!(ok.colorspace(), Colorspace::Luma);
}

#[test]
fn channel_allocation() {
    let ch = ChannelBuffer::new_with_encoding(4, SampleEncoding::U16);
    assert_eq!(ch.encoding, SampleEncoding::U16);
    assert_eq!(ch.data.len(), 8);
    assert_eq!(ch.elem_count(), 4);
    assert!(ch.data.iter().all(|&b| b == 0));
    assert_eq!(SampleEncoding::U8.byte_width(), 1);
    assert_eq!(SampleEncoding::F32.byte_width(), 4);
    assert_eq!(Colorspace::RGBA.band_count(), 4);
    assert_eq!(Colorspace::MultiBand(9).band_count(), 9);
    assert!(Colorspace::LumaA.has_alpha());
    assert!(!Colorspace::MultiBand(4).has_alpha());
}

#[test]
fn path_selection() {
    assert_eq!(select_transpose_path(true), TransposePath::Blocked8);
    assert_eq!(select_transpose_path(false), TransposePath::Scalar);
    assert_eq!(Invert::new().name(), OpName::Invert);
    assert_eq!(Transpose::new().name(), OpName::Transpose);
}
