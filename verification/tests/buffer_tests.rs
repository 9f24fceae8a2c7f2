use serialimage::BufferError;
use serialimage::ImageMetaData;
use serialimage::SerialImageBuffer;

fn meta_record(name: &str) -> ImageMetaData {
    ImageMetaData {
        camera_name: name.to_string(),
        timestamp_ms: 1_700_000_000_000,
        exposure_us: 15_000,
        bin_x: 1,
        bin_y: 1,
        gain: 120,
        offset: 30,
        extended: vec![("telescope".to_string(), "backyard".to_string())],
    }
}

#[test]
fn flat_inference_luma() {
    let buf = SerialImageBuffer::from_vec(2, 2, vec![1u8, 2, 3, 4]).unwrap();
    assert_eq!(buf.pixel_elems(), 1);
    assert!(buf.is_luma());
    assert!(!buf.is_rgb());
    assert_eq!(buf.get_luma().unwrap(), &vec![1u8, 2, 3, 4]);
    assert!(buf.get_red().is_none());
    assert!(buf.get_alpha().is_none());
}

#[test]
fn flat_inference_luma_alpha() {
    let data: Vec<u8> = (0..8).collect();
    let buf = SerialImageBuffer::from_vec(2, 2, data).unwrap();
    assert_eq!(buf.pixel_elems(), 2);
    assert_eq!(buf.get_luma().unwrap(), &vec![0u8, 2, 4, 6]);
    assert_eq!(buf.get_alpha().unwrap(), &vec![1u8, 3, 5, 7]);
    assert!(buf.get_red().is_none());
}

#[test]
fn flat_inference_rgb() {
    let data: Vec<u16> = (0..12).collect();
    let buf = SerialImageBuffer::from_vec(2, 2, data).unwrap();
    assert_eq!(buf.pixel_elems(), 3);
    assert!(buf.is_rgb());
    assert_eq!(buf.get_red().unwrap(), &vec![0u16, 3, 6, 9]);
    assert_eq!(buf.get_green().unwrap(), &vec![1u16, 4, 7, 10]);
    assert_eq!(buf.get_blue().unwrap(), &vec![2u16, 5, 8, 11]);
    assert!(buf.get_luma().is_none());
    assert!(buf.get_alpha().is_none());
}

#[test]
fn flat_inference_rgba() {
    let data: Vec<u8> = (0..16).collect();
    let buf = SerialImageBuffer::from_vec(2, 2, data).unwrap();
    assert_eq!(buf.pixel_elems(), 4);
    assert_eq!(buf.get_red().unwrap(), &vec![0u8, 4, 8, 12]);
    assert_eq!(buf.get_green().unwrap(), &vec![1u8, 5, 9, 13]);
    assert_eq!(buf.get_blue().unwrap(), &vec![2u8, 6, 10, 14]);
    assert_eq!(buf.get_alpha().unwrap(), &vec![3u8, 7, 11, 15]);
}

#[test]
fn flat_inference_rejects_indivisible_length() {
    let r = SerialImageBuffer::from_vec(2, 2, vec![0u8; 5]);
    assert_eq!(r.unwrap_err(), BufferError::LengthNotDivisible);
}

#[test]
fn flat_inference_rejects_element_count_out_of_range() {
    let r = SerialImageBuffer::from_vec(1, 1, vec![0u8; 5]);
    assert_eq!(r.unwrap_err(), BufferError::ElementCountOutOfRange);
    let r = SerialImageBuffer::from_vec(2, 2, Vec::<u8>::new());
    assert_eq!(r.unwrap_err(), BufferError::ElementCountOutOfRange);
}

#[test]
fn zero_dimensions_rejected() {
    let r = SerialImageBuffer::from_vec(0, 5, Vec::<u8>::new());
    assert_eq!(r.unwrap_err(), BufferError::EmptyDimensions);
    let r = SerialImageBuffer::from_vec(5, 0, vec![1u8, 2, 3]);
    assert_eq!(r.unwrap_err(), BufferError::EmptyDimensions);
    let r = SerialImageBuffer::new(None, Some(vec![1u8, 2]), None, None, None, None, 0, 2);
    assert_eq!(r.unwrap_err(), BufferError::EmptyDimensions);
    let r = SerialImageBuffer::new(None, None, Some(vec![1u8]), Some(vec![2]), Some(vec![3]), None, 1, 0);
    assert_eq!(r.unwrap_err(), BufferError::EmptyDimensions);
}

#[test]
fn partial_rgb_rejected() {
    let r = SerialImageBuffer::new(
        None,
        None,
        Some(vec![1u8, 2, 3, 4]),
        Some(vec![1u8, 2, 3, 4]),
        None,
        None,
        2,
        2,
    );
    assert_eq!(r.unwrap_err(), BufferError::ChannelCombinationInvalid);
}

#[test]
fn luma_and_color_exclusive() {
    let r = SerialImageBuffer::new(
        None,
        Some(vec![9u8; 4]),
        Some(vec![1u8; 4]),
        Some(vec![2u8; 4]),
        Some(vec![3u8; 4]),
        None,
        2,
        2,
    );
    assert_eq!(r.unwrap_err(), BufferError::ChannelCombinationInvalid);
}

#[test]
fn no_channels_rejected() {
    let r = SerialImageBuffer::<u8>::new(None, None, None, None, None, None, 2, 2);
    assert_eq!(r.unwrap_err(), BufferError::ChannelCombinationInvalid);
}

#[test]
fn alpha_alone_rejected() {
    let r = SerialImageBuffer::new(None, None, None, None, None, Some(vec![1u8; 4]), 2, 2);
    assert_eq!(r.unwrap_err(), BufferError::ChannelCombinationInvalid);
}

#[test]
fn channel_length_mismatch_rejected() {
    let r = SerialImageBuffer::new(
        None,
        None,
        Some(vec![1u8; 4]),
        Some(vec![2u8; 4]),
        Some(vec![3u8; 4]),
        None,
        2,
        3,
    );
    assert_eq!(r.unwrap_err(), BufferError::ChannelLengthMismatch);
    let r = SerialImageBuffer::new(None, Some(vec![1u8; 3]), None, None, None, None, 2, 2);
    assert_eq!(r.unwrap_err(), BufferError::ChannelLengthMismatch);
    let r = SerialImageBuffer::new(
        None,
        Some(vec![1u8; 4]),
        None,
        None,
        None,
        Some(vec![1u8; 5]),
        2,
        2,
    );
    assert_eq!(r.unwrap_err(), BufferError::ChannelLengthMismatch);
}

#[test]
fn element_count_matches_present_channels() {
    let luma = SerialImageBuffer::new(None, Some(vec![1u8; 6]), None, None, None, None, 2, 3)
        .unwrap();
    assert_eq!(luma.pixel_elems(), 1);
    let luma_alpha = SerialImageBuffer::new(
        None,
        Some(vec![1u8; 6]),
        None,
        None,
        None,
        Some(vec![2u8; 6]),
        2,
        3,
    )
    .unwrap();
    assert_eq!(luma_alpha.pixel_elems(), 2);
    let rgb = SerialImageBuffer::new(
        None,
        None,
        Some(vec![1u8; 6]),
        Some(vec![2u8; 6]),
        Some(vec![3u8; 6]),
        None,
        2,
        3,
    )
    .unwrap();
    assert_eq!(rgb.pixel_elems(), 3);
    let rgba = SerialImageBuffer::new(
        None,
        None,
        Some(vec![1u8; 6]),
        Some(vec![2u8; 6]),
        Some(vec![3u8; 6]),
        Some(vec![4u8; 6]),
        2,
        3,
    )
    .unwrap();
    assert_eq!(rgba.pixel_elems(), 4);
    for buf in [&luma, &luma_alpha, &rgb, &rgba] {
        let implied = buf.get_luma().is_some() as u8
            + buf.get_red().is_some() as u8
            + buf.get_green().is_some() as u8
            + buf.get_blue().is_some() as u8
            + buf.get_alpha().is_some() as u8;
        assert_eq!(buf.pixel_elems(), implied);
        assert!(buf.is_well_formed());
    }
}

#[test]
fn interleave_order_rgba_one_pixel() {
    let buf = SerialImageBuffer::new(
        None,
        None,
        Some(vec![10u8]),
        Some(vec![20u8]),
        Some(vec![30u8]),
        Some(vec![40u8]),
        1,
        1,
    )
    .unwrap();
    assert_eq!(buf.into_vec(), vec![10u8, 20, 30, 40]);
}

#[test]
fn round_trip_all_element_counts() {
    for elems in 1usize..=4 {
        for pixels in [1usize, 2, 3, 7] {
            let data: Vec<u16> = (0..(elems * pixels) as u16).collect();
            let buf = SerialImageBuffer::from_vec(pixels, 1, data.clone()).unwrap();
            assert_eq!(buf.pixel_elems() as usize, elems);
            let flat = buf.into_vec();
            assert_eq!(flat, data);
            let again = SerialImageBuffer::from_vec(pixels, 1, flat).unwrap();
            assert_eq!(again.pixel_elems() as usize, elems);
            assert_eq!(again.width(), pixels);
            assert_eq!(again.height(), 1);
        }
    }
}

#[test]
fn round_trip_from_channels() {
    let red = vec![1u8, 2, 3, 4, 5, 6];
    let green = vec![11u8, 12, 13, 14, 15, 16];
    let blue = vec![21u8, 22, 23, 24, 25, 26];
    let buf = SerialImageBuffer::new(
        None,
        None,
        Some(red.clone()),
        Some(green.clone()),
        Some(blue.clone()),
        None,
        3,
        2,
    )
    .unwrap();
    let flat = buf.into_vec();
    assert_eq!(flat, vec![1u8, 11, 21, 2, 12, 22, 3, 13, 23, 4, 14, 24, 5, 15, 25, 6, 16, 26]);
    let again = SerialImageBuffer::from_vec(3, 2, flat).unwrap();
    assert_eq!(again.get_red().unwrap(), &red);
    assert_eq!(again.get_green().unwrap(), &green);
    assert_eq!(again.get_blue().unwrap(), &blue);
}

#[test]
fn luma_alpha_interleaves_alternately() {
    let buf = SerialImageBuffer::new(
        None,
        Some(vec![7u16, 8]),
        None,
        None,
        None,
        Some(vec![100u16, 200]),
        2,
        1,
    )
    .unwrap();
    assert_eq!(buf.into_vec(), vec![7u16, 100, 8, 200]);
}

#[test]
fn from_color_channels_builds_rgb_and_rgba() {
    let buf = SerialImageBuffer::from_color_channels(
        None,
        vec![1u8, 2],
        vec![3u8, 4],
        vec![5u8, 6],
        None,
        2,
        1,
    )
    .unwrap();
    assert_eq!(buf.pixel_elems(), 3);
    let buf = SerialImageBuffer::from_color_channels(
        None,
        vec![1u8, 2],
        vec![3u8, 4],
        vec![5u8, 6],
        Some(vec![7u8, 8]),
        2,
        1,
    )
    .unwrap();
    assert_eq!(buf.pixel_elems(), 4);
}

#[test]
fn from_color_channels_rejects_bad_inputs() {
    let r = SerialImageBuffer::from_color_channels(
        None,
        vec![1u8, 2],
        vec![3u8, 4],
        vec![5u8, 6],
        None,
        0,
        1,
    );
    assert_eq!(r.unwrap_err(), BufferError::EmptyDimensions);
    let r = SerialImageBuffer::from_color_channels(
        None,
        vec![1u8, 2, 3],
        vec![3u8, 4],
        vec![5u8, 6],
        None,
        2,
        1,
    );
    assert_eq!(r.unwrap_err(), BufferError::ChannelLengthMismatch);
}

#[test]
fn from_color_channels_at_float_kind() {
    let buf = SerialImageBuffer::from_color_channels(
        None,
        vec![0.25f32, 0.5],
        vec![0.75f32, 1.0],
        vec![0.1f32, 0.2],
        None,
        2,
        1,
    )
    .unwrap();
    assert_eq!(buf.pixel_elems(), 3);
    assert_eq!(buf.into_vec(), vec![0.25f32, 0.75, 0.1, 0.5, 1.0, 0.2]);
}

#[test]
fn metadata_slot_round_trip() {
    let mut buf = SerialImageBuffer::new(
        Some(meta_record("alpha cam")),
        Some(vec![1u8; 4]),
        None,
        None,
        None,
        None,
        2,
        2,
    )
    .unwrap();
    assert_eq!(buf.get_metadata().unwrap().camera_name, "alpha cam");
    buf.get_mut_metadata().unwrap().gain = 999;
    assert_eq!(buf.get_metadata().unwrap().gain, 999);
    buf.set_metadata(Some(meta_record("beta cam")));
    assert_eq!(buf.get_metadata().unwrap().camera_name, "beta cam");
    assert_eq!(buf.get_metadata().unwrap().gain, 120);
    buf.set_metadata(None);
    assert!(buf.get_metadata().is_none());
}

#[test]
fn mutable_channel_views_change_samples() {
    let mut buf = SerialImageBuffer::from_vec(2, 2, (0u8..12).collect::<Vec<u8>>()).unwrap();
    buf.get_mut_red().unwrap()[0] = 90;
    buf.get_mut_green().unwrap()[1] = 91;
    buf.get_mut_blue().unwrap()[2] = 92;
    assert_eq!(buf.get_red().unwrap(), &vec![90u8, 3, 6, 9]);
    assert_eq!(buf.get_green().unwrap(), &vec![1u8, 91, 7, 10]);
    assert_eq!(buf.get_blue().unwrap(), &vec![2u8, 5, 92, 11]);
    assert!(buf.get_mut_luma().is_none());
    assert!(buf.get_mut_alpha().is_none());
    let mut gray = SerialImageBuffer::from_vec(2, 1, vec![5u8, 6, 7, 8]).unwrap();
    gray.get_mut_luma().unwrap()[1] = 60;
    gray.get_mut_alpha().unwrap()[0] = 70;
    assert_eq!(gray.into_vec(), vec![5u8, 70, 60, 8]);
}

#[test]
fn dimensions_reported() {
    let buf = SerialImageBuffer::from_vec(3, 2, vec![0u8; 6]).unwrap();
    assert_eq!(buf.width(), 3);
    assert_eq!(buf.height(), 2);
}

#[test]
fn well_formedness_checker_notices_resized_channel() {
    let mut buf = SerialImageBuffer::from_vec(2, 2, vec![1u8, 2, 3, 4]).unwrap();
    assert!(buf.is_well_formed());
    buf.get_mut_luma().unwrap().push(99);
    assert!(!buf.is_well_formed());
}

#[test]
fn oversized_dimensions_from_vec() {
    let r = SerialImageBuffer::from_vec(usize::MAX, 2, vec![1u8, 2]);
    assert_eq!(r.unwrap_err(), BufferError::LengthNotDivisible);
    let r = SerialImageBuffer::from_vec(usize::MAX, 2, Vec::<u8>::new());
    assert_eq!(r.unwrap_err(), BufferError::ElementCountOutOfRange);
}

#[test]
fn oversized_dimensions_from_channels() {
    let r = SerialImageBuffer::new(
        None,
        Some(vec![1u8, 2, 3]),
        None,
        None,
        None,
        None,
        usize::MAX,
        2,
    );
    assert_eq!(r.unwrap_err(), BufferError::ChannelLengthMismatch);
}
