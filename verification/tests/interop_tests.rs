use image::DynamicImage;
use image::ImageBuffer;
use image::Luma;
use image::LumaA;
use image::Rgb;
use image::Rgba;
use serialimage::BufferError;
use serialimage::SerialImageBuffer;

#[test]
fn dynamic_luma8_to_buffer() {
    let img = ImageBuffer::<Luma<u8>, Vec<u8>>::from_raw(2, 2, vec![10, 20, 30, 40]).unwrap();
    let buf = SerialImageBuffer::<u8>::try_from_dynamic(DynamicImage::ImageLuma8(img)).unwrap();
    assert_eq!(buf.width(), 2);
    assert_eq!(buf.height(), 2);
    assert_eq!(buf.pixel_elems(), 1);
    assert_eq!(buf.get_luma().unwrap(), &vec![10u8, 20, 30, 40]);
}

#[test]
fn dynamic_rgba8_to_buffer_splits_channels() {
    let raw: Vec<u8> = (0..16).collect();
    let img = ImageBuffer::<Rgba<u8>, Vec<u8>>::from_raw(2, 2, raw).unwrap();
    let buf = SerialImageBuffer::<u8>::try_from_dynamic(DynamicImage::ImageRgba8(img)).unwrap();
    assert_eq!(buf.pixel_elems(), 4);
    assert_eq!(buf.get_red().unwrap(), &vec![0u8, 4, 8, 12]);
    assert_eq!(buf.get_green().unwrap(), &vec![1u8, 5, 9, 13]);
    assert_eq!(buf.get_blue().unwrap(), &vec![2u8, 6, 10, 14]);
    assert_eq!(buf.get_alpha().unwrap(), &vec![3u8, 7, 11, 15]);
}

#[test]
fn dynamic_luma_a16_to_buffer() {
    let img = ImageBuffer::<LumaA<u16>, Vec<u16>>::from_raw(1, 2, vec![1000, 1, 2000, 2]).unwrap();
    let buf = SerialImageBuffer::<u16>::try_from_dynamic(DynamicImage::ImageLumaA16(img)).unwrap();
    assert_eq!(buf.pixel_elems(), 2);
    assert_eq!(buf.get_luma().unwrap(), &vec![1000u16, 2000]);
    assert_eq!(buf.get_alpha().unwrap(), &vec![1u16, 2]);
}

#[test]
fn dynamic_wrong_sample_kind_rejected() {
    let img = ImageBuffer::<Luma<u16>, Vec<u16>>::from_raw(1, 1, vec![7]).unwrap();
    let r = SerialImageBuffer::<u8>::try_from_dynamic(DynamicImage::ImageLuma16(img));
    assert_eq!(r.unwrap_err(), BufferError::UnsupportedSourceFormat);
    let img = ImageBuffer::<Rgb<u8>, Vec<u8>>::from_raw(1, 1, vec![1, 2, 3]).unwrap();
    let r = SerialImageBuffer::<u16>::try_from_dynamic(DynamicImage::ImageRgb8(img));
    assert_eq!(r.unwrap_err(), BufferError::UnsupportedSourceFormat);
    let img = ImageBuffer::<Rgb<f32>, Vec<f32>>::from_raw(1, 1, vec![0.1, 0.2, 0.3]).unwrap();
    let r = SerialImageBuffer::<u8>::try_from_dynamic(DynamicImage::ImageRgb32F(img));
    assert_eq!(r.unwrap_err(), BufferError::UnsupportedSourceFormat);
}

#[test]
fn buffer_to_dynamic_u8_rgb() {
    let buf = SerialImageBuffer::from_vec(2, 1, vec![1u8, 2, 3, 4, 5, 6]).unwrap();
    let dynimg = buf.into_dynamic().unwrap();
    match dynimg {
        DynamicImage::ImageRgb8(img) => {
            assert_eq!(img.width(), 2);
            assert_eq!(img.height(), 1);
            assert_eq!(img.into_raw(), vec![1u8, 2, 3, 4, 5, 6]);
        },
        _ => panic!("expected an eight-bit color image"),
    }
}

#[test]
fn buffer_to_dynamic_u16_luma() {
    let buf = SerialImageBuffer::from_vec(2, 2, vec![5u16, 6, 7, 8]).unwrap();
    let dynimg = buf.into_dynamic().unwrap();
    match dynimg {
        DynamicImage::ImageLuma16(img) => {
            assert_eq!(img.into_raw(), vec![5u16, 6, 7, 8]);
        },
        _ => panic!("expected a sixteen-bit grayscale image"),
    }
}

#[test]
fn dynamic_round_trip_u8() {
    let raw: Vec<u8> = (0..8).collect();
    let img = ImageBuffer::<LumaA<u8>, Vec<u8>>::from_raw(2, 2, raw.clone()).unwrap();
    let buf = SerialImageBuffer::<u8>::try_from_dynamic(DynamicImage::ImageLumaA8(img)).unwrap();
    let back = buf.into_dynamic().unwrap();
    match back {
        DynamicImage::ImageLumaA8(img) => assert_eq!(img.into_raw(), raw),
        _ => panic!("expected an eight-bit grayscale image with alpha"),
    }
}
