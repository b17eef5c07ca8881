use zarrs_jpeg::chunk::{get_shape, is_bad_chunk_shape, is_supported_data_type, ChunkShapeError};
use zarrs_jpeg::config::Quality;
use zarrs_jpeg::{ColorConfig, JpegCodec, JpegCodecConfig, JpegCodecTrait, JpegEncoderTrait};

#[test]
fn chunk_shape_of_color_images() {
    let s = get_shape(&[20, 10, 3], 3).unwrap();
    assert_eq!((s.width(), s.height()), (10, 20));
    let s = get_shape(&[20, 10], 1).unwrap();
    assert_eq!((s.width(), s.height()), (10, 20));
    let s = get_shape(&[20, 10, 1], 1).unwrap();
    assert_eq!((s.width(), s.height()), (10, 20));
}

#[test]
fn chunk_shape_errors() {
    assert!(matches!(
        get_shape(&[20, 10], 3),
        Err(ChunkShapeError::IncompatibleDimensionality { got: 2, expected: 3 })
    ));
    assert!(matches!(
        get_shape(&[20], 1),
        Err(ChunkShapeError::IncompatibleDimensionality { got: 1, expected: 2 })
    ));
    assert!(matches!(
        get_shape(&[20, 10, 3, 1], 3),
        Err(ChunkShapeError::IncompatibleDimensionality { got: 4, expected: 3 })
    ));
    assert!(matches!(
        get_shape(&[20, 10, 3], 1),
        Err(ChunkShapeError::LastDimension { expected: 1, got: 3 })
    ));
    assert!(matches!(get_shape(&[20, 70000, 3], 3), Err(ChunkShapeError::InvalidShape(_))));
}

#[test]
fn chunk_elements_are_pixel_bytes() {
    let c = JpegCodec::try_from(JpegCodecConfig::new(Quality::default(), ColorConfig::Rgb)).unwrap();
    let chunk = [6u64, 5, 3];
    let s = get_shape(&chunk, c.decoded_components()).unwrap();
    assert!(c.check_decoded_size(s, 90).is_ok());
    assert!(c.check_decoded_size(s, 89).is_err());
}

#[test]
fn mcu_alignment() {
    assert!(!is_bad_chunk_shape(&[16, 32, 3], (16, 8)));
    assert!(is_bad_chunk_shape(&[16, 30, 3], (16, 8)));
    assert!(is_bad_chunk_shape(&[12, 32, 3], (16, 16)));
    assert!(!is_bad_chunk_shape(&[12], (16, 16)));
    assert!(is_bad_chunk_shape(&[8, 8], (0, 8)));
}

#[test]
fn only_uint8_is_supported() {
    assert!(is_supported_data_type(Some("uint8")));
    assert!(!is_supported_data_type(Some("uint16")));
    assert!(!is_supported_data_type(Some("int8")));
    assert!(!is_supported_data_type(Some("uint")));
    assert!(!is_supported_data_type(None));
}
