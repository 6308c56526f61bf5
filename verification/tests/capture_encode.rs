use screen_capture::channels::bgra_to_rgba;
use screen_capture::compose::{capture_area, convert_bgra_frame, is_virtual_placeholder_monitor, CaptureRequest};
use screen_capture::encode::{
    encode_image, prepare_image_for_save, rgba_to_rgb_bytes, ImageEncoder, SavePayload,
};
use screen_capture::geometry::ElementRect;
use screen_capture::imaging::PixelBuffer;
use screen_capture::monitor::{MonitorInfo, MonitorList};
use screen_capture::text::decimal_string;

fn rect(min_x: i32, min_y: i32, max_x: i32, max_y: i32) -> ElementRect {
    ElementRect { min_x, min_y, max_x, max_y }
}

fn solid_frame(width: u32, height: u32, rgba: [u8; 4]) -> PixelBuffer {
    let mut bytes = Vec::with_capacity((width * height * 4) as usize);
    for _ in 0..width * height {
        bytes.extend_from_slice(&rgba);
    }
    PixelBuffer::from_rgba_bytes(width, height, bytes).unwrap()
}

fn pixel_at(bytes: &[u8], width: u32, x: u32, y: u32) -> [u8; 4] {
    let base = (4 * (y * width + x)) as usize;
    [bytes[base], bytes[base + 1], bytes[base + 2], bytes[base + 3]]
}

#[test]
fn channel_swap_round_trip_restores_the_bytes() {
    let original: Vec<u8> = (0u8..=255).cycle().take(4 * 97).collect();
    let swapped = bgra_to_rgba(&original);
    assert_ne!(swapped, original);
    assert_eq!(bgra_to_rgba(&swapped), original);
}

#[test]
fn channel_swap_exchanges_blue_and_red() {
    let bgra = vec![1u8, 2, 3, 4, 10, 20, 30, 40];
    assert_eq!(bgra_to_rgba(&bgra), vec![3, 2, 1, 4, 30, 20, 10, 40]);
    // Trailing bytes short of a whole pixel are dropped.
    let ragged = vec![1u8, 2, 3, 4, 9, 9];
    assert_eq!(bgra_to_rgba(&ragged), vec![3, 2, 1, 4]);
}

#[test]
fn single_monitor_crop_request_and_result_size() {
    let list = MonitorList::all(vec![MonitorInfo { rect: rect(0, 0, 1920, 1080) }]);
    let requests = list.capture_requests(Some(rect(100, 100, 500, 500)));
    assert_eq!(requests, vec![CaptureRequest::Cropped(rect(100, 100, 500, 500))]);

    let frame = solid_frame(400, 400, [9, 8, 7, 255]);
    let image = list
        .capture_region(rect(100, 100, 500, 500), vec![Some(frame)])
        .unwrap();
    assert_eq!(image.dimensions(), (400, 400));
    assert_eq!(pixel_at(&image.to_bytes(), 400, 0, 0), [9, 8, 7, 255]);
}

#[test]
fn two_monitor_capture_pastes_at_monitor_offsets() {
    let list = MonitorList::all(vec![
        MonitorInfo { rect: rect(0, 0, 1000, 1000) },
        MonitorInfo { rect: rect(1000, 0, 2000, 1000) },
    ]);
    let requests = list.capture_requests(None);
    assert_eq!(requests, vec![CaptureRequest::Whole, CaptureRequest::Whole]);

    let frame1 = solid_frame(1000, 1000, [10, 0, 0, 255]);
    let frame2 = solid_frame(1000, 1000, [0, 20, 0, 255]);
    let image = list.capture(vec![Some(frame1), Some(frame2)]).unwrap();
    assert_eq!(image.dimensions(), (2000, 1000));
    let bytes = image.to_bytes();
    assert_eq!(pixel_at(&bytes, 2000, 500, 500), [10, 0, 0, 255]);
    assert_eq!(pixel_at(&bytes, 2000, 999, 999), [10, 0, 0, 255]);
    assert_eq!(pixel_at(&bytes, 2000, 1000, 0), [0, 20, 0, 255]);
    assert_eq!(pixel_at(&bytes, 2000, 1500, 500), [0, 20, 0, 255]);
}

#[test]
fn sentinel_frame_of_sole_monitor_becomes_full_size_blank() {
    let list = MonitorList::all(vec![MonitorInfo { rect: rect(0, 0, 1920, 1080) }]);
    let sentinel = PixelBuffer::blank(1, 1);
    let image = list.capture(vec![Some(sentinel)]).unwrap();
    assert_eq!(image.dimensions(), (1920, 1080));
    assert!(image.to_bytes().iter().all(|&b| b == 0));
}

#[test]
fn failed_single_monitor_capture_is_an_error() {
    let list = MonitorList::all(vec![MonitorInfo { rect: rect(0, 0, 100, 100) }]);
    let result = list.capture(vec![None]);
    assert_eq!(
        result.unwrap_err(),
        "failed to capture the only monitor in scope, monitor rect: (0, 0, 100, 100)"
    );
}

#[test]
fn single_monitor_failure_message_names_negative_coordinates() {
    let list = MonitorList::all(vec![MonitorInfo { rect: rect(-1920, 0, 0, 1080) }]);
    let result = list.capture(vec![None]);
    assert_eq!(
        result.unwrap_err(),
        "failed to capture the only monitor in scope, monitor rect: (-1920, 0, 0, 1080)"
    );
}

#[test]
fn one_failing_monitor_of_two_still_composites() {
    let list = MonitorList::all(vec![
        MonitorInfo { rect: rect(0, 0, 1000, 1000) },
        MonitorInfo { rect: rect(1000, 0, 2000, 1000) },
    ]);
    let frame2 = solid_frame(1000, 1000, [0, 20, 0, 255]);
    let image = list.capture(vec![None, Some(frame2)]).unwrap();
    assert_eq!(image.dimensions(), (2000, 1000));
    let bytes = image.to_bytes();
    assert_eq!(pixel_at(&bytes, 2000, 500, 500), [0, 0, 0, 0]);
    assert_eq!(pixel_at(&bytes, 2000, 1500, 500), [0, 20, 0, 255]);
}

#[test]
fn all_monitors_failing_is_an_error() {
    let list = MonitorList::all(vec![
        MonitorInfo { rect: rect(0, 0, 1000, 1000) },
        MonitorInfo { rect: rect(1000, 0, 2000, 1000) },
    ]);
    let result = list.capture(vec![None, None]);
    assert_eq!(result.unwrap_err(), "no monitor frame was captured");
}

#[test]
fn cropped_multi_monitor_capture_uses_crop_relative_offsets() {
    // A crop spanning the seam between two monitors.
    let list = MonitorList::all(vec![
        MonitorInfo { rect: rect(0, 0, 1000, 1000) },
        MonitorInfo { rect: rect(1000, 0, 2000, 1000) },
    ]);
    let crop = rect(800, 100, 1200, 300);
    let requests = list.capture_requests(Some(crop));
    assert_eq!(
        requests,
        vec![
            CaptureRequest::Cropped(rect(800, 100, 1000, 300)),
            CaptureRequest::Cropped(rect(0, 100, 200, 300)),
        ]
    );
    let frame1 = solid_frame(200, 200, [10, 0, 0, 255]);
    let frame2 = solid_frame(200, 200, [0, 20, 0, 255]);
    let image = list
        .capture_region(crop, vec![Some(frame1), Some(frame2)])
        .unwrap();
    assert_eq!(image.dimensions(), (400, 200));
    let bytes = image.to_bytes();
    assert_eq!(pixel_at(&bytes, 400, 0, 0), [10, 0, 0, 255]);
    assert_eq!(pixel_at(&bytes, 400, 199, 199), [10, 0, 0, 255]);
    assert_eq!(pixel_at(&bytes, 400, 200, 0), [0, 20, 0, 255]);
    assert_eq!(pixel_at(&bytes, 400, 399, 199), [0, 20, 0, 255]);
}

#[test]
fn monitors_outside_the_crop_are_skipped() {
    let list = MonitorList::all(vec![
        MonitorInfo { rect: rect(0, 0, 1000, 1000) },
        MonitorInfo { rect: rect(5000, 0, 6000, 1000) },
    ]);
    let crop = rect(100, 100, 200, 200);
    let requests = list.capture_requests(Some(crop));
    assert_eq!(
        requests,
        vec![
            CaptureRequest::Cropped(rect(100, 100, 200, 200)),
            CaptureRequest::Skip,
        ]
    );
}

#[test]
fn empty_registry_capture_is_an_error() {
    let list = MonitorList::all(Vec::new());
    assert!(list.capture(Vec::new()).is_err());
}

#[test]
fn streamed_bgra_frame_is_converted_to_rgba() {
    let bgra = vec![1u8, 2, 3, 4, 10, 20, 30, 40];
    let buffer = convert_bgra_frame(2, 1, &bgra).unwrap();
    assert_eq!(buffer.dimensions(), (2, 1));
    assert_eq!(buffer.to_bytes(), vec![3, 2, 1, 4, 30, 20, 10, 40]);
    assert!(convert_bgra_frame(2, 2, &bgra).is_none());
}

#[test]
fn capture_area_prefers_the_crop() {
    let monitor = rect(0, 0, 1920, 1080);
    let crop = rect(5, 5, 10, 10);
    assert_eq!(capture_area(Some(crop), monitor), crop);
    assert_eq!(capture_area(None, monitor), monitor);
}

#[test]
fn placeholder_monitor_is_recognized_by_name() {
    assert!(is_virtual_placeholder_monitor(&"DeskPad Display".to_string()));
    assert!(!is_virtual_placeholder_monitor(&"Built-in Display".to_string()));
}

#[test]
fn from_rgba_bytes_rejects_short_buffers() {
    assert!(PixelBuffer::from_rgba_bytes(10, 10, vec![0u8; 399]).is_none());
    assert!(PixelBuffer::from_rgba_bytes(10, 10, vec![0u8; 400]).is_some());
}

#[test]
fn decimal_rendering_covers_the_integer_range() {
    assert_eq!(decimal_string(0), "0");
    assert_eq!(decimal_string(42), "42");
    assert_eq!(decimal_string(-7), "-7");
    assert_eq!(decimal_string(i32::MAX), "2147483647");
    assert_eq!(decimal_string(i32::MIN), "-2147483648");
}

#[test]
fn encoders_reject_out_of_range_dimensions() {
    assert!(encode_image(&PixelBuffer::blank(0, 5), ImageEncoder::Webp).is_err());
    assert!(encode_image(&PixelBuffer::blank(16385, 1), ImageEncoder::Webp).is_err());
    assert!(encode_image(&PixelBuffer::blank(0, 5), ImageEncoder::Png).is_err());
}

#[test]
fn webp_encoding_round_trips_through_a_decoder() {
    let frame = solid_frame(8, 4, [1, 2, 3, 255]);
    let bytes = encode_image(&frame, ImageEncoder::Webp).unwrap();
    let decoded = image::load_from_memory_with_format(&bytes, image::ImageFormat::WebP)
        .unwrap()
        .into_rgba8();
    assert_eq!(decoded.dimensions(), (8, 4));
    assert_eq!(decoded.as_raw(), &frame.to_bytes());
}

#[test]
fn png_encoding_round_trips_through_a_decoder() {
    let frame = solid_frame(5, 7, [9, 0, 200, 128]);
    let bytes = encode_image(&frame, ImageEncoder::Png).unwrap();
    let decoded = image::load_from_memory_with_format(&bytes, image::ImageFormat::Png)
        .unwrap()
        .into_rgba8();
    assert_eq!(decoded.dimensions(), (5, 7));
    assert_eq!(decoded.as_raw(), &frame.to_bytes());
}

#[test]
fn alpha_channel_is_dropped_for_rgb_targets() {
    let rgba = vec![1u8, 2, 3, 4, 5, 6, 7, 8];
    assert_eq!(rgba_to_rgb_bytes(&rgba), vec![1, 2, 3, 5, 6, 7]);
}

#[test]
fn jxl_extension_is_encoded_in_place() {
    let frame = solid_frame(8, 8, [10, 20, 30, 255]);
    let payload = prepare_image_for_save(&frame, &"jxl".to_string()).unwrap();
    match payload {
        SavePayload::Encoded(bytes) => {
            assert!(!bytes.is_empty());
            assert_ne!(bytes, rgba_to_rgb_bytes(&frame.to_bytes()));
        }
        _ => panic!("expected ready-encoded bytes for the jxl extension"),
    }
}

#[test]
fn tiny_image_cannot_be_encoded_as_jxl() {
    let frame = solid_frame(1, 1, [10, 20, 30, 255]);
    assert!(prepare_image_for_save(&frame, &"jxl".to_string()).is_err());
}

#[test]
fn jpg_extension_strips_the_alpha_channel() {
    let frame = solid_frame(2, 2, [10, 20, 30, 40]);
    let payload = prepare_image_for_save(&frame, &"jpg".to_string()).unwrap();
    match payload {
        SavePayload::RgbPixels(width, height, data) => {
            assert_eq!((width, height), (2, 2));
            assert_eq!(data, vec![10, 20, 30, 10, 20, 30, 10, 20, 30, 10, 20, 30]);
        }
        _ => panic!("expected rgb pixels for the jpg extension"),
    }
}

#[test]
fn other_extensions_save_the_image_unchanged() {
    let frame = solid_frame(2, 2, [10, 20, 30, 40]);
    let payload = prepare_image_for_save(&frame, &"png".to_string()).unwrap();
    assert!(matches!(payload, SavePayload::Original));
}
