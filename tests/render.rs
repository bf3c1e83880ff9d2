use raytrace::color::hex_channels;
use raytrace::framebuffer::PixelBuffer;
use raytrace::materials::SimpleDiffuseMaterial;
use raytrace::render_spec::ImageSize;
use raytrace::tracer::{
    first_step, next_step, BounceEvent, PathEnd, TraceStep, ABSORBED_HEX, EXHAUSTED_HEX,
};

#[test]
fn new_buffer_is_black() {
    let buffer = PixelBuffer::new(ImageSize { width: 2, height: 3 }).unwrap();
    assert_eq!(buffer.size(), ImageSize { width: 2, height: 3 });
    assert_eq!(buffer.as_bytes().len(), 18);
    assert!(buffer.into_raw().iter().all(|b| *b == 0));
}

#[test]
fn buffer_with_empty_side_is_refused() {
    assert!(PixelBuffer::new(ImageSize { width: 0, height: 3 }).is_none());
    assert!(PixelBuffer::new(ImageSize { width: 3, height: 0 }).is_none());
}

#[test]
fn from_raw_checks_length() {
    let size = ImageSize { width: 2, height: 1 };
    assert!(PixelBuffer::from_raw(size, vec![0; 5]).is_none());
    assert!(PixelBuffer::from_raw(size, vec![0; 7]).is_none());
    let buffer = PixelBuffer::from_raw(size, vec![1, 2, 3, 4, 5, 6]).unwrap();
    assert_eq!(buffer.pixel(1, 0), [4, 5, 6]);
}

#[test]
fn put_row_writes_only_its_row() {
    let mut buffer = PixelBuffer::new(ImageSize { width: 2, height: 2 }).unwrap();
    buffer.put_row(1, &vec![[1, 2, 3], [4, 5, 6]]);
    assert_eq!(buffer.pixel(0, 0), [0, 0, 0]);
    assert_eq!(buffer.pixel(1, 0), [0, 0, 0]);
    assert_eq!(buffer.pixel(0, 1), [1, 2, 3]);
    assert_eq!(buffer.pixel(1, 1), [4, 5, 6]);
    assert_eq!(buffer.into_raw(), vec![0, 0, 0, 0, 0, 0, 1, 2, 3, 4, 5, 6]);
}

#[test]
fn row_order_does_not_matter() {
    let size = ImageSize { width: 3, height: 2 };
    let top = vec![[1, 1, 1], [2, 2, 2], [3, 3, 3]];
    let bottom = vec![[7, 8, 9], [10, 11, 12], [13, 14, 15]];
    let mut first = PixelBuffer::new(size).unwrap();
    first.put_row(0, &top);
    first.put_row(1, &bottom);
    let mut second = PixelBuffer::new(size).unwrap();
    second.put_row(1, &bottom);
    second.put_row(0, &top);
    assert_eq!(first.into_raw(), second.into_raw());
}

#[test]
fn hex_channels_split_bytes() {
    assert_eq!(hex_channels(0x6000a0), [0x60, 0x00, 0xa0]);
    assert_eq!(hex_channels(0xaabeef), [0xaa, 0xbe, 0xef]);
    assert_eq!(hex_channels(0xff123456), [0x12, 0x34, 0x56]);
    assert_eq!(hex_channels(EXHAUSTED_HEX), [0, 0, 0]);
    assert_eq!(hex_channels(ABSORBED_HEX), [0x60, 0x00, 0xa0]);
}

#[test]
fn zero_depth_stops_black() {
    assert_eq!(first_step(0), TraceStep::Stop(PathEnd::Exhausted));
    assert_eq!(hex_channels(EXHAUSTED_HEX), [0, 0, 0]);
}

#[test]
fn positive_depth_casts() {
    assert_eq!(first_step(50), TraceStep::Cast { remaining: 50 });
}

#[test]
fn scattered_ray_spends_a_bounce() {
    assert_eq!(next_step(3, BounceEvent::Scattered), TraceStep::Cast { remaining: 2 });
    assert_eq!(next_step(1, BounceEvent::Scattered), TraceStep::Stop(PathEnd::Exhausted));
}

#[test]
fn absorbed_and_missed_rays_end_the_path() {
    assert_eq!(next_step(5, BounceEvent::Absorbed), TraceStep::Stop(PathEnd::Absorbed));
    assert_eq!(next_step(5, BounceEvent::Missed), TraceStep::Stop(PathEnd::Escaped));
}

#[test]
fn path_casts_at_most_max_depth_rays() {
    let mut step = first_step(4);
    let mut casts = 0;
    while let TraceStep::Cast { remaining } = step {
        casts += 1;
        step = next_step(remaining, BounceEvent::Scattered);
    }
    assert_eq!(casts, 4);
    assert_eq!(step, TraceStep::Stop(PathEnd::Exhausted));
}

#[test]
fn simple_diffuse_material_builds() {
    let _m = SimpleDiffuseMaterial::new();
}
