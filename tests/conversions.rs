use ndarray::ShapeBuilder;
use ndarray_image::pixel::is_packed_grid;
use ndarray_image::{
    ColorView, ColorViewMut, Colors, GrayView, GrayViewMut, ImageRef, NdImage, PixelBuffer,
    PixelBufferMut,
};

const ALL: [Colors; 6] = [
    Colors::Luma,
    Colors::LumaA,
    Colors::Rgb,
    Colors::Rgba,
    Colors::Bgr,
    Colors::Bgra,
];

fn ramp(n: usize) -> Vec<u8> {
    (0..n).map(|i| (i * 7 % 251) as u8).collect()
}

#[test]
fn channel_counts() {
    let counts: Vec<usize> = ALL.iter().map(|c| c.channels()).collect();
    assert_eq!(counts, vec![1, 2, 3, 4, 3, 4]);
}

#[test]
fn new_checks_sample_count() {
    let data = ramp(18);
    assert!(PixelBuffer::new(3, 2, Colors::Rgb, &data).is_some());
    assert!(PixelBuffer::new(3, 2, Colors::Rgba, &data).is_none());
    assert!(PixelBuffer::new(3, 3, Colors::Rgb, &data).is_none());
    assert!(PixelBuffer::new(0, 0, Colors::Rgb, &data[..0]).is_some());
}

#[test]
fn round_trip_every_format() {
    for &format in ALL.iter() {
        let (w, h) = (5u32, 3u32);
        let data = ramp(w as usize * h as usize * format.channels());
        let buf = PixelBuffer::new(w, h, format, &data).unwrap();
        let view = NdImage(buf).into_color_view();
        assert_eq!(view.array.dim(), (3, 5, format.channels()));
        let back = NdImage(view).into_buffer(format).unwrap();
        assert_eq!(back.width, w);
        assert_eq!(back.height, h);
        assert_eq!(back.format, format);
        assert_eq!(back.samples, &data[..]);
        assert_eq!(back.samples.as_ptr(), data.as_ptr());
    }
}

#[test]
fn gray_round_trip() {
    let data = ramp(12);
    let buf = PixelBuffer::new(4, 3, Colors::Luma, &data).unwrap();
    let view = NdImage(buf).into_gray_view();
    assert_eq!(view.array.dim(), (3, 4));
    let back = NdImage(view).into_luma().unwrap();
    assert_eq!((back.width, back.height, back.format), (4, 3, Colors::Luma));
    assert_eq!(back.samples, &data[..]);
}

#[test]
fn empty_buffers_convert() {
    for &format in ALL.iter() {
        for &(w, h) in [(0u32, 0u32), (0, 4), (4, 0)].iter() {
            let data: Vec<u8> = Vec::new();
            let buf = PixelBuffer::new(w, h, format, &data).unwrap();
            let view = NdImage(buf).into_color_view();
            assert_eq!(view.array.dim(), (h as usize, w as usize, format.channels()));
            let back = NdImage(view).into_buffer(format).unwrap();
            assert_eq!((back.width, back.height), (w, h));
            assert!(back.samples.is_empty());
        }
    }
    let data: Vec<u8> = Vec::new();
    let buf = PixelBuffer::new(0, 7, Colors::Luma, &data).unwrap();
    let view = NdImage(buf).into_gray_view();
    assert_eq!(view.array.dim(), (7, 0));
    let back = NdImage(view).into_luma().unwrap();
    assert_eq!((back.width, back.height), (0, 7));
}

#[test]
fn step_sampled_view_is_rejected() {
    let data = ramp(4 * 8 * 3);
    let array = ndarray::ArrayView::from_shape((4, 4, 3).strides((24, 6, 1)), &data).unwrap();
    let view = ColorView { array };
    assert!(NdImage(view).into_buffer(Colors::Rgb).is_none());
}

#[test]
fn transposed_view_is_rejected() {
    let data = ramp(4 * 4 * 3);
    let array = ndarray::ArrayView::from_shape((4, 4, 3), &data)
        .unwrap()
        .permuted_axes([1, 0, 2]);
    assert_eq!(array.dim(), (4, 4, 3));
    let view = ColorView { array };
    assert!(NdImage(view).into_buffer(Colors::Rgb).is_none());
}

#[test]
fn transposed_gray_view_is_rejected() {
    let data = ramp(6);
    let array = ndarray::ArrayView::from_shape((2, 3), &data).unwrap().reversed_axes();
    let view = GrayView { array };
    assert!(NdImage(view).into_luma().is_none());
}

#[test]
fn contiguous_view_with_custom_strides_converts() {
    let data = ramp(4 * 4 * 3);
    let array = ndarray::ArrayView::from_shape((4, 4, 3).strides((12, 3, 1)), &data).unwrap();
    let back = NdImage(ColorView { array }).into_buffer(Colors::Rgb).unwrap();
    assert_eq!((back.width, back.height, back.format), (4, 4, Colors::Rgb));
    assert_eq!(back.samples, &data[..]);
}

#[test]
fn requested_layout_decides_between_equal_counts() {
    let data = ramp(2 * 2 * 3);
    let make = || ColorView {
        array: ndarray::ArrayView::from_shape((2, 2, 3), &data).unwrap(),
    };
    let bgr = NdImage(make()).into_buffer(Colors::Bgr).unwrap();
    assert_eq!(bgr.format, Colors::Bgr);
    assert_eq!(bgr.samples, &data[..]);
    let rgb = NdImage(make()).into_buffer(Colors::Rgb).unwrap();
    assert_eq!(rgb.format, Colors::Rgb);
    assert!(NdImage(make()).into_buffer(Colors::Rgba).is_none());
    assert!(NdImage(make()).into_buffer(Colors::Bgra).is_none());
    assert!(NdImage(make()).into_buffer(Colors::Luma).is_none());
    assert!(NdImage(make()).into_buffer(Colors::LumaA).is_none());
}

#[test]
fn channel_specialisations_follow_the_request() {
    let data = ramp(3 * 2);
    let one = ColorView { array: ndarray::ArrayView::from_shape((3, 2, 1), &data).unwrap() };
    let luma = NdImage(one).into_buffer(Colors::Luma).unwrap();
    assert_eq!((luma.width, luma.height, luma.format), (2, 3, Colors::Luma));
    let two = ColorView { array: ndarray::ArrayView::from_shape((3, 1, 2), &data).unwrap() };
    let luma_a = NdImage(two).into_buffer(Colors::LumaA).unwrap();
    assert_eq!((luma_a.width, luma_a.height, luma_a.format), (1, 3, Colors::LumaA));
}

#[test]
fn luma_two_by_three_example() {
    let data: Vec<u8> = vec![10, 20, 30, 40, 50, 60];
    let buf = PixelBuffer::new(3, 2, Colors::Luma, &data).unwrap();
    let view = NdImage(buf).into_gray_view();
    assert_eq!(view.array.shape(), &[2, 3]);
    assert_eq!(view.array.strides(), &[3, 1]);
    assert_eq!(view.array[[1, 2]], 60);
}

#[test]
fn rgb_single_pixel_example() {
    let data: Vec<u8> = vec![1, 2, 3];
    let buf = PixelBuffer::new(1, 1, Colors::Rgb, &data).unwrap();
    let view = NdImage(buf).into_color_view();
    assert_eq!(view.array.shape(), &[1, 1, 3]);
    assert!(NdImage(view).into_buffer(Colors::Rgba).is_none());
}

#[test]
fn color_view_strides_are_row_major() {
    let data = ramp(5 * 3 * 4);
    let buf = PixelBuffer::new(5, 3, Colors::Rgba, &data).unwrap();
    let view = NdImage(buf).into_color_view();
    assert_eq!(view.array.strides(), &[20, 4, 1]);
    assert_eq!(view.array[[2, 4, 3]], data[2 * 20 + 4 * 4 + 3]);
}

#[test]
fn writes_through_gray_view_reach_the_buffer() {
    let mut data: Vec<u8> = vec![0; 6];
    {
        let buf = PixelBufferMut::new(3, 2, Colors::Luma, &mut data).unwrap();
        let mut view: GrayViewMut = NdImage(buf).into_gray_view_mut();
        assert_eq!(view.array.dim(), (2, 3));
        view.array[[1, 2]] = 99;
        view.array[[0, 1]] = 7;
    }
    assert_eq!(data, vec![0, 7, 0, 0, 0, 99]);
}

#[test]
fn writes_through_color_view_reach_the_buffer() {
    let mut data: Vec<u8> = vec![0; 2 * 2 * 3];
    {
        let buf = PixelBufferMut::new(2, 2, Colors::Rgb, &mut data).unwrap();
        let mut view: ColorViewMut = NdImage(buf).into_color_view_mut();
        assert_eq!(view.array.strides(), &[6, 3, 1]);
        view.array[[1, 0, 2]] = 200;
        for px in view.array.iter_mut().step_by(3) {
            *px = 1;
        }
    }
    assert_eq!(data, vec![1, 0, 0, 1, 0, 0, 1, 0, 200, 1, 0, 0]);
}

#[test]
fn buffer_becomes_image_of_same_layout() {
    let data: Vec<u8> = (0..2 * 3 * 4).map(|i| i as u8).collect();
    let buf = PixelBuffer::new(3, 2, Colors::Bgra, &data).unwrap();
    match buf.into_image() {
        ImageRef::Bgra(b) => {
            assert_eq!(b.image.dimensions(), (3, 2));
            assert_eq!(b.image.get_pixel(2, 1).0, [20, 21, 22, 23]);
        }
        _ => panic!("wrong layout"),
    }
    let gray: Vec<u8> = vec![10, 20, 30, 40, 50, 60];
    let buf = PixelBuffer::new(3, 2, Colors::Luma, &gray).unwrap();
    match buf.into_image() {
        ImageRef::Luma(b) => {
            assert_eq!(b.image.dimensions(), (3, 2));
            assert_eq!(b.image.get_pixel(2, 1).0, [60]);
        }
        _ => panic!("wrong layout"),
    }
}

#[test]
fn view_to_image_keeps_requested_layout() {
    let data: Vec<u8> = (0..2 * 2 * 3).map(|i| i as u8).collect();
    let array = ndarray::ArrayView::from_shape((2, 2, 3), &data).unwrap();
    let buf = NdImage(ColorView { array }).into_buffer(Colors::Bgr).unwrap();
    match buf.into_image() {
        ImageRef::Bgr(b) => assert_eq!(b.image.get_pixel(1, 0).0, [3, 4, 5]),
        _ => panic!("wrong layout"),
    }
}

#[test]
fn mutable_buffer_checks_sample_count() {
    let mut data: Vec<u8> = vec![0; 8];
    assert!(PixelBufferMut::new(2, 2, Colors::LumaA, &mut data).is_some());
    assert!(PixelBufferMut::new(2, 2, Colors::Rgb, &mut data).is_none());
    assert!(PixelBufferMut::new(0, 0, Colors::Rgba, &mut data[..0]).is_some());
}

#[test]
fn packed_grid_sizes() {
    assert!(is_packed_grid(4, 3, Colors::Rgba, 48));
    assert!(!is_packed_grid(4, 3, Colors::Rgba, 47));
    assert!(!is_packed_grid(4, 3, Colors::Rgba, 49));
    assert!(is_packed_grid(0, 9, Colors::Bgr, 0));
    assert!(!is_packed_grid(u32::MAX, u32::MAX, Colors::Rgba, usize::MAX));
}

#[test]
fn empty_mutable_views() {
    let mut data: Vec<u8> = Vec::new();
    let buf = PixelBufferMut::new(0, 3, Colors::Bgra, &mut data).unwrap();
    let view = NdImage(buf).into_color_view_mut();
    assert_eq!(view.array.dim(), (3, 0, 4));
    let buf = PixelBufferMut::new(5, 0, Colors::Luma, &mut data).unwrap();
    let view = NdImage(buf).into_gray_view_mut();
    assert_eq!(view.array.dim(), (0, 5));
}
