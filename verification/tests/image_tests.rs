use rust_tracer::camera::{pixel_order, Image, ImageError, Pixel};

#[test]
fn image_dimensions() {
    let img = Image::from_width_height(400, 225, 255);
    assert_eq!(img.width(), 400);
    assert_eq!(img.height(), 225);
    assert_eq!(img.max_color_value(), 255);
}

#[test]
fn image_data_before_render_is_error() {
    let img = Image::from_width_height(400, 225, 255);
    assert!(!img.has_data());
    assert_eq!(img.data(), Err(ImageError::NoImageData));
}

#[test]
fn image_data_after_set() {
    let mut img = Image::from_width_height(2, 2, 255);
    let pixels = vec![
        Pixel { r: 0, g: 0, b: 0 },
        Pixel { r: 10, g: 20, b: 30 },
        Pixel { r: 255, g: 255, b: 255 },
        Pixel { r: 1, g: 2, b: 3 },
    ];
    img.set_data(pixels.clone());
    assert!(img.has_data());
    let data = img.data().unwrap();
    assert_eq!(data.len(), 4);
    assert_eq!(*data, pixels);
}

#[test]
fn image_buffer_holds_one_pixel_per_raster_point() {
    let mut img = Image::from_width_height(400, 225, 255);
    let pixels = vec![Pixel { r: 12, g: 34, b: 56 }; 400 * 225];
    img.set_data(pixels);
    assert_eq!(img.data().unwrap().len(), 400 * 225);
}

#[test]
fn channel_range_check_accepts_a_quantized_buffer() {
    let mut img = Image::from_width_height(2, 1, 255);
    assert!(img.channels_in_range());
    img.set_data(vec![
        Pixel { r: 0, g: 128, b: 255 },
        Pixel { r: 255, g: 255, b: 255 },
    ]);
    assert!(img.channels_in_range());
}

#[test]
fn channel_range_check_rejects_an_overbright_channel() {
    let mut img = Image::from_width_height(2, 1, 255);
    img.set_data(vec![
        Pixel { r: 0, g: 0, b: 0 },
        Pixel { r: 0, g: 256, b: 0 },
    ]);
    assert!(!img.channels_in_range());
}

#[test]
fn pixel_order_is_row_major() {
    let order = pixel_order(400, 225);
    assert_eq!(order.len(), 400 * 225);
    assert_eq!(order[0], (0, 0));
    assert_eq!(order[399], (399, 0));
    assert_eq!(order[400], (0, 1));
    assert_eq!(order[400 * 225 - 1], (399, 224));
}

#[test]
fn pixel_order_small_raster() {
    let order = pixel_order(3, 2);
    assert_eq!(
        order,
        vec![(0, 0), (1, 0), (2, 0), (0, 1), (1, 1), (2, 1)]
    );
}

#[test]
fn pixel_order_empty_raster() {
    assert_eq!(pixel_order(0, 7).len(), 0);
    assert_eq!(pixel_order(7, 0).len(), 0);
}
