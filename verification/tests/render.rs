use processing_svc::render::{
    dark_sky_class, dark_sky_classes, parse_color_hex, parse_hex_byte, render_pixel,
    render_png_tile, renderable_pixel_count, RadianceClass, RenderError, RenderPixel,
    DARK_SKY_CLASSIFICATION_VERSION,
};

fn pixel(radiance: RadianceClass, rejected: bool) -> RenderPixel {
    RenderPixel { radiance, rejected }
}

#[test]
fn dark_sky_exposes_dark_sky_classification_version() {
    assert_eq!(DARK_SKY_CLASSIFICATION_VERSION, "radiance-dark-sky-v1");
}

#[test]
fn renders_rejected_and_nodata_pixels_as_transparent() {
    assert_eq!(
        render_pixel(pixel(RadianceClass::Class(3), true)).unwrap(),
        [0, 0, 0, 0]
    );
    assert_eq!(
        render_pixel(pixel(RadianceClass::Missing, false)).unwrap(),
        [0, 0, 0, 0]
    );
    assert_eq!(
        render_pixel(pixel(RadianceClass::Unclassified, false)).unwrap(),
        [0, 0, 0, 0]
    );
}

#[test]
fn renders_valid_radiance_to_class_color() {
    assert_eq!(
        render_pixel(pixel(RadianceClass::Class(1), false)).unwrap(),
        [0x05, 0x07, 0x0d, 255]
    );
    assert_eq!(
        render_pixel(pixel(RadianceClass::Class(9), false)).unwrap(),
        [0xf2, 0xef, 0xe8, 255]
    );
}

#[test]
fn counts_renderable_pixels() {
    let pixels = vec![
        pixel(RadianceClass::Class(1), false),
        pixel(RadianceClass::Class(3), true),
        pixel(RadianceClass::Missing, false),
    ];

    assert_eq!(renderable_pixel_count(&pixels), 1);
}

#[test]
fn rejects_mismatched_pixel_count() {
    assert!(matches!(
        render_png_tile(2, &vec![pixel(RadianceClass::Class(1), false)]),
        Err(RenderError::PixelCountMismatch {
            tile_size: 2,
            expected: 4,
            actual: 1,
        })
    ));
}

#[test]
fn rejects_zero_tile_size() {
    assert_eq!(render_png_tile(0, &Vec::new()), Err(RenderError::InvalidTileSize));
    assert_eq!(
        RenderError::InvalidTileSize.message(),
        "tile size must be greater than zero"
    );
}

#[test]
fn renders_deterministic_png_bytes_for_same_pixels() {
    let pixels = vec![
        pixel(RadianceClass::Class(1), false),
        pixel(RadianceClass::Class(3), false),
        pixel(RadianceClass::Missing, false),
        pixel(RadianceClass::Class(9), true),
    ];

    let first = render_png_tile(2, &pixels).unwrap();
    let second = render_png_tile(2, &pixels).unwrap();

    assert_eq!(first, second);
    assert!(first.starts_with(b"\x89PNG\r\n\x1a\n"));
}

#[test]
fn rendered_png_dimensions_match_tile_size() {
    let pixels = vec![pixel(RadianceClass::Class(1), false); 9];

    let png = render_png_tile(3, &pixels).unwrap();
    let image = image::load_from_memory(&png).unwrap();

    assert_eq!(image.width(), 3);
    assert_eq!(image.height(), 3);
}

#[test]
fn rendered_png_holds_the_class_colours() {
    let pixels = vec![
        pixel(RadianceClass::Class(1), false),
        pixel(RadianceClass::Class(9), false),
        pixel(RadianceClass::Missing, false),
        pixel(RadianceClass::Class(5), true),
    ];

    let png = render_png_tile(2, &pixels).unwrap();
    let image = image::load_from_memory(&png).unwrap().to_rgba8();

    assert_eq!(
        image.into_raw(),
        vec![0x05, 0x07, 0x0d, 255, 0xf2, 0xef, 0xe8, 255, 0, 0, 0, 0, 0, 0, 0, 0]
    );
}

#[test]
fn parses_class_colours() {
    assert_eq!(parse_color_hex("#05070d"), Ok([0x05, 0x07, 0x0d]));
    assert_eq!(parse_color_hex("#F2EFE8"), Ok([0xf2, 0xef, 0xe8]));
    assert_eq!(
        parse_color_hex("05070d"),
        Err(RenderError::InvalidClassColor {
            color_hex: "05070d"
        })
    );
    assert_eq!(
        parse_color_hex("#05070"),
        Err(RenderError::InvalidClassColor { color_hex: "#05070" })
    );
    assert_eq!(
        parse_color_hex("#0507zz"),
        Err(RenderError::InvalidClassColor {
            color_hex: "#0507zz"
        })
    );
}

#[test]
fn parses_hex_bytes_like_from_str_radix() {
    for value in ["00", "0f", "ff", "FF", "+f", "7", "00ff", "+0a"] {
        assert_eq!(
            parse_hex_byte(value, "#000000").ok(),
            u8::from_str_radix(value, 16).ok(),
            "{value}"
        );
    }
    for value in ["", "+", "-1", "g0", "100", " 1"] {
        assert_eq!(
            parse_hex_byte(value, "#000000"),
            Err(RenderError::InvalidClassColor {
                color_hex: "#000000"
            }),
            "{value}"
        );
        assert!(u8::from_str_radix(value, 16).is_err(), "{value}");
    }
}

#[test]
fn dark_sky_scale_has_nine_ordered_classes() {
    let classes = dark_sky_classes();

    assert_eq!(classes.len(), 9);
    assert_eq!(classes[0].label, "Excellent dark site");
    assert_eq!(classes[8].label, "Inner-city sky");
    assert_eq!(classes[8].max_radiance_exclusive, None);
    for (index, class) in classes.iter().enumerate() {
        assert_eq!(class.class as usize, index + 1);
        assert!(parse_color_hex(class.color_hex).is_ok());
        if index + 1 < classes.len() {
            assert_eq!(
                class.max_radiance_exclusive,
                Some(classes[index + 1].min_radiance)
            );
        }
    }
    assert_eq!(dark_sky_class(0), None);
    assert_eq!(dark_sky_class(10), None);
}
