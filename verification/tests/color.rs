use lumen::Color;

#[test]
fn packing_layout_is_alpha_red_green_blue() {
    let c = Color::new(0x12, 0x34, 0x56, 0x78);
    assert_eq!(c.0, 0x7812_3456);
}

#[test]
fn channels_round_trip_exactly() {
    let samples: [u8; 7] = [0, 1, 2, 127, 128, 254, 255];
    for &r in samples.iter() {
        for &g in samples.iter() {
            for &b in samples.iter() {
                for &a in samples.iter() {
                    let c = Color::new(r, g, b, a);
                    assert_eq!(c.red(), r);
                    assert_eq!(c.green(), g);
                    assert_eq!(c.blue(), b);
                    assert_eq!(c.alpha(), a);
                }
            }
        }
    }
}

#[test]
fn quantized_float_channels_round_trip() {
    // every channel value that an 8-bit quantization of [0, 1] can produce
    for step in 0..=255u32 {
        let value = step as f32 / 255.0;
        let quantized = (value.clamp(0.0, 1.0) * 255.0 + 0.5) as u8;
        assert_eq!(quantized as u32, step);
        let c = Color::new(quantized, quantized, quantized, quantized);
        assert_eq!(c.red(), quantized);
        assert_eq!(c.green(), quantized);
        assert_eq!(c.blue(), quantized);
        assert_eq!(c.alpha(), quantized);
    }
}

#[test]
fn named_colors_match_their_packing() {
    assert_eq!(Color::black_transparent().0, 0x0000_0000);
    assert_eq!(Color::black_opaque().0, 0xFF00_0000);
    assert_eq!(Color::default(), Color::black_opaque());

    let red = Color::opaque_red();
    assert_eq!((red.red(), red.green(), red.blue(), red.alpha()), (255, 0, 0, 255));
    let green = Color::opaque_green();
    assert_eq!((green.red(), green.green(), green.blue(), green.alpha()), (0, 255, 0, 255));
    let blue = Color::opaque_blue();
    assert_eq!((blue.red(), blue.green(), blue.blue(), blue.alpha()), (0, 0, 255, 255));
}
