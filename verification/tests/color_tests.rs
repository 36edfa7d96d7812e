use sacn_bridge::color::Color;

#[test]
fn test_rgb_to_hsi_red() {
    // Arrange: Set up the test scenario
    let red = 255;
    let green = 0;
    let blue = 0;

    let expected_output = (0_u16, 100_u8, 100_u8);

    // Act: Call the function under test
    let result = Color::new(red, green, blue).to_hsv();

    // Assert: Verify the expected output
    assert_eq!(result, expected_output);
}

#[test]
fn test_rgb_to_hsi_green() {
    // Arrange: Set up the test scenario
    let red = 0;
    let green = 255;
    let blue = 0;

    let expected_output = (120_u16, 100_u8, 100_u8);

    // Act: Call the function under test
    let result = Color::new(red, green, blue).to_hsv();

    // Assert: Verify the expected output
    assert_eq!(result, expected_output);
}

#[test]
fn test_rgb_to_hsi_blue() {
    // Arrange: Set up the test scenario
    let red = 0;
    let green = 0;
    let blue = 255;

    let expected_output = (240_u16, 100_u8, 100_u8);

    // Act: Call the function under test
    let result = Color::new(red, green, blue).to_hsv();

    // Assert: Verify the expected output
    assert_eq!(result, expected_output);
}

#[test]
fn test_rgb_to_hsi_magenta() {
    // Arrange: Set up the test scenario
    let red = 255;
    let green = 0;
    let blue = 255;

    let expected_output = (300_u16, 100_u8, 100_u8);

    // Act: Call the function under test
    let result = Color::new(red, green, blue).to_hsv();

    // Assert: Verify the expected output
    assert_eq!(result, expected_output);
}

#[test]
fn test_rgb_to_hsi_cyan() {
    // Arrange: Set up the test scenario
    let red = 0;
    let green = 255;
    let blue = 255;

    let expected_output = (180_u16, 100_u8, 100_u8);

    // Act: Call the function under test
    let result = Color::new(red, green, blue).to_hsv();

    // Assert: Verify the expected output
    assert_eq!(result, expected_output);
}

#[test]
fn test_rgb_to_hsi_yellow() {
    // Arrange: Set up the test scenario
    let red = 255;
    let green = 255;
    let blue = 0;

    let expected_output = (60_u16, 100_u8, 100_u8);

    // Act: Call the function under test
    let result = Color::new(red, green, blue).to_hsv();

    // Assert: Verify the expected output
    assert_eq!(result, expected_output);
}

#[test]
fn test_rgb_to_hsi_black() {
    // Arrange: Set up the test scenario
    let red = 0;
    let green = 0;
    let blue = 0;

    let expected_output = (0_u16, 0_u8, 0_u8);

    // Act: Call the function under test
    let result = Color::new(red, green, blue).to_hsv();

    // Assert: Verify the expected output
    assert_eq!(result, expected_output);
}

#[test]
fn test_rgb_to_hsi_white() {
    // Arrange: Set up the test scenario
    let red = 255;
    let green = 255;
    let blue = 255;

    let expected_output = (0_u16, 0_u8, 100_u8);

    // Act: Call the function under test
    let result = Color::new(red, green, blue).to_hsv();

    // Assert: Verify the expected output
    assert_eq!(result, expected_output);
}

#[test]
fn test_rgb_to_hsv_mixed_values() {
    assert_eq!(Color::new(255, 128, 0).to_hsv(), (30, 100, 100));
    assert_eq!(Color::new(0, 0, 128).to_hsv(), (240, 100, 50));
    assert_eq!(Color::new(128, 128, 128).to_hsv(), (0, 0, 50));
}

#[test]
fn test_rgb_to_hsv_achromatic_sweep() {
    for v in [0u8, 1, 17, 64, 127, 128, 200, 254, 255] {
        let (h, s, _) = Color::new(v, v, v).to_hsv();
        assert_eq!(h, 0);
        assert_eq!(s, 0);
    }
}

#[test]
fn test_rgb_to_hsv_near_wrap_rounds_to_full_turn() {
    // A hair below red on the blue side: 360 - 60/255 rounds to 360.
    assert_eq!(Color::new(255, 0, 1).to_hsv(), (360, 100, 100));
}
