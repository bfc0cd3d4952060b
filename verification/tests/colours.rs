use chartistry::colours::{lajolla, lipari, Colour, ColourScheme};

#[test]
fn colour_wraparound() {
    let scheme = lajolla();
    assert_eq!(scheme.len(), 10);
    assert_eq!(scheme.by_index(10), scheme.by_index(0));
    assert_eq!(scheme.by_index(23), scheme.by_index(3));
}

#[test]
fn palettes_hold_their_colours() {
    let scheme = lajolla();
    assert_eq!(scheme.by_index(0), Colour::from_rgb(0x19, 0x19, 0x00));
    assert_eq!(scheme.by_index(3), Colour::from_rgb(0x8F, 0x40, 0x3D));
    assert_eq!(scheme.by_index(9), Colour::from_rgb(0xFF, 0xFE, 0xCB));
    let scheme = lipari();
    assert_eq!(scheme.len(), 10);
    assert_eq!(scheme.by_index(0), Colour::from_rgb(0x03, 0x13, 0x26));
    assert_eq!(scheme.by_index(9), Colour::from_rgb(0xFD, 0xF5, 0xDA));
}

#[test]
fn custom_scheme_by_index() {
    let a = Colour::from_rgb(10, 20, 30);
    let b = Colour::from_rgb(40, 50, 60);
    let c = Colour::from_rgb(70, 80, 90);
    let scheme = ColourScheme::new(vec![a, b, c]);
    assert_eq!(scheme.by_index(0), a);
    assert_eq!(scheme.by_index(1), b);
    assert_eq!(scheme.by_index(2), c);
    assert_eq!(scheme.by_index(3), a);
    assert_eq!(scheme.by_index(100), b);
}
