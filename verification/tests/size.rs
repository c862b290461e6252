use portable_pty::PtySize;
use pty_bridge::TerminalSize;

#[test]
fn initial_size_is_24_by_80_without_pixels() {
    assert_eq!(
        TerminalSize::initial(),
        TerminalSize { rows: 24, cols: 80, pixel_width: 0, pixel_height: 0 }
    );
    assert_eq!(TerminalSize::initial().to_provider(), PtySize::default());
}

#[test]
fn size_goes_to_the_provider_field_for_field() {
    let size = TerminalSize { rows: 50, cols: 120, pixel_width: 1, pixel_height: 2 };
    assert_eq!(
        size.to_provider(),
        PtySize { rows: 50, cols: 120, pixel_width: 1, pixel_height: 2 }
    );
}

#[test]
fn size_comes_from_the_provider_field_for_field() {
    let size = PtySize { rows: 3, cols: 4, pixel_width: 5, pixel_height: 6 };
    assert_eq!(
        TerminalSize::from_provider(size),
        TerminalSize { rows: 3, cols: 4, pixel_width: 5, pixel_height: 6 }
    );
}

#[test]
fn resized_size_comes_back_exactly() {
    let size = TerminalSize { rows: 50, cols: 120, pixel_width: 1, pixel_height: 1 };
    assert_eq!(TerminalSize::from_provider(size.to_provider()), size);
}

#[test]
fn extreme_sizes_are_not_clamped() {
    let zero = TerminalSize { rows: 0, cols: 0, pixel_width: 0, pixel_height: 0 };
    assert_eq!(TerminalSize::from_provider(zero.to_provider()), zero);
    let max = TerminalSize {
        rows: u16::MAX,
        cols: u16::MAX,
        pixel_width: u16::MAX,
        pixel_height: u16::MAX,
    };
    assert_eq!(max.to_provider().rows, u16::MAX);
    assert_eq!(TerminalSize::from_provider(max.to_provider()), max);
}
