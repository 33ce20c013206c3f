use plotview::color::{resolve_palette, Color, Palette, Theme, GRID_ALPHA};

fn fg() -> Color {
    Color::new(100, 200, 300, 1000)
}

fn accent() -> Color {
    Color::new(208, 396, 894, 1000)
}

#[test]
fn color_keeps_its_channels() {
    let c = Color::new(1, 2, 3, 4);
    assert_eq!((c.red, c.green, c.blue, c.alpha), (1, 2, 3, 4));
    assert_eq!(c.with_alpha(900), Color { red: 1, green: 2, blue: 3, alpha: 900 });
}

#[test]
fn palette_from_the_theme_alone() {
    let theme = Theme { foreground: fg(), accent: Some(accent()) };
    assert_eq!(
        resolve_palette(None, None, None, None, &theme),
        Palette {
            axis: fg(),
            line: accent(),
            text: fg(),
            grid: Color { red: 100, green: 200, blue: 300, alpha: 100 },
        }
    );
    assert_eq!(GRID_ALPHA, 100);
}

#[test]
fn missing_accent_falls_back_to_the_foreground() {
    let theme = Theme { foreground: fg(), accent: None };
    assert_eq!(resolve_palette(None, None, None, None, &theme).line, fg());
}

#[test]
fn overrides_win_over_the_theme() {
    let theme = Theme { foreground: fg(), accent: Some(accent()) };
    let a = Color::new(1, 1, 1, 1);
    let l = Color::new(2, 2, 2, 2);
    let t = Color::new(3, 3, 3, 3);
    let g = Color::new(4, 4, 4, 4);
    assert_eq!(
        resolve_palette(Some(a), Some(l), Some(t), Some(g), &theme),
        Palette { axis: a, line: l, text: t, grid: g }
    );
    // An override of the grid colour keeps its own opacity.
    assert_eq!(resolve_palette(None, None, None, Some(g), &theme).grid.alpha, 4);
    let plain = Theme { foreground: fg(), accent: None };
    assert_eq!(resolve_palette(None, Some(l), None, None, &plain).line, l);
}
