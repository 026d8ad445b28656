use llmfit::text::parse_u64;
use llmfit::text::trim;
use llmfit::theme::Theme;
use llmfit::theme::ThemeColor;

#[test]
fn labels_and_round_trip() {
    let all = [
        Theme::Default,
        Theme::Dracula,
        Theme::Solarized,
        Theme::Nord,
        Theme::Monokai,
        Theme::Gruvbox,
    ];
    for t in all {
        assert_eq!(Theme::from_label(t.label()), t);
    }
    assert_eq!(Theme::Dracula.label(), "Dracula");
    assert_eq!(Theme::from_label("no such theme"), Theme::Default);
    assert_eq!(Theme::from_label(""), Theme::Default);
}

#[test]
fn next_cycles_through_all_themes() {
    let mut t = Theme::Default;
    let mut seen = Vec::new();
    for _ in 0..6 {
        seen.push(t);
        t = t.next();
    }
    assert_eq!(t, Theme::Default);
    seen.sort_by_key(|x| x.label());
    seen.dedup();
    assert_eq!(seen.len(), 6);
}

#[test]
fn palettes_differ_and_hold_expected_colors() {
    let d = Theme::Default.colors();
    assert_eq!(d.bg, ThemeColor::Reset);
    assert_eq!(d.title, ThemeColor::Green);
    assert_eq!(d.status_fg, ThemeColor::Black);
    let dr = Theme::Dracula.colors();
    assert_eq!(dr.bg, ThemeColor::Rgb(40, 42, 54));
    assert_eq!(dr.status_bg, ThemeColor::Rgb(189, 147, 249));
    let g = Theme::Gruvbox.colors();
    assert_eq!(g.fg, ThemeColor::Rgb(235, 219, 178));
    assert_ne!(dr, g);
}

#[test]
fn text_utilities_behave_like_std() {
    assert_eq!(trim(b"  hello \t\r\n"), b"hello".to_vec());
    assert_eq!(trim(b""), Vec::<u8>::new());
    assert_eq!(parse_u64(b"12345"), Some(12345));
    assert_eq!(parse_u64(b"18446744073709551615"), Some(u64::MAX));
    assert_eq!(parse_u64(b"18446744073709551616"), None);
    assert_eq!(parse_u64(b""), None);
    assert_eq!(parse_u64(b"12a3"), None);
}
