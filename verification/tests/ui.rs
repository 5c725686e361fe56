use mister_fpga::config::resolution::Resolution;
use mister_fpga::ui::font::{FontError, FontProp, FontSize, FontType};
use mister_fpga::ui::image::{background_options, JsImage, Position, SendToBackgroundOptions};
use mister_fpga::ui::view::{Key, TopLevelViewType};

#[test]
fn font_inherits_what_it_leaves_open() {
    let parent = FontProp(FontType::Monospace, FontSize::Large);
    assert_eq!(FontProp(FontType::Unset, FontSize::Unset).inherits(parent), parent);
    assert_eq!(
        FontProp(FontType::Unset, FontSize::Small).inherits(parent),
        FontProp(FontType::Monospace, FontSize::Small)
    );
    assert_eq!(
        FontProp(FontType::SansSerif, FontSize::Unset).inherits(parent),
        FontProp(FontType::SansSerif, FontSize::Large)
    );
    assert_eq!(
        FontProp(FontType::SansSerif, FontSize::Small).inherits(parent),
        FontProp(FontType::SansSerif, FontSize::Small)
    );
    let open = FontProp::default();
    assert_eq!(parent.inherits(open), parent);
    assert_eq!(open.inherits(open), open);
}

#[test]
fn font_resolved() {
    assert_eq!(FontProp::default().resolved(), FontProp(FontType::SansSerif, FontSize::Medium));
    assert_eq!(
        FontProp(FontType::Monospace, FontSize::Unset).resolved(),
        FontProp(FontType::Monospace, FontSize::Medium)
    );
}

#[test]
fn font_words() {
    assert_eq!(FontType::from_str("default"), Ok(FontType::Unset));
    assert_eq!(FontType::from_str("Monospace"), Ok(FontType::Monospace));
    assert_eq!(FontType::from_str("SANS"), Ok(FontType::SansSerif));
    assert_eq!(FontType::from_str("sans-serif"), Ok(FontType::SansSerif));
    assert_eq!(FontType::from_str("serif"), Err(FontError::UnknownFontType));
    assert_eq!(FontSize::from_str("Small"), Ok(FontSize::Small));
    assert_eq!(FontSize::from_str("medium"), Ok(FontSize::Medium));
    assert_eq!(FontSize::from_str("LARGE"), Ok(FontSize::Large));
    assert_eq!(FontSize::from_str("default"), Ok(FontSize::Unset));
    assert_eq!(FontSize::from_str("huge"), Err(FontError::UnknownFontSize));
}

#[test]
fn font_specifications() {
    assert_eq!(
        FontProp::from_str("monospace,small"),
        Ok(FontProp(FontType::Monospace, FontSize::Small))
    );
    assert_eq!(FontProp::from_str(""), Ok(FontProp(FontType::Unset, FontSize::Unset)));
    assert_eq!(FontProp::from_str("default"), Ok(FontProp(FontType::Unset, FontSize::Unset)));
    assert_eq!(FontProp::from_str("sans"), Ok(FontProp(FontType::SansSerif, FontSize::Unset)));
    assert_eq!(FontProp::from_str("large"), Ok(FontProp(FontType::Unset, FontSize::Large)));
    assert_eq!(FontProp::from_str("Default"), Ok(FontProp(FontType::Unset, FontSize::Unset)));
    assert_eq!(FontProp::from_str("huge"), Err(FontError::UnknownFontSpecification));
    assert_eq!(FontProp::from_str("serif,small"), Err(FontError::UnknownFontType));
    assert_eq!(FontProp::from_str("sans,huge"), Err(FontError::UnknownFontSize));
    assert_eq!(FontProp::from_str("sans, small"), Err(FontError::UnknownFontSize));
    assert_eq!(FontProp::from_str(","), Err(FontError::UnknownFontType));
    assert_eq!(FontProp::from_str("sans,small,x"), Err(FontError::UnknownFontSize));
}

#[test]
fn image_size() {
    let i = JsImage::new(640, 480);
    assert_eq!(i.width(), 640);
    assert_eq!(i.height(), 480);
}

#[test]
fn image_origin() {
    let i = JsImage::new(100, 50);
    let fb = Resolution { width: 640, height: 480 };
    assert_eq!(i.origin(fb, Position::TopLeft), (0, 0));
    assert_eq!(i.origin(fb, Position::Center), (270, 215));
    assert_eq!(i.origin(fb, Position::Custom { x: -3, y: 9 }), (-3, 9));
    let small = Resolution { width: 51, height: 41 };
    assert_eq!(i.origin(small, Position::Center), (-24, -4));
    let odd = Resolution { width: 101, height: 51 };
    assert_eq!(i.origin(odd, Position::Center), (0, 0));
    let zero = Resolution { width: 0, height: 0 };
    assert_eq!(JsImage::new(u32::MAX, 1).origin(zero, Position::Center), (-2_147_483_647, 0));
}

#[test]
fn position_words() {
    assert_eq!(Position::from_str("top-left"), Some(Position::TopLeft));
    assert_eq!(Position::from_str("Center"), Some(Position::Center));
    assert_eq!(Position::from_str("centre"), None);
    assert_eq!(Position::default(), Position::TopLeft);
}

#[test]
fn background_options_have_defaults() {
    assert_eq!(background_options(None), (false, Position::TopLeft));
    let o = SendToBackgroundOptions { clear: None, position: None };
    assert_eq!(background_options(Some(o)), (false, Position::TopLeft));
    let o = SendToBackgroundOptions { clear: Some(true), position: Some(Position::Center) };
    assert_eq!(background_options(Some(o)), (true, Position::Center));
}

#[test]
fn top_level_views() {
    assert_eq!(TopLevelViewType::default(), TopLevelViewType::MainMenu);
    assert_eq!(TopLevelViewType::back(), TopLevelViewType::MainMenu);
    assert_eq!(TopLevelViewType::MainMenu.function(), Some(TopLevelViewType::MainMenu));
    assert_eq!(TopLevelViewType::Cores.function(), Some(TopLevelViewType::Cores));
    assert_eq!(TopLevelViewType::Settings.function(), Some(TopLevelViewType::Settings));
    assert_eq!(TopLevelViewType::InputTester.function(), Some(TopLevelViewType::InputTester));
    assert_eq!(TopLevelViewType::About.function(), None);
    assert_eq!(TopLevelViewType::Quit.function(), None);
    assert_eq!(TopLevelViewType::MainMenu.step(TopLevelViewType::Cores), TopLevelViewType::Cores);
    assert_eq!(TopLevelViewType::About.step(TopLevelViewType::Cores), TopLevelViewType::Quit);
    assert!(Key::Key(4) != Key::Button(4));
}
