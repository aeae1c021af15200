use wallpaper_cli::{interpret, Action, InterpretError, ModeOption, Request};

fn request(
    path: Option<&str>,
    ignore: bool,
    random: bool,
    url: Option<&str>,
    mode: Option<&str>,
) -> Request {
    Request {
        path: path.map(str::to_owned),
        ignore,
        random,
        url: url.map(str::to_owned),
        mode: mode.map(str::to_owned),
    }
}

#[test]
fn png_path_sets_once() {
    let r = interpret(request(Some("wallpaper.png"), false, false, None, None));
    assert_eq!(
        r,
        Ok(vec![Action::SetFromPath("wallpaper.png".to_owned())])
    );
}

#[test]
fn jpg_path_sets_once() {
    let r = interpret(request(Some("photos/beach.jpg"), false, false, None, None));
    assert_eq!(
        r,
        Ok(vec![Action::SetFromPath("photos/beach.jpg".to_owned())])
    );
}

#[test]
fn gif_without_override_rejected() {
    let r = interpret(request(Some("wallpaper.gif"), false, false, None, None));
    assert_eq!(r, Err(InterpretError::UnsupportedExtension));
}

#[test]
fn gif_with_override_accepted() {
    let r = interpret(request(Some("wallpaper.gif"), true, false, None, None));
    assert_eq!(
        r,
        Ok(vec![Action::SetFromPath("wallpaper.gif".to_owned())])
    );
}

#[test]
fn uppercase_extension_rejected() {
    let r = interpret(request(Some("wallpaper.PNG"), false, false, None, None));
    assert_eq!(r, Err(InterpretError::UnsupportedExtension));
}

#[test]
fn no_extension_without_override_rejected() {
    let r = interpret(request(Some("wallpaper"), false, false, None, None));
    assert_eq!(r, Err(InterpretError::InvalidImagePath));
}

#[test]
fn no_extension_with_override_accepted() {
    let r = interpret(request(Some("wallpaper"), true, false, None, None));
    assert_eq!(r, Ok(vec![Action::SetFromPath("wallpaper".to_owned())]));
}

#[test]
fn mode_only_plans_single_mode_action() {
    let r = interpret(request(None, false, false, None, Some("tile")));
    assert_eq!(r, Ok(vec![Action::SetMode(ModeOption::Tile)]));
}

#[test]
fn invalid_mode_rejected_before_any_action() {
    let r = interpret(request(Some("wallpaper.png"), false, true, None, Some("mosaic")));
    assert_eq!(r, Err(InterpretError::InvalidModeValue));
}

#[test]
fn random_flag_uses_fixed_endpoint() {
    let r = interpret(request(None, false, true, None, None));
    assert_eq!(
        r,
        Ok(vec![Action::SetFromUrl(
            "https://source.unsplash.com/random".to_owned()
        )])
    );
}

#[test]
fn random_endpoint_constant() {
    assert_eq!(wallpaper_cli::random_url(), "https://source.unsplash.com/random");
}

#[test]
fn explicit_url_passed_through() {
    let r = interpret(request(None, false, false, Some("http://example.com/a.png"), None));
    assert_eq!(
        r,
        Ok(vec![Action::SetFromUrl("http://example.com/a.png".to_owned())])
    );
}

#[test]
fn all_actions_planned_in_declaration_order() {
    let r = interpret(request(
        Some("a.png"),
        false,
        true,
        Some("http://example.com/b.jpg"),
        Some("fit"),
    ));
    assert_eq!(
        r,
        Ok(vec![
            Action::SetFromPath("a.png".to_owned()),
            Action::SetFromUrl("https://source.unsplash.com/random".to_owned()),
            Action::SetFromUrl("http://example.com/b.jpg".to_owned()),
            Action::SetMode(ModeOption::Fit),
        ])
    );
}

#[test]
fn empty_request_plans_nothing() {
    let r = interpret(request(None, false, false, None, None));
    assert_eq!(r, Ok(vec![]));
}

#[test]
fn rejected_path_blocks_later_actions() {
    let r = interpret(request(Some("a.gif"), false, true, Some("http://example.com/c.png"), None));
    assert_eq!(r, Err(InterpretError::UnsupportedExtension));
}
