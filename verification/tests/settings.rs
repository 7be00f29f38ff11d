use jotpad::codec::parse;
use jotpad::json::{Json, Number};
use jotpad::settings::{BackgroundSettings, Field, Settings, ShapeError};

fn sample() -> Settings {
    Settings {
        language: "tr".to_string(),
        theme: "dark".to_string(),
        color_theme: "rose".to_string(),
        background: BackgroundSettings {
            show_background: false,
            use_custom_image: true,
            custom_image_src: Some("/home/user/pictures/wall.png".to_string()),
            image_version: 12,
            opacity: 100,
            brightness: 0,
            blur: Number::Float("2.5".to_string()),
        },
        export_format: "markdown".to_string(),
        sort_type: "alphabetical".to_string(),
        auto_check_updates: true,
        link_preview_enabled: true,
    }
}

fn default_with(name: &str, value: Json) -> Json {
    match Settings::default().to_document() {
        Json::Object(members) => Json::Object(
            members
                .into_iter()
                .map(|(key, old)| if key == name { (key, value.clone()) } else { (key, old) })
                .collect(),
        ),
        other => other,
    }
}

fn default_without(name: &str) -> Json {
    match Settings::default().to_document() {
        Json::Object(members) => {
            Json::Object(members.into_iter().filter(|(key, _)| key != name).collect())
        }
        other => other,
    }
}

fn background_with(name: &str, value: Json) -> Json {
    let inner = match Settings::default().background.to_document() {
        Json::Object(members) => Json::Object(
            members
                .into_iter()
                .map(|(key, old)| if key == name { (key, value.clone()) } else { (key, old) })
                .collect(),
        ),
        other => other,
    };
    default_with("background", inner)
}

fn background_without(name: &str) -> Json {
    let inner = match Settings::default().background.to_document() {
        Json::Object(members) => {
            Json::Object(members.into_iter().filter(|(key, _)| key != name).collect())
        }
        other => other,
    };
    default_with("background", inner)
}

#[test]
fn the_defaults_are_those_of_a_fresh_installation() {
    let settings = Settings::default();
    assert_eq!(settings.language, "en");
    assert_eq!(settings.theme, "system");
    assert_eq!(settings.color_theme, "zinc");
    assert_eq!(settings.export_format, "json");
    assert_eq!(settings.sort_type, "newest");
    assert!(!settings.auto_check_updates);
    assert!(!settings.link_preview_enabled);
    assert!(settings.background.show_background);
    assert!(!settings.background.use_custom_image);
    assert_eq!(settings.background.custom_image_src, None);
    assert_eq!(settings.background.image_version, 0);
    assert_eq!(settings.background.opacity, 30);
    assert_eq!(settings.background.brightness, 100);
    assert_eq!(settings.background.blur, Number::Float("0.0".to_string()));
}

#[test]
fn the_document_names_the_members_in_their_order() {
    let doc = sample().to_document();
    let expected = parse(
        r#"{
            "language": "tr",
            "theme": "dark",
            "color_theme": "rose",
            "background": {
                "show_background": false,
                "use_custom_image": true,
                "custom_image_src": "/home/user/pictures/wall.png",
                "image_version": 12,
                "opacity": 100,
                "brightness": 0,
                "blur": 2.5
            },
            "export_format": "markdown",
            "sort_type": "alphabetical",
            "auto_check_updates": true,
            "link_preview_enabled": true
        }"#,
    )
    .unwrap();
    assert_eq!(doc, expected);
}

#[test]
fn settings_are_read_back_from_their_document() {
    assert_eq!(Settings::from_document(&sample().to_document()), Ok(sample()));
    assert_eq!(Settings::from_document(&Settings::default().to_document()), Ok(Settings::default()));
}

#[test]
fn a_blur_in_the_wrong_form_is_written_in_the_right_one() {
    let mut settings = sample();
    settings.background.blur = Number::NegInt(4);
    let mut expected = sample();
    expected.background.blur = Number::PosInt(4);
    assert_eq!(Settings::from_document(&settings.to_document()), Ok(expected));
    settings.background.blur = Number::NegInt(-4);
    assert_eq!(Settings::from_document(&settings.to_document()), Ok(settings.clone()));
}

#[test]
fn a_clone_is_equal() {
    assert_eq!(sample().clone(), sample());
    assert_eq!(Settings::default().clone(), Settings::default());
}

#[test]
fn a_document_that_is_no_object_is_refused() {
    assert_eq!(Settings::from_document(&Json::Null), Err(ShapeError::NotAnObject));
    assert_eq!(Settings::from_document(&Json::Array(vec![])), Err(ShapeError::NotAnObject));
    assert_eq!(
        Settings::from_document(&Json::String("dark".to_string())),
        Err(ShapeError::NotAnObject)
    );
}

#[test]
fn a_missing_member_is_reported_by_name() {
    assert_eq!(
        Settings::from_document(&default_without("theme")),
        Err(ShapeError::Missing(Field::Theme))
    );
    assert_eq!(
        Settings::from_document(&default_without("background")),
        Err(ShapeError::Missing(Field::Background))
    );
    assert_eq!(
        Settings::from_document(&default_without("link_preview_enabled")),
        Err(ShapeError::Missing(Field::LinkPreviewEnabled))
    );
    assert_eq!(
        Settings::from_document(&background_without("blur")),
        Err(ShapeError::Missing(Field::Blur))
    );
    assert_eq!(
        Settings::from_document(&background_without("opacity")),
        Err(ShapeError::Missing(Field::Opacity))
    );
    assert_eq!(
        Settings::from_document(&Json::Object(vec![])),
        Err(ShapeError::Missing(Field::Language))
    );
}

#[test]
fn a_member_of_the_wrong_kind_is_reported_by_name() {
    assert_eq!(
        Settings::from_document(&default_with("theme", Json::Number(Number::PosInt(5)))),
        Err(ShapeError::Invalid(Field::Theme))
    );
    assert_eq!(
        Settings::from_document(&default_with("language", Json::Null)),
        Err(ShapeError::Invalid(Field::Language))
    );
    assert_eq!(
        Settings::from_document(&default_with("auto_check_updates", Json::String("yes".to_string()))),
        Err(ShapeError::Invalid(Field::AutoCheckUpdates))
    );
    assert_eq!(
        Settings::from_document(&default_with("background", Json::Bool(true))),
        Err(ShapeError::Invalid(Field::Background))
    );
    assert_eq!(
        Settings::from_document(&background_with("show_background", Json::Null)),
        Err(ShapeError::Invalid(Field::ShowBackground))
    );
    assert_eq!(
        Settings::from_document(&background_with("blur", Json::String("2".to_string()))),
        Err(ShapeError::Invalid(Field::Blur))
    );
    assert_eq!(
        Settings::from_document(&background_with("custom_image_src", Json::Bool(false))),
        Err(ShapeError::Invalid(Field::CustomImageSrc))
    );
}

#[test]
fn a_number_out_of_range_is_refused() {
    assert_eq!(
        Settings::from_document(&background_with("opacity", Json::Number(Number::PosInt(256)))),
        Err(ShapeError::Invalid(Field::Opacity))
    );
    assert_eq!(
        Settings::from_document(&background_with("brightness", Json::Number(Number::NegInt(-1)))),
        Err(ShapeError::Invalid(Field::Brightness))
    );
    assert_eq!(
        Settings::from_document(&background_with(
            "opacity",
            Json::Number(Number::Float("30.0".to_string()))
        )),
        Err(ShapeError::Invalid(Field::Opacity))
    );
    assert_eq!(
        Settings::from_document(&background_with("image_version", Json::Number(Number::NegInt(-3)))),
        Err(ShapeError::Invalid(Field::ImageVersion))
    );
    let full = Settings::from_document(&background_with(
        "opacity",
        Json::Number(Number::PosInt(255)),
    ))
    .unwrap();
    assert_eq!(full.background.opacity, 255);
    let large = Settings::from_document(&background_with(
        "image_version",
        Json::Number(Number::PosInt(u64::MAX)),
    ))
    .unwrap();
    assert_eq!(large.background.image_version, u64::MAX);
}

#[test]
fn the_first_member_that_is_wrong_is_the_one_reported() {
    let doc = match default_with("sort_type", Json::Null) {
        Json::Object(members) => Json::Object(
            members
                .into_iter()
                .map(|(key, old)| if key == "color_theme" { (key, Json::Bool(true)) } else { (key, old) })
                .collect(),
        ),
        other => other,
    };
    assert_eq!(Settings::from_document(&doc), Err(ShapeError::Invalid(Field::ColorTheme)));
}

#[test]
fn the_image_may_be_null_or_left_out() {
    let with_null = Settings::from_document(&background_with("custom_image_src", Json::Null));
    assert_eq!(with_null, Ok(Settings::default()));
    let without = Settings::from_document(&background_without("custom_image_src"));
    assert_eq!(without, Ok(Settings::default()));
    let with_text = Settings::from_document(&background_with(
        "custom_image_src",
        Json::String("asset://bg.jpg".to_string()),
    ))
    .unwrap();
    assert_eq!(with_text.background.custom_image_src, Some("asset://bg.jpg".to_string()));
}

#[test]
fn the_blur_may_be_any_number() {
    let whole = Settings::from_document(&background_with("blur", Json::Number(Number::PosInt(3))));
    assert_eq!(whole.unwrap().background.blur, Number::PosInt(3));
    let negative =
        Settings::from_document(&background_with("blur", Json::Number(Number::NegInt(-3))));
    assert_eq!(negative.unwrap().background.blur, Number::NegInt(-3));
    let fraction = Settings::from_document(&background_with(
        "blur",
        Json::Number(Number::Float("0.75".to_string())),
    ));
    assert_eq!(fraction.unwrap().background.blur, Number::Float("0.75".to_string()));
}

#[test]
fn members_that_settings_do_not_have_are_passed_over() {
    let doc = match sample().to_document() {
        Json::Object(mut members) => {
            members.insert(0, ("font_size".to_string(), Json::Number(Number::PosInt(14))));
            members.push(("window".to_string(), Json::Object(vec![])));
            Json::Object(members)
        }
        other => other,
    };
    assert_eq!(Settings::from_document(&doc), Ok(sample()));
}

#[test]
fn every_error_has_its_words() {
    assert_eq!(ShapeError::NotAnObject.message(), "settings document is not an object");
    assert_eq!(ShapeError::Missing(Field::Theme).message(), "missing field `theme`");
    assert_eq!(
        ShapeError::Invalid(Field::CustomImageSrc).message(),
        "invalid value for field `custom_image_src`"
    );
}

#[test]
fn every_member_has_its_name() {
    assert_eq!(Field::Language.key(), "language");
    assert_eq!(Field::Theme.key(), "theme");
    assert_eq!(Field::ColorTheme.key(), "color_theme");
    assert_eq!(Field::Background.key(), "background");
    assert_eq!(Field::ExportFormat.key(), "export_format");
    assert_eq!(Field::SortType.key(), "sort_type");
    assert_eq!(Field::AutoCheckUpdates.key(), "auto_check_updates");
    assert_eq!(Field::LinkPreviewEnabled.key(), "link_preview_enabled");
    assert_eq!(Field::ShowBackground.key(), "show_background");
    assert_eq!(Field::UseCustomImage.key(), "use_custom_image");
    assert_eq!(Field::CustomImageSrc.key(), "custom_image_src");
    assert_eq!(Field::ImageVersion.key(), "image_version");
    assert_eq!(Field::Opacity.key(), "opacity");
    assert_eq!(Field::Brightness.key(), "brightness");
    assert_eq!(Field::Blur.key(), "blur");
}
