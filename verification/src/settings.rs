//! The user's settings, and the JSON document that stands for them.

use vstd::prelude::*;
use vstd::string::StringExecFns;
use crate::json::{
    find_member, lemma_members_view, lemma_position_distinct, lemma_position_found, lookup,
    members_view, Json, JsonModel, Members, Number, NumberModel,
};

verus! {

/// How the note background is drawn.
#[derive(Debug, PartialEq, Eq)]
pub struct BackgroundSettings {
    pub show_background: bool,
    pub use_custom_image: bool,
    /// Path or URI of the user's own image, if one is set.
    pub custom_image_src: Option<String>,
    /// Counts the changes of the image, so that a stale copy is not shown.
    pub image_version: u64,
    pub opacity: u8,
    pub brightness: u8,
    /// The blur radius, as the JSON number that was given for it.
    pub blur: Number,
}

/// The user's preferences: one record for each installation.
#[derive(Debug, PartialEq, Eq)]
pub struct Settings {
    pub language: String,
    pub theme: String,
    pub color_theme: String,
    pub background: BackgroundSettings,
    pub export_format: String,
    pub sort_type: String,
    pub auto_check_updates: bool,
    pub link_preview_enabled: bool,
}

/// The mathematical value of [`BackgroundSettings`].
pub struct BackgroundModel {
    pub show_background: bool,
    pub use_custom_image: bool,
    pub custom_image_src: Option<Seq<char>>,
    pub image_version: u64,
    pub opacity: u8,
    pub brightness: u8,
    pub blur: NumberModel,
}

/// The mathematical value of [`Settings`].
pub struct SettingsModel {
    pub language: Seq<char>,
    pub theme: Seq<char>,
    pub color_theme: Seq<char>,
    pub background: BackgroundModel,
    pub export_format: Seq<char>,
    pub sort_type: Seq<char>,
    pub auto_check_updates: bool,
    pub link_preview_enabled: bool,
}

impl SettingsModel {
    /// The blur is a number in its one form.
    pub open spec fn well_formed(self) -> bool {
        self.background.blur.well_formed()
    }

    /// The same settings with the blur in its one form.
    pub open spec fn normalized(self) -> SettingsModel {
        SettingsModel {
            background: BackgroundModel {
                blur: self.background.blur.normalized(),
                ..self.background
            },
            ..self
        }
    }
}

impl View for BackgroundSettings {
    type V = BackgroundModel;

    open spec fn view(&self) -> BackgroundModel {
        BackgroundModel {
            show_background: self.show_background,
            use_custom_image: self.use_custom_image,
            custom_image_src: match self.custom_image_src {
                Some(src) => Some(src@),
                None => None,
            },
            image_version: self.image_version,
            opacity: self.opacity,
            brightness: self.brightness,
            blur: self.blur@,
        }
    }
}

impl View for Settings {
    type V = SettingsModel;

    open spec fn view(&self) -> SettingsModel {
        SettingsModel {
            language: self.language@,
            theme: self.theme@,
            color_theme: self.color_theme@,
            background: self.background@,
            export_format: self.export_format@,
            sort_type: self.sort_type@,
            auto_check_updates: self.auto_check_updates,
            link_preview_enabled: self.link_preview_enabled,
        }
    }
}

impl Clone for BackgroundSettings {
    fn clone(&self) -> (copy: BackgroundSettings)
        ensures
            copy@ == self@,
    {
        BackgroundSettings {
            show_background: self.show_background,
            use_custom_image: self.use_custom_image,
            custom_image_src: match &self.custom_image_src {
                Some(src) => Some(src.clone()),
                None => None,
            },
            image_version: self.image_version,
            opacity: self.opacity,
            brightness: self.brightness,
            blur: self.blur.clone(),
        }
    }
}

impl Clone for Settings {
    fn clone(&self) -> (copy: Settings)
        ensures
            copy@ == self@,
    {
        Settings {
            language: self.language.clone(),
            theme: self.theme.clone(),
            color_theme: self.color_theme.clone(),
            background: self.background.clone(),
            export_format: self.export_format.clone(),
            sort_type: self.sort_type.clone(),
            auto_check_updates: self.auto_check_updates,
            link_preview_enabled: self.link_preview_enabled,
        }
    }
}

/// The settings of a fresh installation.
pub open spec fn default_settings() -> SettingsModel {
    SettingsModel {
        language: "en"@,
        theme: "system"@,
        color_theme: "zinc"@,
        background: BackgroundModel {
            show_background: true,
            use_custom_image: false,
            custom_image_src: None,
            image_version: 0,
            opacity: 30,
            brightness: 100,
            blur: NumberModel::Float("0.0"@),
        },
        export_format: "json"@,
        sort_type: "newest"@,
        auto_check_updates: false,
        link_preview_enabled: false,
    }
}

impl Default for Settings {
    fn default() -> (settings: Settings)
        ensures
            settings@ == default_settings(),
            settings@.well_formed(),
    {
        Settings {
            language: String::from_str("en"),
            theme: String::from_str("system"),
            color_theme: String::from_str("zinc"),
            background: BackgroundSettings {
                show_background: true,
                use_custom_image: false,
                custom_image_src: None,
                image_version: 0,
                opacity: 30,
                brightness: 100,
                blur: Number::Float(String::from_str("0.0")),
            },
            export_format: String::from_str("json"),
            sort_type: String::from_str("newest"),
            auto_check_updates: false,
            link_preview_enabled: false,
        }
    }
}

/// The members of a settings document, by the place where each stands.
#[derive(Clone, Copy, Debug, PartialEq, Eq, Structural)]
pub enum Field {
    Language,
    Theme,
    ColorTheme,
    Background,
    ExportFormat,
    SortType,
    AutoCheckUpdates,
    LinkPreviewEnabled,
    ShowBackground,
    UseCustomImage,
    CustomImageSrc,
    ImageVersion,
    Opacity,
    Brightness,
    Blur,
}

impl Field {
    /// The name under which the member stands in the document.
    pub open spec fn name(self) -> Seq<char> {
        match self {
            Field::Language => "language"@,
            Field::Theme => "theme"@,
            Field::ColorTheme => "color_theme"@,
            Field::Background => "background"@,
            Field::ExportFormat => "export_format"@,
            Field::SortType => "sort_type"@,
            Field::AutoCheckUpdates => "auto_check_updates"@,
            Field::LinkPreviewEnabled => "link_preview_enabled"@,
            Field::ShowBackground => "show_background"@,
            Field::UseCustomImage => "use_custom_image"@,
            Field::CustomImageSrc => "custom_image_src"@,
            Field::ImageVersion => "image_version"@,
            Field::Opacity => "opacity"@,
            Field::Brightness => "brightness"@,
            Field::Blur => "blur"@,
        }
    }

    /// The member's name.
    pub fn key(self) -> (key: String)
        ensures
            key@ == self.name(),
    {
        match self {
            Field::Language => String::from_str("language"),
            Field::Theme => String::from_str("theme"),
            Field::ColorTheme => String::from_str("color_theme"),
            Field::Background => String::from_str("background"),
            Field::ExportFormat => String::from_str("export_format"),
            Field::SortType => String::from_str("sort_type"),
            Field::AutoCheckUpdates => String::from_str("auto_check_updates"),
            Field::LinkPreviewEnabled => String::from_str("link_preview_enabled"),
            Field::ShowBackground => String::from_str("show_background"),
            Field::UseCustomImage => String::from_str("use_custom_image"),
            Field::CustomImageSrc => String::from_str("custom_image_src"),
            Field::ImageVersion => String::from_str("image_version"),
            Field::Opacity => String::from_str("opacity"),
            Field::Brightness => String::from_str("brightness"),
            Field::Blur => String::from_str("blur"),
        }
    }
}

/// The names of the settings' own members differ from one another, and
/// so do those of the background's.
pub proof fn lemma_names_differ()
    ensures
        forall|a: Field, b: Field| a != b && top_level(a) == top_level(b) ==> a.name() != b.name(),
{
    reveal_strlit("language");
    reveal_strlit("theme");
    reveal_strlit("color_theme");
    reveal_strlit("background");
    reveal_strlit("export_format");
    reveal_strlit("sort_type");
    reveal_strlit("auto_check_updates");
    reveal_strlit("link_preview_enabled");
    reveal_strlit("show_background");
    reveal_strlit("use_custom_image");
    reveal_strlit("custom_image_src");
    reveal_strlit("image_version");
    reveal_strlit("opacity");
    reveal_strlit("brightness");
    reveal_strlit("blur");
    assert forall|a: Field, b: Field| a != b && top_level(a) == top_level(b) implies a.name()
        != b.name() by {
        if a.name().len() == b.name().len() {
            assert(a.name()[0] != b.name()[0]);
        }
    }
}

/// Whether the member is one of the settings' own, and not one of the
/// background's.
pub open spec fn top_level(field: Field) -> bool {
    match field {
        Field::Language
        | Field::Theme
        | Field::ColorTheme
        | Field::Background
        | Field::ExportFormat
        | Field::SortType
        | Field::AutoCheckUpdates
        | Field::LinkPreviewEnabled => true,
        _ => false,
    }
}

/// The members that stand for a background, in the order in which they
/// are written.
pub open spec fn background_members(background: BackgroundModel) -> Members {
    seq![
        (Field::ShowBackground.name(), JsonModel::Bool(background.show_background)),
        (Field::UseCustomImage.name(), JsonModel::Bool(background.use_custom_image)),
        (
            Field::CustomImageSrc.name(),
            match background.custom_image_src {
                Some(src) => JsonModel::String(src),
                None => JsonModel::Null,
            },
        ),
        (
            Field::ImageVersion.name(),
            JsonModel::Number(NumberModel::PosInt(background.image_version)),
        ),
        (Field::Opacity.name(), JsonModel::Number(NumberModel::PosInt(background.opacity as u64))),
        (
            Field::Brightness.name(),
            JsonModel::Number(NumberModel::PosInt(background.brightness as u64)),
        ),
        (Field::Blur.name(), JsonModel::Number(background.blur.normalized())),
    ]
}

/// The members that stand for the settings, in the order in which they
/// are written.
pub open spec fn settings_members(settings: SettingsModel) -> Members {
    seq![
        (Field::Language.name(), JsonModel::String(settings.language)),
        (Field::Theme.name(), JsonModel::String(settings.theme)),
        (Field::ColorTheme.name(), JsonModel::String(settings.color_theme)),
        (Field::Background.name(), JsonModel::Object(background_members(settings.background))),
        (Field::ExportFormat.name(), JsonModel::String(settings.export_format)),
        (Field::SortType.name(), JsonModel::String(settings.sort_type)),
        (Field::AutoCheckUpdates.name(), JsonModel::Bool(settings.auto_check_updates)),
        (Field::LinkPreviewEnabled.name(), JsonModel::Bool(settings.link_preview_enabled)),
    ]
}

/// The document that stands for the settings.
pub open spec fn settings_document(settings: SettingsModel) -> JsonModel {
    JsonModel::Object(settings_members(settings))
}

/// The document of any settings is well formed.
pub proof fn lemma_settings_document_well_formed(settings: SettingsModel)
    ensures
        settings_document(settings).well_formed(),
{
    lemma_names_differ();
    reveal_with_fuel(JsonModel::well_formed, 3);
}

impl BackgroundSettings {
    /// The JSON object that stands for the background.
    pub fn to_document(&self) -> (doc: Json)
        ensures
            doc@ == JsonModel::Object(background_members(self@)),
    {
        let mut members: Vec<(String, Json)> = Vec::new();
        members.push((Field::ShowBackground.key(), Json::Bool(self.show_background)));
        members.push((Field::UseCustomImage.key(), Json::Bool(self.use_custom_image)));
        let src = match &self.custom_image_src {
            Some(src) => Json::String(src.clone()),
            None => Json::Null,
        };
        members.push((Field::CustomImageSrc.key(), src));
        members.push((Field::ImageVersion.key(), Json::Number(Number::PosInt(self.image_version))));
        members.push((Field::Opacity.key(), Json::Number(Number::PosInt(self.opacity as u64))));
        members.push(
            (Field::Brightness.key(), Json::Number(Number::PosInt(self.brightness as u64))),
        );
        members.push((Field::Blur.key(), Json::Number(self.blur.normalized())));
        proof {
            lemma_members_view(members@);
            assert(members_view(members@) =~= background_members(self@));
        }
        Json::Object(members)
    }
}

impl Settings {
    /// The JSON document that stands for the settings.
    pub fn to_document(&self) -> (doc: Json)
        ensures
            doc@ == settings_document(self@),
            doc@.well_formed(),
    {
        let mut members: Vec<(String, Json)> = Vec::new();
        members.push((Field::Language.key(), Json::String(self.language.clone())));
        members.push((Field::Theme.key(), Json::String(self.theme.clone())));
        members.push((Field::ColorTheme.key(), Json::String(self.color_theme.clone())));
        members.push((Field::Background.key(), self.background.to_document()));
        members.push((Field::ExportFormat.key(), Json::String(self.export_format.clone())));
        members.push((Field::SortType.key(), Json::String(self.sort_type.clone())));
        members.push((Field::AutoCheckUpdates.key(), Json::Bool(self.auto_check_updates)));
        members.push((Field::LinkPreviewEnabled.key(), Json::Bool(self.link_preview_enabled)));
        proof {
            lemma_members_view(members@);
            assert(members_view(members@) =~= settings_members(self@));
            lemma_settings_document_well_formed(self@);
        }
        Json::Object(members)
    }
}

/// Why a document does not stand for settings.
#[derive(Clone, Copy, Debug, PartialEq, Eq, Structural)]
pub enum ShapeError {
    /// The document is no object.
    NotAnObject,
    /// A member that must be there is not.
    Missing(Field),
    /// A member holds a value of the wrong kind, or a number out of range.
    Invalid(Field),
}

impl ShapeError {
    /// What is wrong, in words.
    pub open spec fn text(self) -> Seq<char> {
        match self {
            ShapeError::NotAnObject => "settings document is not an object"@,
            ShapeError::Missing(field) => "missing field `"@ + field.name() + "`"@,
            ShapeError::Invalid(field) => "invalid value for field `"@ + field.name() + "`"@,
        }
    }

    /// What is wrong, in words.
    pub fn message(&self) -> (message: String)
        ensures
            message@ == self.text(),
    {
        match self {
            ShapeError::NotAnObject => String::from_str("settings document is not an object"),
            ShapeError::Missing(field) => String::from_str("missing field `").concat(
                field.key().as_str(),
            ).concat("`"),
            ShapeError::Invalid(field) => String::from_str("invalid value for field `").concat(
                field.key().as_str(),
            ).concat("`"),
        }
    }
}

/// The text of a member that must be a string.
pub open spec fn read_string(members: Members, field: Field) -> Result<Seq<char>, ShapeError> {
    match lookup(members, field.name()) {
        Some(JsonModel::String(text)) => Ok(text),
        Some(_) => Err(ShapeError::Invalid(field)),
        None => Err(ShapeError::Missing(field)),
    }
}

/// The text of a member that may be a string, may be `null`, and may be
/// left out.
pub open spec fn read_optional_string(members: Members, field: Field) -> Result<
    Option<Seq<char>>,
    ShapeError,
> {
    match lookup(members, field.name()) {
        Some(JsonModel::String(text)) => Ok(Some(text)),
        Some(JsonModel::Null) | None => Ok(None),
        Some(_) => Err(ShapeError::Invalid(field)),
    }
}

/// The value of a member that must be `true` or `false`.
pub open spec fn read_bool(members: Members, field: Field) -> Result<bool, ShapeError> {
    match lookup(members, field.name()) {
        Some(JsonModel::Bool(value)) => Ok(value),
        Some(_) => Err(ShapeError::Invalid(field)),
        None => Err(ShapeError::Missing(field)),
    }
}

/// The value of a member that must be a non-negative integer.
pub open spec fn read_u64(members: Members, field: Field) -> Result<u64, ShapeError> {
    match lookup(members, field.name()) {
        Some(JsonModel::Number(NumberModel::PosInt(value))) => Ok(value),
        Some(_) => Err(ShapeError::Invalid(field)),
        None => Err(ShapeError::Missing(field)),
    }
}

/// The value of a member that must be an integer from 0 to 255.
pub open spec fn read_u8(members: Members, field: Field) -> Result<u8, ShapeError> {
    match lookup(members, field.name()) {
        Some(JsonModel::Number(NumberModel::PosInt(value))) if value <= 255 => Ok(value as u8),
        Some(_) => Err(ShapeError::Invalid(field)),
        None => Err(ShapeError::Missing(field)),
    }
}

/// The value of a member that must be a number, of any kind.
pub open spec fn read_number(members: Members, field: Field) -> Result<NumberModel, ShapeError> {
    match lookup(members, field.name()) {
        Some(JsonModel::Number(value)) => Ok(value),
        Some(_) => Err(ShapeError::Invalid(field)),
        None => Err(ShapeError::Missing(field)),
    }
}

/// The background that a document stands for, or what is wrong with the
/// first of its members that is not as it must be. Members that the
/// background does not have are passed over.
pub open spec fn decode_background(doc: JsonModel) -> Result<BackgroundModel, ShapeError> {
    match doc {
        JsonModel::Object(members) => {
            let show_background = read_bool(members, Field::ShowBackground);
            let use_custom_image = read_bool(members, Field::UseCustomImage);
            let custom_image_src = read_optional_string(members, Field::CustomImageSrc);
            let image_version = read_u64(members, Field::ImageVersion);
            let opacity = read_u8(members, Field::Opacity);
            let brightness = read_u8(members, Field::Brightness);
            let blur = read_number(members, Field::Blur);
            if show_background is Err {
                Err(show_background->Err_0)
            } else if use_custom_image is Err {
                Err(use_custom_image->Err_0)
            } else if custom_image_src is Err {
                Err(custom_image_src->Err_0)
            } else if image_version is Err {
                Err(image_version->Err_0)
            } else if opacity is Err {
                Err(opacity->Err_0)
            } else if brightness is Err {
                Err(brightness->Err_0)
            } else if blur is Err {
                Err(blur->Err_0)
            } else {
                Ok(
                    BackgroundModel {
                        show_background: show_background->Ok_0,
                        use_custom_image: use_custom_image->Ok_0,
                        custom_image_src: custom_image_src->Ok_0,
                        image_version: image_version->Ok_0,
                        opacity: opacity->Ok_0,
                        brightness: brightness->Ok_0,
                        blur: blur->Ok_0,
                    },
                )
            }
        },
        _ => Err(ShapeError::Invalid(Field::Background)),
    }
}

/// The background that is given under the settings' member for it.
pub open spec fn read_background(members: Members) -> Result<BackgroundModel, ShapeError> {
    match lookup(members, Field::Background.name()) {
        Some(doc) => decode_background(doc),
        None => Err(ShapeError::Missing(Field::Background)),
    }
}

/// The settings that a document stands for, or what is wrong with the
/// first of its members that is not as it must be. Members that the
/// settings do not have are passed over.
pub open spec fn decode_settings(doc: JsonModel) -> Result<SettingsModel, ShapeError> {
    match doc {
        JsonModel::Object(members) => {
            let language = read_string(members, Field::Language);
            let theme = read_string(members, Field::Theme);
            let color_theme = read_string(members, Field::ColorTheme);
            let background = read_background(members);
            let export_format = read_string(members, Field::ExportFormat);
            let sort_type = read_string(members, Field::SortType);
            let auto_check_updates = read_bool(members, Field::AutoCheckUpdates);
            let link_preview_enabled = read_bool(members, Field::LinkPreviewEnabled);
            if language is Err {
                Err(language->Err_0)
            } else if theme is Err {
                Err(theme->Err_0)
            } else if color_theme is Err {
                Err(color_theme->Err_0)
            } else if background is Err {
                Err(background->Err_0)
            } else if export_format is Err {
                Err(export_format->Err_0)
            } else if sort_type is Err {
                Err(sort_type->Err_0)
            } else if auto_check_updates is Err {
                Err(auto_check_updates->Err_0)
            } else if link_preview_enabled is Err {
                Err(link_preview_enabled->Err_0)
            } else {
                Ok(
                    SettingsModel {
                        language: language->Ok_0,
                        theme: theme->Ok_0,
                        color_theme: color_theme->Ok_0,
                        background: background->Ok_0,
                        export_format: export_format->Ok_0,
                        sort_type: sort_type->Ok_0,
                        auto_check_updates: auto_check_updates->Ok_0,
                        link_preview_enabled: link_preview_enabled->Ok_0,
                    },
                )
            }
        },
        _ => Err(ShapeError::NotAnObject),
    }
}

/// The value that stands under a member's name, if any does.
fn member<'a>(members: &'a Vec<(String, Json)>, field: Field) -> (found: Option<&'a Json>)
    ensures
        match found {
            Some(value) => lookup(members_view(members@), field.name()) == Some(value@),
            None => lookup(members_view(members@), field.name()) is None,
        },
{
    let key = field.key();
    proof {
        lemma_members_view(members@);
    }
    match find_member(members, &key) {
        Some(at) => Some(&members[at].1),
        None => None,
    }
}

fn string_member(members: &Vec<(String, Json)>, field: Field) -> (r: Result<String, ShapeError>)
    ensures
        match r {
            Ok(text) => read_string(members_view(members@), field) == Ok::<_, ShapeError>(text@),
            Err(e) => read_string(members_view(members@), field) == Err::<Seq<char>, _>(e),
        },
{
    match member(members, field) {
        Some(Json::String(text)) => Ok(text.clone()),
        Some(_) => Err(ShapeError::Invalid(field)),
        None => Err(ShapeError::Missing(field)),
    }
}

fn optional_string_member(members: &Vec<(String, Json)>, field: Field) -> (r: Result<
    Option<String>,
    ShapeError,
>)
    ensures
        match r {
            Ok(Some(text)) => read_optional_string(members_view(members@), field) == Ok::<
                _,
                ShapeError,
            >(Some(text@)),
            Ok(None) => read_optional_string(members_view(members@), field) == Ok::<
                Option<Seq<char>>,
                ShapeError,
            >(None),
            Err(e) => read_optional_string(members_view(members@), field) == Err::<
                Option<Seq<char>>,
                _,
            >(e),
        },
{
    match member(members, field) {
        Some(Json::String(text)) => Ok(Some(text.clone())),
        Some(Json::Null) => Ok(None),
        None => Ok(None),
        Some(_) => Err(ShapeError::Invalid(field)),
    }
}

fn bool_member(members: &Vec<(String, Json)>, field: Field) -> (r: Result<bool, ShapeError>)
    ensures
        r == read_bool(members_view(members@), field),
{
    match member(members, field) {
        Some(Json::Bool(value)) => Ok(*value),
        Some(_) => Err(ShapeError::Invalid(field)),
        None => Err(ShapeError::Missing(field)),
    }
}

fn u64_member(members: &Vec<(String, Json)>, field: Field) -> (r: Result<u64, ShapeError>)
    ensures
        r == read_u64(members_view(members@), field),
{
    match member(members, field) {
        Some(Json::Number(Number::PosInt(value))) => Ok(*value),
        Some(_) => Err(ShapeError::Invalid(field)),
        None => Err(ShapeError::Missing(field)),
    }
}

fn u8_member(members: &Vec<(String, Json)>, field: Field) -> (r: Result<u8, ShapeError>)
    ensures
        r == read_u8(members_view(members@), field),
{
    match member(members, field) {
        Some(Json::Number(Number::PosInt(value))) => {
            if *value <= 255 {
                Ok(*value as u8)
            } else {
                Err(ShapeError::Invalid(field))
            }
        },
        Some(_) => Err(ShapeError::Invalid(field)),
        None => Err(ShapeError::Missing(field)),
    }
}

fn number_member(members: &Vec<(String, Json)>, field: Field) -> (r: Result<Number, ShapeError>)
    ensures
        match r {
            Ok(value) => read_number(members_view(members@), field) == Ok::<_, ShapeError>(
                value@,
            ),
            Err(e) => read_number(members_view(members@), field) == Err::<NumberModel, _>(e),
        },
{
    match member(members, field) {
        Some(Json::Number(value)) => Ok(value.clone()),
        Some(_) => Err(ShapeError::Invalid(field)),
        None => Err(ShapeError::Missing(field)),
    }
}

impl BackgroundSettings {
    /// Reads a background from the JSON value that stands for it.
    pub fn from_document(doc: &Json) -> (r: Result<BackgroundSettings, ShapeError>)
        ensures
            match r {
                Ok(background) => decode_background(doc@) == Ok::<_, ShapeError>(background@),
                Err(e) => decode_background(doc@) == Err::<BackgroundModel, _>(e),
            },
    {
        let members = match doc {
            Json::Object(members) => members,
            _ => { return Err(ShapeError::Invalid(Field::Background)); },
        };
        let show_background = match bool_member(members, Field::ShowBackground) {
            Ok(value) => value,
            Err(e) => { return Err(e); },
        };
        let use_custom_image = match bool_member(members, Field::UseCustomImage) {
            Ok(value) => value,
            Err(e) => { return Err(e); },
        };
        let custom_image_src = match optional_string_member(members, Field::CustomImageSrc) {
            Ok(value) => value,
            Err(e) => { return Err(e); },
        };
        let image_version = match u64_member(members, Field::ImageVersion) {
            Ok(value) => value,
            Err(e) => { return Err(e); },
        };
        let opacity = match u8_member(members, Field::Opacity) {
            Ok(value) => value,
            Err(e) => { return Err(e); },
        };
        let brightness = match u8_member(members, Field::Brightness) {
            Ok(value) => value,
            Err(e) => { return Err(e); },
        };
        let blur = match number_member(members, Field::Blur) {
            Ok(value) => value,
            Err(e) => { return Err(e); },
        };
        Ok(
            BackgroundSettings {
                show_background,
                use_custom_image,
                custom_image_src,
                image_version,
                opacity,
                brightness,
                blur,
            },
        )
    }
}

impl Settings {
    /// Reads settings from the JSON document that stands for them.
    pub fn from_document(doc: &Json) -> (r: Result<Settings, ShapeError>)
        ensures
            match r {
                Ok(settings) => decode_settings(doc@) == Ok::<_, ShapeError>(settings@),
                Err(e) => decode_settings(doc@) == Err::<SettingsModel, _>(e),
            },
            doc@.well_formed() ==> (r matches Ok(settings) ==> settings@.well_formed()),
    {
        proof {
            if doc@.well_formed() {
                lemma_decoded_well_formed(doc@);
            }
        }
        let members = match doc {
            Json::Object(members) => members,
            _ => { return Err(ShapeError::NotAnObject); },
        };
        let language = match string_member(members, Field::Language) {
            Ok(value) => value,
            Err(e) => { return Err(e); },
        };
        let theme = match string_member(members, Field::Theme) {
            Ok(value) => value,
            Err(e) => { return Err(e); },
        };
        let color_theme = match string_member(members, Field::ColorTheme) {
            Ok(value) => value,
            Err(e) => { return Err(e); },
        };
        let background = match member(members, Field::Background) {
            Some(inner) => match BackgroundSettings::from_document(inner) {
                Ok(value) => value,
                Err(e) => { return Err(e); },
            },
            None => { return Err(ShapeError::Missing(Field::Background)); },
        };
        let export_format = match string_member(members, Field::ExportFormat) {
            Ok(value) => value,
            Err(e) => { return Err(e); },
        };
        let sort_type = match string_member(members, Field::SortType) {
            Ok(value) => value,
            Err(e) => { return Err(e); },
        };
        let auto_check_updates = match bool_member(members, Field::AutoCheckUpdates) {
            Ok(value) => value,
            Err(e) => { return Err(e); },
        };
        let link_preview_enabled = match bool_member(members, Field::LinkPreviewEnabled) {
            Ok(value) => value,
            Err(e) => { return Err(e); },
        };
        Ok(
            Settings {
                language,
                theme,
                color_theme,
                background,
                export_format,
                sort_type,
                auto_check_updates,
                link_preview_enabled,
            },
        )
    }
}

/// In the members of a background each name stands for its own value.
pub proof fn lemma_background_lookup(background: BackgroundModel)
    ensures
        forall|i: int|
            0 <= i < 7 ==> lookup(
                background_members(background),
                (#[trigger] background_members(background)[i]).0,
            ) == Some(background_members(background)[i].1),
{
    lemma_names_differ();
    let members = background_members(background);
    assert forall|i: int| 0 <= i < 7 implies lookup(members, (#[trigger] members[i]).0) == Some(
        members[i].1,
    ) by {
        lemma_position_distinct(members, i);
    }
}

/// In the members of settings each name stands for its own value.
pub proof fn lemma_settings_lookup(settings: SettingsModel)
    ensures
        forall|i: int|
            0 <= i < 8 ==> lookup(
                settings_members(settings),
                (#[trigger] settings_members(settings)[i]).0,
            ) == Some(settings_members(settings)[i].1),
{
    lemma_names_differ();
    let members = settings_members(settings);
    assert forall|i: int| 0 <= i < 8 implies lookup(members, (#[trigger] members[i]).0) == Some(
        members[i].1,
    ) by {
        lemma_position_distinct(members, i);
    }
}

/// What `lookup` finds in well-formed members is well formed.
pub proof fn lemma_lookup_well_formed(members: Members, key: Seq<char>)
    requires
        JsonModel::Object(members).well_formed(),
    ensures
        lookup(members, key) matches Some(value) ==> value.well_formed(),
{
    lemma_position_found(members, key);
}

/// Settings that are read from a well-formed document are well formed.
pub proof fn lemma_decoded_well_formed(doc: JsonModel)
    requires
        doc.well_formed(),
    ensures
        decode_settings(doc) matches Ok(settings) ==> settings.well_formed(),
{
    if let JsonModel::Object(members) = doc {
        lemma_lookup_well_formed(members, Field::Background.name());
        if let Some(JsonModel::Object(inner)) = lookup(members, Field::Background.name()) {
            lemma_lookup_well_formed(inner, Field::Blur.name());
        }
    }
}

/// The document of any settings reads as those settings, their blur in
/// its one form.
pub proof fn lemma_document_decodes(settings: SettingsModel)
    ensures
        decode_settings(settings_document(settings)) == Ok::<_, ShapeError>(
            settings.normalized(),
        ),
{
    lemma_settings_lookup(settings);
    lemma_background_lookup(settings.background);
}

} // verus!
