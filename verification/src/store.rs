//! The settings store: what reading and writing the settings file come
//! to, given what is in the file. Touching the file is the caller's part.

use vstd::prelude::*;
use vstd::string::StringExecFns;
use crate::codec::{json_pretty, json_text, parse, stored, to_pretty};
use crate::json::{lemma_position_found, lookup, Json, JsonModel, Members};
use crate::merge::{
    lemma_merge_keeps_places, lemma_merge_lookup, merge, merge_members, merge_model,
};
use crate::settings::{
    background_members, decode_settings, default_settings, lemma_background_lookup,
    lemma_settings_document_well_formed, lemma_settings_lookup, settings_document,
    settings_members, Field, Settings, SettingsModel, ShapeError,
};

verus! {

/// The name of the settings file inside the application's configuration
/// directory.
pub fn settings_file_name() -> (name: &'static str)
    ensures
        name@ == "jotpad_settings.json"@,
{
    "jotpad_settings.json"
}

/// The text that is written to the settings file for the given settings:
/// their document, as `serde_json` stores and indents it.
pub open spec fn settings_text(settings: SettingsModel) -> Seq<char> {
    json_pretty(stored(settings_document(settings)))
}

/// The settings that a stored document comes to: the document laid over
/// the defaults, and the result read as settings.
pub open spec fn settings_of(doc: JsonModel) -> Result<SettingsModel, ShapeError> {
    decode_settings(merge_model(settings_document(default_settings()), doc))
}

/// The steps at which the settings file, or its directory, is touched.
#[derive(Clone, Copy, Debug, PartialEq, Eq, Structural)]
pub enum IoStep {
    /// Creating the configuration directory.
    CreateConfigDir,
    /// Writing the defaults to a file that was not there.
    WriteDefaults,
    /// Reading the file.
    ReadFile,
    /// Replacing the file with new settings.
    WriteFile,
}

impl IoStep {
    /// The words with which the message of a failure at this step begins.
    pub open spec fn prefix(self) -> Seq<char> {
        match self {
            IoStep::CreateConfigDir => "Failed to create config dir: "@,
            IoStep::WriteDefaults => "Failed to write default settings: "@,
            IoStep::ReadFile => "Settings file read failed: "@,
            IoStep::WriteFile => "Failed to write settings: "@,
        }
    }
}

/// Why the settings could not be read or written.
#[derive(Debug, PartialEq, Eq)]
pub enum SettingsError {
    /// The directory or the file could not be created, read or written.
    Io { step: IoStep, cause: String },
    /// The stored document does not stand for settings.
    Parse(ShapeError),
}

impl SettingsError {
    /// The message that the caller is shown.
    pub open spec fn text(self) -> Seq<char> {
        match self {
            SettingsError::Io { step, cause } => step.prefix() + cause@,
            SettingsError::Parse(e) => e.text(),
        }
    }

    /// The message that the caller is shown: for a failure to touch the
    /// file, the step's words and then the cause.
    pub fn message(&self) -> (message: String)
        ensures
            message@ == self.text(),
    {
        match self {
            SettingsError::Io { step, cause } => {
                let prefix = match step {
                    IoStep::CreateConfigDir => "Failed to create config dir: ",
                    IoStep::WriteDefaults => "Failed to write default settings: ",
                    IoStep::ReadFile => "Settings file read failed: ",
                    IoStep::WriteFile => "Failed to write settings: ",
                };
                String::from_str(prefix).concat(cause.as_str())
            },
            SettingsError::Parse(e) => e.message(),
        }
    }
}

/// What reading the settings came to.
#[derive(Debug, PartialEq, Eq)]
pub enum ReadOutcome {
    /// There was no file. `contents` is to be written to it.
    Created { contents: String, settings: Settings },
    /// The file is not JSON. It is to be left as it is, and `reason` says
    /// what is wrong with it.
    Corrupted { settings: Settings, reason: String },
    /// The file was read, and its document laid over the defaults.
    Loaded { settings: Settings },
}

impl ReadOutcome {
    /// The settings that were read.
    pub open spec fn settings(self) -> Settings {
        match self {
            ReadOutcome::Created { settings, .. } => settings,
            ReadOutcome::Corrupted { settings, .. } => settings,
            ReadOutcome::Loaded { settings } => settings,
        }
    }

    /// The settings that were read.
    pub fn into_settings(self) -> (settings: Settings)
        ensures
            settings == self.settings(),
    {
        match self {
            ReadOutcome::Created { settings, .. } => settings,
            ReadOutcome::Corrupted { settings, .. } => settings,
            ReadOutcome::Loaded { settings } => settings,
        }
    }
}

/// Lays a stored document over the defaults and reads the result as
/// settings.
pub fn settings_from_document(doc: &Json) -> (r: Result<Settings, ShapeError>)
    ensures
        match r {
            Ok(settings) => settings_of(doc@) == Ok::<_, ShapeError>(settings@),
            Err(e) => settings_of(doc@) == Err::<SettingsModel, _>(e),
        },
        doc@.well_formed() ==> (r matches Ok(settings) ==> settings@.well_formed()),
{
    let mut merged = Settings::default().to_document();
    merge(&mut merged, doc);
    Settings::from_document(&merged)
}

/// Reads the settings, given the text of the settings file, or `None`
/// where there is no file.
///
/// Without a file the defaults are returned, with the text to create the
/// file with. A text that is not JSON gives the defaults too, and nothing
/// to write. Any other text is laid over the defaults; the result is the
/// settings it stands for, or the error that says why it stands for none.
pub fn read_settings(file: Option<&str>) -> (r: Result<ReadOutcome, SettingsError>)
    ensures
        match file {
            None => r matches Ok(ReadOutcome::Created { contents, settings })
                && contents@ == settings_text(default_settings())
                && settings@ == default_settings(),
            Some(text) => match json_text(text@) {
                None => r matches Ok(ReadOutcome::Corrupted { settings, .. })
                    && settings@ == default_settings(),
                Some(doc) => match settings_of(doc) {
                    Ok(read) => r matches Ok(ReadOutcome::Loaded { settings }) && settings@ == read,
                    Err(e) => r matches Err(SettingsError::Parse(found)) && found == e,
                },
            },
        },
        r matches Ok(outcome) ==> outcome.settings()@.well_formed(),
{
    match file {
        None => {
            let settings = Settings::default();
            let contents = write_settings(&settings);
            Ok(ReadOutcome::Created { contents, settings })
        },
        Some(text) => match parse(text) {
            Err(reason) => Ok(ReadOutcome::Corrupted { settings: Settings::default(), reason }),
            Ok(doc) => match settings_from_document(&doc) {
                Ok(settings) => Ok(ReadOutcome::Loaded { settings }),
                Err(e) => Err(SettingsError::Parse(e)),
            },
        },
    }
}

/// The text to replace the settings file with, for the given settings.
pub fn write_settings(settings: &Settings) -> (contents: String)
    ensures
        contents@ == settings_text(settings@),
{
    let doc = settings.to_document();
    to_pretty(&doc)
}

/// The document of any settings, laid over the defaults and read, gives
/// those settings, their blur in its one form.
pub proof fn lemma_document_read_back(settings: SettingsModel)
    ensures
        settings_of(settings_document(settings)) == Ok::<_, ShapeError>(settings.normalized()),
{
    let defaults = default_settings();
    let under = settings_members(defaults);
    let over = settings_members(settings);
    let merged = merge_members(under, over);
    let inner_under = background_members(defaults.background);
    let inner_over = background_members(settings.background);
    let inner = merge_members(inner_under, inner_over);
    lemma_settings_document_well_formed(settings);
    lemma_settings_lookup(defaults);
    lemma_settings_lookup(settings);
    lemma_background_lookup(defaults.background);
    lemma_background_lookup(settings.background);
    assert forall|i: int| 0 <= i < 8 implies lookup(merged, (#[trigger] over[i]).0) == Some(
        merge_model(under[i].1, over[i].1),
    ) by {
        assert(under[i].0 == over[i].0);
        lemma_merge_lookup(under, over, over[i].0);
    }
    assert forall|i: int| 0 <= i < 7 implies lookup(inner, (#[trigger] inner_over[i]).0) == (
        if inner_over[i].1 is Null {
            Some(inner_under[i].1)
        } else {
            Some(merge_model(inner_under[i].1, inner_over[i].1))
        }) by {
        assert(inner_under[i].0 == inner_over[i].0);
        lemma_merge_lookup(inner_under, inner_over, inner_over[i].0);
    }
}

/// Settings that are written and then read are the settings that were
/// written, as far as the documents go: the document of the settings,
/// laid over the defaults and read, gives the settings back.
pub proof fn lemma_settings_round_trip(settings: SettingsModel)
    requires
        settings.well_formed(),
    ensures
        settings_of(settings_document(settings)) == Ok::<_, ShapeError>(settings),
{
    lemma_document_read_back(settings);
}

/// What is laid over members keeps every name that was there.
proof fn lemma_names_stay(under: Members, over: Members, at: int)
    requires
        0 <= at < under.len(),
    ensures
        lookup(merge_members(under, over), under[at].0) is Some,
{
    lemma_merge_keeps_places(under, over);
    lemma_position_found(merge_members(under, over), under[at].0);
    assert(merge_members(under, over)[at].0 == under[at].0);
}

/// An object laid over the defaults lacks nothing: whatever the stored
/// document leaves out, the defaults supply, so that reading never fails
/// for want of a member.
pub proof fn lemma_defaults_fill_in(doc: JsonModel)
    requires
        doc is Object,
        doc.well_formed(),
    ensures
        !(settings_of(doc) matches Err(ShapeError::Missing(_))),
        settings_of(doc) != Err::<SettingsModel, _>(ShapeError::NotAnObject),
{
    let defaults = default_settings();
    let under = settings_members(defaults);
    let over = doc->Object_0;
    let merged = merge_members(under, over);
    let inner_under = background_members(defaults.background);
    lemma_settings_lookup(defaults);
    assert forall|i: int| 0 <= i < 8 implies lookup(merged, (#[trigger] under[i]).0) is Some by {
        lemma_names_stay(under, over, i);
    }
    lemma_merge_lookup(under, over, Field::Background.name());
    let background = lookup(merged, Field::Background.name())->0;
    if background is Object {
        let inner = background->Object_0;
        assert forall|i: int| 0 <= i < 7 implies lookup(inner, (#[trigger] inner_under[i]).0)
            is Some by {
            match lookup(over, Field::Background.name()) {
                Some(given) if !(given is Null) => {
                    lemma_names_stay(inner_under, given->Object_0, i);
                },
                _ => {
                    lemma_background_lookup(defaults.background);
                },
            }
        }
    }
}

} // verus!
