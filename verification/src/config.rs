//! The project file (`wavedash.toml`) and the settings the tool is built
//! with.
//!
//! A project file names the organisation, the game and the environment a
//! build goes to, the directory to upload, optionally the build's version,
//! and exactly one engine section. Older files spell the first three
//! `org_slug`, `game_slug` and `branch_slug`; they still load.

use vstd::prelude::*;
use crate::document::{
    item_at,
    leaf_at,
    leaves_view,
    read_toml,
    table_get,
    toml_document,
    Document,
    DocumentView,
    Item,
    ItemView,
    Leaf,
    LeafView,
};
use crate::text::{
    all_digits,
    concat2,
    copy_of,
    ends_with,
    is_all_digits,
    join,
    lemma_join_split,
    lemma_join_three,
    lemma_split_join,
    same,
    split,
    split_on,
    starts_with,
    texts,
    trim_start_matches_text,
    trim_start_text,
};

verus! {

/// The engine a build was made with.
#[derive(Debug, Clone, Copy, PartialEq, Eq, Structural)]
pub enum EngineKind {
    Godot,
    Unity,
    Custom,
}

impl EngineKind {
    /// The name of the engine's section in the project file.
    pub open spec fn config_key(&self) -> Seq<char> {
        match self {
            EngineKind::Godot => "godot"@,
            EngineKind::Unity => "unity"@,
            EngineKind::Custom => "custom"@,
        }
    }

    /// The name of the engine as the service knows it.
    pub open spec fn label(&self) -> Seq<char> {
        match self {
            EngineKind::Godot => "GODOT"@,
            EngineKind::Unity => "UNITY"@,
            EngineKind::Custom => "CUSTOM"@,
        }
    }

    /// The name of the engine's section in the project file.
    pub fn as_config_key(&self) -> (key: &'static str)
        ensures
            key@ == self.config_key(),
    {
        match self {
            EngineKind::Godot => "godot",
            EngineKind::Unity => "unity",
            EngineKind::Custom => "custom",
        }
    }

    /// The name of the engine as the service knows it.
    pub fn as_label(&self) -> (label: &'static str)
        ensures
            label@ == self.label(),
    {
        match self {
            EngineKind::Godot => "GODOT",
            EngineKind::Unity => "UNITY",
            EngineKind::Custom => "CUSTOM",
        }
    }
}

/// Where a build is published.
#[derive(Debug, Clone, Copy, PartialEq, Eq, Structural)]
pub enum Environment {
    Production,
    Demo,
    Sandbox,
}

impl Environment {
    /// The environment's name in project files and in the service's paths.
    pub open spec fn name(&self) -> Seq<char> {
        match self {
            Environment::Production => "production"@,
            Environment::Demo => "demo"@,
            Environment::Sandbox => "sandbox"@,
        }
    }

    /// The environment with the given name.
    pub open spec fn named(name: Seq<char>) -> Option<Environment> {
        if name == "production"@ {
            Some(Environment::Production)
        } else if name == "demo"@ {
            Some(Environment::Demo)
        } else if name == "sandbox"@ {
            Some(Environment::Sandbox)
        } else {
            None
        }
    }

    /// The environment that a branch name of an older project file stands
    /// for: `internal-*` is the sandbox, `production-*` is production and
    /// `demo-*` is the demo environment.
    pub open spec fn of_branch(branch: Seq<char>) -> Option<Environment> {
        if "internal-"@.is_prefix_of(branch) {
            Some(Environment::Sandbox)
        } else if "production-"@.is_prefix_of(branch) {
            Some(Environment::Production)
        } else if "demo-"@.is_prefix_of(branch) {
            Some(Environment::Demo)
        } else {
            None
        }
    }

    /// The environment's name in project files and in the service's paths.
    pub fn as_str(&self) -> (name: &'static str)
        ensures
            name@ == self.name(),
    {
        match self {
            Environment::Production => "production",
            Environment::Demo => "demo",
            Environment::Sandbox => "sandbox",
        }
    }

    /// The environment with the given name.
    pub fn from_name(name: &str) -> (environment: Option<Environment>)
        ensures
            environment == Environment::named(name@),
    {
        if same(name, "production") {
            Some(Environment::Production)
        } else if same(name, "demo") {
            Some(Environment::Demo)
        } else if same(name, "sandbox") {
            Some(Environment::Sandbox)
        } else {
            None
        }
    }

    /// The environment that a branch name of an older project file stands for.
    pub fn from_branch(branch: &str) -> (environment: Option<Environment>)
        ensures
            environment == Environment::of_branch(branch@),
    {
        if starts_with(branch, "internal-") {
            Some(Environment::Sandbox)
        } else if starts_with(branch, "production-") {
            Some(Environment::Production)
        } else if starts_with(branch, "demo-") {
            Some(Environment::Demo)
        } else {
            None
        }
    }
}

/// The `[godot]` section.
#[derive(Debug, PartialEq, Eq)]
pub struct GodotSection {
    pub version: String,
}

/// The `[unity]` section.
#[derive(Debug, PartialEq, Eq)]
pub struct UnitySection {
    pub version: String,
}

/// The `[custom]` section.
#[derive(Debug, PartialEq, Eq)]
pub struct CustomSection {
    pub version: String,
    pub entrypoint: String,
}

/// Which of the older field names a project file was written with.
#[derive(Debug, Clone, Copy, PartialEq, Eq, Structural)]
pub struct LegacyFields {
    pub org_slug: bool,
    pub game_slug: bool,
    pub branch_slug: bool,
}

/// A project file, loaded.
#[derive(Debug, PartialEq, Eq)]
pub struct WavedashConfig {
    pub org: String,
    pub game: String,
    pub environment: Environment,
    /// The build's version, `major.minor.patch`.
    pub build_version: Option<String>,
    /// The directory to upload, relative to the project file's directory.
    pub upload_dir: String,
    pub godot: Option<GodotSection>,
    pub unity: Option<UnitySection>,
    pub custom: Option<CustomSection>,
    /// The deprecated names that the file used.
    pub legacy: LegacyFields,
}

/// A field of the project file.
#[derive(Debug, Clone, Copy, PartialEq, Eq, Structural)]
pub enum ConfigField {
    Org,
    Game,
    Environment,
    UploadDir,
    Version,
    Godot,
    GodotVersion,
    Unity,
    UnityVersion,
    Custom,
    CustomVersion,
    CustomEntrypoint,
}

/// What makes a project file structurally invalid.
#[derive(Debug, Clone, Copy, PartialEq, Eq, Structural)]
pub enum ParseIssue {
    /// The text is not well-formed TOML.
    Syntax,
    /// A required field is not there.
    Missing(ConfigField),
    /// A field holds a value of the wrong kind.
    WrongType(ConfigField),
}

/// What makes a well-formed project file unacceptable.
#[derive(Debug, Clone, Copy, PartialEq, Eq, Structural)]
pub enum ValidationIssue {
    /// None of `[godot]`, `[unity]`, `[custom]` is there.
    NoEngine,
    /// More than one of `[godot]`, `[unity]`, `[custom]` is there.
    SeveralEngines,
    /// The environment (or, in an older file, the branch) is not one the
    /// service has.
    UnknownEnvironment,
    /// The version is not `major.minor.patch`.
    BadVersion,
}

/// Why a configuration could not be had.
#[derive(Debug, Clone, Copy, PartialEq, Eq, Structural)]
pub enum ConfigError {
    /// The project file could not be read.
    NotFound,
    Parse(ParseIssue),
    Validation(ValidationIssue),
    /// A setting was asked for that the tool does not have.
    UnknownKey,
}

/// A project file by its contents.
pub struct ConfigView {
    pub org: Seq<char>,
    pub game: Seq<char>,
    pub environment: Environment,
    pub build_version: Option<Seq<char>>,
    pub upload_dir: Seq<char>,
    pub godot: Option<Seq<char>>,
    pub unity: Option<Seq<char>>,
    pub custom: Option<(Seq<char>, Seq<char>)>,
    pub legacy: LegacyFields,
}

impl View for WavedashConfig {
    type V = ConfigView;

    open spec fn view(&self) -> ConfigView {
        ConfigView {
            org: self.org@,
            game: self.game@,
            environment: self.environment,
            build_version: match self.build_version {
                Some(v) => Some(v@),
                None => None,
            },
            upload_dir: self.upload_dir@,
            godot: match self.godot {
                Some(s) => Some(s.version@),
                None => None,
            },
            unity: match self.unity {
                Some(s) => Some(s.version@),
                None => None,
            },
            custom: match self.custom {
                Some(s) => Some((s.version@, s.entrypoint@)),
                None => None,
            },
            legacy: self.legacy,
        }
    }
}

/// Whether a text is a version: three non-empty runs of ASCII digits with a
/// dot between each two, and nothing else.
pub open spec fn is_version(s: Seq<char>) -> bool {
    let parts = split_on(s, '.');
    &&& parts.len() == 3
    &&& forall|i: int| 0 <= i < 3 ==> (#[trigger] parts[i]).len() > 0 && all_digits(parts[i])
}

/// What a key of the document or of a table holds, as far as a text field
/// cares.
pub enum Lookup {
    Absent,
    Text(Seq<char>),
    Mistyped,
}

/// What a top-level key holds.
pub open spec fn text_at(doc: DocumentView, key: Seq<char>) -> Lookup {
    match item_at(doc, key) {
        None => Lookup::Absent,
        Some(ItemView::Text(s)) => Lookup::Text(s),
        Some(_) => Lookup::Mistyped,
    }
}

/// What a key of a table holds.
pub open spec fn leaf_text_at(table: Seq<(Seq<char>, LeafView)>, key: Seq<char>) -> Lookup {
    match leaf_at(table, key) {
        None => Lookup::Absent,
        Some(LeafView::Text(s)) => Lookup::Text(s),
        Some(_) => Lookup::Mistyped,
    }
}

/// What a field holds that has a current name and an older one: the older
/// name counts only where the current one is not in the document at all.
pub open spec fn aliased_text(doc: DocumentView, key: Seq<char>, legacy: Seq<char>) -> Lookup {
    if item_at(doc, key) is Some {
        text_at(doc, key)
    } else {
        text_at(doc, legacy)
    }
}

/// Whether a field is read from its older name.
pub open spec fn uses_legacy(doc: DocumentView, key: Seq<char>, legacy: Seq<char>) -> bool {
    item_at(doc, key) is None && item_at(doc, legacy) is Some
}

/// The text of a lookup that found one.
pub open spec fn text_of(l: Lookup) -> Seq<char> {
    match l {
        Lookup::Text(s) => s,
        _ => Seq::empty(),
    }
}

/// What is wrong with a required text field.
pub open spec fn required_issue(l: Lookup, field: ConfigField) -> Option<ParseIssue> {
    match l {
        Lookup::Absent => Some(ParseIssue::Missing(field)),
        Lookup::Mistyped => Some(ParseIssue::WrongType(field)),
        Lookup::Text(_) => None,
    }
}

/// What is wrong with an optional text field.
pub open spec fn optional_issue(l: Lookup, field: ConfigField) -> Option<ParseIssue> {
    match l {
        Lookup::Mistyped => Some(ParseIssue::WrongType(field)),
        _ => None,
    }
}

/// The first of two findings.
pub open spec fn or_else(first: Option<ParseIssue>, second: Option<ParseIssue>) -> Option<
    ParseIssue,
> {
    if first is Some {
        first
    } else {
        second
    }
}

/// What is wrong with an engine section whose one required field is its
/// version.
pub open spec fn plain_section_issue(
    doc: DocumentView,
    key: Seq<char>,
    section: ConfigField,
    version: ConfigField,
) -> Option<ParseIssue> {
    match item_at(doc, key) {
        None => None,
        Some(ItemView::Table(t)) => required_issue(leaf_text_at(t, "version"@), version),
        Some(_) => Some(ParseIssue::WrongType(section)),
    }
}

/// What is wrong with the `[custom]` section.
pub open spec fn custom_section_issue(doc: DocumentView) -> Option<ParseIssue> {
    match item_at(doc, "custom"@) {
        None => None,
        Some(ItemView::Table(t)) => or_else(
            required_issue(leaf_text_at(t, "version"@), ConfigField::CustomVersion),
            required_issue(leaf_text_at(t, "entrypoint"@), ConfigField::CustomEntrypoint),
        ),
        Some(_) => Some(ParseIssue::WrongType(ConfigField::Custom)),
    }
}

/// The first thing that makes a document structurally invalid, going through
/// the fields in the order organisation, game, environment, upload
/// directory, version, `[godot]`, `[unity]`, `[custom]`.
pub open spec fn structure_issue(doc: DocumentView) -> Option<ParseIssue> {
    or_else(
        required_issue(aliased_text(doc, "org"@, "org_slug"@), ConfigField::Org),
        or_else(
            required_issue(aliased_text(doc, "game"@, "game_slug"@), ConfigField::Game),
            or_else(
                required_issue(
                    aliased_text(doc, "environment"@, "branch_slug"@),
                    ConfigField::Environment,
                ),
                or_else(
                    required_issue(text_at(doc, "upload_dir"@), ConfigField::UploadDir),
                    or_else(
                        optional_issue(text_at(doc, "version"@), ConfigField::Version),
                        or_else(
                            plain_section_issue(
                                doc,
                                "godot"@,
                                ConfigField::Godot,
                                ConfigField::GodotVersion,
                            ),
                            or_else(
                                plain_section_issue(
                                    doc,
                                    "unity"@,
                                    ConfigField::Unity,
                                    ConfigField::UnityVersion,
                                ),
                                custom_section_issue(doc),
                            ),
                        ),
                    ),
                ),
            ),
        ),
    )
}

/// How many of the three engine sections a document has.
pub open spec fn engine_sections(doc: DocumentView) -> nat {
    (if item_at(doc, "godot"@) is Some {
        1nat
    } else {
        0nat
    }) + (if item_at(doc, "unity"@) is Some {
        1nat
    } else {
        0nat
    }) + (if item_at(doc, "custom"@) is Some {
        1nat
    } else {
        0nat
    })
}

/// The environment that a document names: by `environment` if the key is
/// there, else by the branch name of an older file.
pub open spec fn environment_of(doc: DocumentView) -> Option<Environment> {
    if item_at(doc, "environment"@) is Some {
        Environment::named(text_of(text_at(doc, "environment"@)))
    } else {
        Environment::of_branch(text_of(text_at(doc, "branch_slug"@)))
    }
}

/// The first thing that makes a structurally valid document unacceptable:
/// the number of engine sections, then the environment, then the version.
pub open spec fn validation_issue(doc: DocumentView) -> Option<ValidationIssue> {
    if engine_sections(doc) == 0 {
        Some(ValidationIssue::NoEngine)
    } else if engine_sections(doc) > 1 {
        Some(ValidationIssue::SeveralEngines)
    } else if environment_of(doc) is None {
        Some(ValidationIssue::UnknownEnvironment)
    } else if text_at(doc, "version"@) is Text && !is_version(text_of(text_at(doc, "version"@))) {
        Some(ValidationIssue::BadVersion)
    } else {
        None
    }
}

/// The version of an engine section, if the section is a table.
pub open spec fn section_version(doc: DocumentView, key: Seq<char>) -> Option<Seq<char>> {
    match item_at(doc, key) {
        Some(ItemView::Table(t)) => Some(text_of(leaf_text_at(t, "version"@))),
        _ => None,
    }
}

/// The contents of the configuration that an acceptable document gives.
pub open spec fn contents_of(doc: DocumentView) -> ConfigView {
    ConfigView {
        org: text_of(aliased_text(doc, "org"@, "org_slug"@)),
        game: text_of(aliased_text(doc, "game"@, "game_slug"@)),
        environment: environment_of(doc)->0,
        build_version: match text_at(doc, "version"@) {
            Lookup::Text(v) => Some(v),
            _ => None,
        },
        upload_dir: text_of(text_at(doc, "upload_dir"@)),
        godot: section_version(doc, "godot"@),
        unity: section_version(doc, "unity"@),
        custom: match item_at(doc, "custom"@) {
            Some(ItemView::Table(t)) => Some(
                (text_of(leaf_text_at(t, "version"@)), text_of(leaf_text_at(t, "entrypoint"@))),
            ),
            _ => None,
        },
        legacy: LegacyFields {
            org_slug: uses_legacy(doc, "org"@, "org_slug"@),
            game_slug: uses_legacy(doc, "game"@, "game_slug"@),
            branch_slug: uses_legacy(doc, "environment"@, "branch_slug"@),
        },
    }
}

/// What loading a document gives: a structural problem is reported before
/// any other, and a document without problems gives its contents.
pub open spec fn loaded(doc: DocumentView) -> Result<ConfigView, ConfigError> {
    if structure_issue(doc) is Some {
        Err(ConfigError::Parse(structure_issue(doc)->0))
    } else if validation_issue(doc) is Some {
        Err(ConfigError::Validation(validation_issue(doc)->0))
    } else {
        Ok(contents_of(doc))
    }
}

/// What loading a project file gives, from what reading it gave.
pub open spec fn loaded_from(contents: Option<Seq<char>>) -> Result<ConfigView, ConfigError> {
    match contents {
        None => Err(ConfigError::NotFound),
        Some(text) => match toml_document(text) {
            None => Err(ConfigError::Parse(ParseIssue::Syntax)),
            Some(doc) => loaded(doc),
        },
    }
}

/// How many engine sections a configuration holds.
pub open spec fn engines_in(c: ConfigView) -> nat {
    (if c.godot is Some {
        1nat
    } else {
        0nat
    }) + (if c.unity is Some {
        1nat
    } else {
        0nat
    }) + (if c.custom is Some {
        1nat
    } else {
        0nat
    })
}

/// The engine of a configuration with exactly one engine section.
pub open spec fn engine_of(c: ConfigView) -> Result<EngineKind, ConfigError> {
    if engines_in(c) == 0 {
        Err(ConfigError::Validation(ValidationIssue::NoEngine))
    } else if engines_in(c) > 1 {
        Err(ConfigError::Validation(ValidationIssue::SeveralEngines))
    } else if c.godot is Some {
        Ok(EngineKind::Godot)
    } else if c.unity is Some {
        Ok(EngineKind::Unity)
    } else {
        Ok(EngineKind::Custom)
    }
}

/// The engine version of a configuration: that of the first section present
/// among `[godot]`, `[unity]`, `[custom]`.
pub open spec fn engine_version_of(c: ConfigView) -> Option<Seq<char>> {
    if c.godot is Some {
        c.godot
    } else if c.unity is Some {
        c.unity
    } else {
        match c.custom {
            Some((version, _)) => Some(version),
            None => None,
        }
    }
}

/// What holds of every configuration that was loaded: exactly one engine
/// section, and a version, if any, of the form `major.minor.patch`.
pub open spec fn well_formed(c: ConfigView) -> bool {
    &&& engines_in(c) == 1
    &&& c.build_version matches Some(v) ==> is_version(v)
}

/// Whether a text is a version, `major.minor.patch`.
pub fn validate_version(version: &str) -> (ok: bool)
    ensures
        ok == is_version(version@),
{
    let parts = split(version, '.');
    if parts.len() != 3 {
        return false;
    }
    let mut i: usize = 0;
    while i < 3
        invariant
            i <= 3,
            parts.len() == 3,
            texts(parts@) == split_on(version@, '.'),
            forall|k: int| 0 <= k < i ==> (#[trigger] texts(parts@)[k]).len() > 0 && all_digits(texts(parts@)[k]),
        decreases 3 - i,
    {
        let part = parts[i].as_str();
        assert(part@ == texts(parts@)[i as int]);
        if part.is_empty() || !is_all_digits(part) {
            return false;
        }
        i += 1;
    }
    true
}

/// A required text field, or what is wrong with it.
fn required_text(lookup: &Option<&Item>, field: ConfigField) -> (r: Result<String, ParseIssue>)
    ensures
        match lookup {
            None => r == Err::<String, ParseIssue>(ParseIssue::Missing(field)),
            Some(Item::Text(s)) => r is Ok && r->Ok_0@ == s@,
            Some(_) => r == Err::<String, ParseIssue>(ParseIssue::WrongType(field)),
        },
{
    match lookup {
        None => Err(ParseIssue::Missing(field)),
        Some(Item::Text(s)) => Ok(s.clone()),
        Some(_) => Err(ParseIssue::WrongType(field)),
    }
}

/// A required text field of a table, or what is wrong with it.
fn required_leaf(table: &Vec<(String, Leaf)>, key: &str, field: ConfigField) -> (r: Result<
    String,
    ParseIssue,
>)
    ensures
        match leaf_text_at(leaves_view(table@), key@) {
            Lookup::Text(s) => r is Ok && r->Ok_0@ == s,
            other => r is Err && Some(r->Err_0) == required_issue(other, field),
        },
{
    match table_get(table, key) {
        None => Err(ParseIssue::Missing(field)),
        Some(Leaf::Text(s)) => Ok(s.clone()),
        Some(Leaf::Other) => Err(ParseIssue::WrongType(field)),
    }
}

/// A text field with a current and an older name.
fn aliased(doc: &Document, key: &str, legacy: &str, field: ConfigField) -> (r: Result<
    (String, bool),
    ParseIssue,
>)
    ensures
        match aliased_text(doc@, key@, legacy@) {
            Lookup::Text(s) => r matches Ok((text, older)) && text@ == s && older == uses_legacy(
                doc@,
                key@,
                legacy@,
            ),
            other => r is Err && Some(r->Err_0) == required_issue(other, field),
        },
{
    let current = doc.get(key);
    if current.is_some() {
        match required_text(&current, field) {
            Ok(s) => Ok((s, false)),
            Err(e) => Err(e),
        }
    } else {
        let older = doc.get(legacy);
        match required_text(&older, field) {
            Ok(s) => Ok((s, older.is_some())),
            Err(e) => Err(e),
        }
    }
}

/// The version of a `[godot]` or `[unity]` section, if the section is there.
fn plain_section(doc: &Document, key: &str, section: ConfigField, version: ConfigField) -> (r:
    Result<Option<String>, ParseIssue>)
    ensures
        match plain_section_issue(doc@, key@, section, version) {
            Some(issue) => r == Err::<Option<String>, ParseIssue>(issue),
            None => r is Ok && (r->Ok_0 is Some == item_at(doc@, key@) is Some) && (r->Ok_0 is Some
                ==> Some(r->Ok_0->0@) == section_version(doc@, key@)),
        },
{
    match doc.get(key) {
        None => Ok(None),
        Some(Item::Table(t)) => match required_leaf(t, "version", version) {
            Ok(v) => Ok(Some(v)),
            Err(e) => Err(e),
        },
        Some(_) => Err(ParseIssue::WrongType(section)),
    }
}

impl WavedashConfig {
    /// The configuration that a document gives, or the first thing that is
    /// wrong with the document.
    pub fn from_document(doc: &Document) -> (r: Result<WavedashConfig, ConfigError>)
        ensures
            match loaded(doc@) {
                Ok(contents) => r is Ok && r->Ok_0@ == contents,
                Err(e) => r == Err::<WavedashConfig, ConfigError>(e),
            },
            r matches Ok(config) ==> well_formed(config@),
    {
        let (org, org_slug) = match aliased(doc, "org", "org_slug", ConfigField::Org) {
            Ok(found) => found,
            Err(issue) => {
                return Err(ConfigError::Parse(issue));
            },
        };
        let (game, game_slug) = match aliased(doc, "game", "game_slug", ConfigField::Game) {
            Ok(found) => found,
            Err(issue) => {
                return Err(ConfigError::Parse(issue));
            },
        };
        let (environment_text, branch_slug) = match aliased(
            doc,
            "environment",
            "branch_slug",
            ConfigField::Environment,
        ) {
            Ok(found) => found,
            Err(issue) => {
                return Err(ConfigError::Parse(issue));
            },
        };
        let upload_dir = match required_text(&doc.get("upload_dir"), ConfigField::UploadDir) {
            Ok(found) => found,
            Err(issue) => {
                return Err(ConfigError::Parse(issue));
            },
        };
        let build_version = match doc.get("version") {
            None => None,
            Some(Item::Text(v)) => Some(v.clone()),
            Some(_) => {
                return Err(ConfigError::Parse(ParseIssue::WrongType(ConfigField::Version)));
            },
        };
        let godot = match plain_section(doc, "godot", ConfigField::Godot, ConfigField::GodotVersion) {
            Ok(Some(version)) => Some(GodotSection { version }),
            Ok(None) => None,
            Err(issue) => {
                return Err(ConfigError::Parse(issue));
            },
        };
        let unity = match plain_section(doc, "unity", ConfigField::Unity, ConfigField::UnityVersion) {
            Ok(Some(version)) => Some(UnitySection { version }),
            Ok(None) => None,
            Err(issue) => {
                return Err(ConfigError::Parse(issue));
            },
        };
        let custom = match doc.get("custom") {
            None => None,
            Some(Item::Table(t)) => {
                let version = match required_leaf(t, "version", ConfigField::CustomVersion) {
                    Ok(found) => found,
                    Err(issue) => {
                        return Err(ConfigError::Parse(issue));
                    },
                };
                let entrypoint = match required_leaf(t, "entrypoint", ConfigField::CustomEntrypoint) {
                    Ok(found) => found,
                    Err(issue) => {
                        return Err(ConfigError::Parse(issue));
                    },
                };
                Some(CustomSection { version, entrypoint })
            },
            Some(_) => {
                return Err(ConfigError::Parse(ParseIssue::WrongType(ConfigField::Custom)));
            },
        };
        assert(structure_issue(doc@) is None);
        let mut sections: u8 = 0;
        if godot.is_some() {
            sections = sections + 1;
        }
        if unity.is_some() {
            sections = sections + 1;
        }
        if custom.is_some() {
            sections = sections + 1;
        }
        assert(sections == engine_sections(doc@));
        if sections == 0 {
            return Err(ConfigError::Validation(ValidationIssue::NoEngine));
        }
        if sections > 1 {
            return Err(ConfigError::Validation(ValidationIssue::SeveralEngines));
        }
        let named = if branch_slug {
            Environment::from_branch(environment_text.as_str())
        } else {
            Environment::from_name(environment_text.as_str())
        };
        assert(named == environment_of(doc@));
        let environment = match named {
            Some(environment) => environment,
            None => {
                return Err(ConfigError::Validation(ValidationIssue::UnknownEnvironment));
            },
        };
        match &build_version {
            Some(v) => {
                if !validate_version(v.as_str()) {
                    return Err(ConfigError::Validation(ValidationIssue::BadVersion));
                }
            },
            None => {},
        }
        assert(validation_issue(doc@) is None);
        let config = WavedashConfig {
            org,
            game,
            environment,
            build_version,
            upload_dir,
            godot,
            unity,
            custom,
            legacy: LegacyFields { org_slug, game_slug, branch_slug },
        };
        assert(config@ == contents_of(doc@));
        Ok(config)
    }

    /// Loads a project file from what reading it gave: `None` stands for a
    /// file that could not be read.
    pub fn load(contents: Option<&str>) -> (r: Result<WavedashConfig, ConfigError>)
        ensures
            match loaded_from(
                match contents {
                    Some(text) => Some(text@),
                    None => None,
                },
            ) {
                Ok(config) => r is Ok && r->Ok_0@ == config,
                Err(e) => r == Err::<WavedashConfig, ConfigError>(e),
            },
            r matches Ok(config) ==> well_formed(config@),
    {
        match contents {
            None => Err(ConfigError::NotFound),
            Some(text) => match read_toml(text) {
                None => Err(ConfigError::Parse(ParseIssue::Syntax)),
                Some(doc) => WavedashConfig::from_document(&doc),
            },
        }
    }

    /// The engine of the configuration: that of its one engine section. With
    /// no section or with several there is none.
    pub fn engine_type(&self) -> (r: Result<EngineKind, ConfigError>)
        ensures
            r == engine_of(self@),
    {
        match (self.godot.is_some(), self.unity.is_some(), self.custom.is_some()) {
            (true, false, false) => Ok(EngineKind::Godot),
            (false, true, false) => Ok(EngineKind::Unity),
            (false, false, true) => Ok(EngineKind::Custom),
            (false, false, false) => Err(ConfigError::Validation(ValidationIssue::NoEngine)),
            _ => Err(ConfigError::Validation(ValidationIssue::SeveralEngines)),
        }
    }

    /// The engine's version: that of the first section present among
    /// `[godot]`, `[unity]` and `[custom]`.
    pub fn version(&self) -> (r: Result<&str, ConfigError>)
        ensures
            match engine_version_of(self@) {
                Some(v) => r is Ok && r->Ok_0@ == v,
                None => r == Err::<&str, ConfigError>(
                    ConfigError::Validation(ValidationIssue::NoEngine),
                ),
            },
    {
        match &self.godot {
            Some(section) => {
                return Ok(section.version.as_str());
            },
            None => {},
        }
        match &self.unity {
            Some(section) => {
                return Ok(section.version.as_str());
            },
            None => {},
        }
        match &self.custom {
            Some(section) => Ok(section.version.as_str()),
            None => Err(ConfigError::Validation(ValidationIssue::NoEngine)),
        }
    }

    /// The entry point of a custom engine's build.
    pub fn entrypoint(&self) -> (r: Option<&str>)
        ensures
            match self@.custom {
                Some((_, entrypoint)) => r is Some && r->0@ == entrypoint,
                None => r is None,
            },
    {
        match &self.custom {
            Some(section) => Some(section.entrypoint.as_str()),
            None => None,
        }
    }
}

/// The engine section that a document with exactly one of them has.
pub open spec fn only_section(doc: DocumentView) -> EngineKind {
    if item_at(doc, "godot"@) is Some {
        EngineKind::Godot
    } else if item_at(doc, "unity"@) is Some {
        EngineKind::Unity
    } else {
        EngineKind::Custom
    }
}

/// Whether nothing but the number of engine sections could keep a
/// structurally valid document from loading: its environment is known, and
/// its version, if it has one, is `major.minor.patch`.
pub open spec fn otherwise_valid(doc: DocumentView) -> bool {
    &&& environment_of(doc) is Some
    &&& text_at(doc, "version"@) is Text ==> is_version(text_of(text_at(doc, "version"@)))
}

/// Of the structurally valid documents, those with no engine section or
/// with several never load: they fail with a validation error. One with
/// exactly one engine section loads if nothing else is wrong with it, and
/// the engine of the configuration is then that section's. No document
/// loads without exactly one engine section.
pub proof fn law_one_engine_section(doc: DocumentView)
    requires
        structure_issue(doc) is None,
    ensures
        engine_sections(doc) == 0 ==> loaded(doc) == Err::<ConfigView, ConfigError>(
            ConfigError::Validation(ValidationIssue::NoEngine),
        ),
        engine_sections(doc) > 1 ==> loaded(doc) == Err::<ConfigView, ConfigError>(
            ConfigError::Validation(ValidationIssue::SeveralEngines),
        ),
        engine_sections(doc) == 1 && otherwise_valid(doc) ==> loaded(doc) is Ok && well_formed(
            loaded(doc)->Ok_0,
        ) && engine_of(loaded(doc)->Ok_0) == Ok::<EngineKind, ConfigError>(only_section(doc)),
        loaded(doc) is Ok ==> engine_sections(doc) == 1 && otherwise_valid(doc),
{
    lemma_sections_carry_over(doc);
}

/// In a structurally valid document every engine section is a table, so the
/// configuration holds the sections that the document has.
pub proof fn lemma_sections_carry_over(doc: DocumentView)
    requires
        structure_issue(doc) is None,
    ensures
        contents_of(doc).godot is Some == item_at(doc, "godot"@) is Some,
        contents_of(doc).unity is Some == item_at(doc, "unity"@) is Some,
        contents_of(doc).custom is Some == item_at(doc, "custom"@) is Some,
        engines_in(contents_of(doc)) == engine_sections(doc),
{
}

/// Whether a text is a non-empty run of ASCII digits.
pub open spec fn is_number(s: Seq<char>) -> bool {
    s.len() > 0 && all_digits(s)
}

/// The texts that count as versions are exactly those made of three numbers
/// with a dot between each two: what `^\d+\.\d+\.\d+$` accepts, with
/// `\d` read as an ASCII digit.
pub proof fn law_version_shape(s: Seq<char>)
    ensures
        is_version(s) <==> exists|a: Seq<char>, b: Seq<char>, c: Seq<char>|
            is_number(a) && is_number(b) && is_number(c) && #[trigger] three_numbers(a, b, c) == s,
{
    let dot = seq!['.'];
    if is_version(s) {
        let parts = split_on(s, '.');
        lemma_join_split(s, '.');
        assert(parts =~= seq![parts[0], parts[1], parts[2]]);
        lemma_join_three(parts[0], parts[1], parts[2], dot);
        assert(three_numbers(parts[0], parts[1], parts[2]) == s);
    }
    if exists|a: Seq<char>, b: Seq<char>, c: Seq<char>|
        is_number(a) && is_number(b) && is_number(c) && #[trigger] three_numbers(a, b, c) == s {
        let (a, b, c) = choose|a: Seq<char>, b: Seq<char>, c: Seq<char>|
            is_number(a) && is_number(b) && is_number(c) && #[trigger] three_numbers(a, b, c) == s;
        let parts = seq![a, b, c];
        assert forall|i: int| 0 <= i < parts.len() implies crate::text::free_of(
            #[trigger] parts[i],
            '.',
        ) by {
            let p = parts[i];
            assert(all_digits(p));
            assert forall|k: int| 0 <= k < p.len() implies #[trigger] p[k] != '.' by {
                assert(crate::text::is_digit(p[k]));
            }
        }
        lemma_split_join(parts, '.');
        lemma_join_three(a, b, c, dot);
        assert(join(parts, dot) == s);
    }
}

/// Three texts with a dot between each two.
pub open spec fn three_numbers(a: Seq<char>, b: Seq<char>, c: Seq<char>) -> Seq<char> {
    a + seq!['.'] + b + seq!['.'] + c
}

/// How a field is called in messages.
pub open spec fn field_name(field: ConfigField) -> Seq<char> {
    match field {
        ConfigField::Org => "org"@,
        ConfigField::Game => "game"@,
        ConfigField::Environment => "environment"@,
        ConfigField::UploadDir => "upload_dir"@,
        ConfigField::Version => "version"@,
        ConfigField::Godot => "godot"@,
        ConfigField::GodotVersion => "godot.version"@,
        ConfigField::Unity => "unity"@,
        ConfigField::UnityVersion => "unity.version"@,
        ConfigField::Custom => "custom"@,
        ConfigField::CustomVersion => "custom.version"@,
        ConfigField::CustomEntrypoint => "custom.entrypoint"@,
    }
}

/// The message of a configuration error.
pub open spec fn config_error_text(e: ConfigError) -> Seq<char> {
    match e {
        ConfigError::NotFound => "Failed to read config file"@,
        ConfigError::Parse(ParseIssue::Syntax) => "Failed to parse config file: invalid TOML"@,
        ConfigError::Parse(ParseIssue::Missing(field)) => "Failed to parse config file: missing field "@
            + field_name(field),
        ConfigError::Parse(ParseIssue::WrongType(field)) => "Failed to parse config file: invalid type for "@
            + field_name(field),
        ConfigError::Validation(ValidationIssue::NoEngine) => "Config must have exactly one of [godot], [unity], or [custom] sections"@,
        ConfigError::Validation(ValidationIssue::SeveralEngines) => "Config must have exactly one of [godot], [unity], or [custom] sections"@,
        ConfigError::Validation(ValidationIssue::UnknownEnvironment) => "Config must name one of the environments production, demo, sandbox"@,
        ConfigError::Validation(ValidationIssue::BadVersion) => "Version must be in major.minor.patch format (e.g. 1.2.3)"@,
        ConfigError::UnknownKey => "Unknown config key"@,
    }
}

impl ConfigField {
    /// How the field is called in messages.
    pub fn name(&self) -> (name: &'static str)
        ensures
            name@ == field_name(*self),
    {
        match self {
            ConfigField::Org => "org",
            ConfigField::Game => "game",
            ConfigField::Environment => "environment",
            ConfigField::UploadDir => "upload_dir",
            ConfigField::Version => "version",
            ConfigField::Godot => "godot",
            ConfigField::GodotVersion => "godot.version",
            ConfigField::Unity => "unity",
            ConfigField::UnityVersion => "unity.version",
            ConfigField::Custom => "custom",
            ConfigField::CustomVersion => "custom.version",
            ConfigField::CustomEntrypoint => "custom.entrypoint",
        }
    }
}

impl ConfigError {
    /// The message shown for this error.
    pub fn message(&self) -> (text: String)
        ensures
            text@ == config_error_text(*self),
    {
        match self {
            ConfigError::NotFound => copy_of("Failed to read config file"),
            ConfigError::Parse(ParseIssue::Syntax) => copy_of(
                "Failed to parse config file: invalid TOML",
            ),
            ConfigError::Parse(ParseIssue::Missing(field)) => concat2(
                "Failed to parse config file: missing field ",
                field.name(),
            ),
            ConfigError::Parse(ParseIssue::WrongType(field)) => concat2(
                "Failed to parse config file: invalid type for ",
                field.name(),
            ),
            ConfigError::Validation(ValidationIssue::NoEngine) => copy_of(
                "Config must have exactly one of [godot], [unity], or [custom] sections",
            ),
            ConfigError::Validation(ValidationIssue::SeveralEngines) => copy_of(
                "Config must have exactly one of [godot], [unity], or [custom] sections",
            ),
            ConfigError::Validation(ValidationIssue::UnknownEnvironment) => copy_of(
                "Config must name one of the environments production, demo, sandbox",
            ),
            ConfigError::Validation(ValidationIssue::BadVersion) => copy_of(
                "Version must be in major.minor.patch format (e.g. 1.2.3)",
            ),
            ConfigError::UnknownKey => copy_of("Unknown config key"),
        }
    }
}

/// What the warning about a deprecated field name says.
pub open spec fn deprecation_text(old_name: Seq<char>, new_name: Seq<char>) -> Seq<char> {
    "Warning: `"@ + old_name + "` is deprecated, use `"@ + new_name + "` instead"@
}

/// The warnings that the deprecated names of a project file call for, in
/// the order organisation, game, branch.
pub open spec fn deprecation_warnings(legacy: LegacyFields) -> Seq<Seq<char>> {
    (if legacy.org_slug {
        seq![deprecation_text("org_slug"@, "org"@)]
    } else {
        Seq::empty()
    }) + (if legacy.game_slug {
        seq![deprecation_text("game_slug"@, "game"@)]
    } else {
        Seq::empty()
    }) + (if legacy.branch_slug {
        seq![deprecation_text("branch_slug"@, "environment"@)]
    } else {
        Seq::empty()
    })
}

fn deprecation(old_name: &str, new_name: &str) -> (text: String)
    ensures
        text@ == deprecation_text(old_name@, new_name@),
{
    let mut text = concat2("Warning: `", old_name);
    text = concat2(text.as_str(), "` is deprecated, use `");
    text = concat2(text.as_str(), new_name);
    concat2(text.as_str(), "` instead")
}

impl LegacyFields {
    /// The warnings to show for the deprecated names that a file used. They
    /// are warnings only: the file has loaded.
    pub fn warnings(&self) -> (lines: Vec<String>)
        ensures
            texts(lines@) == deprecation_warnings(*self),
    {
        let mut lines: Vec<String> = Vec::new();
        assert(texts(lines@) =~= Seq::<Seq<char>>::empty());
        let ghost first = texts(lines@);
        if self.org_slug {
            lines.push(deprecation("org_slug", "org"));
        }
        let ghost second = texts(lines@);
        assert(second =~= first + (if self.org_slug {
            seq![deprecation_text("org_slug"@, "org"@)]
        } else {
            Seq::empty()
        }));
        if self.game_slug {
            lines.push(deprecation("game_slug", "game"));
        }
        let ghost third = texts(lines@);
        assert(third =~= second + (if self.game_slug {
            seq![deprecation_text("game_slug"@, "game"@)]
        } else {
            Seq::empty()
        }));
        if self.branch_slug {
            lines.push(deprecation("branch_slug", "environment"));
        }
        assert(texts(lines@) =~= third + (if self.branch_slug {
            seq![deprecation_text("branch_slug"@, "environment"@)]
        } else {
            Seq::empty()
        }));
        lines
    }
}

/// The settings the tool is built with.
#[derive(Debug, PartialEq, Eq)]
pub struct Config {
    pub open_browser_website_host: String,
    pub api_host: String,
    pub keyring_service: String,
    pub keyring_account: String,
    pub cf_access_client_id: Option<String>,
    pub cf_access_client_secret: Option<String>,
}

/// Where the stored credentials live in the system's keyring.
#[derive(Debug, PartialEq, Eq)]
pub struct KeyringConfig {
    pub service: String,
    pub account: String,
}

/// A host with its scheme: one that does not begin with `http` is reached
/// over https.
pub open spec fn with_scheme(host: Seq<char>) -> Seq<char> {
    if "http"@.is_prefix_of(host) {
        host
    } else {
        "https://"@ + host
    }
}

/// The value of a setting that can be asked for by name.
pub open spec fn setting(config: Config, key: Seq<char>) -> Option<Seq<char>> {
    if key == "open_browser_website_host"@ {
        Some(config.open_browser_website_host@)
    } else if key == "api_host"@ {
        Some(config.api_host@)
    } else {
        None
    }
}

/// Whether an API host is the staging service, which sits behind an access
/// proxy.
pub open spec fn targets_staging(api_host: Seq<char>) -> bool {
    "staging.wavedash.gg"@.is_suffix_of(
        trim_start_text(trim_start_text(api_host, "https://"@), "http://"@),
    )
}

/// The headers every request carries: the two access headers where the API
/// host is the staging service and both parts of the access credentials are
/// there; none otherwise.
pub open spec fn default_headers(config: Config) -> Seq<(Seq<char>, Seq<char>)> {
    if targets_staging(config.api_host@) && config.cf_access_client_id is Some
        && config.cf_access_client_secret is Some {
        seq![
            ("CF-Access-Client-Id"@, config.cf_access_client_id->0@),
            ("CF-Access-Client-Secret"@, config.cf_access_client_secret->0@),
        ]
    } else {
        Seq::empty()
    }
}

/// The pairs of a list of headers, each name and value by its view.
pub open spec fn pairs_view(pairs: Seq<(String, String)>) -> Seq<(Seq<char>, Seq<char>)> {
    Seq::new(pairs.len(), |i: int| (pairs[i].0@, pairs[i].1@))
}

fn optional_copy(value: Option<&str>) -> (copy: Option<String>)
    ensures
        value is Some == copy is Some,
        value matches Some(v) ==> copy->0@ == v@,
{
    match value {
        Some(v) => Some(copy_of(v)),
        None => None,
    }
}

impl Config {
    /// The settings, from the values the build was given. The website host
    /// gets a scheme if it has none.
    pub fn load(
        site_host: &str,
        api_host: &str,
        keyring_service: &str,
        keyring_account: &str,
        cf_access_client_id: Option<&str>,
        cf_access_client_secret: Option<&str>,
    ) -> (config: Config)
        ensures
            config.open_browser_website_host@ == with_scheme(site_host@),
            config.api_host@ == api_host@,
            config.keyring_service@ == keyring_service@,
            config.keyring_account@ == keyring_account@,
            config.cf_access_client_id is Some == cf_access_client_id is Some,
            cf_access_client_id matches Some(id) ==> config.cf_access_client_id->0@ == id@,
            config.cf_access_client_secret is Some == cf_access_client_secret is Some,
            cf_access_client_secret matches Some(secret) ==> config.cf_access_client_secret->0@
                == secret@,
    {
        let open_browser_website_host = if starts_with(site_host, "http") {
            copy_of(site_host)
        } else {
            concat2("https://", site_host)
        };
        Config {
            open_browser_website_host,
            api_host: copy_of(api_host),
            keyring_service: copy_of(keyring_service),
            keyring_account: copy_of(keyring_account),
            cf_access_client_id: optional_copy(cf_access_client_id),
            cf_access_client_secret: optional_copy(cf_access_client_secret),
        }
    }

    /// The headers every request carries.
    pub fn default_headers(&self) -> (headers: Vec<(String, String)>)
        ensures
            pairs_view(headers@) == default_headers(*self),
    {
        let mut headers: Vec<(String, String)> = Vec::new();
        let host = trim_start_matches_text(self.api_host.as_str(), "https://");
        let host = trim_start_matches_text(host.as_str(), "http://");
        if ends_with(host.as_str(), "staging.wavedash.gg") {
            match (&self.cf_access_client_id, &self.cf_access_client_secret) {
                (Some(id), Some(secret)) => {
                    headers.push((copy_of("CF-Access-Client-Id"), id.clone()));
                    headers.push((copy_of("CF-Access-Client-Secret"), secret.clone()));
                },
                _ => {},
            }
        }
        assert(pairs_view(headers@) =~= default_headers(*self));
        headers
    }
}

/// The value of a setting by its name; only the website host and the API
/// host can be asked for.
pub fn get(config: &Config, key: &str) -> (r: Result<String, ConfigError>)
    ensures
        match setting(*config, key@) {
            Some(value) => r is Ok && r->Ok_0@ == value,
            None => r == Err::<String, ConfigError>(ConfigError::UnknownKey),
        },
{
    if same(key, "open_browser_website_host") {
        Ok(config.open_browser_website_host.clone())
    } else if same(key, "api_host") {
        Ok(config.api_host.clone())
    } else {
        Err(ConfigError::UnknownKey)
    }
}

/// Where the stored credentials live in the system's keyring.
pub fn keyring_config(config: &Config) -> (keyring: KeyringConfig)
    ensures
        keyring.service@ == config.keyring_service@,
        keyring.account@ == config.keyring_account@,
{
    KeyringConfig {
        service: config.keyring_service.clone(),
        account: config.keyring_account.clone(),
    }
}

} // verus!
