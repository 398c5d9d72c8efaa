//! Starting a project: the project file that `init` writes.

use vstd::prelude::*;
use crate::config::{EngineKind, Environment};
use crate::text::{concat2, concat3, copy_of};

verus! {

/// The engine section that a new project file gets.
pub open spec fn engine_section_text(engine: EngineKind) -> Seq<char> {
    match engine {
        EngineKind::Godot => "[godot]\nversion = \"4.3\"\n"@,
        EngineKind::Unity => "[unity]\nversion = \"6000.0\"\n"@,
        EngineKind::Custom => "[custom]\nversion = \"1.0\"\nentrypoint = \"index.html\"\n"@,
    }
}

/// A new project file: the organisation, the game and the environment as
/// given, the upload directory `./build`, the version `0.0.1`, and the
/// engine's section.
pub open spec fn template_text(
    org: Seq<char>,
    game: Seq<char>,
    environment: Environment,
    engine: EngineKind,
) -> Seq<char> {
    "org = \""@ + org + "\"\ngame = \""@ + game + "\"\nenvironment = \""@ + environment.name()
        + "\"\nupload_dir = \"./build\"\nversion = \"0.0.1\"\n\n"@ + engine_section_text(engine)
}

/// The engines that `init` offers, in the order in which it offers them.
pub fn engine_choices() -> (names: Vec<&'static str>)
    ensures
        names@.len() == 3,
        names@[0]@ == "Godot"@,
        names@[1]@ == "Unity"@,
        names@[2]@ == "Custom"@,
{
    let mut names: Vec<&'static str> = Vec::new();
    names.push("Godot");
    names.push("Unity");
    names.push("Custom");
    names
}

/// The engine chosen by its place in the list of choices.
pub fn engine_choice(selection: usize) -> (engine: Option<EngineKind>)
    ensures
        engine == if selection == 0 {
            Some(EngineKind::Godot)
        } else if selection == 1 {
            Some(EngineKind::Unity)
        } else if selection == 2 {
            Some(EngineKind::Custom)
        } else {
            None
        },
{
    if selection == 0 {
        Some(EngineKind::Godot)
    } else if selection == 1 {
        Some(EngineKind::Unity)
    } else if selection == 2 {
        Some(EngineKind::Custom)
    } else {
        None
    }
}

/// The engine section that a new project file gets.
pub fn engine_section(engine: EngineKind) -> (text: &'static str)
    ensures
        text@ == engine_section_text(engine),
{
    match engine {
        EngineKind::Godot => "[godot]\nversion = \"4.3\"\n",
        EngineKind::Unity => "[unity]\nversion = \"6000.0\"\n",
        EngineKind::Custom => "[custom]\nversion = \"1.0\"\nentrypoint = \"index.html\"\n",
    }
}

/// A new project file.
pub fn config_template(org: &str, game: &str, environment: Environment, engine: EngineKind) -> (text:
    String)
    ensures
        text@ == template_text(org@, game@, environment, engine),
{
    let mut text = concat3("org = \"", org, "\"\ngame = \"");
    text = concat3(text.as_str(), game, "\"\nenvironment = \"");
    text = concat3(
        text.as_str(),
        environment.as_str(),
        "\"\nupload_dir = \"./build\"\nversion = \"0.0.1\"\n\n",
    );
    concat2(text.as_str(), engine_section(engine))
}

} // verus!
