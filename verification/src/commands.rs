//! Values exchanged with the project scaffolding and the directory listing.

use vstd::prelude::*;
use vstd::string::*;

verus! {

/// What the user states about a new project.
#[derive(Debug)]
pub struct ProjectData {
    pub name: String,
    pub description: String,
    pub intent: String,
    pub requirements: String,
}

/// One entry of a directory listing.
#[derive(Debug, Clone)]
pub struct FileEntry {
    pub name: String,
    pub path: String,
    pub is_dir: bool,
}

/// The text of a new project's README: the name as a heading, the
/// description, and a section each for the intent and the requirements.
pub open spec fn readme_of(
    name: Seq<char>,
    description: Seq<char>,
    intent: Seq<char>,
    requirements: Seq<char>,
) -> Seq<char> {
    "# "@ + name + "\n\n"@ + description + "\n\n## Intent\n"@ + intent + "\n\n## Requirements\n"@
        + requirements
}

/// Writes out the README of a new project.
pub fn readme_content(data: &ProjectData) -> (r: String)
    ensures
        r@ == readme_of(data.name@, data.description@, data.intent@, data.requirements@),
{
    String::from_str("# ").concat(data.name.as_str()).concat("\n\n").concat(
        data.description.as_str(),
    ).concat("\n\n## Intent\n").concat(data.intent.as_str()).concat(
        "\n\n## Requirements\n",
    ).concat(data.requirements.as_str())
}

} // verus!
