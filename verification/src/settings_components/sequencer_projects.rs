//! Where sequencer projects are stored: one file per project, named after
//! the project.
use vstd::prelude::*;
use crate::sequencer::SequencerProject;
use crate::settings::component::{DirectRead, DirectReadView, SettingsComponent};
use crate::text::{push_str, same_text};

verus! {

pub struct SequencerProjects;

/// Path of the file holding project `name`.
pub open spec fn project_file(name: Seq<char>) -> Seq<char> {
    SequencerProjects::FOLDER@ + "/"@ + name + ".toml"@
}

/// The project a file of the project folder holds: its name without the
/// ".toml" ending, or none for another kind of file.
pub open spec fn project_of_file(file_name: Seq<char>) -> Option<Seq<char>> {
    let n = file_name.len();
    if n >= 5 && file_name.subrange(n - 5, n as int) == ".toml"@ {
        Some(file_name.subrange(0, n - 5))
    } else {
        None
    }
}

impl SequencerProjects {
    /// Folder the projects are stored in.
    pub const FOLDER: &'static str = "/data/sequencer/projects";

    pub fn new() -> (r: Self) {
        SequencerProjects
    }

    /// Path of the file holding project `name`.
    pub fn project_path(&self, name: &str) -> (r: String)
        ensures
            r@ == project_file(name@),
    {
        let mut path = String::from_str(Self::FOLDER);
        push_str(&mut path, "/");
        push_str(&mut path, name);
        push_str(&mut path, ".toml");
        path
    }

    /// The project a file of the project folder holds.
    pub fn project_name(&self, file_name: &str) -> (r: Option<String>)
        ensures
            r is None <==> project_of_file(file_name@) is None,
            r is Some ==> r->0@ == project_of_file(file_name@)->0,
    {
        let n = file_name.unicode_len();
        if n < 5 {
            return None;
        }
        let ending = file_name.substring_char(n - 5, n);
        if !same_text(ending, ".toml") {
            return None;
        }
        let name = file_name.substring_char(0, n - 5);
        Some(String::from_str(name))
    }

    /// Path of the file `project` is saved to.
    pub fn save_project(&self, project: &SequencerProject) -> (r: String)
        ensures
            r@ == project_file(project.name@),
    {
        self.project_path(project.name.as_str())
    }

    /// Path of the file project `name` is loaded from.
    pub fn get_project(&self, name: &str) -> (r: String)
        ensures
            r@ == project_file(name@),
    {
        self.project_path(name)
    }
}

impl SettingsComponent for SequencerProjects {
    open spec fn readable(&self) -> bool {
        true
    }

    /// The project store answers with an empty text.
    open spec fn spec_direct_read(&self, args: Seq<Seq<char>>) -> DirectReadView {
        DirectReadView::Text(Seq::empty())
    }

    fn direct_read(&self, args: &Vec<String>) -> (r: DirectRead) {
        DirectRead::Text(String::new())
    }
}

/// The name of a project is found again in the name of its file.
pub proof fn lemma_project_file_name(name: Seq<char>)
    ensures
        project_of_file(name + ".toml"@) == Some(name),
{
    reveal_strlit(".toml");
    let f = name + ".toml"@;
    assert(f.subrange(f.len() - 5, f.len() as int) =~= ".toml"@);
    assert(f.subrange(0, f.len() - 5) =~= name);
}

} // verus!
