//! Generators: what a project is scaffolded with.
use vstd::prelude::*;

use crate::plan::Step;

pub mod project;

pub use project::ProjectScaffolder;

verus! {

/// The project a generator works on: its name and its directory.
pub struct GeneratorContext {
    project_name: String,
    base_path: String,
}

/// The value of a `GeneratorContext`.
pub struct GeneratorContextView {
    pub project_name: Seq<char>,
    pub base_path: Seq<char>,
}

impl View for GeneratorContext {
    type V = GeneratorContextView;

    closed spec fn view(&self) -> GeneratorContextView {
        GeneratorContextView { project_name: self.project_name@, base_path: self.base_path@ }
    }
}

impl GeneratorContext {
    /// The context of the project `name` in the directory `path`.
    pub fn new(name: String, path: String) -> (context: Self)
        ensures
            context@ == (GeneratorContextView { project_name: name@, base_path: path@ }),
    {
        GeneratorContext { project_name: name, base_path: path }
    }

    /// The project's name.
    pub fn project_name(&self) -> (name: &str)
        ensures
            name@ == self@.project_name,
    {
        self.project_name.as_str()
    }

    /// The project's directory.
    pub fn base_path(&self) -> (path: &str)
        ensures
            path@ == self@.base_path,
    {
        self.base_path.as_str()
    }
}

/// A generator of part of a project: it says which steps produce it.
pub trait Generator {
    /// The steps that generate into the project of `context`; `predefined`
    /// lists the predefined feature templates found, each by its path
    /// relative to the predefined features directory.
    fn run(&self, context: &GeneratorContext, predefined: &Vec<String>) -> Vec<Step>;
}

} // verus!
