//! The project record of a request, its linked repositories, and the
//! statements that store them.
use vstd::prelude::*;

verus! {

/// The categorical attributes of a project, each kept in the order given.
pub struct ProjectAttributes {
    pub purposes: Vec<String>,
    pub stack_levels: Vec<String>,
    pub technologies: Vec<String>,
    pub types: Vec<String>,
}

/// The repositories linked to a project.
pub struct ProjectLinks {
    pub repository: Vec<Repository>,
}

/// A project and the repositories whose issues are imported under it.
pub struct Project {
    pub name: String,
    pub slug: String,
    pub attributes: ProjectAttributes,
    pub links: ProjectLinks,
}

/// A repository linked to a project: its label and its URL.
pub struct Repository {
    pub label: String,
    pub url: String,
}

pub open spec fn project_insert_text() -> Seq<char> {
    "INSERT INTO projects (name, slug, categories, purposes, stack_levels, technologies) VALUES ($1, $2, $3, $4, $5, $6) RETURNING id;"@
}

pub open spec fn repository_insert_text() -> Seq<char> {
    "INSERT INTO repositories (slug, project_id) VALUES ($1, $2) RETURNING id;"@
}

impl Project {
    /// The statement that stores the project row and returns its id; its six
    /// parameters are name, slug, types, purposes, stack levels and
    /// technologies.
    pub fn new_project_query(&self) -> (r: &'static str)
        ensures
            r@ == project_insert_text(),
    {
        "INSERT INTO projects (name, slug, categories, purposes, stack_levels, technologies) VALUES ($1, $2, $3, $4, $5, $6) RETURNING id;"
    }
}

impl Repository {
    /// The statement that stores a repository row and returns its id; its
    /// parameters are the label and the owning project's id.
    pub fn insert_respository_query(&self) -> (r: &'static str)
        ensures
            r@ == repository_insert_text(),
    {
        "INSERT INTO repositories (slug, project_id) VALUES ($1, $2) RETURNING id;"
    }
}

} // verus!
