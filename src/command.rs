use vstd::prelude::*;

use crate::catalog::{known_models, known_names};
use crate::install::{begin_model, pending, view_names, well_formed, Action, Installer};

verus! {

#[verifier::external_type_specification]
#[verifier::external_body]
pub struct ExPathBuf(std::path::PathBuf);

/// The installer's command line, once parsed.
pub struct App {
    pub command: Command,
}

pub enum Command {
    /// Install models next to an application manifest.
    Install(InstallCommand),
}

pub struct InstallCommand {
    /// The model to install; when absent, the operator picks from the catalog.
    pub model_name: Option<String>,
    /// The manifest file, or a directory holding one.
    pub app_source: std::path::PathBuf,
    /// The platform version the application targets; accepted, not used.
    pub target_spin_version: Option<String>,
}

/// The catalog names at the positions that the operator picked, in the order
/// picked; a position outside the catalog picks nothing.
pub open spec fn picked_names(chosen: Seq<usize>) -> Seq<Seq<char>>
    decreases chosen.len(),
{
    if chosen.len() == 0 {
        seq![]
    } else {
        let rest = picked_names(chosen.drop_last());
        if chosen.last() < known_names().len() {
            rest.push(known_names()[chosen.last() as int])
        } else {
            rest
        }
    }
}

/// The models that a command asks for: the one it names, or those picked.
pub open spec fn requested_names(model_name: Option<Seq<char>>, chosen: Seq<usize>) -> Seq<
    Seq<char>,
> {
    match model_name {
        Some(n) => seq![n],
        None => picked_names(chosen),
    }
}

pub open spec fn option_view(o: Option<String>) -> Option<Seq<char>> {
    match o {
        Some(s) => Some(s@),
        None => None,
    }
}

impl InstallCommand {
    /// The models to install: the one named on the command line, else the
    /// catalog entries at the positions in `chosen`, which the operator picked.
    pub fn model_names(&self, chosen: &Vec<usize>) -> (r: Vec<String>)
        ensures
            view_names(r@) == requested_names(option_view(self.model_name), chosen@),
    {
        match &self.model_name {
            Some(name) => {
                let r = vec![name.clone()];
                assert(view_names(r@) =~= seq![name@]);
                r
            },
            None => {
                let known = known_models();
                let mut r: Vec<String> = Vec::new();
                let mut i: usize = 0;
                while i < chosen.len()
                    invariant
                        i <= chosen@.len(),
                        known@.map_values(|s: String| s@) == known_names(),
                        view_names(r@) == picked_names(chosen@.subrange(0, i as int)),
                    decreases chosen@.len() - i,
                {
                    let k = chosen[i];
                    let ghost prefix = chosen@.subrange(0, i as int + 1);
                    assert(prefix.drop_last() =~= chosen@.subrange(0, i as int));
                    if k < known.len() {
                        assert(known@.map_values(|s: String| s@)[k as int] == known@[k as int]@);
                        r.push(known[k].clone());
                        assert(view_names(r@) =~= picked_names(prefix));
                    }
                    i = i + 1;
                }
                assert(chosen@.subrange(0, chosen@.len() as int) =~= chosen@);
                r
            },
        }
    }
}

/// Begins the install of the named models, in order, and says what to do first.
pub fn download_models(model_names: &[String]) -> (r: (Installer, Action))
    ensures
        r.0@ == begin_model(view_names(model_names@), 0),
        well_formed(r.0@),
        r.1@ == pending(r.0@),
{
    let mut names: Vec<String> = Vec::new();
    let mut i: usize = 0;
    while i < model_names.len()
        invariant
            i <= model_names@.len(),
            names@ == model_names@.subrange(0, i as int),
        decreases model_names@.len() - i,
    {
        names.push(model_names[i].clone());
        assert(names@ =~= model_names@.subrange(0, i as int + 1));
        i = i + 1;
    }
    assert(model_names@.subrange(0, model_names@.len() as int) =~= model_names@);
    Installer::start(names)
}

impl App {
    /// Runs the command: no install when no model is requested, else the
    /// install of the requested models, begun.
    pub fn run(&self, chosen: &Vec<usize>) -> (r: Option<(Installer, Action)>)
        ensures
            ({
                let Command::Install(cmd) = self.command;
                let names = requested_names(option_view(cmd.model_name), chosen@);
                &&& r is None <==> names.len() == 0
                &&& r is Some ==> {
                    let (inst, first) = r->0;
                    &&& inst@ == begin_model(names, 0)
                    &&& well_formed(inst@)
                    &&& first@ == pending(inst@)
                }
            }),
    {
        match &self.command {
            Command::Install(cmd) => {
                let names = cmd.model_names(chosen);
                if names.len() == 0 {
                    None
                } else {
                    Some(download_models(names.as_slice()))
                }
            },
        }
    }
}

} // verus!
