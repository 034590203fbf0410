use vstd::prelude::*;

use crate::catalog::{catalog, has_subdir, model_artifacts, view_artifacts, Artifact};
use crate::error::{InstallError, InstallErrorV};
use crate::probe::{header_fields, is_success, resolution, resolve_identity, status_is_success};

verus! {

/// How an attempt to expose a cache entry at its destination ended.
#[derive(Clone, Copy, Debug, PartialEq, Eq)]
pub enum LinkOutcome {
    Linked,
    AlreadyExists,
    Failed,
}

/// What the outside world answers to the last action.
pub enum Event {
    /// The model's directory was created, or could not be.
    DirCreated { ok: bool },
    /// The body-less probe of the current artifact's URL was answered.
    Probed { status: u16, headers: reqwest::header::HeaderMap },
    /// The probe or the transfer got no answer.
    Unreachable,
    /// Whether a regular file is present at the cache entry.
    CacheChecked { present: bool },
    /// The transfer request was answered with this status.
    Responded { status: u16 },
    /// The body was stored under the cache entry (write to a temporary file,
    /// then rename), or could not be.
    Stored { ok: bool },
    /// The hard link from the cache entry to the destination was attempted.
    Linked { outcome: LinkOutcome },
}

pub enum EventV {
    DirCreated { ok: bool },
    Probed { status: u16, fields: Map<Seq<char>, Seq<u8>> },
    Unreachable,
    CacheChecked { present: bool },
    Responded { status: u16 },
    Stored { ok: bool },
    Linked { outcome: LinkOutcome },
}

impl View for Event {
    type V = EventV;

    open spec fn view(&self) -> EventV {
        match self {
            Event::DirCreated { ok } => EventV::DirCreated { ok: *ok },
            Event::Probed { status, headers } => EventV::Probed {
                status: *status,
                fields: header_fields(*headers),
            },
            Event::Unreachable => EventV::Unreachable,
            Event::CacheChecked { present } => EventV::CacheChecked { present: *present },
            Event::Responded { status } => EventV::Responded { status: *status },
            Event::Stored { ok } => EventV::Stored { ok: *ok },
            Event::Linked { outcome } => EventV::Linked { outcome: *outcome },
        }
    }
}

/// What the outside world is asked to do next. Paths are relative: `path` and
/// `dest` to the models directory, `id` names a file of the cache directory.
#[derive(Debug, PartialEq, Eq)]
pub enum Action {
    /// Create the model's directory (and its parents).
    CreateDir { path: String },
    /// Send a body-less probe to `url`, without following redirects.
    Probe { url: String },
    /// Tell whether a regular file is present at the cache entry `id`.
    CheckCache { id: String },
    /// Request the body of `url`; `size` is for display only.
    Fetch { url: String, id: String, size: Option<u64> },
    /// Store the body of the answered request under the cache entry `id`.
    Store { id: String },
    /// Hard-link the cache entry `id` to `dest`, never overwriting.
    Link { id: String, dest: String },
    /// Every model is installed.
    Finish,
    /// The install stops with this error.
    Abort { error: InstallError },
}

pub enum ActionV {
    CreateDir { path: Seq<char> },
    Probe { url: Seq<char> },
    CheckCache { id: Seq<char> },
    Fetch { url: Seq<char>, id: Seq<char>, size: Option<u64> },
    Store { id: Seq<char> },
    Link { id: Seq<char>, dest: Seq<char> },
    Finish,
    Abort { error: InstallErrorV },
}

impl View for Action {
    type V = ActionV;

    open spec fn view(&self) -> ActionV {
        match self {
            Action::CreateDir { path } => ActionV::CreateDir { path: path@ },
            Action::Probe { url } => ActionV::Probe { url: url@ },
            Action::CheckCache { id } => ActionV::CheckCache { id: id@ },
            Action::Fetch { url, id, size } => ActionV::Fetch { url: url@, id: id@, size: *size },
            Action::Store { id } => ActionV::Store { id: id@ },
            Action::Link { id, dest } => ActionV::Link { id: id@, dest: dest@ },
            Action::Finish => ActionV::Finish,
            Action::Abort { error } => ActionV::Abort { error: error@ },
        }
    }
}

/// Where the install stands on the current artifact.
#[derive(Debug)]
pub enum Stage {
    AwaitDir,
    AwaitProbe,
    AwaitCache { id: String, size: Option<u64> },
    AwaitResponse { id: String, size: Option<u64> },
    AwaitStore { id: String },
    AwaitLink { id: String },
    Done,
    Failed { error: InstallError },
}

pub enum StageV {
    AwaitDir,
    AwaitProbe,
    AwaitCache { id: Seq<char>, size: Option<u64> },
    AwaitResponse { id: Seq<char>, size: Option<u64> },
    AwaitStore { id: Seq<char> },
    AwaitLink { id: Seq<char> },
    Done,
    Failed { error: InstallErrorV },
}

impl View for Stage {
    type V = StageV;

    open spec fn view(&self) -> StageV {
        match self {
            Stage::AwaitDir => StageV::AwaitDir,
            Stage::AwaitProbe => StageV::AwaitProbe,
            Stage::AwaitCache { id, size } => StageV::AwaitCache { id: id@, size: *size },
            Stage::AwaitResponse { id, size } => StageV::AwaitResponse { id: id@, size: *size },
            Stage::AwaitStore { id } => StageV::AwaitStore { id: id@ },
            Stage::AwaitLink { id } => StageV::AwaitLink { id: id@ },
            Stage::Done => StageV::Done,
            Stage::Failed { error } => StageV::Failed { error: error@ },
        }
    }
}

/// An install of a list of models, one artifact at a time, in order.
pub struct Installer {
    names: Vec<String>,
    model: usize,
    artifacts: Vec<Artifact>,
    item: usize,
    stage: Stage,
}

pub struct InstallerV {
    pub names: Seq<Seq<char>>,
    pub model: int,
    pub artifacts: Seq<(Seq<char>, Seq<char>)>,
    pub item: int,
    pub stage: StageV,
}

impl View for Installer {
    type V = InstallerV;

    closed spec fn view(&self) -> InstallerV {
        InstallerV {
            names: self.names@.map_values(|s: String| s@),
            model: self.model as int,
            artifacts: view_artifacts(self.artifacts@),
            item: self.item as int,
            stage: self.stage@,
        }
    }
}

/// A state of the install that the machine can reach: while work remains, the
/// current model is in the catalog, its artifacts are the ones held, and the
/// current artifact is one of them.
pub open spec fn well_formed(v: InstallerV) -> bool {
    &&& 0 <= v.model <= v.names.len()
    &&& 0 <= v.item
    &&& match v.stage {
        StageV::Done | StageV::Failed { .. } => true,
        _ => {
            &&& v.model < v.names.len()
            &&& catalog(v.names[v.model]) == Some(v.artifacts)
            &&& v.item < v.artifacts.len()
            &&& (v.stage is AwaitDir ==> v.item == 0 && has_subdir(v.artifacts))
        },
    }
}

pub open spec fn current_url(v: InstallerV) -> Seq<char> {
    v.artifacts[v.item].0
}

pub open spec fn current_dest(v: InstallerV) -> Seq<char> {
    v.artifacts[v.item].1
}

/// The action that a state asks for.
pub open spec fn pending(v: InstallerV) -> ActionV {
    match v.stage {
        StageV::AwaitDir => ActionV::CreateDir { path: v.names[v.model] },
        StageV::AwaitProbe => ActionV::Probe { url: current_url(v) },
        StageV::AwaitCache { id, size } => ActionV::CheckCache { id },
        StageV::AwaitResponse { id, size } => ActionV::Fetch { url: current_url(v), id, size },
        StageV::AwaitStore { id } => ActionV::Store { id },
        StageV::AwaitLink { id } => ActionV::Link { id, dest: current_dest(v) },
        StageV::Done => ActionV::Finish,
        StageV::Failed { error } => ActionV::Abort { error },
    }
}

pub open spec fn with_stage(v: InstallerV, stage: StageV) -> InstallerV {
    InstallerV { stage, ..v }
}

/// The state in which the install of model `m` of `names` begins.
pub open spec fn begin_model(names: Seq<Seq<char>>, m: int) -> InstallerV {
    if m >= names.len() {
        InstallerV { names, model: m, artifacts: seq![], item: 0, stage: StageV::Done }
    } else {
        match catalog(names[m]) {
            None => InstallerV {
                names,
                model: m,
                artifacts: seq![],
                item: 0,
                stage: StageV::Failed { error: InstallErrorV::UnknownModel { name: names[m] } },
            },
            Some(arts) => InstallerV {
                names,
                model: m,
                artifacts: arts,
                item: 0,
                stage: if has_subdir(arts) {
                    StageV::AwaitDir
                } else {
                    StageV::AwaitProbe
                },
            },
        }
    }
}

/// The state after the current artifact has been linked.
pub open spec fn after_link(v: InstallerV) -> InstallerV {
    if v.item + 1 < v.artifacts.len() {
        InstallerV { item: v.item + 1, stage: StageV::AwaitProbe, ..v }
    } else {
        begin_model(v.names, v.model + 1)
    }
}

/// How an event moves the install. An event that does not answer the pending
/// action leaves the state as it is, so that the action stands.
pub open spec fn next_state(v: InstallerV, e: EventV) -> InstallerV {
    match (v.stage, e) {
        (StageV::AwaitDir, EventV::DirCreated { ok }) => if ok {
            with_stage(v, StageV::AwaitProbe)
        } else {
            with_stage(
                v,
                StageV::Failed { error: InstallErrorV::FilesystemError { path: v.names[v.model] } },
            )
        },
        (StageV::AwaitProbe, EventV::Probed { status, fields }) => match resolution(
            current_url(v),
            status,
            fields,
        ) {
            Ok((id, size)) => with_stage(v, StageV::AwaitCache { id, size }),
            Err(error) => with_stage(v, StageV::Failed { error }),
        },
        (StageV::AwaitProbe, EventV::Unreachable) => with_stage(
            v,
            StageV::Failed { error: InstallErrorV::NetworkError { url: current_url(v) } },
        ),
        (StageV::AwaitCache { id, size }, EventV::CacheChecked { present }) => if present {
            with_stage(v, StageV::AwaitLink { id })
        } else {
            with_stage(v, StageV::AwaitResponse { id, size })
        },
        (StageV::AwaitResponse { id, size }, EventV::Responded { status }) => if is_success(
            status,
        ) {
            with_stage(v, StageV::AwaitStore { id })
        } else {
            with_stage(
                v,
                StageV::Failed { error: InstallErrorV::FetchFailed { url: current_url(v), status } },
            )
        },
        (StageV::AwaitResponse { id, size }, EventV::Unreachable) => with_stage(
            v,
            StageV::Failed { error: InstallErrorV::NetworkError { url: current_url(v) } },
        ),
        (StageV::AwaitStore { id }, EventV::Stored { ok }) => if ok {
            with_stage(v, StageV::AwaitLink { id })
        } else {
            with_stage(v, StageV::Failed { error: InstallErrorV::CacheWriteError { id } })
        },
        (StageV::AwaitLink { id }, EventV::Linked { outcome }) => match outcome {
            LinkOutcome::Linked => after_link(v),
            LinkOutcome::AlreadyExists => with_stage(
                v,
                StageV::Failed { error: InstallErrorV::LinkCollision { path: current_dest(v) } },
            ),
            LinkOutcome::Failed => with_stage(
                v,
                StageV::Failed { error: InstallErrorV::FilesystemError { path: current_dest(v) } },
            ),
        },
        _ => v,
    }
}


pub open spec fn view_names(names: Seq<String>) -> Seq<Seq<char>> {
    names.map_values(|s: String| s@)
}

impl Installer {
    proof fn lemma_view_names(&self)
        ensures
            self@.names.len() == self.names@.len(),
    {
    }

    /// Moves to the beginning of model `m`.
    fn enter(&mut self, m: usize)
        requires
            m <= old(self).names@.len(),
        ensures
            final(self)@ == begin_model(old(self)@.names, m as int),
            well_formed(final(self)@),
    {
        proof {
            self.lemma_view_names();
        }
        self.model = m;
        self.item = 0;
        if m == self.names.len() {
            self.artifacts = Vec::new();
            self.stage = Stage::Done;
            assert(view_artifacts(self.artifacts@) =~= seq![]);
            return ;
        }
        match model_artifacts(self.names[m].as_str()) {
            None => {
                self.artifacts = Vec::new();
                assert(view_artifacts(self.artifacts@) =~= seq![]);
                self.stage = Stage::Failed {
                    error: InstallError::UnknownModel { name: self.names[m].clone() },
                };
            },
            Some(arts) => {
                proof {
                    crate::catalog::lemma_catalog_nonempty(self@.names[m as int]);
                }
                let sub = arts.len() > 1;
                self.artifacts = arts;
                self.stage = if sub {
                    Stage::AwaitDir
                } else {
                    Stage::AwaitProbe
                };
            },
        }
    }

    /// Begins the install of `names`, in order, and says what to do first.
    pub fn start(names: Vec<String>) -> (r: (Installer, Action))
        ensures
            r.0@ == begin_model(view_names(names@), 0),
            well_formed(r.0@),
            r.1@ == pending(r.0@),
    {
        let mut inst = Installer {
            names,
            model: 0,
            artifacts: Vec::new(),
            item: 0,
            stage: Stage::Done,
        };
        inst.enter(0);
        let a = inst.pending_action();
        (inst, a)
    }

    /// The action that the install waits on.
    pub fn pending_action(&self) -> (r: Action)
        requires
            well_formed(self@),
        ensures
            r@ == pending(self@),
    {
        proof {
            self.lemma_view_names();
        }
        match &self.stage {
            Stage::AwaitDir => Action::CreateDir { path: self.names[self.model].clone() },
            Stage::AwaitProbe => Action::Probe { url: self.artifacts[self.item].url.clone() },
            Stage::AwaitCache { id, size } => Action::CheckCache { id: id.clone() },
            Stage::AwaitResponse { id, size } => Action::Fetch {
                url: self.artifacts[self.item].url.clone(),
                id: id.clone(),
                size: *size,
            },
            Stage::AwaitStore { id } => Action::Store { id: id.clone() },
            Stage::AwaitLink { id } => Action::Link {
                id: id.clone(),
                dest: self.artifacts[self.item].dest.clone(),
            },
            Stage::Done => Action::Finish,
            Stage::Failed { error } => Action::Abort { error: error.duplicate() },
        }
    }

    /// Whether the install has ended, in success or in failure.
    pub fn is_over(&self) -> (r: bool)
        ensures
            r == (self@.stage is Done || self@.stage is Failed),
    {
        match &self.stage {
            Stage::Done => true,
            Stage::Failed { .. } => true,
            _ => false,
        }
    }

    fn fail(&mut self, error: InstallError)
        ensures
            final(self)@ == with_stage(old(self)@, StageV::Failed { error: error@ }),
    {
        self.stage = Stage::Failed { error };
    }

    /// Takes the answer to the pending action and says what to do next.
    pub fn step(&mut self, event: Event) -> (r: Action)
        requires
            well_formed(old(self)@),
        ensures
            final(self)@ == next_state(old(self)@, event@),
            well_formed(final(self)@),
            r@ == pending(final(self)@),
    {
        proof {
            self.lemma_view_names();
        }
        match &self.stage {
            Stage::AwaitDir => {
                if let Event::DirCreated { ok } = &event {
                    if *ok {
                        self.stage = Stage::AwaitProbe;
                    } else {
                        let path = self.names[self.model].clone();
                        self.fail(InstallError::FilesystemError { path });
                    }
                }
            },
            Stage::AwaitProbe => {
                match &event {
                    Event::Probed { status, headers } => {
                        let url = self.artifacts[self.item].url.as_str();
                        match resolve_identity(url, *status, headers) {
                            Ok(ident) => {
                                self.stage = Stage::AwaitCache { id: ident.id, size: ident.size };
                            },
                            Err(error) => {
                                self.fail(error);
                            },
                        }
                    },
                    Event::Unreachable => {
                        let url = self.artifacts[self.item].url.clone();
                        self.fail(InstallError::NetworkError { url });
                    },
                    _ => {},
                }
            },
            Stage::AwaitCache { id, size } => {
                if let Event::CacheChecked { present } = &event {
                    let id = id.clone();
                    if *present {
                        self.stage = Stage::AwaitLink { id };
                    } else {
                        let size = *size;
                        self.stage = Stage::AwaitResponse { id, size };
                    }
                }
            },
            Stage::AwaitResponse { id, size } => {
                match &event {
                    Event::Responded { status } => {
                        if status_is_success(*status) {
                            let id = id.clone();
                            self.stage = Stage::AwaitStore { id };
                        } else {
                            let url = self.artifacts[self.item].url.clone();
                            self.fail(InstallError::FetchFailed { url, status: *status });
                        }
                    },
                    Event::Unreachable => {
                        let url = self.artifacts[self.item].url.clone();
                        self.fail(InstallError::NetworkError { url });
                    },
                    _ => {},
                }
            },
            Stage::AwaitStore { id } => {
                if let Event::Stored { ok } = &event {
                    let id = id.clone();
                    if *ok {
                        self.stage = Stage::AwaitLink { id };
                    } else {
                        self.fail(InstallError::CacheWriteError { id });
                    }
                }
            },
            Stage::AwaitLink { id } => {
                if let Event::Linked { outcome } = &event {
                    match outcome {
                        LinkOutcome::Linked => {
                            if self.item + 1 < self.artifacts.len() {
                                self.item = self.item + 1;
                                self.stage = Stage::AwaitProbe;
                            } else {
                                let n = self.names.len();
                                assert(self.model < n);
                                let m = self.model + 1;
                                self.enter(m);
                            }
                        },
                        LinkOutcome::AlreadyExists => {
                            let path = self.artifacts[self.item].dest.clone();
                            self.fail(InstallError::LinkCollision { path });
                        },
                        LinkOutcome::Failed => {
                            let path = self.artifacts[self.item].dest.clone();
                            self.fail(InstallError::FilesystemError { path });
                        },
                    }
                }
            },
            Stage::Done => {},
            Stage::Failed { .. } => {},
        }
        self.pending_action()
    }
}

} // verus!
