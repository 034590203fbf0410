use vstd::prelude::*;

verus! {

/// Every way an install can fail. Each one aborts the whole install.
#[derive(Clone, Debug, PartialEq, Eq)]
pub enum InstallError {
    /// The name is not in the built-in catalog.
    UnknownModel { name: String },
    /// The probe answered without a usable content identifier.
    MissingIdentity { url: String },
    /// A probe or a transfer answered with a status that is not a success.
    FetchFailed { url: String, status: u16 },
    /// A probe or a transfer got no answer at all.
    NetworkError { url: String },
    /// The body could not be stored into the cache entry named `id`.
    CacheWriteError { id: String },
    /// The destination path already exists.
    LinkCollision { path: String },
    /// A directory or a link could not be created at `path`.
    FilesystemError { path: String },
}

/// The mathematical value of an `InstallError`.
pub enum InstallErrorV {
    UnknownModel { name: Seq<char> },
    MissingIdentity { url: Seq<char> },
    FetchFailed { url: Seq<char>, status: u16 },
    NetworkError { url: Seq<char> },
    CacheWriteError { id: Seq<char> },
    LinkCollision { path: Seq<char> },
    FilesystemError { path: Seq<char> },
}

impl View for InstallError {
    type V = InstallErrorV;

    open spec fn view(&self) -> InstallErrorV {
        match self {
            InstallError::UnknownModel { name } => InstallErrorV::UnknownModel { name: name@ },
            InstallError::MissingIdentity { url } => InstallErrorV::MissingIdentity { url: url@ },
            InstallError::FetchFailed { url, status } => InstallErrorV::FetchFailed {
                url: url@,
                status: *status,
            },
            InstallError::NetworkError { url } => InstallErrorV::NetworkError { url: url@ },
            InstallError::CacheWriteError { id } => InstallErrorV::CacheWriteError { id: id@ },
            InstallError::LinkCollision { path } => InstallErrorV::LinkCollision { path: path@ },
            InstallError::FilesystemError { path } => InstallErrorV::FilesystemError {
                path: path@,
            },
        }
    }
}

impl InstallError {
    /// A copy with the same value.
    pub fn duplicate(&self) -> (r: InstallError)
        ensures
            r@ == self@,
    {
        match self {
            InstallError::UnknownModel { name } => InstallError::UnknownModel { name: name.clone() },
            InstallError::MissingIdentity { url } => InstallError::MissingIdentity {
                url: url.clone(),
            },
            InstallError::FetchFailed { url, status } => InstallError::FetchFailed {
                url: url.clone(),
                status: *status,
            },
            InstallError::NetworkError { url } => InstallError::NetworkError { url: url.clone() },
            InstallError::CacheWriteError { id } => InstallError::CacheWriteError { id: id.clone() },
            InstallError::LinkCollision { path } => InstallError::LinkCollision {
                path: path.clone(),
            },
            InstallError::FilesystemError { path } => InstallError::FilesystemError {
                path: path.clone(),
            },
        }
    }
}

} // verus!
