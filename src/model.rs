use vstd::prelude::*;

verus! {

/// Identifier of an App document.
#[derive(Debug, Clone, PartialEq, Eq, Hash)]
pub struct AppId(pub String);

/// Identifier of a dataset inside an App.
#[derive(Debug, Clone, PartialEq, Eq, Hash)]
pub struct DatasetId(pub String);

/// Identifier of an environment inside an App.
#[derive(Debug, Clone, PartialEq, Eq, Hash)]
pub struct EnvId(pub String);

/// Identifier of a pipeline inside an App.
#[derive(Debug, Clone, PartialEq, Eq, Hash)]
pub struct PipelineId(pub String);

#[derive(Debug, Clone)]
pub struct Dataset {
    pub id: DatasetId,
    pub name: String,
}

#[derive(Debug, Clone)]
pub struct Env {
    pub id: EnvId,
    pub url: String,
    pub name: String,
}

#[derive(Debug, Clone)]
pub struct Pipeline {
    pub id: PipelineId,
    pub name: String,
    pub route: String,
    pub env_id: EnvId,
    pub dataset_id: DatasetId,
}

/// A document as callers see it: the persisted record plus the file it
/// lives in and the concurrency token of the bytes last read or written.
#[derive(Debug, Clone)]
pub struct App {
    pub id: AppId,
    pub name: String,
    pub envs: Vec<Env>,
    pub datasets: Vec<Dataset>,
    pub pipelines: Vec<Pipeline>,
    pub etag: String,
    pub filename: String,
}

/// The part of a document that is written to disk (no file name, no token).
#[derive(Debug, Clone)]
pub struct AppConfig {
    pub id: AppId,
    pub name: String,
    pub envs: Vec<Env>,
    pub datasets: Vec<Dataset>,
    pub pipelines: Vec<Pipeline>,
}

#[derive(Debug, Clone)]
pub struct AppHeader {
    pub id: AppId,
    pub name: String,
}

#[derive(Debug)]
pub enum AppLoadError {
    Io(String),
    InvalidFormat(String),
}

#[derive(Debug)]
pub struct AppLoadFailure {
    pub file_name: String,
    pub error: AppLoadError,
}

#[derive(Debug)]
pub struct AppsList {
    pub app_headers: Vec<AppHeader>,
    pub failures: Vec<AppLoadFailure>,
}

/// The error kinds of the store. They do not overlap.
#[derive(Debug)]
pub enum AppError {
    /// The file is missing, or reading, writing or removing it failed.
    FileIoError { filename: String, source: String },
    /// The presented token is not the digest of the file's current bytes.
    Conflict { filename: String },
    /// The file was read but its bytes do not decode to a record.
    ValidationError { filename: String, source: String },
    /// A failure that belongs to no single document.
    Internal { source: String },
}

pub type AppResult<T> = Result<T, AppError>;

#[derive(Debug, Clone, Copy, PartialEq, Eq, Hash)]
pub enum OrderDirection {
    Asc,
    Desc,
}

/// The operations a store of App documents offers. Each call does its own
/// file I/O and blocks until it is done.
pub trait AppServices {
    fn list(&self) -> AppResult<Vec<AppResult<App>>>;

    fn create(&self, name: String) -> AppResult<App>;

    fn get(&self, filename: String) -> AppResult<App>;

    fn delete(&self, filename: String) -> AppResult<()>;

    fn update(&self, app: App) -> AppResult<App>;
}

} // verus!
