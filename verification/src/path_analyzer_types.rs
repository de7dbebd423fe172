//! Types for per-file and per-directory analysis results, and the
//! configuration that selects what a scan covers.
//!
//! Paths and times appear here as plain values: a path as the string it
//! prints as, a time as seconds since the Unix epoch.  Callers that obtain
//! either from the platform convert at the boundary.

use vstd::prelude::*;

use crate::line_analyzer_types::{InvalidTodoComment, ValidTodoComment};

verus! {

/// Result of analyzing a path: a whole directory or a single file.
#[derive(Debug, PartialEq)]
pub enum AnalysisResult {
    Directory(DirectoryAnalysis),
    File(FileAnalysis),
}

/// A directory report: how many files were analyzed, when the scan ran, and
/// the per-file results.
#[derive(Debug, PartialEq)]
pub struct DirectoryAnalysis {
    pub total_files_scanned: usize,
    pub last_scan_on: i64,
    pub file_analyses: Vec<FileAnalysis>,
}

/// A file report: metadata of the file and its classified marker comments,
/// each collection in order of appearance.
#[derive(Debug, PartialEq)]
pub struct FileAnalysis {
    pub metadata: FileMetadata,
    pub valids: Vec<ValidTodoComment>,
    pub invalids: Vec<InvalidTodoComment>,
}

/// Identity of an analyzed file: its path and its modification time.
#[derive(Debug, PartialEq)]
pub struct FileMetadata {
    pub filepath: String,
    pub last_modified: i64,
}

/// Options for file analysis, wrapped in Option to indicate availability and
/// user-enabled status as determined by the parent entity.
#[derive(Debug)]
pub struct FileAnalysisConfig {
    /// Additional file extensions to include.  Do not include the leading
    /// dot.
    pub include_files: Option<Vec<String>>,
}

/// Options for directory analysis, wrapped in Option to indicate
/// availability and user-enabled status as determined by the parent entity.
#[derive(Debug)]
pub struct DirAnalysisConfig {
    pub file_analysis_config: FileAnalysisConfig,
    /// Directories to exclude, relative to the root of the project.
    pub exclude_dirs: Option<Vec<String>>,
}

/// Options for project analysis.
#[derive(Debug)]
pub struct AnalysisConfig {
    pub dir_analysis_config: DirAnalysisConfig,
    pub file_analysis_config: FileAnalysisConfig,
}

impl DeepView for FileAnalysisConfig {
    type V = Option<Seq<Seq<char>>>;

    open spec fn deep_view(&self) -> Self::V {
        self.include_files.deep_view()
    }
}

impl DeepView for DirAnalysisConfig {
    type V = (Option<Seq<Seq<char>>>, Option<Seq<Seq<char>>>);

    open spec fn deep_view(&self) -> Self::V {
        (self.file_analysis_config.deep_view(), self.exclude_dirs.deep_view())
    }
}

impl DeepView for AnalysisConfig {
    type V = ((Option<Seq<Seq<char>>>, Option<Seq<Seq<char>>>), Option<Seq<Seq<char>>>);

    open spec fn deep_view(&self) -> Self::V {
        (self.dir_analysis_config.deep_view(), self.file_analysis_config.deep_view())
    }
}

/// Trait for creating a new instance of a type from a reference to itself.
pub trait FromRef: DeepView + Sized {
    fn from_ref(t: &Self) -> (r: Self)
        ensures
            r.deep_view() == t.deep_view(),
    ;
}

/// A by-value copy of an optional list of strings.
fn clone_string_list(v: &Option<Vec<String>>) -> (r: Option<Vec<String>>)
    ensures
        r.deep_view() == v.deep_view(),
{
    match v {
        None => None,
        Some(items) => {
            let mut out: Vec<String> = Vec::new();
            let n = items.len();
            let mut i: usize = 0;
            while i < n
                invariant
                    i <= n,
                    n == items.len(),
                    out@.len() == i,
                    forall|k: int| 0 <= k < i ==> out@[k] == items@[k],
                decreases n - i,
            {
                out.push(items[i].clone());
                i += 1;
            }
            proof {
                assert(out@ =~= items@);
                assert(out.deep_view() =~= items.deep_view());
            }
            Some(out)
        },
    }
}

impl Default for FileAnalysisConfig {
    fn default() -> (r: Self)
        ensures
            r.include_files is None,
    {
        FileAnalysisConfig { include_files: None }
    }
}

impl FromRef for FileAnalysisConfig {
    fn from_ref(config: &Self) -> (r: Self)
        ensures
            r.deep_view() == config.deep_view(),
    {
        FileAnalysisConfig { include_files: clone_string_list(&config.include_files) }
    }
}

impl Default for DirAnalysisConfig {
    fn default() -> (r: Self)
        ensures
            r.file_analysis_config.include_files is None,
            r.exclude_dirs is None,
    {
        DirAnalysisConfig {
            file_analysis_config: FileAnalysisConfig::default(),
            exclude_dirs: None,
        }
    }
}

impl FromRef for DirAnalysisConfig {
    fn from_ref(config: &Self) -> (r: Self)
        ensures
            r.deep_view() == config.deep_view(),
    {
        DirAnalysisConfig {
            file_analysis_config: FileAnalysisConfig::from_ref(&config.file_analysis_config),
            exclude_dirs: clone_string_list(&config.exclude_dirs),
        }
    }
}

impl Default for AnalysisConfig {
    fn default() -> (r: Self)
        ensures
            r.dir_analysis_config.file_analysis_config.include_files is None,
            r.dir_analysis_config.exclude_dirs is None,
            r.file_analysis_config.include_files is None,
    {
        AnalysisConfig {
            dir_analysis_config: DirAnalysisConfig::default(),
            file_analysis_config: FileAnalysisConfig::default(),
        }
    }
}

impl AnalysisConfig {
    pub fn new_from_dir_config(dir_config: &DirAnalysisConfig) -> (r: Self)
        ensures
            r.dir_analysis_config.deep_view() == dir_config.deep_view(),
            r.file_analysis_config.deep_view() == dir_config.file_analysis_config.deep_view(),
    {
        AnalysisConfig {
            dir_analysis_config: DirAnalysisConfig::from_ref(dir_config),
            file_analysis_config: FileAnalysisConfig::from_ref(&dir_config.file_analysis_config),
        }
    }
}

impl DirectoryAnalysis {
    /// Aggregates per-file results into a directory report.  The reported
    /// total is exactly the number of file analyses collected, so files
    /// that could not be read — and so produced no analysis — do not count.
    pub fn new(file_analyses: Vec<FileAnalysis>, last_scan_on: i64) -> (r: DirectoryAnalysis)
        ensures
            r.total_files_scanned == file_analyses@.len(),
            r.file_analyses == file_analyses,
            r.last_scan_on == last_scan_on,
    {
        let total_files_scanned = file_analyses.len();
        DirectoryAnalysis { total_files_scanned, last_scan_on, file_analyses }
    }
}

} // verus!
