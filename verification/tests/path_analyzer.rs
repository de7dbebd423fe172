use todo_scan::line_analyzer::LineAnalyzer;
use todo_scan::line_analyzer_types::BlameInfo;
use todo_scan::path_analyzer_types::{
    AnalysisConfig, DirAnalysisConfig, DirectoryAnalysis, FileAnalysis, FileAnalysisConfig,
    FileMetadata, FromRef,
};

fn sample_file_analysis(path: &str) -> FileAnalysis {
    let analyzer = LineAnalyzer::new();
    let lines: Vec<String> = vec!["// todo: note".to_string(), "plain line".to_string()];
    let (valids, invalids) = analyzer.classify_lines(&lines);
    FileAnalysis {
        metadata: FileMetadata { filepath: path.to_string(), last_modified: 1_700_000_000 },
        valids,
        invalids,
    }
}

#[test]
fn test_classify_lines_collects_in_order() {
    let analyzer = LineAnalyzer::new();
    let lines: Vec<String> = vec![
        "// todo: first".to_string(),
        "nothing here".to_string(),
        "// todo(): broken".to_string(),
        "// todo(ref42): second".to_string(),
    ];
    let (valids, invalids) = analyzer.classify_lines(&lines);
    assert_eq!(valids.len(), 2);
    assert_eq!(valids[0].line, 1);
    assert_eq!(valids[0].line_info.comment, "first");
    assert_eq!(valids[1].line, 4);
    assert_eq!(valids[1].line_info.comment, "second");
    assert_eq!(valids[1].line_info.delimiters[0].content, "ref42");
    assert_eq!(invalids.len(), 1);
    assert_eq!(invalids[0].line, 3);
    assert_eq!(invalids[0].line_info.full_text, "// todo(): broken");
}

#[test]
fn test_classify_lines_empty_file() {
    let analyzer = LineAnalyzer::new();
    let lines: Vec<String> = Vec::new();
    let (valids, invalids) = analyzer.classify_lines(&lines);
    assert!(valids.is_empty());
    assert!(invalids.is_empty());
}

#[test]
fn test_directory_analysis_counts_only_collected_files() {
    // Two files could be read and analyzed; a third, unreadable one never
    // produced an analysis, so the report counts two.
    let analyses = vec![sample_file_analysis("a.txt"), sample_file_analysis("b.txt")];
    let report = DirectoryAnalysis::new(analyses, 1_700_000_123);
    assert_eq!(report.total_files_scanned, 2);
    assert_eq!(report.file_analyses.len(), 2);
    assert_eq!(report.last_scan_on, 1_700_000_123);
    assert_eq!(report.file_analyses[0].metadata.filepath, "a.txt");
    assert_eq!(report.file_analyses[0].valids.len(), 1);
    assert_eq!(report.file_analyses[0].invalids.len(), 0);
}

#[test]
fn test_blame_info_new() {
    let blame = BlameInfo::new("dev@example.com".to_string(), 1_600_000_000);
    assert_eq!(blame.email, "dev@example.com");
    assert_eq!(blame.timestamp, 1_600_000_000);
}

#[test]
fn test_default_configs_are_empty() {
    let config = AnalysisConfig::default();
    assert!(config.dir_analysis_config.file_analysis_config.include_files.is_none());
    assert!(config.dir_analysis_config.exclude_dirs.is_none());
    assert!(config.file_analysis_config.include_files.is_none());
    let file_config = FileAnalysisConfig::default();
    assert!(file_config.include_files.is_none());
    let dir_config = DirAnalysisConfig::default();
    assert!(dir_config.exclude_dirs.is_none());
}

#[test]
fn test_from_ref_copies_config_values() {
    let dir_config = DirAnalysisConfig {
        file_analysis_config: FileAnalysisConfig {
            include_files: Some(vec!["txt".to_string(), "rs".to_string()]),
        },
        exclude_dirs: Some(vec!["target".to_string()]),
    };
    let copy = DirAnalysisConfig::from_ref(&dir_config);
    assert_eq!(
        copy.file_analysis_config.include_files,
        Some(vec!["txt".to_string(), "rs".to_string()])
    );
    assert_eq!(copy.exclude_dirs, Some(vec!["target".to_string()]));
}

#[test]
fn test_new_from_dir_config() {
    let dir_config = DirAnalysisConfig {
        file_analysis_config: FileAnalysisConfig { include_files: Some(vec!["md".to_string()]) },
        exclude_dirs: None,
    };
    let config = AnalysisConfig::new_from_dir_config(&dir_config);
    assert_eq!(
        config.file_analysis_config.include_files,
        Some(vec!["md".to_string()])
    );
    assert_eq!(
        config.dir_analysis_config.file_analysis_config.include_files,
        Some(vec!["md".to_string()])
    );
    assert!(config.dir_analysis_config.exclude_dirs.is_none());
}
