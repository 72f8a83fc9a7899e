use lintcheck_runner::diffcfg::{derive_config, extract_entry, split_lines};
use lintcheck_runner::logs::{
    check_integration_log, check_passes_log, contains_slice, crash_terminator_bytes,
    ends_with_slice, lint_marker_bytes,
};
use lintcheck_runner::mode::{parse_mode, Mode};
use lintcheck_runner::plan::{
    config_path, config_stem, log_file_name, log_ok, plan_of_mode, step_artifact_name, step_label,
    CheckKind, CheckStep,
};

#[test]
fn parse_accepts_the_four_lowercase_tokens() {
    assert_eq!(parse_mode("all"), Some(Mode::All));
    assert_eq!(parse_mode("passes"), Some(Mode::Passes));
    assert_eq!(parse_mode("integration"), Some(Mode::Integration));
    assert_eq!(parse_mode("ci"), Some(Mode::Ci));
}

#[test]
fn parse_rejects_unrecognized_tokens() {
    assert_eq!(parse_mode(""), None);
    assert_eq!(parse_mode("bogus"), None);
    assert_eq!(parse_mode("ALL"), None);
    assert_eq!(parse_mode("Passes"), None);
    assert_eq!(parse_mode("CI"), None);
    assert_eq!(parse_mode("all "), None);
    assert_eq!(parse_mode("integrationn"), None);
}

#[test]
fn marker_and_terminator_bytes() {
    assert_eq!(lint_marker_bytes(), b"clippy::".to_vec());
    assert_eq!(crash_terminator_bytes(), b"ICEs:\n".to_vec());
}

#[test]
fn passes_check_rejects_lint_findings() {
    let log = b"warnings: clippy::needless_return in crate foo\nICEs:\n";
    assert!(!check_passes_log(log));
    assert!(!log_ok(CheckKind::Passes, log));
}

#[test]
fn passes_check_accepts_clean_log() {
    let log = b"all crates checked, no findings\nICEs:\n";
    assert!(check_passes_log(log));
    assert!(log_ok(CheckKind::Passes, log));
}

#[test]
fn integration_check_tolerates_findings_but_not_crashes() {
    let with_findings = b"warnings: clippy::too_many_lines\nICEs:\n";
    assert!(check_integration_log(with_findings));
    assert!(log_ok(CheckKind::Integration, with_findings));

    let crashed = b"warnings: clippy::too_many_lines\nICEs:\nthread panicked";
    assert!(!check_integration_log(crashed));
    assert!(!log_ok(CheckKind::Integration, crashed));
}

#[test]
fn missing_terminator_rejected_for_both_kinds() {
    let log = b"everything fine but no terminator";
    assert!(!log_ok(CheckKind::Passes, log));
    assert!(!log_ok(CheckKind::Integration, log));
}

#[test]
fn terminator_must_be_at_the_very_end() {
    let log = b"ICEs:\ntrailing";
    assert!(!log_ok(CheckKind::Integration, log));
}

#[test]
fn contains_and_ends_with_edges() {
    assert!(contains_slice(b"abc", b""));
    assert!(contains_slice(b"", b""));
    assert!(!contains_slice(b"ab", b"abc"));
    assert!(contains_slice(b"xxclippy::yy", b"clippy::"));
    assert!(!contains_slice(b"xxclippy:yy", b"clippy::"));
    assert!(ends_with_slice(b"tail ICEs:\n", b"ICEs:\n"));
    assert!(!ends_with_slice(b"ICEs:", b"ICEs:\n"));
}

#[test]
fn split_lines_matches_line_semantics() {
    let r = split_lines(b"a\nbb\n\nccc");
    let expect: Vec<Vec<u8>> =
        vec![b"a".to_vec(), b"bb".to_vec(), b"".to_vec(), b"ccc".to_vec()];
    assert_eq!(r, expect);
    assert_eq!(split_lines(b""), Vec::<Vec<u8>>::new());
    assert_eq!(split_lines(b"x\n"), vec![b"x".to_vec()]);
}

#[test]
fn extract_entry_filters_diff_lines() {
    assert_eq!(extract_entry(b"+foo"), Some(b"foo".to_vec()));
    assert_eq!(extract_entry(b"+foo\r"), Some(b"foo".to_vec()));
    assert_eq!(extract_entry(b"-foo"), None);
    assert_eq!(extract_entry(b"+++ b/config/passes.toml"), None);
    assert_eq!(extract_entry(b"+ foo"), None);
    assert_eq!(extract_entry(b"+"), None);
    assert_eq!(extract_entry(b""), None);
    assert_eq!(extract_entry(b"+f"), Some(b"f".to_vec()));
    assert_eq!(extract_entry(b"+_crate9"), Some(b"_crate9".to_vec()));
}

#[test]
fn derived_config_keeps_added_drops_removed() {
    let diff = b"+foo\n-baz\n+bar\n";
    let out = derive_config(diff);
    assert_eq!(out, b"[crates]\nfoo\nbar\n".to_vec());
    let text = String::from_utf8(out).unwrap();
    assert!(text.contains("foo"));
    assert!(text.contains("bar"));
    assert!(!text.contains("baz"));
}

#[test]
fn derived_config_example_crate_names() {
    let out = derive_config(b"+crateA\n-crateB\n+crateC\n");
    assert_eq!(out, b"[crates]\ncrateA\ncrateC\n".to_vec());
}

#[test]
fn derived_config_ignores_diff_metadata() {
    let diff = b"diff --git a/config/passes.toml b/config/passes.toml\n\
--- a/config/passes.toml\n\
+++ b/config/passes.toml\n\
@@ -1,2 +1,3 @@\n\
 old_crate\n\
+new_crate\n";
    assert_eq!(derive_config(diff), b"[crates]\nnew_crate\n".to_vec());
}

#[test]
fn derived_config_of_empty_diff_is_header_only() {
    assert_eq!(derive_config(b""), b"[crates]\n".to_vec());
}

#[test]
fn all_mode_runs_integration_before_passes() {
    let steps = plan_of_mode(Mode::All);
    assert_eq!(steps.len(), 2);
    assert_eq!(steps[0].kind, CheckKind::Integration);
    assert_eq!(steps[1].kind, CheckKind::Passes);
    assert!(!steps[0].ci);
    assert!(!steps[1].ci);
}

#[test]
fn single_modes_run_one_step() {
    let passes = plan_of_mode(Mode::Passes);
    assert_eq!(passes.len(), 1);
    assert_eq!(passes[0], CheckStep { kind: CheckKind::Passes, ci: false });

    let integration = plan_of_mode(Mode::Integration);
    assert_eq!(integration.len(), 1);
    assert_eq!(integration[0], CheckStep { kind: CheckKind::Integration, ci: false });
}

#[test]
fn ci_mode_yields_two_distinct_artifacts_even_for_empty_configs() {
    let steps = plan_of_mode(Mode::Ci);
    assert_eq!(steps.len(), 2);
    assert!(steps[0].ci && steps[1].ci);
    let first = step_artifact_name(steps[0]);
    let second = step_artifact_name(steps[1]);
    assert_eq!(first, b"ci_passes_logs.txt".to_vec());
    assert_eq!(second, b"ci_integration_logs.txt".to_vec());
    assert_ne!(first, second);
    // even when nothing was added, both derived configurations exist
    assert_eq!(derive_config(b""), b"[crates]\n".to_vec());
}

#[test]
fn names_of_configs_and_logs() {
    assert_eq!(config_stem(CheckKind::Passes), b"passes".to_vec());
    assert_eq!(config_stem(CheckKind::Integration), b"integration".to_vec());
    assert_eq!(config_path(CheckKind::Passes), b"../config/passes.toml".to_vec());
    assert_eq!(config_path(CheckKind::Integration), b"../config/integration.toml".to_vec());
    assert_eq!(log_file_name(b"integration"), b"integration_logs.txt".to_vec());
    assert_eq!(
        step_label(CheckStep { kind: CheckKind::Passes, ci: true }),
        b"ci_passes".to_vec()
    );
    assert_eq!(
        step_label(CheckStep { kind: CheckKind::Integration, ci: false }),
        b"integration".to_vec()
    );
}
