//! The dispatch plan: which checker invocations a mode performs, in which
//! order, against which configuration, and under which log artifact name.

use vstd::prelude::*;
use crate::logs::{
    check_integration_log, check_passes_log, contains_bytes, crash_terminator, ends_with_bytes,
    integration_log_ok, lint_marker, passes_log_ok,
};
use crate::mode::Mode;

verus! {

/// Which assertion set one checker invocation is held to.
#[derive(Clone, Copy, Debug, PartialEq, Eq, Structural)]
pub enum CheckKind {
    /// Strict: no lint finding tolerated, and no crash.
    Passes,
    /// Tolerant: lint findings are expected, only crashes are disallowed.
    Integration,
}

/// One checker invocation of a plan.
#[derive(Clone, Copy, Debug, PartialEq, Eq, Structural)]
pub struct CheckStep {
    /// The assertion set, which also names the configuration.
    pub kind: CheckKind,
    /// When set, the configuration is derived from the diff with the
    /// reference branch, and the log is stored under a `ci_` label.
    pub ci: bool,
}

/// The checker invocations a mode performs, in order.
pub open spec fn steps_of_mode(m: Mode) -> Seq<CheckStep> {
    match m {
        Mode::All => seq![
            CheckStep { kind: CheckKind::Integration, ci: false },
            CheckStep { kind: CheckKind::Passes, ci: false },
        ],
        Mode::Passes => seq![CheckStep { kind: CheckKind::Passes, ci: false }],
        Mode::Integration => seq![CheckStep { kind: CheckKind::Integration, ci: false }],
        Mode::Ci => seq![
            CheckStep { kind: CheckKind::Passes, ci: true },
            CheckStep { kind: CheckKind::Integration, ci: true },
        ],
    }
}

/// Builds the plan of a mode.
pub fn plan_of_mode(m: Mode) -> (r: Vec<CheckStep>)
    ensures
        r@ == steps_of_mode(m),
{
    let r: Vec<CheckStep> = match m {
        Mode::All => vec![
            CheckStep { kind: CheckKind::Integration, ci: false },
            CheckStep { kind: CheckKind::Passes, ci: false },
        ],
        Mode::Passes => vec![CheckStep { kind: CheckKind::Passes, ci: false }],
        Mode::Integration => vec![CheckStep { kind: CheckKind::Integration, ci: false }],
        Mode::Ci => vec![
            CheckStep { kind: CheckKind::Passes, ci: true },
            CheckStep { kind: CheckKind::Integration, ci: true },
        ],
    };
    proof {
        assert(r@ =~= steps_of_mode(m));
    }
    r
}

/// ASCII bytes of the configuration stem: `"passes"` or `"integration"`.
pub open spec fn stem_of_kind(k: CheckKind) -> Seq<u8> {
    match k {
        CheckKind::Passes => seq![112u8, 97u8, 115u8, 115u8, 101u8, 115u8],
        CheckKind::Integration => seq![
            105u8,
            110u8,
            116u8,
            101u8,
            103u8,
            114u8,
            97u8,
            116u8,
            105u8,
            111u8,
            110u8,
        ],
    }
}

/// The configuration stem as bytes.
pub fn config_stem(k: CheckKind) -> (r: Vec<u8>)
    ensures
        r@ == stem_of_kind(k),
{
    let r: Vec<u8> = match k {
        CheckKind::Passes => vec![112u8, 97u8, 115u8, 115u8, 101u8, 115u8],
        CheckKind::Integration => vec![
            105u8,
            110u8,
            116u8,
            101u8,
            103u8,
            114u8,
            97u8,
            116u8,
            105u8,
            111u8,
            110u8,
        ],
    };
    proof {
        assert(r@ =~= stem_of_kind(k));
    }
    r
}

/// ASCII bytes of `"../config/"`, where the static configurations live.
pub open spec fn config_dir() -> Seq<u8> {
    seq![46u8, 46u8, 47u8, 99u8, 111u8, 110u8, 102u8, 105u8, 103u8, 47u8]
}

/// ASCII bytes of `".toml"`.
pub open spec fn toml_suffix() -> Seq<u8> {
    seq![46u8, 116u8, 111u8, 109u8, 108u8]
}

/// The path of the static configuration of a kind:
/// `"../config/" ++ stem ++ ".toml"`.
pub open spec fn config_path_of_kind(k: CheckKind) -> Seq<u8> {
    config_dir() + stem_of_kind(k) + toml_suffix()
}

/// The static configuration path as bytes.
pub fn config_path(k: CheckKind) -> (r: Vec<u8>)
    ensures
        r@ == config_path_of_kind(k),
{
    let mut r: Vec<u8> = vec![46u8, 46u8, 47u8, 99u8, 111u8, 110u8, 102u8, 105u8, 103u8, 47u8];
    proof {
        assert(r@ =~= config_dir());
    }
    let mut stem = config_stem(k);
    r.append(&mut stem);
    let mut suffix: Vec<u8> = vec![46u8, 116u8, 111u8, 109u8, 108u8];
    proof {
        assert(suffix@ =~= toml_suffix());
    }
    r.append(&mut suffix);
    r
}

/// ASCII bytes of `"ci_"`.
pub open spec fn ci_prefix() -> Seq<u8> {
    seq![99u8, 105u8, 95u8]
}

/// The label a step stores its log under: the configuration stem, with a
/// `"ci_"` prefix for a diff-derived step.
pub open spec fn label_of_step(s: CheckStep) -> Seq<u8> {
    if s.ci {
        ci_prefix() + stem_of_kind(s.kind)
    } else {
        stem_of_kind(s.kind)
    }
}

/// The label of a step as bytes.
pub fn step_label(s: CheckStep) -> (r: Vec<u8>)
    ensures
        r@ == label_of_step(s),
{
    if s.ci {
        let mut r: Vec<u8> = vec![99u8, 105u8, 95u8];
        proof {
            assert(r@ =~= ci_prefix());
        }
        let mut stem = config_stem(s.kind);
        r.append(&mut stem);
        r
    } else {
        config_stem(s.kind)
    }
}

/// ASCII bytes of `"_logs.txt"`.
pub open spec fn logs_suffix() -> Seq<u8> {
    seq![95u8, 108u8, 111u8, 103u8, 115u8, 46u8, 116u8, 120u8, 116u8]
}

/// The file name a log is stored under, for a given label:
/// `label ++ "_logs.txt"`.
pub open spec fn log_file_name_of(label: Seq<u8>) -> Seq<u8> {
    label + logs_suffix()
}

/// The log file name of a label as bytes.
pub fn log_file_name(label: &[u8]) -> (r: Vec<u8>)
    ensures
        r@ == log_file_name_of(label@),
{
    let mut r = vstd::slice::slice_to_vec(label);
    let mut suffix: Vec<u8> = vec![95u8, 108u8, 111u8, 103u8, 115u8, 46u8, 116u8, 120u8, 116u8];
    proof {
        assert(suffix@ =~= logs_suffix());
    }
    r.append(&mut suffix);
    r
}

/// The artifact name of a step: the log file name of its label.
pub open spec fn artifact_of_step(s: CheckStep) -> Seq<u8> {
    log_file_name_of(label_of_step(s))
}

/// The artifact name of a step as bytes.
pub fn step_artifact_name(s: CheckStep) -> (r: Vec<u8>)
    ensures
        r@ == artifact_of_step(s),
{
    let label = step_label(s);
    log_file_name(label.as_slice())
}

/// What a step's check accepts of the log it produced.
pub open spec fn log_ok_spec(k: CheckKind, log: Seq<u8>) -> bool {
    match k {
        CheckKind::Passes => passes_log_ok(log),
        CheckKind::Integration => integration_log_ok(log),
    }
}

/// Decides whether a log satisfies the assertion set of a kind.
pub fn log_ok(k: CheckKind, log: &[u8]) -> (r: bool)
    ensures
        r == log_ok_spec(k, log@),
{
    match k {
        CheckKind::Passes => check_passes_log(log),
        CheckKind::Integration => check_integration_log(log),
    }
}

/// Law: whatever the kind, an accepted log ends with the crash-report
/// terminator.
pub proof fn lemma_accepted_log_crash_free(k: CheckKind, log: Seq<u8>)
    requires
        log_ok_spec(k, log),
    ensures
        ends_with_bytes(log, crash_terminator()),
{
}

/// Law: a log accepted under the passes kind never contains the
/// lint-finding marker.
pub proof fn lemma_accepted_passes_log_no_lint(log: Seq<u8>)
    requires
        log_ok_spec(CheckKind::Passes, log),
    ensures
        !contains_bytes(log, lint_marker()),
{
}

/// Law: the all mode runs the integration check before the passes check,
/// and nothing else.
pub proof fn lemma_all_mode_order()
    ensures
        steps_of_mode(Mode::All).len() == 2,
        steps_of_mode(Mode::All)[0].kind == CheckKind::Integration,
        steps_of_mode(Mode::All)[1].kind == CheckKind::Passes,
{
}

/// Law: the two steps of the CI mode store their logs under distinct
/// artifact names, whatever the derived configurations contain.
pub proof fn lemma_ci_artifacts_distinct()
    ensures
        steps_of_mode(Mode::Ci).len() == 2,
        artifact_of_step(steps_of_mode(Mode::Ci)[0]) != artifact_of_step(
            steps_of_mode(Mode::Ci)[1],
        ),
{
    assert(artifact_of_step(steps_of_mode(Mode::Ci)[0]).len() == 18);
    assert(artifact_of_step(steps_of_mode(Mode::Ci)[1]).len() == 23);
}

} // verus!
