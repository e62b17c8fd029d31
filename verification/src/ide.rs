//! The IDE front: its version and status, the decisions of its command line,
//! and the assertion it emits to report that it started.

use vstd::prelude::*;
use crate::text::str_equal;
use vstd::string::StringExecFns;

verus! {

/// The version of the IDE kernel: `0.1.0`.
pub fn version() -> (r: &'static str)
    ensures
        r@ == "0.1.0"@,
{
    "0.1.0"
}

/// The status of the full kernel: `placeholder` while only the skeleton is
/// there (later `in-progress`, then `stable`).
pub fn kernel_status() -> (r: &'static str)
    ensures
        r@ == "placeholder"@,
{
    "placeholder"
}

/// What the command line asks for.
#[derive(Debug, PartialEq, Eq)]
pub enum CliAction {
    /// `--version` or `-V`.
    ShowVersion,
    /// `--aci-emit [ID]`.
    EmitAssertion(Option<String>),
    /// `--help` or `-h`.
    ShowHelp,
    /// No flag at all.
    MissingFlag,
    /// A flag the command line does not know.
    UnknownFlag(String),
}

/// What the arguments (the program's name first) ask for: the first argument
/// after the name decides; `--aci-emit` takes the next argument, if any, as
/// the assertion id.
pub open spec fn cli_action_of(args: Seq<Seq<char>>) -> CliActionView {
    if args.len() < 2 {
        CliActionView::MissingFlag
    } else if args[1] == "--version"@ || args[1] == "-V"@ {
        CliActionView::ShowVersion
    } else if args[1] == "--aci-emit"@ {
        CliActionView::EmitAssertion(if args.len() > 2 {
            Some(args[2])
        } else {
            None
        })
    } else if args[1] == "--help"@ || args[1] == "-h"@ {
        CliActionView::ShowHelp
    } else {
        CliActionView::UnknownFlag(args[1])
    }
}

/// The content of a command-line action.
pub enum CliActionView {
    ShowVersion,
    EmitAssertion(Option<Seq<char>>),
    ShowHelp,
    MissingFlag,
    UnknownFlag(Seq<char>),
}

impl View for CliAction {
    type V = CliActionView;

    open spec fn view(&self) -> CliActionView {
        match self {
            CliAction::ShowVersion => CliActionView::ShowVersion,
            CliAction::EmitAssertion(id) => CliActionView::EmitAssertion(
                match id {
                    Some(s) => Some(s@),
                    None => None,
                },
            ),
            CliAction::ShowHelp => CliActionView::ShowHelp,
            CliAction::MissingFlag => CliActionView::MissingFlag,
            CliAction::UnknownFlag(f) => CliActionView::UnknownFlag(f@),
        }
    }
}

/// Reads the command line (the program's name first).
pub fn cli_action(args: &Vec<String>) -> (r: CliAction)
    ensures
        r@ == cli_action_of(args@.map_values(|a: String| a@)),
{
    let ghost views = args@.map_values(|a: String| a@);
    if args.len() < 2 {
        return CliAction::MissingFlag;
    }
    let flag = args[1].as_str();
    assert(views[1] == flag@);
    if str_equal(flag, "--version") || str_equal(flag, "-V") {
        CliAction::ShowVersion
    } else if str_equal(flag, "--aci-emit") {
        if args.len() > 2 {
            assert(views[2] == args@[2]@);
            CliAction::EmitAssertion(Some(args[2].clone()))
        } else {
            CliAction::EmitAssertion(None)
        }
    } else if str_equal(flag, "--help") || str_equal(flag, "-h") {
        CliAction::ShowHelp
    } else {
        CliAction::UnknownFlag(args[1].clone())
    }
}

/// An expectation or a measurement of an emitted assertion.
#[derive(Debug)]
pub struct AciMeasure {
    /// The kind of value, such as `response_within_ms`.
    pub value_type: String,
    pub value: u64,
    pub description: String,
}

/// The assertion the IDE emits to report that its command line started.
#[derive(Debug)]
pub struct AciEmitPlan {
    pub assertion_id: String,
    /// The test layer: `it`.
    pub layer: String,
    pub scope_project: String,
    pub scope_module: String,
    pub expect: AciMeasure,
    pub actual: AciMeasure,
    /// `PASS`.
    pub status: String,
    /// `info`.
    pub severity: String,
    pub reasoning: String,
}

/// The assertion id used when none is given.
pub open spec fn default_assertion_id() -> Seq<char> {
    "ide1.0:smoke:smoke-1"@
}

/// The assertion reporting that the command line started: within 100 ms
/// expected, 5 ms measured, in project `ide1.0`, module `smoke`, layer `it`,
/// status `PASS`, severity `info`; with the given id or
/// `ide1.0:smoke:smoke-1`.
pub fn aci_emit_plan(aid: Option<String>) -> (r: AciEmitPlan)
    ensures
        r.assertion_id@ == match aid {
            Some(a) => a@,
            None => default_assertion_id(),
        },
        r.layer@ == "it"@,
        r.scope_project@ == "ide1.0"@,
        r.scope_module@ == "smoke"@,
        r.expect.value_type@ == "response_within_ms"@,
        r.expect.value == 100,
        r.expect.description@ == "CLI should start within 100ms"@,
        r.actual.value_type@ == "response_within_ms"@,
        r.actual.value == 5,
        r.actual.description@ == "measured 5ms (placeholder)"@,
        r.status@ == "PASS"@,
        r.severity@ == "info"@,
        r.reasoning@ == "actual << expect (20x margin) — placeholder per §4.2.2 brief v0.1"@,
{
    let assertion_id = match aid {
        Some(a) => a,
        None => String::from_str("ide1.0:smoke:smoke-1"),
    };
    AciEmitPlan {
        assertion_id,
        layer: String::from_str("it"),
        scope_project: String::from_str("ide1.0"),
        scope_module: String::from_str("smoke"),
        expect: AciMeasure {
            value_type: String::from_str("response_within_ms"),
            value: 100,
            description: String::from_str("CLI should start within 100ms"),
        },
        actual: AciMeasure {
            value_type: String::from_str("response_within_ms"),
            value: 5,
            description: String::from_str("measured 5ms (placeholder)"),
        },
        status: String::from_str("PASS"),
        severity: String::from_str("info"),
        reasoning: String::from_str("actual << expect (20x margin) — placeholder per §4.2.2 brief v0.1"),
    }
}

} // verus!
