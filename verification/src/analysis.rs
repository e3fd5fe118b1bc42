//! Arguments of the analysis commands, each about one transaction:
//! `inspect`, `trace`, `profile`, `diff`, `replay`, `whatif` and `export`.

use vstd::prelude::*;

verus! {

/// Arguments for `prism inspect <tx-hash>`: full transaction context.
#[derive(Debug, Clone)]
pub struct InspectArgs {
    pub tx_hash: String,
}

/// Arguments for `prism trace <tx-hash>`: replay and trace execution.
#[derive(Debug, Clone)]
pub struct TraceArgs {
    pub tx_hash: String,
}

/// Arguments for `prism profile <tx-hash>`: resource consumption profile.
#[derive(Debug, Clone)]
pub struct ProfileArgs {
    pub tx_hash: String,
}

/// Arguments for `prism diff <tx-hash>`: state diff before and after.
#[derive(Debug, Clone)]
pub struct DiffArgs {
    pub tx_hash: String,
}

/// Arguments for `prism replay <tx-hash> [-i|--interactive]`.
#[derive(Debug, Clone)]
pub struct ReplayArgs {
    pub tx_hash: String,
    /// Launch the interactive debugger.
    pub interactive: bool,
}

/// Arguments for `prism whatif <tx-hash> [--modify <patch>]`.
#[derive(Debug, Clone)]
pub struct WhatifArgs {
    pub tx_hash: String,
    /// The modification to re-simulate with.
    pub modify: Option<String>,
}

/// Arguments for `prism export <tx-hash> [--format <format>]`.
#[derive(Debug, Clone)]
pub struct ExportArgs {
    pub tx_hash: String,
    /// The export format, such as `test`.
    pub format: Option<String>,
}

/// What an analysis command line says, whichever the command.
#[verifier::ext_equal]
pub struct AnalysisArgsView {
    pub tx_hash: Seq<char>,
    pub interactive: bool,
    pub option: Option<Seq<char>>,
}

/// `Some(s@)` for `Some(s)`.
pub open spec fn opt_view(o: Option<String>) -> Option<Seq<char>> {
    match o {
        Some(s) => Some(s@),
        None => None,
    }
}

impl View for InspectArgs {
    type V = AnalysisArgsView;

    open spec fn view(&self) -> AnalysisArgsView {
        AnalysisArgsView { tx_hash: self.tx_hash@, interactive: false, option: None }
    }
}

impl View for TraceArgs {
    type V = AnalysisArgsView;

    open spec fn view(&self) -> AnalysisArgsView {
        AnalysisArgsView { tx_hash: self.tx_hash@, interactive: false, option: None }
    }
}

impl View for ProfileArgs {
    type V = AnalysisArgsView;

    open spec fn view(&self) -> AnalysisArgsView {
        AnalysisArgsView { tx_hash: self.tx_hash@, interactive: false, option: None }
    }
}

impl View for DiffArgs {
    type V = AnalysisArgsView;

    open spec fn view(&self) -> AnalysisArgsView {
        AnalysisArgsView { tx_hash: self.tx_hash@, interactive: false, option: None }
    }
}

impl View for ReplayArgs {
    type V = AnalysisArgsView;

    open spec fn view(&self) -> AnalysisArgsView {
        AnalysisArgsView { tx_hash: self.tx_hash@, interactive: self.interactive, option: None }
    }
}

impl View for WhatifArgs {
    type V = AnalysisArgsView;

    open spec fn view(&self) -> AnalysisArgsView {
        AnalysisArgsView { tx_hash: self.tx_hash@, interactive: false, option: opt_view(self.modify) }
    }
}

impl View for ExportArgs {
    type V = AnalysisArgsView;

    open spec fn view(&self) -> AnalysisArgsView {
        AnalysisArgsView { tx_hash: self.tx_hash@, interactive: false, option: opt_view(self.format) }
    }
}

} // verus!
