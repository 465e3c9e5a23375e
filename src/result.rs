//! Diagnostics and the reporter that accumulates them during one scan.
use vstd::prelude::*;
use crate::ast::Location;

verus! {

broadcast use vstd::string::to_string_from_display_ensures_for_str;

/// How serious a diagnostic is. `Boost` marks an optimisation opportunity.
#[derive(Clone, Copy, Debug, PartialEq, Eq, Structural)]
pub enum Severity {
    Error,
    Warning,
    Info,
    Boost,
}

impl Severity {
    /// The upper-case label under which the severity is printed.
    pub fn label(&self) -> (r: &'static str)
        ensures
            r@ == severity_label(*self),
    {
        match self {
            Severity::Error => "ERROR",
            Severity::Warning => "WARNING",
            Severity::Info => "INFO",
            Severity::Boost => "BOOST",
        }
    }
}

/// The label of each severity.
pub open spec fn severity_label(s: Severity) -> Seq<char> {
    match s {
        Severity::Error => "ERROR"@,
        Severity::Warning => "WARNING"@,
        Severity::Info => "INFO"@,
        Severity::Boost => "BOOST"@,
    }
}

/// The mathematical value of a diagnostic.
pub struct Diagnostic {
    pub line: usize,
    pub column: usize,
    pub severity: Severity,
    pub message: Seq<char>,
}

/// A diagnostic at `loc` with the given severity and message.
pub open spec fn diagnostic(loc: Location, severity: Severity, message: Seq<char>) -> Diagnostic {
    Diagnostic { line: loc.line, column: loc.column, severity, message }
}

/// One finding of a rule.
#[derive(Debug)]
pub struct Report {
    pub line: usize,
    pub column: usize,
    pub severity: Severity,
    pub message: String,
}

impl View for Report {
    type V = Diagnostic;

    open spec fn view(&self) -> Diagnostic {
        Diagnostic {
            line: self.line,
            column: self.column,
            severity: self.severity,
            message: self.message@,
        }
    }
}

/// Append-only, ordered collection of the diagnostics of one scan.
#[derive(Debug)]
pub struct Reporter {
    reports: Vec<Report>,
}

impl View for Reporter {
    type V = Seq<Diagnostic>;

    closed spec fn view(&self) -> Seq<Diagnostic> {
        self.reports@.map_values(|r: Report| r@)
    }
}

impl Default for Reporter {
    fn default() -> (r: Reporter)
        ensures
            r@ == Seq::<Diagnostic>::empty(),
    {
        Reporter::new()
    }
}

impl Reporter {
    /// An empty reporter.
    pub fn new() -> (r: Reporter)
        ensures
            r@ == Seq::<Diagnostic>::empty(),
    {
        let r = Reporter { reports: Vec::new() };
        assert(r@ =~= Seq::<Diagnostic>::empty());
        r
    }

    /// Appends one diagnostic; nothing is filtered or merged.
    pub fn report(&mut self, line: usize, column: usize, severity: Severity, message: &str)
        ensures
            final(self)@ == old(self)@.push(
                Diagnostic { line, column, severity, message: message@ },
            ),
    {
        let r = Report { line, column, severity, message: message.to_string() };
        self.reports.push(r);
        assert(self@ =~= old(self)@.push(Diagnostic { line, column, severity, message: message@ }));
    }

    /// The diagnostics, in the order in which they were reported.
    pub fn reports(&self) -> (r: &[Report])
        ensures
            r@.map_values(|x: Report| x@) == self@,
    {
        self.reports.as_slice()
    }
}

} // verus!
