//! Error kinds, source locations, severities and error context.

use vstd::prelude::*;
use crate::num_text::{decimal, push_decimal};
use crate::str_map::StrMap;
use crate::text::{clone_strings, owned, strings_view};

verus! {

/// Every error the runtime reports; each carries a message.
#[derive(Debug, Clone, PartialEq)]
pub enum BeejsError {
    V8Error(String),
    JsExecutionError(String),
    MultiLanguageError(String),
    PlatformError(String),
    CompilationError(String),
    RuntimeError(String),
    SecurityError(String),
    PerformanceError(String),
    NetworkError(String),
    IoError(String),
    ConfigurationError(String),
    ResourceError(String),
}

/// The message an error carries.
pub open spec fn error_message(e: BeejsError) -> Seq<char> {
    match e {
        BeejsError::V8Error(m) => m@,
        BeejsError::JsExecutionError(m) => m@,
        BeejsError::MultiLanguageError(m) => m@,
        BeejsError::PlatformError(m) => m@,
        BeejsError::CompilationError(m) => m@,
        BeejsError::RuntimeError(m) => m@,
        BeejsError::SecurityError(m) => m@,
        BeejsError::PerformanceError(m) => m@,
        BeejsError::NetworkError(m) => m@,
        BeejsError::IoError(m) => m@,
        BeejsError::ConfigurationError(m) => m@,
        BeejsError::ResourceError(m) => m@,
    }
}

/// The label that precedes the message when an error is displayed.
pub open spec fn error_label(e: BeejsError) -> Seq<char> {
    match e {
        BeejsError::V8Error(_) => "V8 Error: "@,
        BeejsError::JsExecutionError(_) => "JavaScript Execution Error: "@,
        BeejsError::MultiLanguageError(_) => "Multi-language Error: "@,
        BeejsError::PlatformError(_) => "Platform Error: "@,
        BeejsError::CompilationError(_) => "Compilation Error: "@,
        BeejsError::RuntimeError(_) => "Runtime Error: "@,
        BeejsError::SecurityError(_) => "Security Error: "@,
        BeejsError::PerformanceError(_) => "Performance Error: "@,
        BeejsError::NetworkError(_) => "Network Error: "@,
        BeejsError::IoError(_) => "IO Error: "@,
        BeejsError::ConfigurationError(_) => "Configuration Error: "@,
        BeejsError::ResourceError(_) => "Resource Error: "@,
    }
}

impl BeejsError {
    /// An equal copy of this error.
    pub fn duplicate(&self) -> (r: BeejsError)
        ensures
            r == *self,
    {
        match self {
            BeejsError::V8Error(m) => BeejsError::V8Error(m.clone()),
            BeejsError::JsExecutionError(m) => BeejsError::JsExecutionError(m.clone()),
            BeejsError::MultiLanguageError(m) => BeejsError::MultiLanguageError(m.clone()),
            BeejsError::PlatformError(m) => BeejsError::PlatformError(m.clone()),
            BeejsError::CompilationError(m) => BeejsError::CompilationError(m.clone()),
            BeejsError::RuntimeError(m) => BeejsError::RuntimeError(m.clone()),
            BeejsError::SecurityError(m) => BeejsError::SecurityError(m.clone()),
            BeejsError::PerformanceError(m) => BeejsError::PerformanceError(m.clone()),
            BeejsError::NetworkError(m) => BeejsError::NetworkError(m.clone()),
            BeejsError::IoError(m) => BeejsError::IoError(m.clone()),
            BeejsError::ConfigurationError(m) => BeejsError::ConfigurationError(m.clone()),
            BeejsError::ResourceError(m) => BeejsError::ResourceError(m.clone()),
        }
    }

    /// The message this error carries.
    pub fn message(&self) -> (r: &String)
        ensures
            r@ == error_message(*self),
    {
        match self {
            BeejsError::V8Error(m) => m,
            BeejsError::JsExecutionError(m) => m,
            BeejsError::MultiLanguageError(m) => m,
            BeejsError::PlatformError(m) => m,
            BeejsError::CompilationError(m) => m,
            BeejsError::RuntimeError(m) => m,
            BeejsError::SecurityError(m) => m,
            BeejsError::PerformanceError(m) => m,
            BeejsError::NetworkError(m) => m,
            BeejsError::IoError(m) => m,
            BeejsError::ConfigurationError(m) => m,
            BeejsError::ResourceError(m) => m,
        }
    }

    /// The displayed form: the kind's label followed by the message.
    pub fn display_text(&self) -> (r: String)
        ensures
            r@ == error_label(*self) + error_message(*self),
    {
        let label = match self {
            BeejsError::V8Error(_) => owned("V8 Error: "),
            BeejsError::JsExecutionError(_) => owned("JavaScript Execution Error: "),
            BeejsError::MultiLanguageError(_) => owned("Multi-language Error: "),
            BeejsError::PlatformError(_) => owned("Platform Error: "),
            BeejsError::CompilationError(_) => owned("Compilation Error: "),
            BeejsError::RuntimeError(_) => owned("Runtime Error: "),
            BeejsError::SecurityError(_) => owned("Security Error: "),
            BeejsError::PerformanceError(_) => owned("Performance Error: "),
            BeejsError::NetworkError(_) => owned("Network Error: "),
            BeejsError::IoError(_) => owned("IO Error: "),
            BeejsError::ConfigurationError(_) => owned("Configuration Error: "),
            BeejsError::ResourceError(_) => owned("Resource Error: "),
        };
        label.concat(self.message().as_str())
    }
}

/// Where in the source an error arose.
#[derive(Debug, PartialEq)]
pub struct SourceLocation {
    pub file: String,
    pub line: u32,
    pub column: Option<u32>,
    pub function: String,
}

/// `file:line` or `file:line:column`.
pub open spec fn location_text(file: Seq<char>, line: u32, column: Option<u32>) -> Seq<char> {
    match column {
        Some(col) => file + ":"@ + decimal(line as nat) + ":"@ + decimal(col as nat),
        None => file + ":"@ + decimal(line as nat),
    }
}

impl SourceLocation {
    /// A location without a column.
    pub fn new(file: String, line: u32, function: String) -> (r: SourceLocation)
        ensures
            r.file == file,
            r.line == line,
            r.column is None,
            r.function == function,
    {
        SourceLocation { file, line, column: None, function }
    }

    /// The same location with the given column.
    pub fn with_column(self, column: u32) -> (r: SourceLocation)
        ensures
            r == (SourceLocation { column: Some(column), ..self }),
    {
        SourceLocation { column: Some(column), ..self }
    }

    /// `file:line`, with `:column` when a column is known.
    pub fn to_string(&self) -> (r: String)
        ensures
            r@ == location_text(self.file@, self.line, self.column),
    {
        let mut s = self.file.clone();
        s.append(":");
        push_decimal(&mut s, self.line as u64);
        match self.column {
            Some(col) => {
                s.append(":");
                push_decimal(&mut s, col as u64);
            },
            None => {},
        }
        proof {
            reveal_strlit(":");
        }
        s
    }

    /// An equal copy of this location.
    pub fn duplicate(&self) -> (r: SourceLocation)
        ensures
            r == *self,
    {
        SourceLocation {
            file: self.file.clone(),
            line: self.line,
            column: self.column,
            function: self.function.clone(),
        }
    }
}

/// One frame of a stack trace.
#[derive(Debug, PartialEq)]
pub struct StackFrame {
    pub function: String,
    pub file: String,
    pub line: u32,
    pub column: Option<u32>,
}

/// How badly an error affects the runtime.
#[derive(Debug, Clone, Copy, PartialEq, Eq, Structural)]
pub enum ErrorSeverity {
    Low,
    Medium,
    High,
    Critical,
}

/// The severity's displayed label.
pub open spec fn severity_label(s: ErrorSeverity) -> Seq<char> {
    match s {
        ErrorSeverity::Low => "LOW"@,
        ErrorSeverity::Medium => "MEDIUM"@,
        ErrorSeverity::High => "HIGH"@,
        ErrorSeverity::Critical => "CRITICAL"@,
    }
}

impl ErrorSeverity {
    /// The displayed label: `LOW`, `MEDIUM`, `HIGH` or `CRITICAL`.
    pub fn label(&self) -> (r: String)
        ensures
            r@ == severity_label(*self),
    {
        match self {
            ErrorSeverity::Low => owned("LOW"),
            ErrorSeverity::Medium => owned("MEDIUM"),
            ErrorSeverity::High => owned("HIGH"),
            ErrorSeverity::Critical => owned("CRITICAL"),
        }
    }
}

/// The severity assigned to each kind of error.
pub open spec fn severity_of(e: BeejsError) -> ErrorSeverity {
    match e {
        BeejsError::V8Error(_) | BeejsError::JsExecutionError(_) => ErrorSeverity::High,
        BeejsError::MultiLanguageError(_) | BeejsError::PlatformError(_) => ErrorSeverity::Medium,
        BeejsError::CompilationError(_) | BeejsError::RuntimeError(_) => ErrorSeverity::High,
        BeejsError::SecurityError(_) => ErrorSeverity::Critical,
        BeejsError::PerformanceError(_) | BeejsError::NetworkError(_) => ErrorSeverity::Medium,
        BeejsError::IoError(_) | BeejsError::ConfigurationError(_) => ErrorSeverity::Low,
        BeejsError::ResourceError(_) => ErrorSeverity::Medium,
    }
}

/// The three recovery suggestions offered for each kind of error.
pub open spec fn suggestions_for(e: BeejsError) -> Seq<Seq<char>> {
    match e {
        BeejsError::V8Error(_) => seq![
            "Check V8 version compatibility"@,
            "Verify isolate state"@,
            "Review API usage"@,
        ],
        BeejsError::JsExecutionError(_) => seq![
            "Check JavaScript syntax"@,
            "Verify variable types"@,
            "Review function calls"@,
        ],
        BeejsError::MultiLanguageError(_) => seq![
            "Initialize runtime before use"@,
            "Check module imports"@,
            "Verify language bindings"@,
        ],
        BeejsError::PlatformError(_) => seq![
            "Check platform compatibility"@,
            "Verify runtime installation"@,
            "Review platform-specific code"@,
        ],
        BeejsError::CompilationError(_) => seq![
            "Fix syntax errors"@,
            "Check type definitions"@,
            "Review import statements"@,
        ],
        BeejsError::RuntimeError(_) => seq![
            "Check runtime state"@,
            "Verify resource availability"@,
            "Review execution flow"@,
        ],
        BeejsError::SecurityError(_) => seq![
            "Check security policies"@,
            "Verify permissions"@,
            "Review access controls"@,
        ],
        BeejsError::PerformanceError(_) => seq![
            "Optimize resource usage"@,
            "Check memory allocation"@,
            "Review performance bottlenecks"@,
        ],
        BeejsError::NetworkError(_) => seq![
            "Check network connectivity"@,
            "Verify URL/endpoint"@,
            "Review timeout settings"@,
        ],
        BeejsError::IoError(_) => seq![
            "Check file/directory permissions"@,
            "Verify path existence"@,
            "Review I/O operations"@,
        ],
        BeejsError::ConfigurationError(_) => seq![
            "Check configuration file"@,
            "Verify configuration values"@,
            "Review environment variables"@,
        ],
        BeejsError::ResourceError(_) => seq![
            "Check resource availability"@,
            "Optimize resource usage"@,
            "Review resource limits"@,
        ],
    }
}

fn three(a: &str, b: &str, c: &str) -> (r: Vec<String>)
    ensures
        strings_view(r@) == seq![a@, b@, c@],
{
    let r = vec![owned(a), owned(b), owned(c)];
    assert(strings_view(r@) =~= seq![a@, b@, c@]);
    r
}

/// The lines of a context's suggestions, each indented under a dash.
pub open spec fn suggestion_lines(s: Seq<Seq<char>>) -> Seq<char>
    decreases s.len(),
{
    if s.len() == 0 {
        Seq::empty()
    } else {
        suggestion_lines(s.drop_last()) + "\n  - "@ + s.last()
    }
}

/// Where a context's error arose, as displayed: nothing where unknown.
pub open spec fn location_part(loc: Option<SourceLocation>) -> Seq<char> {
    match loc {
        Some(l) => " at "@ + location_text(l.file@, l.line, l.column),
        None => Seq::empty(),
    }
}

/// The displayed form of an error context.
pub open spec fn context_text(c: ErrorContext) -> Seq<char> {
    "Error: "@ + error_label(c.error_type) + error_message(c.error_type) + " (Severity: "@
        + severity_label(c.severity) + ")"@ + location_part(c.source_location) + if c.recovery_suggestions@.len() == 0 {
        Seq::empty()
    } else {
        "\nSuggestions:"@ + suggestion_lines(strings_view(c.recovery_suggestions@))
    }
}

/// Everything known about one error occurrence.
pub struct ErrorContext {
    pub error_type: BeejsError,
    pub source_location: Option<SourceLocation>,
    pub stack_trace: Vec<StackFrame>,
    pub severity: ErrorSeverity,
    pub timestamp: std::time::Instant,
    pub recovery_suggestions: Vec<String>,
    pub metadata: StrMap,
}

impl ErrorContext {
    /// Context for an error raised at `file:line` in `function`.
    pub fn new(error_type: BeejsError, file: String, line: u32, function: String) -> (r: ErrorContext)
        ensures
            r.error_type == error_type,
            r.source_location == Some(SourceLocation { file, line, column: None, function }),
            r.stack_trace@.len() == 0,
            r.severity == severity_of(error_type),
            strings_view(r.recovery_suggestions@) == suggestions_for(error_type),
            r.metadata@ == Map::<Seq<char>, Seq<char>>::empty(),
    {
        let source_location = Some(SourceLocation::new(file, line, function));
        let recovery_suggestions = Self::generate_recovery_suggestions(&error_type);
        let severity = Self::determine_severity(&error_type);
        ErrorContext {
            error_type,
            source_location,
            stack_trace: Vec::new(),
            severity,
            timestamp: crate::time::instant_now(),
            recovery_suggestions,
            metadata: StrMap::new(),
        }
    }

    /// Context for an error whose source location is unknown.
    pub fn new_without_location(error_type: BeejsError) -> (r: ErrorContext)
        ensures
            r.error_type == error_type,
            r.source_location is None,
            r.stack_trace@.len() == 0,
            r.severity == severity_of(error_type),
            strings_view(r.recovery_suggestions@) == suggestions_for(error_type),
            r.metadata@ == Map::<Seq<char>, Seq<char>>::empty(),
    {
        let recovery_suggestions = Self::generate_recovery_suggestions(&error_type);
        let severity = Self::determine_severity(&error_type);
        ErrorContext {
            error_type,
            source_location: None,
            stack_trace: Vec::new(),
            severity,
            timestamp: crate::time::instant_now(),
            recovery_suggestions,
            metadata: StrMap::new(),
        }
    }

    /// The severity of an error, by its kind.
    pub fn determine_severity(error: &BeejsError) -> (r: ErrorSeverity)
        ensures
            r == severity_of(*error),
    {
        match error {
            BeejsError::V8Error(_) | BeejsError::JsExecutionError(_) => ErrorSeverity::High,
            BeejsError::MultiLanguageError(_) | BeejsError::PlatformError(_) => ErrorSeverity::Medium,
            BeejsError::CompilationError(_) | BeejsError::RuntimeError(_) => ErrorSeverity::High,
            BeejsError::SecurityError(_) => ErrorSeverity::Critical,
            BeejsError::PerformanceError(_) | BeejsError::NetworkError(_) => ErrorSeverity::Medium,
            BeejsError::IoError(_) | BeejsError::ConfigurationError(_) => ErrorSeverity::Low,
            BeejsError::ResourceError(_) => ErrorSeverity::Medium,
        }
    }

    /// The recovery suggestions for an error, by its kind.
    pub fn generate_recovery_suggestions(error: &BeejsError) -> (r: Vec<String>)
        ensures
            strings_view(r@) == suggestions_for(*error),
    {
        match error {
            BeejsError::V8Error(_) => three(
                "Check V8 version compatibility",
                "Verify isolate state",
                "Review API usage",
            ),
            BeejsError::JsExecutionError(_) => three(
                "Check JavaScript syntax",
                "Verify variable types",
                "Review function calls",
            ),
            BeejsError::MultiLanguageError(_) => three(
                "Initialize runtime before use",
                "Check module imports",
                "Verify language bindings",
            ),
            BeejsError::PlatformError(_) => three(
                "Check platform compatibility",
                "Verify runtime installation",
                "Review platform-specific code",
            ),
            BeejsError::CompilationError(_) => three(
                "Fix syntax errors",
                "Check type definitions",
                "Review import statements",
            ),
            BeejsError::RuntimeError(_) => three(
                "Check runtime state",
                "Verify resource availability",
                "Review execution flow",
            ),
            BeejsError::SecurityError(_) => three(
                "Check security policies",
                "Verify permissions",
                "Review access controls",
            ),
            BeejsError::PerformanceError(_) => three(
                "Optimize resource usage",
                "Check memory allocation",
                "Review performance bottlenecks",
            ),
            BeejsError::NetworkError(_) => three(
                "Check network connectivity",
                "Verify URL/endpoint",
                "Review timeout settings",
            ),
            BeejsError::IoError(_) => three(
                "Check file/directory permissions",
                "Verify path existence",
                "Review I/O operations",
            ),
            BeejsError::ConfigurationError(_) => three(
                "Check configuration file",
                "Verify configuration values",
                "Review environment variables",
            ),
            BeejsError::ResourceError(_) => three(
                "Check resource availability",
                "Optimize resource usage",
                "Review resource limits",
            ),
        }
    }

    /// Appends a frame to the stack trace.
    pub fn add_stack_frame(&mut self, frame: StackFrame)
        ensures
            final(self).stack_trace@ == old(self).stack_trace@.push(frame),
            final(self).error_type == old(self).error_type,
            final(self).metadata@ == old(self).metadata@,
            final(self).recovery_suggestions@ == old(self).recovery_suggestions@,
    {
        self.stack_trace.push(frame);
    }

    /// Sets a metadata entry.
    pub fn add_metadata(&mut self, key: String, value: String)
        ensures
            final(self).metadata@ == old(self).metadata@.insert(key@, value@),
            final(self).stack_trace@ == old(self).stack_trace@,
            final(self).error_type == old(self).error_type,
            final(self).recovery_suggestions@ == old(self).recovery_suggestions@,
    {
        self.metadata.insert(key, value);
    }

    /// A copy of the recovery suggestions.
    pub fn get_recovery_suggestions(&self) -> (r: Vec<String>)
        ensures
            r@ == self.recovery_suggestions@,
    {
        clone_strings(&self.recovery_suggestions)
    }

    /// The displayed form: the error and its severity, where it arose, and the
    /// suggestions, one per line.
    pub fn display_text(&self) -> (r: String)
        ensures
            r@ == context_text(*self),
    {
        let mut s = owned("Error: ");
        let e = self.error_type.display_text();
        s.append(e.as_str());
        s.append(" (Severity: ");
        let l = self.severity.label();
        s.append(l.as_str());
        s.append(")");
        let ghost head = s@;
        match &self.source_location {
            Some(loc) => {
                s.append(" at ");
                let t = loc.to_string();
                s.append(t.as_str());
            },
            None => {},
        }
        let ghost located = s@;
        assert(located == head + location_part(self.source_location));
        if self.recovery_suggestions.len() > 0 {
            s.append("\nSuggestions:");
            let mut i: usize = 0;
            while i < self.recovery_suggestions.len()
                invariant
                    i <= self.recovery_suggestions@.len(),
                    s@ == located + "\nSuggestions:"@ + suggestion_lines(strings_view(self.recovery_suggestions@).take(i as int)),
                decreases self.recovery_suggestions@.len() - i,
            {
                let ghost before = s@;
                s.append("\n  - ");
                s.append(self.recovery_suggestions[i].as_str());
                proof {
                    let t = strings_view(self.recovery_suggestions@).take(i as int + 1);
                    assert(t.drop_last() =~= strings_view(self.recovery_suggestions@).take(i as int));
                    assert(t.last() == self.recovery_suggestions@[i as int]@);
                    assert(s@ =~= located + "\nSuggestions:"@ + suggestion_lines(t));
                }
                i = i + 1;
            }
            assert(strings_view(self.recovery_suggestions@).take(self.recovery_suggestions@.len() as int) =~= strings_view(self.recovery_suggestions@));
        }
        s
    }

    /// Time since the context was created; a clock reading, so nothing is promised
    /// of its value.
    pub fn get_duration(&self) -> std::time::Duration {
        crate::time::instant_elapsed(&self.timestamp)
    }
}

} // verus!
