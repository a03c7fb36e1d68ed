//! Errors of a device and the stack of error scopes that catches them.
use vstd::prelude::*;
use vstd::pervasive::unreached;
use vstd::string::StringExecFns;

use crate::native;

verus! {

/// The kinds of errors that an error scope catches.
#[derive(Clone, Copy, Debug, PartialEq, Eq, Structural)]
pub enum ErrorFilter {
    /// Catch only out-of-memory errors.
    OutOfMemory,
    /// Catch only validation errors.
    Validation,
}

/// An error that a device reports. `source` is the text of the error of the graphics library
/// that caused it.
#[derive(Clone, Debug)]
pub enum Error {
    DeviceLost { source: String },
    OutOfMemory { source: String },
    Validation { source: String, description: String },
}

/// The text of an error.
pub open spec fn error_message(e: Error) -> Seq<char> {
    match e {
        Error::DeviceLost { .. } => "Device lost"@,
        Error::OutOfMemory { .. } => "Out of Memory"@,
        Error::Validation { description, .. } => description@,
    }
}

/// The filter of the scopes that catch an error; a lost device is caught by none.
pub open spec fn error_filter(e: Error) -> Option<ErrorFilter> {
    match e {
        Error::DeviceLost { .. } => None,
        Error::OutOfMemory { .. } => Some(ErrorFilter::OutOfMemory),
        Error::Validation { .. } => Some(ErrorFilter::Validation),
    }
}

/// The C number (`WGPUErrorType`) of the kind of an error.
pub open spec fn error_type_code(e: Error) -> u32 {
    match e {
        Error::DeviceLost { .. } => native::WGPUErrorType_DeviceLost,
        Error::OutOfMemory { .. } => native::WGPUErrorType_OutOfMemory,
        Error::Validation { .. } => native::WGPUErrorType_Validation,
    }
}

impl Error {
    /// The text of the error.
    pub fn message(&self) -> (r: String)
        ensures
            r@ == error_message(*self),
    {
        match self {
            Error::DeviceLost { .. } => String::from_str("Device lost"),
            Error::OutOfMemory { .. } => String::from_str("Out of Memory"),
            Error::Validation { description, .. } => description.clone(),
        }
    }

    /// The text of the error of the graphics library that caused this one.
    pub fn source(&self) -> (r: &String)
        ensures
            r == match *self {
                Error::DeviceLost { source } => source,
                Error::OutOfMemory { source } => source,
                Error::Validation { source, .. } => source,
            },
    {
        match self {
            Error::DeviceLost { source } => source,
            Error::OutOfMemory { source } => source,
            Error::Validation { source, .. } => source,
        }
    }

    /// The C number of the kind of the error.
    pub fn error_type(&self) -> (r: u32)
        ensures
            r == error_type_code(*self),
    {
        match self {
            Error::DeviceLost { .. } => native::WGPUErrorType_DeviceLost,
            Error::OutOfMemory { .. } => native::WGPUErrorType_OutOfMemory,
            Error::Validation { .. } => native::WGPUErrorType_Validation,
        }
    }
}

/// One scope of the stack: what it catches, and the first error it caught.
#[derive(Clone, Debug)]
pub struct ErrorScope {
    pub error: Option<Error>,
    pub filter: ErrorFilter,
}

/// What the caller of `ErrorSinkRaw::handle_error` has to do with an error.
#[derive(Clone, Debug)]
pub enum ErrorAction {
    /// A scope caught the error (or had caught an earlier one); nothing is to be reported.
    Captured,
    /// No scope catches the error: it goes to the handler of uncaptured errors.
    Uncaptured { error_type: u32, message: String },
    /// The device was lost: this goes to the device-lost handler, with the reason.
    DeviceLost { reason: u32, message: String },
}

/// What popping a scope reports: the kind of the error it caught and its text, or "no error"
/// with an empty text.
#[derive(Clone, Debug)]
pub struct ScopeReport {
    pub error_type: u32,
    pub message: String,
}

/// The index of the innermost (last pushed) scope with the given filter.
pub open spec fn innermost_scope(scopes: Seq<ErrorScope>, filter: ErrorFilter) -> Option<int>
    decreases scopes.len(),
{
    if scopes.len() == 0 {
        None
    } else if scopes.last().filter == filter {
        Some(scopes.len() - 1)
    } else {
        innermost_scope(scopes.drop_last(), filter)
    }
}

/// Every scope holds only an error of the kind that it catches.
pub open spec fn scopes_well_formed(scopes: Seq<ErrorScope>) -> bool {
    forall|i: int|
        0 <= i < scopes.len() ==> match (#[trigger] scopes[i]).error {
            Some(e) => error_filter(e) == Some(scopes[i].filter),
            None => true,
        }
}

/// The scopes after an error is handled: the innermost scope that catches it keeps it if it
/// holds no error yet; every other scope stays as it was.
pub open spec fn scopes_after_error(scopes: Seq<ErrorScope>, e: Error) -> Seq<ErrorScope> {
    match error_filter(e) {
        None => scopes,
        Some(f) => match innermost_scope(scopes, f) {
            None => scopes,
            Some(i) => if scopes[i].error is None {
                scopes.update(i, ErrorScope { error: Some(e), filter: f })
            } else {
                scopes
            },
        },
    }
}

/// Whether handling the error asks for a report to the uncaptured-error handler.
pub open spec fn is_uncaptured(scopes: Seq<ErrorScope>, e: Error) -> bool {
    match error_filter(e) {
        None => false,
        Some(f) => innermost_scope(scopes, f) is None,
    }
}

/// The action that handling an error calls for.
pub open spec fn action_matches(scopes: Seq<ErrorScope>, e: Error, a: ErrorAction) -> bool {
    match a {
        ErrorAction::Captured => error_filter(e) is Some && !is_uncaptured(scopes, e),
        ErrorAction::Uncaptured { error_type, message } => is_uncaptured(scopes, e)
            && error_type == error_type_code(e) && message@ == error_message(e),
        ErrorAction::DeviceLost { reason, message } => error_filter(e) is None
            && reason == native::WGPUDeviceLostReason_Destroyed && message@ == error_message(e),
    }
}

/// The report of a popped scope.
pub open spec fn scope_report(scope: ErrorScope, r: ScopeReport) -> bool {
    match scope.error {
        Some(e) => r.error_type == error_type_code(e) && r.message@ == error_message(e),
        None => r.error_type == native::WGPUErrorType_NoError && r.message@ == Seq::<char>::empty(),
    }
}

/// The innermost scope with a filter is a scope with that filter, and no scope pushed after it
/// has that filter; where there is none, no scope has that filter.
pub proof fn lemma_innermost_scope(scopes: Seq<ErrorScope>, filter: ErrorFilter)
    ensures
        innermost_scope(scopes, filter) matches Some(i) ==> {
            &&& 0 <= i < scopes.len()
            &&& scopes[i].filter == filter
            &&& forall|j: int| i < j < scopes.len() ==> scopes[j].filter != filter
        },
        innermost_scope(scopes, filter) is None ==> forall|j: int|
            0 <= j < scopes.len() ==> scopes[j].filter != filter,
    decreases scopes.len(),
{
    if scopes.len() > 0 && scopes.last().filter != filter {
        lemma_innermost_scope(scopes.drop_last(), filter);
        assert forall|j: int| 0 <= j < scopes.len() - 1 implies scopes[j] == scopes.drop_last()[j] by {}
    }
}

/// An error raised inside a freshly pushed scope of its kind is caught by that scope, which
/// then holds exactly it; the scopes beneath are left as they were.
pub proof fn error_is_caught_by_pushed_scope(scopes: Seq<ErrorScope>, e: Error)
    requires
        error_filter(e) is Some,
    ensures
        ({
            let pushed = scopes.push(ErrorScope { error: None, filter: error_filter(e)->0 });
            let after = scopes_after_error(pushed, e);
            &&& !is_uncaptured(pushed, e)
            &&& after.last().error == Some(e)
            &&& after.drop_last() == scopes
        }),
{
    let pushed = scopes.push(ErrorScope { error: None, filter: error_filter(e)->0 });
    assert(pushed.drop_last() == scopes);
    let after = scopes_after_error(pushed, e);
    assert(after.drop_last() =~= scopes);
}

/// Popping a freshly pushed scope after an error of its kind was raised reports that error:
/// its kind and its text; the scopes beneath are those from before the push.
pub proof fn popped_scope_reports_caught_error(scopes: Seq<ErrorScope>, e: Error, r: ScopeReport)
    requires
        error_filter(e) is Some,
        scope_report(
            scopes_after_error(scopes.push(ErrorScope { error: None, filter: error_filter(e)->0 }), e).last(),
            r,
        ),
    ensures
        r.error_type == error_type_code(e),
        r.message@ == error_message(e),
        scopes_after_error(scopes.push(ErrorScope { error: None, filter: error_filter(e)->0 }), e).drop_last()
            == scopes,
{
    error_is_caught_by_pushed_scope(scopes, e);
}

/// A scope keeps the first error it catches: once it holds one, a later error of the same kind
/// changes nothing and is not reported.
pub proof fn first_error_is_kept(scopes: Seq<ErrorScope>, e: Error)
    requires
        error_filter(e) is Some,
        innermost_scope(scopes, error_filter(e)->0) matches Some(i) && scopes[i].error is Some,
    ensures
        scopes_after_error(scopes, e) == scopes,
        !is_uncaptured(scopes, e),
{
}

/// Handling an error changes at most the innermost scope of its kind; every scope with another
/// filter, and every scope beneath it, is left unchanged.
pub proof fn other_scopes_are_untouched(scopes: Seq<ErrorScope>, e: Error, j: int)
    requires
        0 <= j < scopes.len(),
        error_filter(e) is None || scopes[j].filter != error_filter(e)->0
            || innermost_scope(scopes, error_filter(e)->0) != Some(j),
    ensures
        scopes_after_error(scopes, e).len() == scopes.len(),
        scopes_after_error(scopes, e)[j] == scopes[j],
{
    if let Some(f) = error_filter(e) {
        lemma_innermost_scope(scopes, f);
    }
}

/// An error that no scope catches leaves the scopes as they were and is reported as uncaptured;
/// a lost device never touches the scopes.
pub proof fn uncaught_errors_leave_scopes(scopes: Seq<ErrorScope>, e: Error)
    requires
        error_filter(e) is None || is_uncaptured(scopes, e),
    ensures
        scopes_after_error(scopes, e) == scopes,
{
}

/// Pushing a scope and popping it leaves the other scopes as they were, and the popped scope
/// reports no error when nothing was raised in between.
pub proof fn push_then_pop_is_neutral(scopes: Seq<ErrorScope>, filter: ErrorFilter)
    ensures
        scopes.push(ErrorScope { error: None, filter }).drop_last() == scopes,
        scopes.push(ErrorScope { error: None, filter }).last().error is None,
        scopes_well_formed(scopes) ==> scopes_well_formed(scopes.push(ErrorScope { error: None, filter })),
{
    let pushed = scopes.push(ErrorScope { error: None, filter });
    assert(pushed.drop_last() =~= scopes);
    if scopes_well_formed(scopes) {
        assert forall|i: int| 0 <= i < pushed.len() implies match (#[trigger] pushed[i]).error {
            Some(e) => error_filter(e) == Some(pushed[i].filter),
            None => true,
        } by {
            if i < scopes.len() {
                assert(pushed[i] == scopes[i]);
            }
        }
    }
}

/// Removing the innermost scope keeps every scope holding only errors of its kind.
proof fn lemma_drop_last_well_formed(scopes: Seq<ErrorScope>)
    requires
        scopes_well_formed(scopes),
        scopes.len() > 0,
    ensures
        scopes_well_formed(scopes.drop_last()),
{
    let rest = scopes.drop_last();
    assert forall|i: int| 0 <= i < rest.len() implies match (#[trigger] rest[i]).error {
        Some(e) => error_filter(e) == Some(rest[i].filter),
        None => true,
    } by {
        assert(rest[i] == scopes[i]);
    }
}

/// Storing an error of a scope's kind in it keeps every scope holding only errors of its kind.
proof fn lemma_store_well_formed(scopes: Seq<ErrorScope>, index: int, e: Error)
    requires
        scopes_well_formed(scopes),
        0 <= index < scopes.len(),
        error_filter(e) == Some(scopes[index].filter),
    ensures
        scopes_well_formed(scopes.update(index, ErrorScope { error: Some(e), filter: scopes[index].filter })),
{
    let stored = scopes.update(index, ErrorScope { error: Some(e), filter: scopes[index].filter });
    assert forall|j: int| 0 <= j < stored.len() implies match (#[trigger] stored[j]).error {
        Some(x) => error_filter(x) == Some(stored[j].filter),
        None => true,
    } by {
        if j != index {
            assert(stored[j] == scopes[j]);
        }
    }
}

/// The error scopes of a device, innermost last. Each scope holds only an error of the kind
/// it catches.
#[derive(Debug)]
pub struct ErrorSinkRaw {
    scopes: Vec<ErrorScope>,
}

impl View for ErrorSinkRaw {
    type V = Seq<ErrorScope>;

    closed spec fn view(&self) -> Seq<ErrorScope> {
        self.scopes@
    }
}

impl ErrorSinkRaw {
    #[verifier::type_invariant]
    spec fn well_formed(self) -> bool {
        scopes_well_formed(self.scopes@)
    }

    /// A sink with no scope.
    pub fn new() -> (r: ErrorSinkRaw)
        ensures
            r@ == Seq::<ErrorScope>::empty(),
    {
        ErrorSinkRaw { scopes: Vec::new() }
    }

    /// The scopes, innermost last.
    pub fn scopes(&self) -> (r: &Vec<ErrorScope>)
        ensures
            r@ == self@,
            scopes_well_formed(self@),
    {
        proof {
            use_type_invariant(self);
        }
        &self.scopes
    }

    /// Pushes a scope that catches the errors of the given kind.
    pub fn push_error_scope(&mut self, filter: ErrorFilter)
        ensures
            final(self)@ == old(self)@.push(ErrorScope { error: None, filter }),
            scopes_well_formed(final(self)@),
    {
        proof {
            use_type_invariant(&*self);
            push_then_pop_is_neutral(self.scopes@, filter);
        }
        let mut scopes: Vec<ErrorScope> = Vec::new();
        std::mem::swap(&mut scopes, &mut self.scopes);
        scopes.push(ErrorScope { error: None, filter });
        self.scopes = scopes;
    }

    /// Pushes a scope for the C number of an error filter, which must name one.
    pub fn push_native_error_scope(&mut self, filter: u32)
        requires
            filter == native::WGPUErrorFilter_Validation || filter == native::WGPUErrorFilter_OutOfMemory,
        ensures
            final(self)@ == old(self)@.push(ErrorScope {
                error: None,
                filter: if filter == native::WGPUErrorFilter_Validation {
                    ErrorFilter::Validation
                } else {
                    ErrorFilter::OutOfMemory
                },
            }),
            scopes_well_formed(final(self)@),
    {
        let filter = match map_error_filter(filter) {
            Ok(f) => f,
            Err(_) => unreached(),
        };
        self.push_error_scope(filter);
    }

    /// Pops the innermost scope, of which there must be one, and reports what it caught.
    pub fn pop_error_scope(&mut self) -> (r: ScopeReport)
        requires
            old(self)@.len() > 0,
        ensures
            final(self)@ == old(self)@.drop_last(),
            scope_report(old(self)@.last(), r),
            scopes_well_formed(final(self)@),
    {
        proof {
            use_type_invariant(&*self);
            lemma_drop_last_well_formed(self.scopes@);
        }
        let mut scopes: Vec<ErrorScope> = Vec::new();
        std::mem::swap(&mut scopes, &mut self.scopes);
        let popped = scopes.pop();
        self.scopes = scopes;
        match popped {
            None => unreached(),
            Some(scope) => {
                proof {
                    assert(scope == old(self)@[old(self)@.len() - 1]);
                }
                match scope.error {
                    Some(error) => {
                        let message = error.message();
                        let error_type = error.error_type();
                        ScopeReport { error_type, message }
                    },
                    None => ScopeReport { error_type: native::WGPUErrorType_NoError, message: String::new() },
                }
            },
        }
    }

    /// Handles an error of the device: a lost device goes to the device-lost handler; any
    /// other error is caught by the innermost scope with its filter, which keeps the first
    /// error it catches, or goes to the uncaptured-error handler where no scope catches it.
    pub fn handle_error(&mut self, err: Error) -> (r: ErrorAction)
        ensures
            final(self)@ == scopes_after_error(old(self)@, err),
            action_matches(old(self)@, err, r),
            scopes_well_formed(final(self)@),
    {
        proof {
            use_type_invariant(&*self);
        }
        let filter = match &err {
            Error::DeviceLost { .. } => {
                let message = err.message();
                return ErrorAction::DeviceLost {
                    reason: native::WGPUDeviceLostReason_Destroyed,
                    message,
                };
            },
            Error::OutOfMemory { .. } => ErrorFilter::OutOfMemory,
            Error::Validation { .. } => ErrorFilter::Validation,
        };
        let ghost scopes = self.scopes@;
        let mut i = self.scopes.len();
        assert(scopes.subrange(0, i as int) == scopes);
        while i > 0
            invariant
                i <= scopes.len(),
                self.scopes@ == scopes,
                innermost_scope(scopes, filter) == innermost_scope(scopes.subrange(0, i as int), filter),
            ensures
                i <= scopes.len(),
                self.scopes@ == scopes,
                innermost_scope(scopes, filter) == innermost_scope(scopes.subrange(0, i as int), filter),
                i == 0 || scopes[i - 1].filter == filter,
            decreases i,
        {
            let ghost prefix = scopes.subrange(0, i as int);
            assert(prefix.drop_last() == scopes.subrange(0, i - 1));
            if self.scopes[i - 1].filter == filter {
                break;
            }
            i = i - 1;
        }
        if i == 0 {
            assert(scopes.subrange(0, 0).len() == 0);
            let message = err.message();
            let error_type = err.error_type();
            return ErrorAction::Uncaptured { error_type, message };
        }
        let index = i - 1;
        if self.scopes[index].error.is_none() {
            proof {
                lemma_store_well_formed(scopes, index as int, err);
            }
            let mut stored: Vec<ErrorScope> = Vec::new();
            std::mem::swap(&mut stored, &mut self.scopes);
            stored.set(index, ErrorScope { error: Some(err), filter });
            self.scopes = stored;
        }
        ErrorAction::Captured
    }
}

/// Converts the C number of an error filter; a number that names none is handed back as the
/// error.
pub fn map_error_filter(value: u32) -> (r: Result<ErrorFilter, u32>)
    ensures
        value == native::WGPUErrorFilter_Validation ==> r == Ok::<ErrorFilter, u32>(ErrorFilter::Validation),
        value == native::WGPUErrorFilter_OutOfMemory ==> r == Ok::<ErrorFilter, u32>(ErrorFilter::OutOfMemory),
        value != native::WGPUErrorFilter_Validation && value != native::WGPUErrorFilter_OutOfMemory
            ==> r == Err::<ErrorFilter, u32>(value),
{
    match value {
        native::WGPUErrorFilter_Validation => Ok(ErrorFilter::Validation),
        native::WGPUErrorFilter_OutOfMemory => Ok(ErrorFilter::OutOfMemory),
        x => Err(x),
    }
}

/// What one error in the chain of causes of a failure says about the device.
#[derive(Clone, Copy, Debug, PartialEq, Eq, Structural)]
pub enum CauseKind {
    /// The device was lost.
    DeviceLost,
    /// The device ran out of memory.
    OutOfMemory,
    /// Anything else.
    Other,
}

/// The kind of a failure: that of the first cause in its chain that is a lost device or a lack
/// of memory; a validation error where there is none.
pub open spec fn failure_kind(chain: Seq<CauseKind>) -> CauseKind
    decreases chain.len(),
{
    if chain.len() == 0 {
        CauseKind::Other
    } else if chain[0] != CauseKind::Other {
        chain[0]
    } else {
        failure_kind(chain.drop_first())
    }
}

/// Finds the kind of a failure from the chain of its causes, outermost first.
pub fn classify_failure(chain: &Vec<CauseKind>) -> (r: CauseKind)
    ensures
        r == failure_kind(chain@),
{
    let mut i: usize = 0;
    assert(chain@.skip(0) == chain@);
    while i < chain.len()
        invariant
            i <= chain@.len(),
            failure_kind(chain@) == failure_kind(chain@.skip(i as int)),
        decreases chain.len() - i,
    {
        assert(chain@.skip(i as int).drop_first() == chain@.skip(i + 1));
        if chain[i] != CauseKind::Other {
            return chain[i];
        }
        i = i + 1;
    }
    assert(chain@.skip(i as int).len() == 0);
    CauseKind::Other
}

/// One line of the description of an error: the text of an error and its depth in the tree of
/// causes (the outermost errors are at depth one).
#[derive(Clone, Debug)]
pub struct ErrorLine {
    pub depth: usize,
    pub text: String,
}

/// `n` spaces.
pub open spec fn spaces(n: nat) -> Seq<char> {
    Seq::new(n, |i: int| ' ')
}

/// One line of a description: two spaces per level of depth, the text, and a line break.
pub open spec fn line_text(line: ErrorLine) -> Seq<char> {
    spaces(2 * line.depth as nat) + line.text@ + seq!['\n']
}

/// The lines of a description, one after the other.
pub open spec fn lines_text(lines: Seq<ErrorLine>) -> Seq<char>
    decreases lines.len(),
{
    if lines.len() == 0 {
        Seq::empty()
    } else {
        lines_text(lines.drop_last()) + line_text(lines.last())
    }
}

/// The description of a failed validation.
pub open spec fn formatted_error(lines: Seq<ErrorLine>) -> Seq<char> {
    "Validation Error\n\nCaused by:\n"@ + lines_text(lines)
}

/// Writes the description of a failure from the lines of its tree of causes.
pub fn format_error(lines: &Vec<ErrorLine>) -> (r: String)
    ensures
        r@ == formatted_error(lines@),
{
    let mut output = String::from_str("Validation Error\n\nCaused by:\n");
    let ghost header = output@;
    proof {
        reveal_strlit("  ");
        reveal_strlit("\n");
    }
    let mut i: usize = 0;
    while i < lines.len()
        invariant
            i <= lines@.len(),
            header == "Validation Error\n\nCaused by:\n"@,
            "  "@ == seq![' ', ' '],
            "\n"@ == seq!['\n'],
            output@ == header + lines_text(lines@.subrange(0, i as int)),
        decreases lines.len() - i,
    {
        let line = &lines[i];
        let ghost before = output@;
        let mut level: usize = 0;
        while level < line.depth
            invariant
                level <= line.depth,
                "  "@ == seq![' ', ' '],
                output@ == before + spaces(2 * level as nat),
            decreases line.depth - level,
        {
            output.append("  ");
            assert(spaces(2 * level as nat) + seq![' ', ' '] =~= spaces(2 * (level + 1) as nat));
            level = level + 1;
        }
        output.append(line.text.as_str());
        output.append("\n");
        assert(lines@.subrange(0, i + 1).drop_last() == lines@.subrange(0, i as int));
        assert(output@ =~= header + lines_text(lines@.subrange(0, i + 1)));
        i = i + 1;
    }
    assert(lines@.subrange(0, i as int) == lines@);
    output
}

/// The message of a failure that the library cannot report to its caller and aborts on:
/// "Error in", the name of the operation, and the description of the failure.
pub open spec fn fatal_message(lines: Seq<ErrorLine>, operation: Seq<char>) -> Seq<char> {
    "Error in "@ + operation + ": "@ + formatted_error(lines)
}

/// Writes the message with which an operation aborts on a failure that cannot be reported.
pub fn handle_error_fatal(lines: &Vec<ErrorLine>, operation: &str) -> (r: String)
    ensures
        r@ == fatal_message(lines@, operation@),
{
    let formatted = format_error(lines);
    let mut message = String::from_str("Error in ");
    message.append(operation);
    message.append(": ");
    message.append(formatted.as_str());
    message
}

/// The error that a failure becomes: a lost device, a lack of memory, or else a validation
/// error described by the lines of its tree of causes.
pub open spec fn failure_error(chain: Seq<CauseKind>, source: String, lines: Seq<ErrorLine>, e: Error) -> bool {
    match failure_kind(chain) {
        CauseKind::DeviceLost => e == Error::DeviceLost { source },
        CauseKind::OutOfMemory => e == Error::OutOfMemory { source },
        CauseKind::Other => e matches Error::Validation { source: s, description } && s == source
            && description@ == formatted_error(lines),
    }
}

/// Reports a failure of an operation on a device to its error scopes: the failure becomes an
/// error by the first cause in its chain that is a lost device or a lack of memory, and is a
/// validation error otherwise.
pub fn handle_error(
    sink: &mut ErrorSinkRaw,
    chain: &Vec<CauseKind>,
    source: String,
    lines: &Vec<ErrorLine>,
) -> (r: ErrorAction)
    ensures
        exists|e: Error| #![auto] failure_error(chain@, source, lines@, e)
            && final(sink)@ == scopes_after_error(old(sink)@, e)
            && action_matches(old(sink)@, e, r),
        scopes_well_formed(final(sink)@),
{
    let kind = classify_failure(chain);
    let error = match kind {
        CauseKind::DeviceLost => Error::DeviceLost { source },
        CauseKind::OutOfMemory => Error::OutOfMemory { source },
        CauseKind::Other => {
            let description = format_error(lines);
            Error::Validation { source, description }
        },
    };
    let ghost e = error;
    let r = sink.handle_error(error);
    assert(failure_error(chain@, source, lines@, e));
    r
}

/// The C error type of an error is the header constant of the same name as its kind, whatever
/// the error's text.
pub proof fn error_types_are_the_header_constants(e: Error)
    ensures
        e is DeviceLost ==> error_type_code(e) == native::WGPUErrorType_DeviceLost,
        e is OutOfMemory ==> error_type_code(e) == native::WGPUErrorType_OutOfMemory,
        e is Validation ==> error_type_code(e) == native::WGPUErrorType_Validation,
{
}

} // verus!
