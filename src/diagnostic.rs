//! Diagnostics for a script that the embedded runtime failed to compile.

use vstd::prelude::*;

verus! {

/// The ten decimal digits, in order.
pub open spec fn digit_chars() -> Seq<char> {
    seq!['0', '1', '2', '3', '4', '5', '6', '7', '8', '9']
}

/// Decimal digits of a natural number, most significant first, no leading zeros.
pub open spec fn decimal_nat(n: nat) -> Seq<char>
    decreases n,
{
    if n < 10 {
        seq![digit_chars()[n as int]]
    } else {
        decimal_nat(n / 10) + seq![digit_chars()[(n % 10) as int]]
    }
}

/// Decimal text of an integer, with a leading `-` when it is negative.
pub open spec fn decimal(i: int) -> Seq<char> {
    if i < 0 {
        seq!['-'] + decimal_nat((-i) as nat)
    } else {
        decimal_nat(i as nat)
    }
}

fn digit_str(d: u64) -> (r: &'static str)
    requires
        d < 10,
    ensures
        r@ == seq![digit_chars()[d as int]],
{
    proof {
        reveal_strlit("0");
        reveal_strlit("1");
        reveal_strlit("2");
        reveal_strlit("3");
        reveal_strlit("4");
        reveal_strlit("5");
        reveal_strlit("6");
        reveal_strlit("7");
        reveal_strlit("8");
        reveal_strlit("9");
    }
    match d {
        0 => "0",
        1 => "1",
        2 => "2",
        3 => "3",
        4 => "4",
        5 => "5",
        6 => "6",
        7 => "7",
        8 => "8",
        _ => "9",
    }
}

fn push_decimal_nat(out: &mut String, n: u64)
    ensures
        final(out)@ == old(out)@ + decimal_nat(n as nat),
    decreases n,
{
    if n >= 10 {
        push_decimal_nat(out, n / 10);
    }
    let d = digit_str(n % 10);
    out.append(d);
    assert(final(out)@ =~= old(out)@ + decimal_nat(n as nat));
}

/// Appends the decimal text of `v` to `out`.
pub fn push_decimal(out: &mut String, v: i32)
    ensures
        final(out)@ == old(out)@ + decimal(v as int),
{
    if v < 0 {
        out.append("-");
        let m: u64 = (-(v as i64)) as u64;
        push_decimal_nat(out, m);
        proof {
            reveal_strlit("-");
            assert(final(out)@ =~= old(out)@ + decimal(v as int));
        }
    } else {
        push_decimal_nat(out, v as u64);
    }
}

/// The fields that a syntax failure carries: the runtime reports it as
/// `(message, (file, line, column, token))`.
pub struct SyntaxDetails {
    pub message: String,
    pub file: String,
    pub line: i32,
    pub column: i32,
    /// The offending source text; reports leave it out.
    pub token: String,
}

/// The value attached to a pending failure, as read from the runtime.
pub struct ErrorValue {
    /// The value destructured as syntax details, where it has that shape.
    pub syntax_details: Option<SyntaxDetails>,
    /// The value's own string representation (its `str()`).
    pub text: String,
}

/// A failure pending in the embedded runtime after a compilation failed.
pub struct PendingError {
    /// Whether the failure's kind is the runtime's built-in syntax-error kind.
    pub is_syntax_error: bool,
    /// The bare name of the failure's kind.
    pub kind_name: String,
    /// The value attached to the failure, if any.
    pub value: Option<ErrorValue>,
}

/// A structured report of why a script failed to compile.
pub enum Diagnostic {
    Syntax { message: String, file: String, line: i32, column: i32 },
    Generic { description: String },
}

/// Mathematical model of a [`Diagnostic`].
pub ghost enum DiagnosticView {
    Syntax { message: Seq<char>, file: Seq<char>, line: int, column: int },
    Generic { description: Seq<char> },
}

impl View for Diagnostic {
    type V = DiagnosticView;

    open spec fn view(&self) -> DiagnosticView {
        match self {
            Diagnostic::Syntax { message, file, line, column } => DiagnosticView::Syntax {
                message: message@,
                file: file@,
                line: *line as int,
                column: *column as int,
            },
            Diagnostic::Generic { description } => DiagnosticView::Generic {
                description: description@,
            },
        }
    }
}

/// Text reported when compilation failed but the runtime holds no failure.
pub open spec fn no_detail_text() -> Seq<char> {
    "failed to compile python code, but no detailed error is available"@
}

/// The diagnostic for a pending failure (`None`: nothing pending).
///
/// A syntax failure whose value has the syntax shape keeps its location; any
/// other value falls back to its string representation, and a failure without
/// a value to the bare name of its kind.
pub open spec fn diagnosis(pending: Option<PendingError>) -> DiagnosticView {
    match pending {
        None => DiagnosticView::Generic { description: no_detail_text() },
        Some(p) => match p.value {
            None => DiagnosticView::Generic { description: p.kind_name@ },
            Some(v) => if p.is_syntax_error && v.syntax_details is Some {
                let d = v.syntax_details->Some_0;
                DiagnosticView::Syntax {
                    message: d.message@,
                    file: d.file@,
                    line: d.line as int,
                    column: d.column as int,
                }
            } else {
                DiagnosticView::Generic { description: v.text@ }
            },
        },
    }
}

/// `{message} at {file}:{line}:{column}` for a syntax diagnostic, the bare
/// description otherwise.
pub open spec fn rendered(d: DiagnosticView) -> Seq<char> {
    match d {
        DiagnosticView::Syntax { message, file, line, column } => message + " at "@ + file + ":"@
            + decimal(line) + ":"@ + decimal(column),
        DiagnosticView::Generic { description } => description,
    }
}

impl Diagnostic {
    /// Builds the diagnostic for the failure pending after a compilation failed.
    pub fn from_pending(pending: Option<PendingError>) -> (r: Diagnostic)
        ensures
            r@ == diagnosis(pending),
    {
        match pending {
            None => Diagnostic::Generic {
                description: String::from_str(
                    "failed to compile python code, but no detailed error is available",
                ),
            },
            Some(p) => match p.value {
                None => Diagnostic::Generic { description: p.kind_name },
                Some(v) => {
                    if p.is_syntax_error {
                        match v.syntax_details {
                            Some(d) => Diagnostic::Syntax {
                                message: d.message,
                                file: d.file,
                                line: d.line,
                                column: d.column,
                            },
                            None => Diagnostic::Generic { description: v.text },
                        }
                    } else {
                        Diagnostic::Generic { description: v.text }
                    }
                },
            },
        }
    }

    /// The diagnostic's message text.
    pub fn render(&self) -> (r: String)
        ensures
            r@ == rendered(self@),
    {
        match self {
            Diagnostic::Syntax { message, file, line, column } => {
                let mut out = message.clone();
                out.append(" at ");
                out.append(file.as_str());
                out.append(":");
                push_decimal(&mut out, *line);
                out.append(":");
                push_decimal(&mut out, *column);
                out
            },
            Diagnostic::Generic { description } => description.clone(),
        }
    }
}

/// The message with which an expansion aborts when compilation failed.
pub fn compile_error_msg(pending: Option<PendingError>) -> (r: String)
    ensures
        r@ == rendered(diagnosis(pending)),
{
    Diagnostic::from_pending(pending).render()
}

/// A syntax failure whose value has the syntax shape is reported as
/// `{message} at {file}:{line}:{column}`, with the four fields exactly as the
/// runtime gave them.
pub proof fn syntax_failure_reports_location(p: PendingError)
    requires
        p.is_syntax_error,
        p.value is Some,
        p.value->Some_0.syntax_details is Some,
    ensures
        ({
            let d = p.value->Some_0.syntax_details->Some_0;
            &&& diagnosis(Some(p)) is Syntax
            &&& rendered(diagnosis(Some(p))) == d.message@ + " at "@ + d.file@ + ":"@ + decimal(
                d.line as int,
            ) + ":"@ + decimal(d.column as int)
        }),
{
}

/// Any other pending failure degrades to a generic diagnostic: the string
/// representation of its value, or the bare name of its kind when it has none.
pub proof fn other_failure_degrades_to_text(p: PendingError)
    requires
        !p.is_syntax_error || p.value is None || p.value->Some_0.syntax_details is None,
    ensures
        diagnosis(Some(p)) is Generic,
        rendered(diagnosis(Some(p))) == match p.value {
            Some(v) => v.text@,
            None => p.kind_name@,
        },
{
}

} // verus!
