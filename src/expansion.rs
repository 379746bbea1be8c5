//! One expansion: what is handed to the runtime's compiler, and what a
//! compilation outcome turns into.

use vstd::prelude::*;
use crate::diagnostic::{PendingError, compile_error_msg, diagnosis, rendered};

verus! {

/// Format version under which compiled forms are marshaled; the runtime's
/// deserializer must read the same version.
pub const MARSHAL_VERSION: i32 = 2;

/// Location reported for a script whose source file is not known.
pub open spec fn unknown_file() -> Seq<char> {
    "<unknown>"@
}

/// The exact text to compile and the location to report in diagnostics.
pub struct SourceUnit {
    pub text: String,
    pub filename: String,
}

impl SourceUnit {
    /// The unit for script `text`, located in `filename` when it is known.
    pub fn new(text: String, filename: Option<String>) -> (r: SourceUnit)
        ensures
            r.text@ == text@,
            r.filename@ == match filename {
                Some(f) => f@,
                None => unknown_file(),
            },
    {
        let filename = match filename {
            Some(f) => f,
            None => String::from_str("<unknown>"),
        };
        SourceUnit { text, filename }
    }
}

/// What the runtime's compiler gave for a [`SourceUnit`].
pub enum CompileOutcome {
    /// It compiled; the compiled form marshaled to these bytes.
    Compiled { marshaled: Vec<u8> },
    /// It failed, with this failure pending in the runtime (`None`: none was).
    Failed { pending: Option<PendingError> },
}

/// Where the generated code takes its execution context from.
pub enum ContextSource<E> {
    /// The expression given by the invocation.
    Supplied(E),
    /// A new context, created under the runtime lock.
    Fresh,
}

/// The context source for an invocation's `context` option.
pub open spec fn context_source<E>(context: Option<E>) -> ContextSource<E> {
    match context {
        Some(e) => ContextSource::Supplied(e),
        None => ContextSource::Fresh,
    }
}

/// What the generated code is made of: the marshaled bytes, embedded as a
/// literal, and where the context comes from.
pub struct Expansion<E> {
    pub bytecode: Vec<u8>,
    pub context: ContextSource<E>,
}

/// Finishes an expansion once compilation is over.
///
/// A compiled script yields its marshaled bytes, unchanged, and the context
/// source for `context`. A failed one aborts the expansion with the message
/// of the failure's diagnostic.
pub fn expand<E>(context: Option<E>, outcome: CompileOutcome) -> (r: Result<Expansion<E>, String>)
    ensures
        match outcome {
            CompileOutcome::Compiled { marshaled } => r matches Ok(x) && x.bytecode@
                == marshaled@ && x.context == context_source(context),
            CompileOutcome::Failed { pending } => r matches Err(m) && m@ == rendered(
                diagnosis(pending),
            ),
        },
{
    match outcome {
        CompileOutcome::Compiled { marshaled } => {
            let context = match context {
                Some(e) => ContextSource::Supplied(e),
                None => ContextSource::Fresh,
            };
            Ok(Expansion { bytecode: marshaled, context })
        },
        CompileOutcome::Failed { pending } => Err(compile_error_msg(pending)),
    }
}

} // verus!
