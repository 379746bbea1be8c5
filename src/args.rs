//! The option list of an invocation: `name: expression` entries ahead of the
//! script body, each recognized name set at most once.

use vstd::prelude::*;

verus! {

/// One `name: expression` entry, with where its name stands in the source.
pub struct NameValue<S, E> {
    pub name: String,
    pub name_span: S,
    pub value: E,
}

/// Why an option list was rejected.
#[derive(Clone, Copy, Debug, PartialEq, Eq, Structural)]
pub enum AttrErrorKind {
    Unknown,
    Duplicate,
}

/// A rejected option list: what went wrong, and at which name.
pub struct AttrError<S> {
    pub kind: AttrErrorKind,
    pub span: S,
}

/// The parsed invocation: the execution context to use, if one was given, and
/// the script body.
pub struct Args<E, C> {
    pub context: Option<E>,
    pub code: C,
}

/// Name of the option that supplies the execution context.
pub open spec fn context_name() -> Seq<char> {
    "context"@
}

/// Whether `name` is one of the recognized option names.
pub open spec fn recognized(name: Seq<char>) -> bool {
    name == context_name()
}

/// What is wrong with entry `i`, given the entries before it.
pub open spec fn entry_fault<S, E>(entries: Seq<NameValue<S, E>>, i: int) -> Option<AttrErrorKind> {
    if !recognized(entries[i].name@) {
        Some(AttrErrorKind::Unknown)
    } else if exists|j: int| 0 <= j < i && entries[j].name@ == entries[i].name@ {
        Some(AttrErrorKind::Duplicate)
    } else {
        None
    }
}

/// Whether entries `0..n` are all acceptable.
pub open spec fn sound_prefix<S, E>(entries: Seq<NameValue<S, E>>, n: int) -> bool {
    forall|j: int| 0 <= j < n ==> #[trigger] entry_fault(entries, j) is None
}

/// The message of an error of kind `k`.
pub open spec fn attr_message(k: AttrErrorKind) -> Seq<char> {
    match k {
        AttrErrorKind::Unknown => "unknown attribute"@,
        AttrErrorKind::Duplicate => "duplicate attribute"@,
    }
}

/// What reading the option entries `entries` ahead of `code` gives: the
/// first faulty entry rejects the list at its name; a list without one yields
/// the value of its `context` entry, if any.
pub open spec fn parsed<S, E, C>(
    entries: Seq<NameValue<S, E>>,
    code: C,
    r: Result<Args<E, C>, AttrError<S>>,
) -> bool {
    match r {
        Ok(a) => {
            &&& sound_prefix(entries, entries.len() as int)
            &&& a.code == code
            &&& a.context == if entries.len() == 0 {
                None
            } else {
                Some(entries[0].value)
            }
        },
        Err(e) => exists|i: int|
            0 <= i < entries.len() && sound_prefix(entries, i) && entry_fault(entries, i) == Some(
                e.kind,
            ) && e.span == #[trigger] entries[i].name_span,
    }
}

proof fn lemma_rejected_at<S, E, C>(
    entries: Seq<NameValue<S, E>>,
    code: C,
    r: Result<Args<E, C>, AttrError<S>>,
    j: int,
)
    requires
        parsed(entries, code, r),
        0 <= j < entries.len(),
        sound_prefix(entries, j),
        entry_fault(entries, j) is Some,
    ensures
        r matches Err(e) && Some(e.kind) == entry_fault(entries, j) && e.span
            == entries[j].name_span,
{
    if r is Ok {
        assert(entry_fault(entries, j) is None);
    } else {
        let e = r->Err_0;
        let i = choose|i: int|
            0 <= i < entries.len() && sound_prefix(entries, i) && entry_fault(entries, i) == Some(
                e.kind,
            ) && e.span == #[trigger] entries[i].name_span;
        if i < j {
            assert(entry_fault(entries, i) is None);
        } else if i > j {
            assert(entry_fault(entries, j) is None);
        }
    }
}

/// Supplying `context` a second time, after only acceptable entries, rejects
/// the list as a duplicate at the second occurrence.
pub proof fn repeated_context_rejected_at_second<S, E, C>(
    entries: Seq<NameValue<S, E>>,
    code: C,
    r: Result<Args<E, C>, AttrError<S>>,
    first: int,
    second: int,
)
    requires
        parsed(entries, code, r),
        0 <= first < second < entries.len(),
        entries[first].name@ == context_name(),
        entries[second].name@ == context_name(),
        sound_prefix(entries, second),
    ensures
        r matches Err(e) && e.kind == AttrErrorKind::Duplicate && e.span
            == entries[second].name_span,
{
    assert(entry_fault(entries, second) == Some(AttrErrorKind::Duplicate));
    lemma_rejected_at(entries, code, r, second);
}

/// An option name outside the recognized set, after only acceptable entries,
/// rejects the list as unknown at that name.
pub proof fn unknown_name_rejected_at_it<S, E, C>(
    entries: Seq<NameValue<S, E>>,
    code: C,
    r: Result<Args<E, C>, AttrError<S>>,
    j: int,
)
    requires
        parsed(entries, code, r),
        0 <= j < entries.len(),
        !recognized(entries[j].name@),
        sound_prefix(entries, j),
    ensures
        r matches Err(e) && e.kind == AttrErrorKind::Unknown && e.span == entries[j].name_span,
{
    lemma_rejected_at(entries, code, r, j);
}

impl<S> AttrError<S> {
    /// The error's message text.
    pub fn message(&self) -> (r: String)
        ensures
            r@ == attr_message(self.kind),
    {
        match self.kind {
            AttrErrorKind::Unknown => String::from_str("unknown attribute"),
            AttrErrorKind::Duplicate => String::from_str("duplicate attribute"),
        }
    }
}

fn is_context(name: &String) -> (r: bool)
    ensures
        r == recognized(name@),
{
    let context = String::from_str("context");
    *name == context
}

/// Stores an option's value in `destination`, which must not hold one yet.
pub fn set_once<S, E>(destination: &mut Option<E>, attribute: NameValue<S, E>) -> (r: Result<
    (),
    AttrError<S>,
>)
    ensures
        (*old(destination)) is Some ==> (r matches Err(e) && e.kind == AttrErrorKind::Duplicate
            && e.span == attribute.name_span && *final(destination) == *old(destination)),
        (*old(destination)) is None ==> r is Ok && *final(destination) == Some(attribute.value),
{
    if destination.is_some() {
        Err(AttrError { kind: AttrErrorKind::Duplicate, span: attribute.name_span })
    } else {
        *destination = Some(attribute.value);
        Ok(())
    }
}

impl<E, C> Args<E, C> {
    /// Reads the option entries, in source order, ahead of the script body
    /// `code`.
    ///
    /// The first entry whose name is not recognized, or whose name was already
    /// set, rejects the list at that entry's name. Otherwise the context is the
    /// value of the `context` entry, if there is one.
    pub fn parse<S>(entries: Vec<NameValue<S, E>>, code: C) -> (r: Result<Args<E, C>, AttrError<S>>)
        ensures
            parsed(entries@, code, r),
    {
        let ghost all = entries@;
        let mut context: Option<E> = None;
        let mut rest = entries;
        let mut i: usize = 0;
        while rest.len() > 0
            invariant
                all == entries@,
                i + rest@.len() == all.len(),
                rest@ == all.subrange(i as int, all.len() as int),
                sound_prefix(all, i as int),
                i == 0 ==> context is None,
                i > 0 ==> context == Some(all[0].value) && all[0].name@ == context_name(),
                i <= 1,
            decreases rest@.len(),
        {
            let attribute = rest.remove(0);
            assert(attribute == all[i as int]);
            if is_context(&attribute.name) {
                let res = set_once(&mut context, attribute);
                match res {
                    Ok(()) => {},
                    Err(e) => {
                        assert(all[0].name@ == all[i as int].name@);
                        assert(entry_fault(all, i as int) == Some(AttrErrorKind::Duplicate));
                        assert(e.span == all[i as int].name_span);
                        return Err(e);
                    },
                }
            } else {
                assert(entry_fault(all, i as int) == Some(AttrErrorKind::Unknown));
                assert(attribute.name_span == all[i as int].name_span);
                return Err(AttrError { kind: AttrErrorKind::Unknown, span: attribute.name_span });
            }
            i = i + 1;
        }
        Ok(Args { context, code })
    }
}

} // verus!
