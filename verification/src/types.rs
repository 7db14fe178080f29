//! Core data types of the dispatcher: entries, entry types, the validation
//! context, and the dispatcher's verdict.

use vstd::prelude::*;

verus! {

/// A single content record submitted for admission into the shared store.
/// The content is an opaque blob at this layer; the call builder relies on it
/// holding a structured (JSON) document.
pub struct Entry {
    pub content: String,
}

impl View for Entry {
    type V = Seq<char>;

    open spec fn view(&self) -> Seq<char> {
        self.content@
    }
}

impl Entry {
    pub fn new(content: String) -> (e: Entry)
        ensures
            e@ == content@,
    {
        Entry { content }
    }
}

/// Closed classification of an entry: a fixed set of system-reserved
/// categories plus an open-ended application-defined category carrying the
/// application's own type name.
pub enum EntryType {
    /// The application descriptor: exempt from application validation.
    Dna,
    AgentId,
    Deletion,
    LinkAdd,
    /// An application-defined type, by name. The name is caller-supplied and
    /// not checked for existence here.
    App(String),
}

/// Spec-level image of an `EntryType`.
pub enum EntryTypeView {
    Dna,
    AgentId,
    Deletion,
    LinkAdd,
    App(Seq<char>),
}

impl View for EntryType {
    type V = EntryTypeView;

    open spec fn view(&self) -> EntryTypeView {
        match self {
            EntryType::Dna => EntryTypeView::Dna,
            EntryType::AgentId => EntryTypeView::AgentId,
            EntryType::Deletion => EntryTypeView::Deletion,
            EntryType::LinkAdd => EntryTypeView::LinkAdd,
            EntryType::App(name) => EntryTypeView::App(name@),
        }
    }
}

/// Lifecycle phase a validation request belongs to.
#[derive(Clone, Copy, PartialEq, Eq, Structural, Debug)]
pub enum EntryLifecycle {
    Chain,
    Dht,
    Meta,
}

/// The action on the entry that triggered validation.
#[derive(Clone, Copy, PartialEq, Eq, Structural, Debug)]
pub enum EntryAction {
    Commit,
    Modify,
    Delete,
}

/// Contextual metadata accompanying a validation request. The dispatcher does
/// not interpret these fields; it only serializes the structure whole into the
/// parameter payload.
#[derive(Clone, Copy, PartialEq, Eq, Structural, Debug)]
pub struct ValidationData {
    pub lifecycle: EntryLifecycle,
    pub action: EntryAction,
}

/// The dispatcher's verdict on one entry.
#[derive(PartialEq, Eq, Debug)]
pub enum CallbackResult {
    /// The entry passed validation (or is exempt from it).
    Pass,
    /// The owning module rejected the entry, with a human-readable reason.
    Fail(String),
    /// No opinion: no validator is declared for this entry, or the engine
    /// could not run it.
    NotImplemented,
}

/// Spec-level image of a `CallbackResult`.
pub enum CallbackOutcome {
    Pass,
    Fail(Seq<char>),
    NotImplemented,
}

impl View for CallbackResult {
    type V = CallbackOutcome;

    open spec fn view(&self) -> CallbackOutcome {
        match self {
            CallbackResult::Pass => CallbackOutcome::Pass,
            CallbackResult::Fail(reason) => CallbackOutcome::Fail(reason@),
            CallbackResult::NotImplemented => CallbackOutcome::NotImplemented,
        }
    }
}

/// A failure of the dispatcher, kept apart from its verdicts: the entry's
/// content does not parse as a structured document, so no validation call
/// can be built for it. Such an entry must not fall through to `Pass` or
/// `NotImplemented`.
#[derive(Clone, Copy, PartialEq, Eq, Structural, Debug)]
pub enum DispatchError {
    MalformedEntry,
}

} // verus!
