//! The dispatcher's guarantees, stated once over the spec model that the
//! executable functions are proved to meet, so that each holds of every
//! dispatch call.

use vstd::prelude::*;
use crate::types::{ValidationData, CallbackOutcome, DispatchError, EntryTypeView};
use crate::registry::{RegistryView, spec_resolve, spec_code};
use crate::dispatch::{spec_validate_entry, spec_dispatch, spec_interpret, DispatchView};
use crate::json::json_parses;

verus! {

/// An entry of the application-descriptor system type always passes, with no
/// further processing: system entries are exempt from application validation.
pub proof fn lemma_app_descriptor_passes(
    entry: Seq<char>,
    vd: ValidationData,
    reg: RegistryView,
)
    ensures
        spec_validate_entry(entry, EntryTypeView::Dna, vd, reg) == Ok::<_, DispatchError>(
            DispatchView::Done(CallbackOutcome::Pass),
        ),
{
}

/// An application-typed entry whose type name no zome claims is
/// `NotImplemented`: the absence of a validator is an unhandled case, not a
/// validation failure.
pub proof fn lemma_unowned_type_not_implemented(
    entry: Seq<char>,
    app_type_name: Seq<char>,
    vd: ValidationData,
    reg: RegistryView,
)
    requires
        spec_resolve(reg, app_type_name) is None,
    ensures
        spec_validate_entry(entry, EntryTypeView::App(app_type_name), vd, reg) == Ok::<
            _,
            DispatchError,
        >(DispatchView::Done(CallbackOutcome::NotImplemented)),
{
}

/// An application-typed entry whose owning zome is declared but carries
/// bytecode of zero length is `NotImplemented`: an empty module is treated
/// as absent, not as an empty-but-valid validator.
pub proof fn lemma_empty_bytecode_not_implemented(
    entry: Seq<char>,
    app_type_name: Seq<char>,
    zome_name: Seq<char>,
    code: Seq<u8>,
    vd: ValidationData,
    reg: RegistryView,
)
    requires
        spec_resolve(reg, app_type_name) == Some(zome_name),
        spec_code(reg, zome_name) == Some(code),
        code.len() == 0,
    ensures
        spec_validate_entry(entry, EntryTypeView::App(app_type_name), vd, reg) == Ok::<
            _,
            DispatchError,
        >(DispatchView::Done(CallbackOutcome::NotImplemented)),
{
}

/// For an entry whose owning zome has non-empty bytecode and whose content is
/// a structured document, an empty engine outcome is the contractual signal
/// for "no validation errors": the whole dispatch passes.
pub proof fn lemma_empty_outcome_passes(
    entry: Seq<char>,
    app_type_name: Seq<char>,
    zome_name: Seq<char>,
    code: Seq<u8>,
    vd: ValidationData,
    reg: RegistryView,
)
    requires
        spec_resolve(reg, app_type_name) == Some(zome_name),
        spec_code(reg, zome_name) == Some(code),
        code.len() > 0,
        json_parses(entry),
    ensures
        spec_dispatch(
            entry,
            EntryTypeView::App(app_type_name),
            vd,
            reg,
            Ok(Seq::<char>::empty()),
        ) == Ok::<_, DispatchError>(CallbackOutcome::Pass),
{
}

/// For the same setup, a non-empty engine outcome is a validation failure,
/// and its payload is passed through unchanged as the reason.
pub proof fn lemma_nonempty_outcome_fails(
    entry: Seq<char>,
    app_type_name: Seq<char>,
    zome_name: Seq<char>,
    code: Seq<u8>,
    vd: ValidationData,
    reg: RegistryView,
    result: Seq<char>,
)
    requires
        spec_resolve(reg, app_type_name) == Some(zome_name),
        spec_code(reg, zome_name) == Some(code),
        code.len() > 0,
        json_parses(entry),
        result.len() > 0,
    ensures
        spec_dispatch(entry, EntryTypeView::App(app_type_name), vd, reg, Ok(result)) == Ok::<
            _,
            DispatchError,
        >(CallbackOutcome::Fail(result)),
{
}

/// A failure of the engine itself is `NotImplemented`, whatever the failure
/// says: the dispatcher makes a single attempt and never retries.
pub proof fn lemma_engine_failure_not_implemented(failure: Seq<char>)
    ensures
        spec_interpret(Err(failure)) == CallbackOutcome::NotImplemented,
{
}

/// Dispatch is idempotent: on identical entry, type, validation context and
/// registry, and the same engine outcome for the built invocation, two
/// dispatch calls yield the same verdict. The executable dispatcher's result
/// equals `spec_dispatch` of its inputs, so any two results agree.
pub proof fn lemma_dispatch_deterministic(
    entry: Seq<char>,
    entry_type: EntryTypeView,
    vd: ValidationData,
    reg: RegistryView,
    engine_outcome: Result<Seq<char>, Seq<char>>,
    first: Result<CallbackOutcome, DispatchError>,
    second: Result<CallbackOutcome, DispatchError>,
)
    requires
        first == spec_dispatch(entry, entry_type, vd, reg, engine_outcome),
        second == spec_dispatch(entry, entry_type, vd, reg, engine_outcome),
    ensures
        first == second,
{
}

} // verus!
