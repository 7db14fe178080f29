//! The dispatcher: classify the entry by its declared type, resolve the
//! owning zome, build the validation call, and interpret the execution
//! engine's outcome. Within one dispatch the flow is linear, with two early
//! exits: system types are settled without application code, and an
//! application type without a usable validator yields `NotImplemented`.
//!
//! Running module bytecode is the execution engine's work, outside this
//! library: a dispatch that reaches the engine returns the fully built
//! invocation as a `Dispatch::Invoke` action, and the engine's outcome is
//! handed back to `run_validation_callback` for the verdict.

use vstd::prelude::*;
use crate::types::{
    Entry, EntryType, EntryTypeView, ValidationData, CallbackResult, CallbackOutcome,
    DispatchError,
};
use crate::registry::{Registry, RegistryView, spec_resolve, spec_wasm, get_wasm};
use crate::call::{ZomeFnCall, ZomeFnCallView, spec_build_call, build_validation_call};
use crate::json::json_parses;

verus! {

/// A failure of the execution engine itself: a trap, a resource limit, a
/// missing function, malformed bytecode. Carried as an opaque description;
/// the interpreter does not read it.
pub struct EngineFailure {
    pub description: String,
}

/// Everything the execution engine needs for one validation call: the
/// application's name, the owning zome's bytecode, and the call itself.
#[derive(Debug)]
pub struct ValidationInvocation {
    pub app_name: String,
    pub code: Vec<u8>,
    pub call: ZomeFnCall,
}

/// Spec-level image of a `ValidationInvocation`.
pub struct ValidationInvocationView {
    pub app_name: Seq<char>,
    pub code: Seq<u8>,
    pub call: ZomeFnCallView,
}

impl View for ValidationInvocation {
    type V = ValidationInvocationView;

    open spec fn view(&self) -> ValidationInvocationView {
        ValidationInvocationView {
            app_name: self.app_name@,
            code: self.code@,
            call: self.call@,
        }
    }
}

/// What one dispatch call decides: either a final verdict, or the invocation
/// the execution engine is to run next.
#[derive(Debug)]
pub enum Dispatch {
    Done(CallbackResult),
    Invoke(ValidationInvocation),
}

/// Spec-level image of a `Dispatch`.
pub enum DispatchView {
    Done(CallbackOutcome),
    Invoke(ValidationInvocationView),
}

impl View for Dispatch {
    type V = DispatchView;

    open spec fn view(&self) -> DispatchView {
        match self {
            Dispatch::Done(result) => DispatchView::Done(result@),
            Dispatch::Invoke(invocation) => DispatchView::Invoke(invocation@),
        }
    }
}

pub open spec fn dispatch_result_view(r: Result<Dispatch, DispatchError>) -> Result<
    DispatchView,
    DispatchError,
> {
    match r {
        Ok(d) => Ok(d@),
        Err(e) => Err(e),
    }
}

/// What dispatching an application-typed entry decides, as a function of the
/// inputs: no owning zome, or no usable bytecode, is `NotImplemented`; a
/// malformed entry is the dispatcher's own error; otherwise the built
/// invocation.
pub open spec fn spec_validate_app_entry(
    entry: Seq<char>,
    app_type_name: Seq<char>,
    vd: ValidationData,
    reg: RegistryView,
) -> Result<DispatchView, DispatchError> {
    match spec_resolve(reg, app_type_name) {
        None => Ok(DispatchView::Done(CallbackOutcome::NotImplemented)),
        Some(zome_name) => match spec_wasm(reg, zome_name) {
            None => Ok(DispatchView::Done(CallbackOutcome::NotImplemented)),
            Some(code) => if json_parses(entry) {
                Ok(
                    DispatchView::Invoke(
                        ValidationInvocationView {
                            app_name: reg.name,
                            code: code,
                            call: spec_build_call(entry, app_type_name, zome_name, vd),
                        },
                    ),
                )
            } else {
                Err(DispatchError::MalformedEntry)
            },
        },
    }
}

/// What dispatching any entry decides. The match is exhaustive over the
/// closed sum of entry types: the application descriptor always passes,
/// application types are delegated, and every other system type is
/// `NotImplemented`, never a crash.
pub open spec fn spec_validate_entry(
    entry: Seq<char>,
    entry_type: EntryTypeView,
    vd: ValidationData,
    reg: RegistryView,
) -> Result<DispatchView, DispatchError> {
    match entry_type {
        EntryTypeView::App(app_type_name) => spec_validate_app_entry(entry, app_type_name, vd, reg),
        EntryTypeView::Dna => Ok(DispatchView::Done(CallbackOutcome::Pass)),
        EntryTypeView::AgentId => Ok(DispatchView::Done(CallbackOutcome::NotImplemented)),
        EntryTypeView::Deletion => Ok(DispatchView::Done(CallbackOutcome::NotImplemented)),
        EntryTypeView::LinkAdd => Ok(DispatchView::Done(CallbackOutcome::NotImplemented)),
    }
}

/// The verdict an engine outcome maps to: an empty result payload is the
/// contractual signal for "no validation errors"; a non-empty payload is the
/// failure reason, passed through opaque; an engine failure is
/// `NotImplemented`.
pub open spec fn spec_interpret(outcome: Result<Seq<char>, Seq<char>>) -> CallbackOutcome {
    match outcome {
        Ok(result) => if result.len() == 0 {
            CallbackOutcome::Pass
        } else {
            CallbackOutcome::Fail(result)
        },
        Err(_) => CallbackOutcome::NotImplemented,
    }
}

pub open spec fn engine_outcome_view(outcome: Result<String, EngineFailure>) -> Result<
    Seq<char>,
    Seq<char>,
> {
    match outcome {
        Ok(result) => Ok(result@),
        Err(failure) => Err(failure.description@),
    }
}

/// The verdict of one whole dispatch, as a function of the inputs and of the
/// engine outcome that an `Invoke` decision would receive.
pub open spec fn spec_dispatch(
    entry: Seq<char>,
    entry_type: EntryTypeView,
    vd: ValidationData,
    reg: RegistryView,
    engine_outcome: Result<Seq<char>, Seq<char>>,
) -> Result<CallbackOutcome, DispatchError> {
    match spec_validate_entry(entry, entry_type, vd, reg) {
        Err(e) => Err(e),
        Ok(DispatchView::Done(verdict)) => Ok(verdict),
        Ok(DispatchView::Invoke(_)) => Ok(spec_interpret(engine_outcome)),
    }
}

/// Dispatch an application-typed entry: resolve the owning zome, fetch its
/// bytecode, and build the validation call.
pub fn validate_app_entry(
    entry: &Entry,
    app_entry_type: &String,
    validation_data: &ValidationData,
    registry: &Registry,
) -> (r: Result<Dispatch, DispatchError>)
    ensures
        dispatch_result_view(r) == spec_validate_app_entry(
            entry@,
            app_entry_type@,
            *validation_data,
            registry@,
        ),
{
    let zome_name = match registry.zome_name_for_entry_type(app_entry_type) {
        None => {
            return Ok(Dispatch::Done(CallbackResult::NotImplemented));
        },
        Some(name) => name,
    };
    match get_wasm(registry, &zome_name) {
        Some(wasm) => {
            match build_validation_call(entry, app_entry_type, &zome_name, validation_data) {
                Ok(call) => Ok(
                    Dispatch::Invoke(
                        ValidationInvocation {
                            app_name: registry.name.clone(),
                            code: wasm,
                            call: call,
                        },
                    ),
                ),
                Err(e) => Err(e),
            }
        },
        None => Ok(Dispatch::Done(CallbackResult::NotImplemented)),
    }
}

/// Dispatch one entry: the application descriptor passes with no further
/// processing, other system types are not delegated to application code, and
/// application types are routed to their owning zome's validator.
pub fn validate_entry(
    entry: Entry,
    entry_type: EntryType,
    validation_data: ValidationData,
    registry: &Registry,
) -> (r: Result<Dispatch, DispatchError>)
    ensures
        dispatch_result_view(r) == spec_validate_entry(
            entry@,
            entry_type@,
            validation_data,
            registry@,
        ),
{
    match entry_type {
        EntryType::App(app_entry_type) => validate_app_entry(
            &entry,
            &app_entry_type,
            &validation_data,
            registry,
        ),
        EntryType::Dna => Ok(Dispatch::Done(CallbackResult::Pass)),
        EntryType::AgentId => Ok(Dispatch::Done(CallbackResult::NotImplemented)),
        EntryType::Deletion => Ok(Dispatch::Done(CallbackResult::NotImplemented)),
        EntryType::LinkAdd => Ok(Dispatch::Done(CallbackResult::NotImplemented)),
    }
}

/// Interpret the execution engine's outcome for an invoked validation call:
/// an empty result payload passes, a non-empty one is the failure reason,
/// and an engine failure yields `NotImplemented`.
pub fn run_validation_callback(outcome: Result<String, EngineFailure>) -> (r: CallbackResult)
    ensures
        r@ == spec_interpret(engine_outcome_view(outcome)),
{
    match outcome {
        Ok(result) => if result.as_str().is_empty() {
            CallbackResult::Pass
        } else {
            CallbackResult::Fail(result)
        },
        Err(_) => CallbackResult::NotImplemented,
    }
}

} // verus!
