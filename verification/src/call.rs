//! The call builder: given an entry, its application type name, the owning
//! zome and the validation context, it constructs the invocation of that
//! zome's validation function. This fixes the wire contract between the
//! platform and application code: the function is named `validate_<type>`,
//! and the parameter payload is one JSON object with exactly the fields
//! `entry` (the entry's content, itself a JSON document) and `ctx` (the
//! validation context, serialized).

use vstd::prelude::*;
use vstd::string::StringExecFns;
use crate::types::{Entry, ValidationData, EntryLifecycle, EntryAction, DispatchError};
use crate::json::{json_parses, parse_json_document};

verus! {

/// An invocation of one function of one application zome.
#[derive(Debug)]
pub struct ZomeFnCall {
    pub zome_name: String,
    pub cap_name: String,
    pub fn_name: String,
    pub parameters: String,
}

/// Spec-level image of a `ZomeFnCall`.
pub struct ZomeFnCallView {
    pub zome_name: Seq<char>,
    pub cap_name: Seq<char>,
    pub fn_name: Seq<char>,
    pub parameters: Seq<char>,
}

impl View for ZomeFnCall {
    type V = ZomeFnCallView;

    open spec fn view(&self) -> ZomeFnCallView {
        ZomeFnCallView {
            zome_name: self.zome_name@,
            cap_name: self.cap_name@,
            fn_name: self.fn_name@,
            parameters: self.parameters@,
        }
    }
}

impl ZomeFnCall {
    pub fn new(zome_name: String, cap_name: String, fn_name: String, parameters: String) -> (c:
        ZomeFnCall)
        ensures
            c@ == (ZomeFnCallView {
                zome_name: zome_name@,
                cap_name: cap_name@,
                fn_name: fn_name@,
                parameters: parameters@,
            }),
    {
        ZomeFnCall { zome_name, cap_name, fn_name, parameters }
    }
}

/// The capability marker carried on every validation call: validation is an
/// internally-triggered system call, never capability-gated.
pub open spec fn spec_cap_name() -> Seq<char> {
    "no capability, since this is an entry validation call"@
}

/// The validation function owned by an application type, by name.
pub open spec fn spec_function_name(app_type_name: Seq<char>) -> Seq<char> {
    "validate_"@ + app_type_name
}

pub open spec fn spec_lifecycle_name(lifecycle: EntryLifecycle) -> Seq<char> {
    match lifecycle {
        EntryLifecycle::Chain => "chain"@,
        EntryLifecycle::Dht => "dht"@,
        EntryLifecycle::Meta => "meta"@,
    }
}

pub open spec fn spec_action_name(action: EntryAction) -> Seq<char> {
    match action {
        EntryAction::Commit => "commit"@,
        EntryAction::Modify => "modify"@,
        EntryAction::Delete => "delete"@,
    }
}

/// The validation context, serialized whole as one JSON object. The
/// dispatcher never interprets the fields, it only carries them across.
pub open spec fn spec_validation_data_json(vd: ValidationData) -> Seq<char> {
    "{\"lifecycle\":\""@ + spec_lifecycle_name(vd.lifecycle) + "\",\"action\":\""@
        + spec_action_name(vd.action) + "\"}"@
}

/// The parameter payload: one JSON object with exactly the fields `entry`
/// and `ctx`, in that order.
pub open spec fn spec_params(entry: Seq<char>, vd: ValidationData) -> Seq<char> {
    "{\"entry\":"@ + entry + ",\"ctx\":"@ + spec_validation_data_json(vd) + "}"@
}

/// The full invocation built for one entry.
pub open spec fn spec_build_call(
    entry: Seq<char>,
    app_type_name: Seq<char>,
    zome_name: Seq<char>,
    vd: ValidationData,
) -> ZomeFnCallView {
    ZomeFnCallView {
        zome_name: zome_name,
        cap_name: spec_cap_name(),
        fn_name: spec_function_name(app_type_name),
        parameters: spec_params(entry, vd),
    }
}

fn lifecycle_name(lifecycle: &EntryLifecycle) -> (r: &'static str)
    ensures
        r@ == spec_lifecycle_name(*lifecycle),
{
    match lifecycle {
        EntryLifecycle::Chain => "chain",
        EntryLifecycle::Dht => "dht",
        EntryLifecycle::Meta => "meta",
    }
}

fn action_name(action: &EntryAction) -> (r: &'static str)
    ensures
        r@ == spec_action_name(*action),
{
    match action {
        EntryAction::Commit => "commit",
        EntryAction::Modify => "modify",
        EntryAction::Delete => "delete",
    }
}

/// Serialize the validation context to its JSON form.
pub fn validation_data_json(vd: &ValidationData) -> (r: String)
    ensures
        r@ == spec_validation_data_json(*vd),
{
    let mut s = String::new();
    s.append("{\"lifecycle\":\"");
    s.append(lifecycle_name(&vd.lifecycle));
    s.append("\",\"action\":\"");
    s.append(action_name(&vd.action));
    s.append("\"}");
    proof {
        assert(s@ =~= spec_validation_data_json(*vd));
    }
    s
}

/// Build the validation call for one entry: the function `validate_<type>`
/// of the owning zome, with the payload `{"entry":<content>,"ctx":<context>}`.
/// Fails, and only fails, when the entry's content is not a JSON document:
/// such an entry is malformed and must not fall through to a verdict.
pub fn build_validation_call(
    entry: &Entry,
    entry_type: &String,
    zome_name: &String,
    validation_data: &ValidationData,
) -> (r: Result<ZomeFnCall, DispatchError>)
    ensures
        r is Ok <==> json_parses(entry@),
        (r matches Ok(call) ==> call@ == spec_build_call(
            entry@,
            entry_type@,
            zome_name@,
            *validation_data,
        )),
        (r matches Err(e) ==> e == DispatchError::MalformedEntry),
{
    if parse_json_document(entry.content.as_str()).is_err() {
        return Err(DispatchError::MalformedEntry);
    }
    let mut fn_name = String::new();
    fn_name.append("validate_");
    fn_name.append(entry_type.as_str());
    let ctx_json = validation_data_json(validation_data);
    let mut params = String::new();
    params.append("{\"entry\":");
    params.append(entry.content.as_str());
    params.append(",\"ctx\":");
    params.append(ctx_json.as_str());
    params.append("}");
    proof {
        assert(fn_name@ =~= spec_function_name(entry_type@));
        assert(params@ =~= spec_params(entry@, *validation_data));
    }
    let cap_name = String::from_str("no capability, since this is an entry validation call");
    Ok(ZomeFnCall::new(zome_name.clone(), cap_name, fn_name, params))
}

} // verus!
