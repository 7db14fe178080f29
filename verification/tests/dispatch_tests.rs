use entry_validation::call::build_validation_call;
use entry_validation::dispatch::{
    run_validation_callback, validate_app_entry, validate_entry, Dispatch, EngineFailure,
    ValidationInvocation,
};
use entry_validation::registry::{get_wasm, Registry, Zome};
use entry_validation::types::{
    CallbackResult, DispatchError, Entry, EntryAction, EntryLifecycle, EntryType, ValidationData,
};

fn ctx() -> ValidationData {
    ValidationData { lifecycle: EntryLifecycle::Chain, action: EntryAction::Commit }
}

fn registry_with_code(code: Vec<u8>) -> Registry {
    Registry {
        name: String::from("test-app"),
        zomes: vec![Zome {
            name: String::from("blog"),
            entry_type_names: vec![String::from("post")],
            code,
        }],
    }
}

fn post_entry() -> Entry {
    Entry::new(String::from("{\"title\":\"hello\"}"))
}

/// Runs one whole dispatch, standing in for the execution engine with a
/// fixed outcome for any invocation that is built.
fn dispatch_with_engine(
    entry: Entry,
    entry_type: EntryType,
    validation_data: ValidationData,
    registry: &Registry,
    engine_outcome: Result<String, EngineFailure>,
) -> Result<CallbackResult, DispatchError> {
    match validate_entry(entry, entry_type, validation_data, registry)? {
        Dispatch::Done(verdict) => Ok(verdict),
        Dispatch::Invoke(_) => Ok(run_validation_callback(engine_outcome)),
    }
}

#[test]
fn app_descriptor_entry_passes() {
    let registry = registry_with_code(vec![1, 2, 3]);
    let r = validate_entry(post_entry(), EntryType::Dna, ctx(), &registry);
    assert!(matches!(r, Ok(Dispatch::Done(CallbackResult::Pass))));
}

#[test]
fn app_descriptor_passes_without_reading_content() {
    // The short circuit for system entries comes before any content parsing.
    let registry = registry_with_code(vec![1, 2, 3]);
    let entry = Entry::new(String::from("not json at all"));
    let r = validate_entry(entry, EntryType::Dna, ctx(), &registry);
    assert!(matches!(r, Ok(Dispatch::Done(CallbackResult::Pass))));
}

#[test]
fn other_system_types_not_implemented() {
    let registry = registry_with_code(vec![1, 2, 3]);
    for entry_type in [EntryType::AgentId, EntryType::Deletion, EntryType::LinkAdd] {
        let r = validate_entry(post_entry(), entry_type, ctx(), &registry);
        assert!(matches!(r, Ok(Dispatch::Done(CallbackResult::NotImplemented))));
    }
}

#[test]
fn unowned_type_not_implemented() {
    let registry = registry_with_code(vec![1, 2, 3]);
    let r = validate_entry(
        post_entry(),
        EntryType::App(String::from("comment")),
        ctx(),
        &registry,
    );
    assert!(matches!(r, Ok(Dispatch::Done(CallbackResult::NotImplemented))));
}

#[test]
fn unowned_type_checked_before_content() {
    // Resolution fails before the content is ever parsed, so even a
    // malformed entry of an unowned type is NotImplemented, not an error.
    let registry = registry_with_code(vec![1, 2, 3]);
    let entry = Entry::new(String::from("not json"));
    let r = validate_entry(entry, EntryType::App(String::from("comment")), ctx(), &registry);
    assert!(matches!(r, Ok(Dispatch::Done(CallbackResult::NotImplemented))));
}

#[test]
fn empty_bytecode_not_implemented() {
    let registry = registry_with_code(vec![]);
    let r = validate_entry(post_entry(), EntryType::App(String::from("post")), ctx(), &registry);
    assert!(matches!(r, Ok(Dispatch::Done(CallbackResult::NotImplemented))));
}

#[test]
fn owned_type_builds_invocation() {
    let registry = registry_with_code(vec![1, 2, 3]);
    let r = validate_entry(post_entry(), EntryType::App(String::from("post")), ctx(), &registry);
    match r {
        Ok(Dispatch::Invoke(ValidationInvocation { app_name, code, call })) => {
            assert_eq!(app_name, "test-app");
            assert_eq!(code, vec![1, 2, 3]);
            assert_eq!(call.zome_name, "blog");
            assert_eq!(call.fn_name, "validate_post");
            assert_eq!(
                call.cap_name,
                "no capability, since this is an entry validation call"
            );
        }
        other => panic!("expected an invocation, got {:?}", other),
    }
}

#[test]
fn empty_engine_outcome_passes() {
    let registry = registry_with_code(vec![1, 2, 3]);
    let r = dispatch_with_engine(
        post_entry(),
        EntryType::App(String::from("post")),
        ctx(),
        &registry,
        Ok(String::new()),
    );
    assert_eq!(r, Ok(CallbackResult::Pass));
}

#[test]
fn nonempty_engine_outcome_fails_with_reason() {
    let registry = registry_with_code(vec![1, 2, 3]);
    let r = dispatch_with_engine(
        post_entry(),
        EntryType::App(String::from("post")),
        ctx(),
        &registry,
        Ok(String::from("invalid title")),
    );
    assert_eq!(r, Ok(CallbackResult::Fail(String::from("invalid title"))));
}

#[test]
fn engine_failure_not_implemented() {
    let outcome = Err(EngineFailure { description: String::from("trap: unreachable") });
    assert_eq!(run_validation_callback(outcome), CallbackResult::NotImplemented);
}

#[test]
fn malformed_entry_is_distinct_error() {
    let registry = registry_with_code(vec![1, 2, 3]);
    let entry = Entry::new(String::from("not json"));
    let r = validate_entry(entry, EntryType::App(String::from("post")), ctx(), &registry);
    assert_eq!(r.unwrap_err(), DispatchError::MalformedEntry);
}

#[test]
fn dispatch_is_idempotent() {
    let registry = registry_with_code(vec![1, 2, 3]);
    let first = dispatch_with_engine(
        post_entry(),
        EntryType::App(String::from("post")),
        ctx(),
        &registry,
        Ok(String::from("too short")),
    );
    let second = dispatch_with_engine(
        post_entry(),
        EntryType::App(String::from("post")),
        ctx(),
        &registry,
        Ok(String::from("too short")),
    );
    assert_eq!(first, second);
}

#[test]
fn validate_app_entry_matches_validate_entry() {
    let registry = registry_with_code(vec![1, 2, 3]);
    let direct = validate_app_entry(&post_entry(), &String::from("post"), &ctx(), &registry);
    let routed = validate_entry(post_entry(), EntryType::App(String::from("post")), ctx(), &registry);
    match (direct, routed) {
        (Ok(Dispatch::Invoke(a)), Ok(Dispatch::Invoke(b))) => {
            assert_eq!(a.app_name, b.app_name);
            assert_eq!(a.code, b.code);
            assert_eq!(a.call.parameters, b.call.parameters);
            assert_eq!(a.call.fn_name, b.call.fn_name);
        }
        other => panic!("expected two invocations, got {:?}", other),
    }
}

#[test]
fn get_wasm_absent_zome() {
    let registry = registry_with_code(vec![1, 2, 3]);
    assert_eq!(get_wasm(&registry, &String::from("forum")), None);
}

#[test]
fn get_wasm_empty_code_is_absent() {
    let registry = registry_with_code(vec![]);
    assert_eq!(get_wasm(&registry, &String::from("blog")), None);
}

#[test]
fn get_wasm_returns_code() {
    let registry = registry_with_code(vec![9, 8, 7]);
    assert_eq!(get_wasm(&registry, &String::from("blog")), Some(vec![9, 8, 7]));
}

#[test]
fn resolver_takes_first_claiming_zome() {
    let registry = Registry {
        name: String::from("test-app"),
        zomes: vec![
            Zome {
                name: String::from("first"),
                entry_type_names: vec![String::from("note"), String::from("post")],
                code: vec![1],
            },
            Zome {
                name: String::from("second"),
                entry_type_names: vec![String::from("post")],
                code: vec![2],
            },
        ],
    };
    let r = registry.zome_name_for_entry_type(&String::from("post"));
    assert_eq!(r, Some(String::from("first")));
    assert_eq!(registry.zome_name_for_entry_type(&String::from("photo")), None);
}

#[test]
fn build_validation_call_derives_function_name() {
    let entry = post_entry();
    let call = build_validation_call(&entry, &String::from("post"), &String::from("blog"), &ctx())
        .unwrap();
    assert_eq!(call.fn_name, "validate_post");
}
