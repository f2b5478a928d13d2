use si_model::func::FuncAuthoringError;
use si_model::func::FuncDefaults;
use si_model::func::{create_func, Func};
use si_model::CommitCoordinator;
use si_model::FuncBackendKind;
use si_model::FuncBackendResponseType;
use si_model::FuncKind;
use si_model::HistoryActor;
use si_model::Payload;
use si_model::Tenancy;
use si_model::TenancyScope;
use si_model::Visibility;
use si_model::WorkContext;

fn head_context() -> WorkContext {
    let coordinator = CommitCoordinator::new();
    let tenancy = Tenancy::new_universal();
    let scope = TenancyScope::new(tenancy);
    coordinator.begin(scope, Visibility::new_head(false), HistoryActor::SystemInit, 1_000)
}

fn defaults() -> FuncDefaults {
    FuncDefaults {
        handler: "main".to_string(),
        attribute_code: "hello".to_string(),
        code_generation_code: "generate".to_string(),
        qualification_code: "qualify".to_string(),
        action_code: "act".to_string(),
        authentication_code: "authenticate".to_string(),
    }
}

#[test]
fn create_attribute_func_encodes_code() {
    let mut ctx = head_context();
    let created =
        create_func(&mut ctx, FuncKind::Attribute, "my attribute", None, &defaults()).expect("creates");
    assert_eq!(created.name, "my attribute".to_string());
    assert_eq!(created.kind, FuncKind::Attribute);
    assert_eq!(created.handler, Some("main".to_string()));
    // Base64 of "hello" with the standard, unpadded alphabet; the stored
    // column is really encoded, and decoding it round-trips.
    let stored = Func::find_by_name(&ctx, "my attribute").expect("findable");
    match &stored.row.payload {
        Payload::Func { code_base64, backend_kind, response_type, hidden, .. } => {
            assert_eq!(code_base64, &"aGVsbG8".to_string());
            assert_eq!(backend_kind, &FuncBackendKind::JsAttribute);
            assert_eq!(response_type, &FuncBackendResponseType::Unset);
            assert!(!hidden);
        }
        other => panic!("expected a func payload, got {:?}", other),
    }
    assert_eq!(created.code, Some("hello".to_string()));
}

#[test]
fn create_action_func_uses_action_backend() {
    let mut ctx = head_context();
    let created =
        create_func(&mut ctx, FuncKind::Action, "deploy", None, &defaults()).expect("creates");
    assert_eq!(created.code, Some("act".to_string()));
    let stored = Func::find_by_name(&ctx, "deploy").expect("findable");
    match &stored.row.payload {
        Payload::Func { backend_kind, response_type, .. } => {
            assert_eq!(backend_kind, &FuncBackendKind::JsAction);
            assert_eq!(response_type, &FuncBackendResponseType::Action);
        }
        other => panic!("expected a func payload, got {:?}", other),
    }
}

#[test]
fn create_func_rejects_intrinsic_kind() {
    let mut ctx = head_context();
    let res = create_func(&mut ctx, FuncKind::Intrinsic, "nope", None, &defaults());
    assert_eq!(
        res.err(),
        Some(FuncAuthoringError::InvalidFuncKindForCreation(FuncKind::Intrinsic))
    );
}

#[test]
fn create_func_rejects_duplicate_name() {
    let mut ctx = head_context();
    create_func(&mut ctx, FuncKind::Qualification, "taken", None, &defaults()).expect("first creates");
    let second = create_func(&mut ctx, FuncKind::Qualification, "taken", None, &defaults());
    assert_eq!(second.err(), Some(FuncAuthoringError::FuncNameExists));
}

#[test]
fn create_authentication_func_attaches_to_variant() {
    let mut ctx = head_context();
    let variant = si_model::SchemaVariant::new(&mut ctx, "v1").expect("create variant");
    let created = create_func(
        &mut ctx,
        FuncKind::Authentication,
        "auth it",
        Some(si_model::CreateFuncOptions::AuthenticationOptions {
            schema_variant_id: variant.id(),
        }),
        &defaults(),
    )
    .expect("creates and attaches");

    let targets = ctx.db.linked_targets(
        &ctx.scope,
        &ctx.visibility,
        si_model::RelationKind::AuthenticationFuncVariant,
        created.id,
    );
    assert_eq!(targets, vec![variant.id()]);
}

#[test]
fn create_authentication_func_requires_existing_variant() {
    let mut ctx = head_context();
    let res = create_func(
        &mut ctx,
        FuncKind::Authentication,
        "dangling",
        Some(si_model::CreateFuncOptions::AuthenticationOptions { schema_variant_id: 404 }),
        &defaults(),
    );
    assert_eq!(
        res.err(),
        Some(FuncAuthoringError::Model(si_model::ModelError::NotFound))
    );
}
