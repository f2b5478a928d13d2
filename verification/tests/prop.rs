use si_model::CommitCoordinator;
use si_model::HistoryActor;
use si_model::ModelError;
use si_model::Prop;
use si_model::PropKind;
use si_model::Schema;
use si_model::SchemaVariant;
use si_model::Tenancy;
use si_model::TenancyScope;
use si_model::Visibility;
use si_model::WorkContext;

fn head_context() -> WorkContext {
    let coordinator = CommitCoordinator::new();
    let tenancy = Tenancy::new_universal();
    let scope = TenancyScope::new(tenancy);
    coordinator.begin(scope, Visibility::new_head(false), HistoryActor::SystemInit, 1_000)
}

#[test]
fn prop_new() {
    let mut ctx = head_context();
    let prop = Prop::new(&mut ctx, "coolness", PropKind::String, None).expect("cannot create prop");
    assert_eq!(prop.name(), "coolness");
    assert_eq!(prop.kind(), PropKind::String);
}

#[test]
fn schema_variants() {
    let mut ctx = head_context();
    let _schema = Schema::new(&mut ctx, "bright paper packages").expect("cannot create schema");
    let schema_variant =
        SchemaVariant::new(&mut ctx, "the unfailing light").expect("cannot add schema variant");
    let prop =
        Prop::new(&mut ctx, "riverwards", PropKind::String, None).expect("cannot create prop");

    prop.add_schema_variant(&mut ctx, schema_variant.id())
        .expect("cannot add schema variant");

    let relations = prop
        .schema_variants(&ctx)
        .expect("cannot get schema variants");
    assert_eq!(relations, vec![schema_variant.clone()]);

    prop.remove_schema_variant(&mut ctx, schema_variant.id())
        .expect("cannot remove schema variant");

    let relations = prop
        .schema_variants(&ctx)
        .expect("cannot get schema variants");
    assert_eq!(relations, vec![]);
}

#[test]
fn parent_props() {
    let mut ctx = head_context();
    let parent_prop =
        Prop::new(&mut ctx, "glassworks", PropKind::Object, None).expect("cannot create prop");
    let child_prop =
        Prop::new(&mut ctx, "fiber optics", PropKind::String, None).expect("cannot create prop");
    child_prop
        .set_parent_prop(&mut ctx, parent_prop.id())
        .expect("cannot set parent prop");

    let retrieved_parent_prop = child_prop
        .parent_prop(&ctx)
        .expect("cannot get parent prop")
        .expect("there was no parent prop and we expected one!");
    assert_eq!(retrieved_parent_prop, parent_prop);

    let children = parent_prop.child_props(&ctx).expect("should have children");
    assert_eq!(children, vec![child_prop]);
}

#[test]
fn parent_props_wrong_prop_kinds() {
    let mut ctx = head_context();
    let parent_prop =
        Prop::new(&mut ctx, "limestone", PropKind::String, None).expect("cannot create prop");
    let child_prop =
        Prop::new(&mut ctx, "tidewater", PropKind::Object, None).expect("cannot create prop");

    let result = child_prop.set_parent_prop(&mut ctx, parent_prop.id());
    assert_eq!(result, Err(ModelError::InvalidRelation));
}
