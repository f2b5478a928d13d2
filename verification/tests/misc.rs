use si_model::diagram::restore_connection;
use si_model::diagram::restore_connection2;
use si_model::CommitCoordinator;
use si_model::Connection;
use si_model::Edge;
use si_model::EntityKind;
use si_model::HistoryActor;
use si_model::LangServerWorkflowResolveResultSuccess;
use si_model::ModelError;
use si_model::SchemaUiMenu;
use si_model::Tenancy;
use si_model::TenancyScope;
use si_model::Timestamp;
use si_model::Visibility;
use si_model::WorkContext;
use si_model::WorkflowResolveRequest;
use si_model::WorkflowResolveResultSuccess;

fn head_context() -> WorkContext {
    let coordinator = CommitCoordinator::new();
    let tenancy = Tenancy::new_universal();
    let scope = TenancyScope::new(tenancy);
    coordinator.begin(scope, Visibility::new_head(false), HistoryActor::SystemInit, 1_000)
}

#[test]
fn ui_menu_new_and_category_path() {
    let mut ctx = head_context();
    let menu =
        SchemaUiMenu::new(&mut ctx, "database", "aws.rds.postgres").expect("cannot create menu");
    assert_eq!(menu.name(), "database");
    assert_eq!(menu.category(), "aws.rds.postgres");
    assert_eq!(
        menu.category_path(),
        vec!["aws".to_string(), "rds".to_string(), "postgres".to_string()]
    );
}

#[test]
fn category_path_edges() {
    let mut ctx = head_context();
    let plain = SchemaUiMenu::new(&mut ctx, "plain", "solo").expect("create");
    assert_eq!(plain.category_path(), vec!["solo".to_string()]);

    let empty = SchemaUiMenu::new(&mut ctx, "empty", "").expect("create");
    assert_eq!(empty.category_path(), vec!["".to_string()]);

    let trailing = SchemaUiMenu::new(&mut ctx, "trailing", "a.").expect("create");
    assert_eq!(trailing.category_path(), vec!["a".to_string(), "".to_string()]);
}

#[test]
fn ui_menu_belongs_to_schema() {
    let mut ctx = head_context();
    let schema = si_model::Schema::new(&mut ctx, "stone circle").expect("create schema");
    let menu = SchemaUiMenu::new(&mut ctx, "circle", "shapes").expect("create menu");
    menu.set_schema(&mut ctx, schema.id()).expect("set schema");

    let found = menu.schema(&ctx).expect("lookup").expect("schema is set");
    assert_eq!(found.id(), schema.id());

    let reverse = SchemaUiMenu::find_for_schema(&ctx, schema.id())
        .expect("lookup")
        .expect("menu found for schema");
    assert_eq!(reverse.id(), menu.id());

    menu.unset_schema(&mut ctx).expect("unset schema");
    assert!(menu.schema(&ctx).expect("lookup").is_none());
}

#[test]
fn restore_connection_restores_soft_deleted_edge() {
    let mut ctx = head_context();
    let edge = Edge::new(&mut ctx, 1, 2, 3, 4).expect("create edge");
    let conn = Connection::from_edge(&edge);
    assert_eq!(conn.source_node_id, 1);
    assert_eq!(conn.destination_socket_id, 4);

    let scope = ctx.scope;
    let vis = ctx.visibility;
    let actor = ctx.actor;
    ctx.db
        .soft_delete(&scope, &vis, &actor, EntityKind::Edge, edge.id(), 2_000)
        .expect("soft delete edge");
    assert!(Edge::get_by_id(&ctx, edge.id()).is_none());

    let before = ctx.notifications.len();
    restore_connection(&mut ctx, edge.id()).expect("restore");
    assert!(Edge::get_by_id(&ctx, edge.id()).is_some());
    assert_eq!(ctx.notifications.len(), before + 1);
}

#[test]
fn restore_connection2_forks_change_set_on_head() {
    let mut ctx = head_context();
    let edge = Edge::new(&mut ctx, 5, 6, 7, 8).expect("create edge");

    let forced =
        restore_connection2(&mut ctx, edge.id(), "forked").expect("restore with fork");
    let forced_pk = forced.force_changeset_pk.expect("a change set was forced");
    assert_eq!(ctx.visibility.change_set_pk, forced_pk);

    // Already inside a change set now: no second fork.
    let again = restore_connection2(&mut ctx, edge.id(), "unused").expect("restore again");
    assert!(again.force_changeset_pk.is_none());
}

#[test]
fn restore_missing_edge_fails_not_found() {
    let mut ctx = head_context();
    let res = restore_connection(&mut ctx, 999);
    assert_eq!(res, Err(ModelError::NotFound));
}

#[test]
fn workflow_result_converts_from_lang_server() {
    let lang = LangServerWorkflowResolveResultSuccess { execution_id: "exec-17".to_string() };
    let converted = WorkflowResolveResultSuccess::from(lang);
    assert_eq!(converted.execution_id, "exec-17".to_string());

    let request = WorkflowResolveRequest {
        execution_id: "exec-17".to_string(),
        handler: "main".to_string(),
        code_base64: "aGVsbG8".to_string(),
    };
    assert_eq!(request.clone(), request);
}

#[test]
fn wall_clock_timestamps_start_equal() {
    let t = Timestamp::now();
    assert_eq!(t.created_at, t.updated_at);
}

#[test]
fn error_messages_are_stable() {
    assert_eq!(ModelError::NotFound.message(), "no live row resolves");
    assert_eq!(
        ModelError::ApplyConflict.message(),
        "concurrent head mutation detected"
    );
}

#[test]
fn execute_route_plan_follows_flags() {
    let flags = si_model::routes::ExecuteFlags {
        enable_ping: false,
        enable_resolver: true,
        enable_validation: true,
        enable_workflow_resolve: true,
        enable_command_run: true,
        enable_reconciliation: true,
    };
    let plan = si_model::routes::execute_route_plan(&flags);
    let paths: Vec<&str> = plan.iter().map(|r| r.path()).collect();
    assert_eq!(
        paths,
        vec!["/resolver", "/validation", "/workflow", "/command", "/reconciliation"]
    );

    let none = si_model::routes::ExecuteFlags {
        enable_ping: false,
        enable_resolver: false,
        enable_validation: false,
        enable_workflow_resolve: false,
        enable_command_run: false,
        enable_reconciliation: false,
    };
    assert!(si_model::routes::execute_route_plan(&none).is_empty());
}

// Relations drafted in an edit session ride along with apply: after save
// and apply, the link resolves at head like the records it joins.
#[test]
fn relations_promote_to_head_on_apply() {
    let mut ctx = head_context();
    let tenancy = Tenancy::new_universal();
    let schema = si_model::Schema::new(&mut ctx, "mainframe").expect("create schema at head");

    let mut change_set =
        si_model::ChangeSet::new(&mut ctx, &tenancy, "C1", None).expect("open change set");
    let mut edit_session =
        si_model::EditSession::new(&mut ctx, &tenancy, change_set.pk, "E1", None)
            .expect("open edit session");
    ctx.update_visibility(Visibility::new_edit_session(change_set.pk, edit_session.pk, false));

    let menu = SchemaUiMenu::new(&mut ctx, "widget", "things.widgets").expect("draft menu");
    menu.set_schema(&mut ctx, schema.id()).expect("draft link");

    // Before save, neither the menu nor its link is visible at head.
    ctx.update_visibility(Visibility::new_head(false));
    assert!(SchemaUiMenu::find_for_schema(&ctx, schema.id()).expect("lookup").is_none());
    ctx.update_visibility(Visibility::new_edit_session(change_set.pk, edit_session.pk, false));

    edit_session.save(&mut ctx).expect("save edit session");
    change_set.apply(&mut ctx).expect("apply change set");

    ctx.update_visibility(Visibility::new_head(false));
    let promoted = SchemaUiMenu::find_for_schema(&ctx, schema.id())
        .expect("lookup")
        .expect("the drafted menu resolves at head after apply");
    assert_eq!(promoted.name(), "widget");
    assert_eq!(promoted.category(), "things.widgets");
    assert_eq!(promoted.id(), menu.id());

    let back = promoted.schema(&ctx).expect("lookup").expect("link resolves at head");
    assert_eq!(back.id(), schema.id());
}

// Two change sets saving drafts of the same menu: after the first
// applies, the second's apply trips the conflict check, and head keeps
// showing the first one's promoted version through the reverse lookup.
#[test]
fn conflicting_menu_drafts_resolve_to_first_apply() {
    let mut ctx = head_context();
    let tenancy = Tenancy::new_universal();
    let schema = si_model::Schema::new(&mut ctx, "contested schema").expect("create schema");
    let menu = SchemaUiMenu::new(&mut ctx, "shared menu", "first.path").expect("create menu");
    menu.set_schema(&mut ctx, schema.id()).expect("link at head");

    let mut cs1 = si_model::ChangeSet::new(&mut ctx, &tenancy, "first branch", None).expect("cs1");
    let mut es1 =
        si_model::EditSession::new(&mut ctx, &tenancy, cs1.pk, "d1", None).expect("es1");
    let mut cs2 =
        si_model::ChangeSet::new(&mut ctx, &tenancy, "second branch", None).expect("cs2");
    let mut es2 =
        si_model::EditSession::new(&mut ctx, &tenancy, cs2.pk, "d2", None).expect("es2");

    let scope = ctx.scope;
    let actor = ctx.actor;
    let vis1 = Visibility::new_edit_session(cs1.pk, es1.pk, false);
    ctx.db
        .update(
            &scope,
            &vis1,
            &actor,
            EntityKind::SchemaUiMenu,
            menu.id(),
            si_model::Payload::SchemaUiMenu {
                name: "shared menu".to_string(),
                category: "second.path".to_string(),
            },
            2_000,
        )
        .expect("draft in cs1");
    let vis2 = Visibility::new_edit_session(cs2.pk, es2.pk, false);
    ctx.db
        .update(
            &scope,
            &vis2,
            &actor,
            EntityKind::SchemaUiMenu,
            menu.id(),
            si_model::Payload::SchemaUiMenu {
                name: "shared menu".to_string(),
                category: "third.path".to_string(),
            },
            2_000,
        )
        .expect("draft in cs2");

    es1.save(&mut ctx).expect("save es1");
    es2.save(&mut ctx).expect("save es2");
    cs1.apply(&mut ctx).expect("first apply succeeds");
    let second = cs2.apply(&mut ctx);
    assert_eq!(second, Err(ModelError::ApplyConflict));

    ctx.update_visibility(Visibility::new_head(false));
    let head_menu = SchemaUiMenu::find_for_schema(&ctx, schema.id())
        .expect("lookup")
        .expect("head still resolves the menu");
    assert_eq!(head_menu.category(), "second.path");
    assert_eq!(head_menu.id(), menu.id());
}
