use si_model::BillingAccount;
use si_model::ChangeSet;
use si_model::ChangeSetStatus;
use si_model::CommitCoordinator;
use si_model::EditSession;
use si_model::EditSessionStatus;
use si_model::EntityKind;
use si_model::HistoryActor;
use si_model::HistorySnapshot;
use si_model::ModelError;
use si_model::Notification;
use si_model::NotificationBus;
use si_model::NotificationKind;
use si_model::Payload;
use si_model::Tenancy;
use si_model::TenancyScope;
use si_model::Visibility;
use si_model::WorkContext;
use si_model::NO_EDIT_SESSION_PK;

fn head_context() -> WorkContext {
    let coordinator = CommitCoordinator::new();
    let tenancy = Tenancy::new_universal();
    let scope = TenancyScope::new(tenancy);
    coordinator.begin(scope, Visibility::new_head(false), HistoryActor::SystemInit, 1_000)
}

// Creating a record makes it immediately findable under the same
// visibility, with the created payload.
#[test]
fn create_then_find_returns_payload() {
    let mut ctx = head_context();
    let account = BillingAccount::new(&mut ctx, "initech", Some("a fine company"))
        .expect("cannot create billing account");
    let found = BillingAccount::get_by_id(&ctx, account.id()).expect("created row should resolve");
    assert_eq!(found, account);
    assert_eq!(found.name(), "initech");
    assert_eq!(found.description(), Some(&"a fine company".to_string()));
}

// Rows drafted under an open edit session are invisible at change-set
// level and at head until the session is saved.
#[test]
fn drafts_invisible_before_save() {
    let mut ctx = head_context();
    let tenancy = Tenancy::new_universal();
    let change_set = ChangeSet::new(&mut ctx, &tenancy, "branch", None).expect("change set");
    let edit_session =
        EditSession::new(&mut ctx, &tenancy, change_set.pk, "draft", None).expect("edit session");

    ctx.update_visibility(Visibility::new_edit_session(change_set.pk, edit_session.pk, false));
    let account = BillingAccount::new(&mut ctx, "umbrella", None).expect("create");

    ctx.update_visibility(Visibility::new_change_set(change_set.pk, false));
    assert!(BillingAccount::get_by_id(&ctx, account.id()).is_none());

    ctx.update_visibility(Visibility::new_head(false));
    assert!(BillingAccount::get_by_id(&ctx, account.id()).is_none());
}

// The full drafting scenario: open a change set and an edit session,
// create a record in the draft, save the session, apply the change set,
// and resolve the record at head with the drafted payload.
#[test]
fn change_set_scenario_to_head() {
    let mut ctx = head_context();
    let tenancy = Tenancy::new_universal();
    let mut change_set = ChangeSet::new(&mut ctx, &tenancy, "C1", None).expect("open change set");
    assert_eq!(change_set.status, ChangeSetStatus::Open);

    let mut edit_session =
        EditSession::new(&mut ctx, &tenancy, change_set.pk, "E1", None).expect("open edit session");
    assert_eq!(edit_session.status, EditSessionStatus::Open);

    ctx.update_visibility(Visibility::new_edit_session(change_set.pk, edit_session.pk, false));
    let widget = BillingAccount::new(&mut ctx, "widget", None).expect("create widget");

    edit_session.save(&mut ctx).expect("save edit session");
    assert_eq!(edit_session.status, EditSessionStatus::Saved);

    change_set.apply(&mut ctx).expect("apply change set");
    assert_eq!(change_set.status, ChangeSetStatus::Applied);

    ctx.update_visibility(Visibility::new_head(false));
    let head_widget =
        BillingAccount::get_by_id(&ctx, widget.id()).expect("widget should resolve at head");
    assert_eq!(head_widget.name(), "widget");
    assert_eq!(head_widget.id(), widget.id());
}

// Saving the same edit session twice fails with InvalidTransition.
#[test]
fn save_twice_fails() {
    let mut ctx = head_context();
    let tenancy = Tenancy::new_universal();
    let change_set = ChangeSet::new(&mut ctx, &tenancy, "branch", None).expect("change set");
    let mut edit_session =
        EditSession::new(&mut ctx, &tenancy, change_set.pk, "draft", None).expect("edit session");

    edit_session.save(&mut ctx).expect("first save succeeds");
    let second = edit_session.save(&mut ctx);
    assert_eq!(second, Err(ModelError::InvalidTransition));
}

// Soft-deleting a record hides it from default reads, keeps it readable
// when deleted rows are requested, and leaves a ledger entry.
#[test]
fn soft_delete_hides_but_keeps_history() {
    let mut ctx = head_context();
    let account = BillingAccount::new(&mut ctx, "acme", None).expect("create");
    let scope = ctx.scope;
    let vis = ctx.visibility;
    let actor = ctx.actor;
    let events_before = ctx.db.history.len();

    ctx.db
        .soft_delete(&scope, &vis, &actor, EntityKind::BillingAccount, account.id(), 2_000)
        .expect("soft delete");

    assert!(BillingAccount::get_by_id(&ctx, account.id()).is_none());

    ctx.update_visibility(Visibility::new_head(true));
    let tombstoned =
        BillingAccount::get_by_id(&ctx, account.id()).expect("tombstone should resolve");
    assert!(tombstoned.visibility().deleted);
    assert_eq!(tombstoned.name(), "acme");

    assert_eq!(ctx.db.history.len(), events_before + 1);
    let event = ctx.db.history.get(events_before).expect("ledger entry");
    match &event.snapshot {
        Some(HistorySnapshot::Row(row)) => {
            assert!(row.visibility.deleted);
            assert_eq!(row.id, account.id());
        }
        other => panic!("expected a row snapshot, got {:?}", other),
    }
}

// Lifecycle events carry the lifecycle record's state at event time.
#[test]
fn lifecycle_events_carry_snapshots() {
    let mut ctx = head_context();
    let tenancy = Tenancy::new_universal();
    let change_set = ChangeSet::new(&mut ctx, &tenancy, "audited", None).expect("change set");
    let cs_event = ctx
        .db
        .history
        .get(ctx.db.history.len() - 1)
        .expect("change set event")
        .clone();
    match &cs_event.snapshot {
        Some(HistorySnapshot::ChangeSet(cs)) => {
            assert_eq!(cs.pk, change_set.pk);
            assert_eq!(cs.name, "audited".to_string());
            assert_eq!(cs.status, ChangeSetStatus::Open);
        }
        other => panic!("expected a change set snapshot, got {:?}", other),
    }

    let mut edit_session =
        EditSession::new(&mut ctx, &tenancy, change_set.pk, "draft", None).expect("edit session");
    edit_session.save(&mut ctx).expect("save");
    let save_event = ctx
        .db
        .history
        .get(ctx.db.history.len() - 1)
        .expect("save event")
        .clone();
    assert_eq!(save_event.label, "edit_session.save".to_string());
    match &save_event.snapshot {
        Some(HistorySnapshot::EditSession(es)) => {
            assert_eq!(es.pk, edit_session.pk);
            assert_eq!(es.status, EditSessionStatus::Saved);
        }
        other => panic!("expected an edit session snapshot, got {:?}", other),
    }
}

// A soft-deleted record can be restored; the restored version is live.
#[test]
fn restore_after_soft_delete() {
    let mut ctx = head_context();
    let account = BillingAccount::new(&mut ctx, "lumon", None).expect("create");
    let scope = ctx.scope;
    let vis = ctx.visibility;
    let actor = ctx.actor;

    ctx.db
        .soft_delete(&scope, &vis, &actor, EntityKind::BillingAccount, account.id(), 2_000)
        .expect("soft delete");
    assert!(BillingAccount::get_by_id(&ctx, account.id()).is_none());

    ctx.db
        .restore(&scope, &vis, &actor, EntityKind::BillingAccount, account.id(), 3_000)
        .expect("restore");
    let restored = BillingAccount::get_by_id(&ctx, account.id()).expect("restored row resolves");
    assert!(!restored.visibility().deleted);
    assert_eq!(restored.name(), "lumon");
}

// Updating a record appends a new version; the old surrogate key is
// superseded and the new payload decides.
#[test]
fn update_appends_new_version() {
    let mut ctx = head_context();
    let account = BillingAccount::new(&mut ctx, "first name", None).expect("create");
    let scope = ctx.scope;
    let vis = ctx.visibility;
    let actor = ctx.actor;

    let updated = ctx
        .db
        .update(
            &scope,
            &vis,
            &actor,
            EntityKind::BillingAccount,
            account.id(),
            Payload::BillingAccount { name: "second name".to_string(), description: None },
            2_000,
        )
        .expect("update");
    assert_eq!(updated.id, account.id());
    assert!(updated.pk > account.pk());

    let found = BillingAccount::get_by_id(&ctx, account.id()).expect("resolves");
    assert_eq!(found.name(), "second name");
}

// Updating a record that does not exist fails with NotFound.
#[test]
fn update_missing_fails_not_found() {
    let mut ctx = head_context();
    let scope = ctx.scope;
    let vis = ctx.visibility;
    let actor = ctx.actor;
    let res = ctx.db.update(
        &scope,
        &vis,
        &actor,
        EntityKind::BillingAccount,
        4_242,
        Payload::BillingAccount { name: "ghost".to_string(), description: None },
        2_000,
    );
    assert_eq!(res.err(), Some(ModelError::NotFound));
}

// A workspace-scoped caller may read universal rows but not write them.
#[test]
fn tenancy_read_broader_than_write() {
    let mut ctx = head_context();
    let account = BillingAccount::new(&mut ctx, "shared", None).expect("create universal row");

    let workspace_scope = TenancyScope::new(Tenancy::new_workspace(7));
    assert!(workspace_scope.applies_to_read(&Tenancy::new_universal()));
    assert!(!workspace_scope.applies_to_write(&Tenancy::new_universal()));

    let vis = ctx.visibility;
    let actor = ctx.actor;
    let res = ctx.db.update(
        &workspace_scope,
        &vis,
        &actor,
        EntityKind::BillingAccount,
        account.id(),
        Payload::BillingAccount { name: "stolen".to_string(), description: None },
        2_000,
    );
    assert_eq!(res.err(), Some(ModelError::TenancyViolation));
}

// Creating a second record of the same kind and name under the same
// triple violates the unique-name constraint.
#[test]
fn duplicate_name_fails_storage_error() {
    let mut ctx = head_context();
    BillingAccount::new(&mut ctx, "duplicate", None).expect("first create");
    let second = BillingAccount::new(&mut ctx, "duplicate", None);
    assert_eq!(second.err(), Some(ModelError::StorageError));
}

// Writing under a saved edit session fails: terminal states reject writes.
#[test]
fn write_under_saved_session_fails() {
    let mut ctx = head_context();
    let tenancy = Tenancy::new_universal();
    let change_set = ChangeSet::new(&mut ctx, &tenancy, "branch", None).expect("change set");
    let mut edit_session =
        EditSession::new(&mut ctx, &tenancy, change_set.pk, "draft", None).expect("edit session");
    edit_session.save(&mut ctx).expect("save");

    ctx.update_visibility(Visibility::new_edit_session(change_set.pk, edit_session.pk, false));
    let res = BillingAccount::new(&mut ctx, "late draft", None);
    assert_eq!(res.err(), Some(ModelError::InvalidTransition));
}

// Rows drafted under a canceled edit session become unreachable.
#[test]
fn canceled_session_orphans_drafts() {
    let mut ctx = head_context();
    let tenancy = Tenancy::new_universal();
    let change_set = ChangeSet::new(&mut ctx, &tenancy, "branch", None).expect("change set");
    let mut edit_session =
        EditSession::new(&mut ctx, &tenancy, change_set.pk, "draft", None).expect("edit session");

    ctx.update_visibility(Visibility::new_edit_session(change_set.pk, edit_session.pk, false));
    let account = BillingAccount::new(&mut ctx, "orphan", None).expect("create");
    edit_session.cancel(&mut ctx).expect("cancel");

    assert!(BillingAccount::get_by_id(&ctx, account.id()).is_none());
}

// Two change sets drafting the same record: after the first applies, the
// second's apply fails with ApplyConflict and promotes nothing.
#[test]
fn second_apply_conflicts() {
    let mut ctx = head_context();
    let tenancy = Tenancy::new_universal();
    let base = BillingAccount::new(&mut ctx, "contested", None).expect("create base record");

    let mut cs1 = ChangeSet::new(&mut ctx, &tenancy, "first branch", None).expect("cs1");
    let mut es1 = EditSession::new(&mut ctx, &tenancy, cs1.pk, "d1", None).expect("es1");
    let mut cs2 = ChangeSet::new(&mut ctx, &tenancy, "second branch", None).expect("cs2");
    let mut es2 = EditSession::new(&mut ctx, &tenancy, cs2.pk, "d2", None).expect("es2");

    let scope = ctx.scope;
    let actor = ctx.actor;
    let vis1 = Visibility::new_edit_session(cs1.pk, es1.pk, false);
    ctx.db
        .update(
            &scope,
            &vis1,
            &actor,
            EntityKind::BillingAccount,
            base.id(),
            Payload::BillingAccount { name: "first wins".to_string(), description: None },
            2_000,
        )
        .expect("draft in cs1");
    let vis2 = Visibility::new_edit_session(cs2.pk, es2.pk, false);
    ctx.db
        .update(
            &scope,
            &vis2,
            &actor,
            EntityKind::BillingAccount,
            base.id(),
            Payload::BillingAccount { name: "second wins".to_string(), description: None },
            2_000,
        )
        .expect("draft in cs2");

    es1.save(&mut ctx).expect("save es1");
    es2.save(&mut ctx).expect("save es2");

    cs1.apply(&mut ctx).expect("first apply succeeds");
    let second = cs2.apply(&mut ctx);
    assert_eq!(second, Err(ModelError::ApplyConflict));
    assert_eq!(cs2.status, ChangeSetStatus::Open);

    ctx.update_visibility(Visibility::new_head(false));
    let head = BillingAccount::get_by_id(&ctx, base.id()).expect("head resolves");
    assert_eq!(head.name(), "first wins");
}

// Abandoning a change set orphans everything drafted under it.
#[test]
fn abandon_orphans_change_set_content() {
    let mut ctx = head_context();
    let tenancy = Tenancy::new_universal();
    let mut change_set = ChangeSet::new(&mut ctx, &tenancy, "doomed", None).expect("change set");
    let mut edit_session =
        EditSession::new(&mut ctx, &tenancy, change_set.pk, "draft", None).expect("edit session");

    ctx.update_visibility(Visibility::new_edit_session(change_set.pk, edit_session.pk, false));
    let account = BillingAccount::new(&mut ctx, "shortlived", None).expect("create");
    edit_session.save(&mut ctx).expect("save");
    change_set.abandon(&mut ctx).expect("abandon");
    assert_eq!(change_set.status, ChangeSetStatus::Abandoned);

    assert!(BillingAccount::get_by_id(&ctx, account.id()).is_none());
    let second = change_set.abandon(&mut ctx);
    assert_eq!(second, Err(ModelError::InvalidTransition));
}

// When the storage layer refuses the commit, the durable state is
// untouched and the mock bus records zero deliveries.
#[test]
fn failed_commit_delivers_nothing() {
    let mut coordinator = CommitCoordinator::new();
    let tenancy = Tenancy::new_universal();
    let scope = TenancyScope::new(tenancy);
    let mut ctx =
        coordinator.begin(scope, Visibility::new_head(false), HistoryActor::SystemInit, 1_000);
    BillingAccount::new(&mut ctx, "vanishing", None).expect("create in work copy");
    ctx.enqueue_notification(Notification {
        kind: NotificationKind::ChangeSetWritten,
        change_set_pk: 1,
        edit_session_pk: NO_EDIT_SESSION_PK,
    });

    let mut bus = NotificationBus::new();
    let res = coordinator.finish(ctx, false, &mut bus);
    assert_eq!(res, Err(ModelError::StorageError));
    assert_eq!(bus.delivered_count(), 0);
    assert_eq!(coordinator.durable.rows.len(), 0);
}

// When the commit succeeds, every enqueued notification is delivered
// exactly once, in enqueue order.
#[test]
fn successful_commit_delivers_in_order() {
    let mut coordinator = CommitCoordinator::new();
    let tenancy = Tenancy::new_universal();
    let scope = TenancyScope::new(tenancy);
    let mut ctx =
        coordinator.begin(scope, Visibility::new_head(false), HistoryActor::SystemInit, 1_000);
    let account = BillingAccount::new(&mut ctx, "durable", None).expect("create in work copy");
    let account_id = account.id();
    let first = Notification {
        kind: NotificationKind::ChangeSetCreated,
        change_set_pk: 11,
        edit_session_pk: NO_EDIT_SESSION_PK,
    };
    let second = Notification {
        kind: NotificationKind::ChangeSetWritten,
        change_set_pk: 11,
        edit_session_pk: NO_EDIT_SESSION_PK,
    };
    ctx.enqueue_notification(first);
    ctx.enqueue_notification(second);

    let mut bus = NotificationBus::new();
    coordinator.commit(ctx, &mut bus).expect("commit");
    assert_eq!(bus.delivered_count(), 2);
    assert_eq!(bus.delivered_at(0), Some(&first));
    assert_eq!(bus.delivered_at(1), Some(&second));

    let read_ctx =
        coordinator.begin(scope, Visibility::new_head(false), HistoryActor::SystemInit, 2_000);
    assert!(BillingAccount::get_by_id(&read_ctx, account_id).is_some());
}

// A failing transport delivers nothing, reports the failure, and does not
// roll back the already-committed data.
#[test]
fn failed_delivery_keeps_committed_data() {
    let mut coordinator = CommitCoordinator::new();
    let tenancy = Tenancy::new_universal();
    let scope = TenancyScope::new(tenancy);
    let mut ctx =
        coordinator.begin(scope, Visibility::new_head(false), HistoryActor::SystemInit, 1_000);
    let account = BillingAccount::new(&mut ctx, "kept", None).expect("create in work copy");
    let account_id = account.id();
    ctx.enqueue_notification(Notification {
        kind: NotificationKind::ChangeSetWritten,
        change_set_pk: 3,
        edit_session_pk: NO_EDIT_SESSION_PK,
    });

    let mut bus = NotificationBus::failing();
    let res = coordinator.commit(ctx, &mut bus);
    assert_eq!(res, Err(ModelError::NotificationDeliveryFailure));
    assert_eq!(bus.delivered_count(), 0);

    let read_ctx =
        coordinator.begin(scope, Visibility::new_head(false), HistoryActor::SystemInit, 2_000);
    assert!(BillingAccount::get_by_id(&read_ctx, account_id).is_some());
}

// Dropping a unit of work without committing leaves the durable state
// untouched.
#[test]
fn rollback_discards_work() {
    let coordinator = CommitCoordinator::new();
    let tenancy = Tenancy::new_universal();
    let scope = TenancyScope::new(tenancy);
    let mut ctx =
        coordinator.begin(scope, Visibility::new_head(false), HistoryActor::SystemInit, 1_000);
    BillingAccount::new(&mut ctx, "ephemeral", None).expect("create in work copy");
    ctx.rollback();
    assert_eq!(coordinator.durable.rows.len(), 0);
}
