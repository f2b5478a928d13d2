use si_model::BillingAccount;
use si_model::ChangeSet;
use si_model::ChangeSetStatus;
use si_model::CommitCoordinator;
use si_model::EditSession;
use si_model::HistoryActor;
use si_model::Tenancy;
use si_model::TenancyScope;
use si_model::Visibility;
use si_model::NO_CHANGE_SET_PK;
use si_model::NO_EDIT_SESSION_PK;

#[test]
fn change_set_new() {
    let coordinator = CommitCoordinator::new();
    let tenancy = Tenancy::new_universal();
    let scope = TenancyScope::new(tenancy);
    let history_actor = HistoryActor::SystemInit;
    let mut ctx = coordinator.begin(scope, Visibility::new_head(false), history_actor, 1_000);

    let change_set = ChangeSet::new(
        &mut ctx,
        &tenancy,
        "mastodon rocks",
        Some("they are a really good band and you should like them"),
    )
    .expect("cannot create changeset");

    assert_eq!(&change_set.name, "mastodon rocks");
    assert_eq!(
        &change_set.note,
        &Some("they are a really good band and you should like them".to_string())
    );
    assert_eq!(&change_set.tenancy, &tenancy);
}

#[test]
fn apply() {
    let coordinator = CommitCoordinator::new();
    let tenancy = Tenancy::new_universal();
    let scope = TenancyScope::new(tenancy);
    let history_actor = HistoryActor::SystemInit;
    let mut ctx = coordinator.begin(scope, Visibility::new_head(false), history_actor, 1_000);

    let mut change_set =
        ChangeSet::new(&mut ctx, &tenancy, "the fall", None).expect("cannot create changeset");
    let mut edit_session = EditSession::new(&mut ctx, &tenancy, change_set.pk, "april", None)
        .expect("cannot create edit session");

    let edit_session_visibility =
        Visibility::new_edit_session(change_set.pk, edit_session.pk, false);
    ctx.update_visibility(edit_session_visibility);
    let billing_account = BillingAccount::new(&mut ctx, "type o negative", None)
        .expect("cannot create billing account");

    edit_session.save(&mut ctx).expect("cannot save edit session");
    change_set.apply(&mut ctx).expect("cannot apply change set");
    assert_eq!(&change_set.status, &ChangeSetStatus::Applied);

    let head_visibility = Visibility::new_head(false);
    ctx.update_visibility(head_visibility);
    let head_billing_account =
        BillingAccount::get_by_id(&ctx, billing_account.id()).expect("head object should exist");

    assert_eq!(billing_account.id(), head_billing_account.id());
    assert_ne!(billing_account.pk(), head_billing_account.pk());
    assert_eq!(billing_account.name(), head_billing_account.name());
    assert_eq!(
        billing_account.description(),
        head_billing_account.description()
    );
    assert_eq!(
        head_billing_account.visibility().edit_session_pk,
        NO_EDIT_SESSION_PK
    );
    assert_eq!(
        head_billing_account.visibility().change_set_pk,
        NO_CHANGE_SET_PK,
    );
}
