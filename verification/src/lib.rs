//! A versioned record model: branchable storage of domain records on top of an
//! append-only row store.
//!
//! Records are drafted inside an edit session, saved into a change set, and
//! merged into the shared head baseline by applying the change set, all under
//! a single visibility-resolution algorithm. Every mutation is paired with an
//! append-only history event, and outbound notifications are only flushed
//! after the owning unit of work commits.

pub mod apply;
pub mod billing_account;
pub mod change_set;
pub mod coordinator;
pub mod database;
pub mod diagram;
pub mod edit_session;
pub mod error;
pub mod func;
pub mod func_kinds;
pub mod history;
pub mod laws;
pub mod lifecycle;
pub mod payload;
pub mod pkg;
pub mod prop;
pub mod relations;
pub mod routes;
pub mod row;
pub mod schema;
pub mod standard_model;
pub mod tenancy;
pub mod timestamp;
pub mod visibility;
pub mod workflow;

pub use billing_account::BillingAccount;
pub use change_set::ChangeSet;
pub use change_set::ChangeSetStatus;
pub use coordinator::CommitCoordinator;
pub use coordinator::Notification;
pub use coordinator::NotificationBus;
pub use coordinator::NotificationKind;
pub use coordinator::WorkContext;
pub use database::Database;
pub use diagram::Connection;
pub use diagram::Edge;
pub use diagram::EdgeId;
pub use diagram::ForceChangeSet;
pub use diagram::UndeleteConnectionRequest;
pub use edit_session::EditSession;
pub use edit_session::EditSessionStatus;
pub use error::ModelError;
pub use func::CreateFuncOptions;
pub use func::CreatedFunc;
pub use func::Func;
pub use func::FuncId;
pub use func::GetRequest;
pub use func_kinds::FuncBackendKind;
pub use func_kinds::FuncBackendResponseType;
pub use func_kinds::FuncKind;
pub use history::HistoryActor;
pub use history::HistoryEvent;
pub use history::HistorySnapshot;
pub use history::HistoryEventLog;
pub use payload::EntityKind;
pub use payload::Payload;
pub use payload::PropKind;
pub use pkg::FuncSpec;
pub use pkg::FuncSpecBuilder;
pub use pkg::PkgSpec;
pub use pkg::PkgSpecBuilder;
pub use pkg::PropSpec;
pub use pkg::PropSpecBuilder;
pub use pkg::PropSpecKind;
pub use pkg::SchemaSpec;
pub use pkg::SchemaSpecBuilder;
pub use pkg::SchemaVariantSpec;
pub use pkg::SchemaVariantSpecBuilder;
pub use pkg::SpecError;
pub use prop::Prop;
pub use routes::ExecuteFlags;
pub use routes::ExecuteRoute;
pub use row::RelationKind;
pub use row::RelationRow;
pub use row::Row;
pub use schema::ComponentType;
pub use schema::Schema;
pub use schema::SchemaUiMenu;
pub use schema::SchemaVariant;
pub use tenancy::Tenancy;
pub use tenancy::TenancyScope;
pub use timestamp::Timestamp;
pub use visibility::ChangeSetPk;
pub use visibility::EditSessionPk;
pub use visibility::NO_CHANGE_SET_PK;
pub use visibility::NO_EDIT_SESSION_PK;
pub use visibility::Visibility;
pub use workflow::LangServerWorkflowResolveResultSuccess;
pub use workflow::WorkflowResolveRequest;
pub use workflow::WorkflowResolveResultSuccess;
