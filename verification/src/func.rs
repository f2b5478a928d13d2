//! Stored functions and the authoring flow that creates them.
//!
//! Authoring picks, per function kind, a default code body and handler from
//! injected configuration, encodes the body as base64, and creates the
//! function record — after checking that no visible function already
//! carries the requested name.

use vstd::prelude::*;
use vstd::string::StringExecFns;

use crate::coordinator::WorkContext;
use crate::error::ModelError;
use crate::func_kinds::FuncBackendKind;
use crate::func_kinds::FuncBackendResponseType;
use crate::func_kinds::FuncKind;
use crate::payload::EntityKind;
use crate::payload::Payload;
use crate::row::RelationKind;
use crate::row::Row;
use crate::visibility::Visibility;

verus! {

/// Logical id of a stored function.
pub type FuncId = i64;

/// A code lookup request for one function.
#[derive(Clone, Copy, Debug, PartialEq, Eq, Structural, Hash)]
pub struct GetRequest {
    pub id: FuncId,
}

/// What the standard-no-padding base64 alphabet encodes a text to.
pub uninterp spec fn base64_nopad_of(s: Seq<char>) -> Seq<char>;

/// What decoding standard-no-padding base64 and reading the bytes as UTF-8
/// yields, when both steps succeed.
pub uninterp spec fn base64_nopad_decoded(s: Seq<char>) -> Option<Seq<char>>;

/// Relies on base64's `STANDARD_NO_PAD` engine `encode`: the encoding is a
/// function of the input bytes alone.
#[verifier::external_body]
fn base64_encode_nopad(data: &str) -> (r: String)
    ensures
        r@ == base64_nopad_of(data@),
{
    base64::Engine::encode(&base64::engine::general_purpose::STANDARD_NO_PAD, data)
}

/// Relies on base64's `STANDARD_NO_PAD` engine `decode` and on
/// `String::from_utf8`: whether the text decodes to UTF-8 bytes, and the
/// decoded text; both are functions of the input alone.
#[verifier::external_body]
fn base64_decode_nopad(data: &str) -> (r: Option<String>)
    ensures
        r matches Some(s) ==> base64_nopad_decoded(data@) == Some(s@),
        r is None ==> base64_nopad_decoded(data@) is None,
{
    match base64::Engine::decode(&base64::engine::general_purpose::STANDARD_NO_PAD, data) {
        Ok(bytes) => String::from_utf8(bytes).ok(),
        Err(_) => None,
    }
}

/// Some stored row is a function named `name` that resolves under the
/// caller's scope and visibility.
pub open spec fn visible_func_named(
    db: crate::database::Database,
    scope: crate::tenancy::TenancyScope,
    vis: Visibility,
    name: Seq<char>,
) -> bool {
    exists|m: int|
        0 <= m < db.rows@.len() && (#[trigger] db.rows@[m]).payload is Func
            && db.rows@[m].payload.name_spec() == name && db.find_spec(
            scope,
            vis,
            EntityKind::Func,
            db.rows@[m].id,
        ) == Some(db.rows@[m])
}

/// One resolved function version.
#[derive(Debug, PartialEq)]
pub struct Func {
    pub row: Row,
}

impl Clone for Func {
    fn clone(&self) -> (res: Self)
        ensures
            res == *self,
    {
        Func { row: self.row.clone() }
    }
}

impl Func {
    /// The wrapped row really is a function row.
    pub open spec fn wf(self) -> bool {
        self.row.payload is Func && self.row.kind == EntityKind::Func
    }

    /// Creates a function record in the caller's own tenancy.
    pub fn new(
        ctx: &mut WorkContext,
        name: &str,
        backend_kind: FuncBackendKind,
        response_type: FuncBackendResponseType,
        handler: &str,
        code_base64: &str,
        hidden: bool,
    ) -> (res: Result<Func, ModelError>)
        requires
            old(ctx).db.inv(),
            old(ctx).db.next_pk < i64::MAX,
            old(ctx).db.next_id < i64::MAX,
        ensures
            final(ctx).db.inv(),
            res is Ok <==> old(ctx).db.create_named_ok(
                old(ctx).visibility,
                EntityKind::Func,
                name@,
            ),
            res is Err ==> *final(ctx) == *old(ctx) && res == Err::<Func, ModelError>(
                if !old(ctx).db.context_writable(old(ctx).visibility) {
                    ModelError::InvalidTransition
                } else {
                    ModelError::StorageError
                },
            ),
            res matches Ok(f) ==> ({
                &&& f.wf()
                &&& crate::standard_model::entity_created(
                    *old(ctx),
                    *final(ctx),
                    f.row,
                    EntityKind::Func,
                )
                &&& f.row.payload matches Payload::Func {
                    name: nm,
                    backend_kind: bk,
                    response_type: rt,
                    handler: h,
                    code_base64: c,
                    hidden: hd,
                } && nm@ == name@ && bk == backend_kind && rt == response_type && h@ == handler@
                    && c@ == code_base64@ && hd == hidden
            }),
    {
        let payload = Payload::Func {
            name: name.to_owned(),
            backend_kind,
            response_type,
            handler: handler.to_owned(),
            code_base64: code_base64.to_owned(),
            hidden,
        };
        let scope = ctx.scope;
        let vis = ctx.visibility;
        let actor = ctx.actor;
        let tenancy = ctx.scope.scope;
        let now = ctx.now;
        proof {
            crate::standard_model::lemma_name_taken_view(ctx.db, vis, payload);
        }
        match ctx.db.create(&scope, &vis, &actor, &tenancy, payload, now) {
            Ok(row) => Ok(Func { row }),
            Err(e) => Err(e),
        }
    }

    pub fn id(&self) -> (id: i64)
        ensures
            id == self.row.id,
    {
        self.row.id
    }

    pub fn name(&self) -> (n: &str)
        requires
            self.wf(),
        ensures
            n@ == self.row.payload.name_spec(),
    {
        match &self.row.payload {
            Payload::Func { name, .. } => name.as_str(),
            _ => {
                proof {
                    assert(false);
                }
                ""
            }
        }
    }

    /// The stored code body, decoded from base64, when it decodes.
    pub fn code_plaintext(&self) -> (res: Option<String>)
        requires
            self.wf(),
        ensures
            self.row.payload matches Payload::Func { code_base64, .. } ==> (match base64_nopad_decoded(
                code_base64@,
            ) {
                Some(s) => res matches Some(rs) && rs@ == s,
                None => res is None,
            }),
    {
        match &self.row.payload {
            Payload::Func { code_base64, .. } => base64_decode_nopad(code_base64.as_str()),
            _ => {
                proof {
                    assert(false);
                }
                None
            }
        }
    }

    /// The visible function of this name, if one resolves.
    pub fn find_by_name(ctx: &WorkContext, name: &str) -> (res: Option<Func>)
        requires
            ctx.db.inv(),
        ensures
            res matches Some(f) ==> f.wf() && ctx.db.find_spec(
                ctx.scope,
                ctx.visibility,
                EntityKind::Func,
                f.row.id,
            ) == Some(f.row) && f.row.payload.name_spec() == name@,
            res is Some <==> visible_func_named(ctx.db, ctx.scope, ctx.visibility, name@),
    {
        let name_s = name.to_owned();
        let n = ctx.db.rows.len();
        let mut m: usize = 0;
        while m < n
            invariant
                m <= n,
                n == ctx.db.rows@.len(),
                ctx.db.inv(),
                name_s@ == name@,
                forall|q: int|
                    0 <= q < m ==> !((#[trigger] ctx.db.rows@[q]).payload is Func
                        && ctx.db.rows@[q].payload.name_spec() == name@ && ctx.db.find_spec(
                        ctx.scope,
                        ctx.visibility,
                        EntityKind::Func,
                        ctx.db.rows@[q].id,
                    ) == Some(ctx.db.rows@[q])),
            decreases n - m,
        {
            let row_name_matches = {
                let r = &ctx.db.rows[m];
                match &r.payload {
                    Payload::Func { name: rn, .. } => *rn == name_s,
                    _ => false,
                }
            };
            if row_name_matches {
                let id = ctx.db.rows[m].id;
                proof {
                    crate::standard_model::lemma_deciding_row_in_rows(
                        ctx.db,
                        ctx.visibility,
                        EntityKind::Func,
                        id,
                    );
                }
                match ctx.db.deciding_index(&ctx.visibility, EntityKind::Func, id) {
                    Some(i) => {
                        if i == m {
                            let r = &ctx.db.rows[m];
                            let live = ctx.visibility.deleted || !r.visibility.deleted;
                            if live && ctx.scope.applies_to_read(&r.tenancy) {
                                proof {
                                    assert((#[trigger] ctx.db.rows@[m as int]).payload is Func
                                        && ctx.db.rows@[m as int].payload.name_spec() == name@
                                        && ctx.db.find_spec(
                                        ctx.scope,
                                        ctx.visibility,
                                        EntityKind::Func,
                                        ctx.db.rows@[m as int].id,
                                    ) == Some(ctx.db.rows@[m as int]));
                                }
                                return Some(Func { row: r.clone() });
                            }
                        } else {
                            proof {
                                if i < m {
                                    assert(ctx.db.rows@[i as int].pk < ctx.db.rows@[m as int].pk);
                                } else {
                                    assert(ctx.db.rows@[m as int].pk < ctx.db.rows@[i as int].pk);
                                }
                            }
                        }
                    }
                    None => {}
                }
            }
            m = m + 1;
        }
        None
    }
}

/// The injected default code bodies and handler for authored functions.
#[derive(Debug)]
pub struct FuncDefaults {
    pub handler: String,
    pub attribute_code: String,
    pub code_generation_code: String,
    pub qualification_code: String,
    pub action_code: String,
    pub authentication_code: String,
}

impl FuncDefaults {
    /// The default code body authored for a function kind.
    pub open spec fn code_for_spec(self, kind: FuncKind) -> Seq<char> {
        match kind {
            FuncKind::Action => self.action_code@,
            FuncKind::Attribute => self.attribute_code@,
            FuncKind::Authentication => self.authentication_code@,
            FuncKind::CodeGeneration => self.code_generation_code@,
            FuncKind::Qualification => self.qualification_code@,
            _ => Seq::empty(),
        }
    }
}

/// How function authoring can fail.
#[derive(Clone, Copy, Debug, PartialEq, Eq, Structural, Hash)]
pub enum FuncAuthoringError {
    /// The kind cannot be authored directly.
    InvalidFuncKindForCreation(FuncKind),
    /// A visible function already carries the name.
    FuncNameExists,
    /// The underlying store refused the write.
    Model(ModelError),
}

/// What authoring answers with: the created function's identity and code.
#[derive(Debug, PartialEq)]
pub struct CreatedFunc {
    pub id: FuncId,
    pub handler: Option<String>,
    pub kind: FuncKind,
    pub name: String,
    pub code: Option<String>,
}

/// Options accompanying an authoring request.
#[derive(Clone, Copy, Debug, PartialEq, Eq, Structural, Hash)]
pub enum CreateFuncOptions {
    /// Attach the new authentication function to this schema variant.
    AuthenticationOptions { schema_variant_id: i64 },
}

/// Whether the request asks for the new function to be attached to a
/// schema variant: only authentication functions carry an attachment.
pub open spec fn attach_requested(kind: FuncKind, options: Option<CreateFuncOptions>) -> bool {
    kind == FuncKind::Authentication && options is Some
}

/// The schema variant named by the request's options.
pub open spec fn options_variant_id(options: Option<CreateFuncOptions>) -> i64 {
    match options {
        Some(CreateFuncOptions::AuthenticationOptions { schema_variant_id }) => schema_variant_id,
        None => 0,
    }
}

/// Whether a function kind can be authored directly.
pub open spec fn authorable_spec(kind: FuncKind) -> bool {
    match kind {
        FuncKind::Action => true,
        FuncKind::Attribute => true,
        FuncKind::Authentication => true,
        FuncKind::CodeGeneration => true,
        FuncKind::Qualification => true,
        _ => false,
    }
}

/// The backend that runs functions authored as `kind`.
pub open spec fn backend_kind_for_spec(kind: FuncKind) -> FuncBackendKind {
    match kind {
        FuncKind::Action => FuncBackendKind::JsAction,
        FuncKind::Authentication => FuncBackendKind::JsAuthentication,
        _ => FuncBackendKind::JsAttribute,
    }
}

/// The response type of functions authored as `kind`.
pub open spec fn response_type_for_spec(kind: FuncKind) -> FuncBackendResponseType {
    match kind {
        FuncKind::Action => FuncBackendResponseType::Action,
        FuncKind::Attribute => FuncBackendResponseType::Unset,
        FuncKind::Authentication => FuncBackendResponseType::Void,
        FuncKind::CodeGeneration => FuncBackendResponseType::CodeGeneration,
        _ => FuncBackendResponseType::Qualification,
    }
}

/// Creates a function of the given kind from the injected defaults: the
/// kind picks the code body, backend and response type; the code is stored
/// base64-encoded; the name must not collide with a visible function. The
/// caller supplies the name (generating one, if wanted, is the caller's
/// business). An authentication function carrying attachment options is
/// also related to the named schema variant.
pub fn create_func(
    ctx: &mut WorkContext,
    kind: FuncKind,
    name: &str,
    options: Option<CreateFuncOptions>,
    defaults: &FuncDefaults,
) -> (res: Result<CreatedFunc, FuncAuthoringError>)
    requires
        old(ctx).db.inv(),
        old(ctx).db.next_pk < i64::MAX - 1,
        old(ctx).db.next_id < i64::MAX,
    ensures
        final(ctx).db.inv(),
        res is Ok <==> ({
            &&& authorable_spec(kind)
            &&& !visible_func_named(old(ctx).db, old(ctx).scope, old(ctx).visibility, name@)
            &&& old(ctx).db.create_named_ok(old(ctx).visibility, EntityKind::Func, name@)
            &&& (attach_requested(kind, options) ==> old(ctx).db.resolve(
                old(ctx).visibility,
                EntityKind::SchemaVariant,
                options_variant_id(options),
            ) is Some)
        }),
        !attach_requested(kind, options) ==> (res is Err ==> *final(ctx) == *old(ctx)),
        attach_requested(kind, options) && res is Err ==> final(ctx).db.relations@ == old(
            ctx,
        ).db.relations@ && final(ctx).notifications@ == old(ctx).notifications@,
        attach_requested(kind, options) && authorable_spec(kind) && !visible_func_named(
            old(ctx).db,
            old(ctx).scope,
            old(ctx).visibility,
            name@,
        ) && old(ctx).db.create_named_ok(old(ctx).visibility, EntityKind::Func, name@) && old(
            ctx,
        ).db.resolve(
            old(ctx).visibility,
            EntityKind::SchemaVariant,
            options_variant_id(options),
        ) is None ==> res == Err::<CreatedFunc, FuncAuthoringError>(
            FuncAuthoringError::Model(ModelError::NotFound),
        ),
        !authorable_spec(kind) ==> res == Err::<CreatedFunc, FuncAuthoringError>(
            FuncAuthoringError::InvalidFuncKindForCreation(kind),
        ),
        authorable_spec(kind) && visible_func_named(
            old(ctx).db,
            old(ctx).scope,
            old(ctx).visibility,
            name@,
        ) ==> res == Err::<CreatedFunc, FuncAuthoringError>(FuncAuthoringError::FuncNameExists),
        authorable_spec(kind) && !visible_func_named(
            old(ctx).db,
            old(ctx).scope,
            old(ctx).visibility,
            name@,
        ) && !old(ctx).db.create_named_ok(old(ctx).visibility, EntityKind::Func, name@) ==> res
            == Err::<CreatedFunc, FuncAuthoringError>(
            FuncAuthoringError::Model(
                if !old(ctx).db.context_writable(old(ctx).visibility) {
                    ModelError::InvalidTransition
                } else {
                    ModelError::StorageError
                },
            ),
        ),
        res matches Ok(created) ==> ({
            &&& authorable_spec(kind)
            &&& (!attach_requested(kind, options) ==> crate::standard_model::entity_created(
                *old(ctx),
                *final(ctx),
                final(ctx).db.rows@.last(),
                EntityKind::Func,
            ))
            &&& (attach_requested(kind, options) ==> ({
                &&& final(ctx).db.rows@ == old(ctx).db.rows@.push(final(ctx).db.rows@.last())
                &&& final(ctx).db.next_pk == old(ctx).db.next_pk + 2
                &&& final(ctx).db.next_id == old(ctx).db.next_id + 1
                &&& final(ctx).db.change_sets@ == old(ctx).db.change_sets@
                &&& final(ctx).db.edit_sessions@ == old(ctx).db.edit_sessions@
                &&& final(ctx).db.relations@.len() == old(ctx).db.relations@.len() + 1
                &&& (final(ctx).db.resolve_link(
                    old(ctx).visibility,
                    RelationKind::AuthenticationFuncVariant,
                    old(ctx).db.next_id,
                    Some(options_variant_id(options)),
                ) matches Some(l) && l.target_id == options_variant_id(options))
                &&& final(ctx).db.history.events@.len() == old(ctx).db.history.events@.len() + 2
                &&& final(ctx).notifications@ == old(ctx).notifications@
            }))
            &&& created.kind == kind
            &&& created.name@ == name@
            &&& created.handler matches Some(h) && h@ == defaults.handler@
            &&& created.id == old(ctx).db.next_id
            &&& final(ctx).db.rows@.len() == old(ctx).db.rows@.len() + 1
            &&& final(ctx).db.rows@.last().payload matches Payload::Func {
                name: nm,
                backend_kind: bk,
                response_type: rt,
                handler: hh,
                code_base64: cb,
                hidden: hd,
            } && nm@ == name@ && bk == backend_kind_for_spec(kind) && rt == response_type_for_spec(
                kind,
            ) && hh@ == defaults.handler@ && cb@ == base64_nopad_of(defaults.code_for_spec(kind))
                && !hd
            &&& (match base64_nopad_decoded(base64_nopad_of(defaults.code_for_spec(kind))) {
                Some(s) => created.code matches Some(c) && c@ == s,
                None => created.code is None,
            })
        }),
{
    let (code, backend_kind, response_type): (&str, FuncBackendKind, FuncBackendResponseType) =
        match kind {
        FuncKind::Action => (
            defaults.action_code.as_str(),
            FuncBackendKind::JsAction,
            FuncBackendResponseType::Action,
        ),
        FuncKind::Attribute => (
            defaults.attribute_code.as_str(),
            FuncBackendKind::JsAttribute,
            FuncBackendResponseType::Unset,
        ),
        FuncKind::Authentication => (
            defaults.authentication_code.as_str(),
            FuncBackendKind::JsAuthentication,
            FuncBackendResponseType::Void,
        ),
        FuncKind::CodeGeneration => (
            defaults.code_generation_code.as_str(),
            FuncBackendKind::JsAttribute,
            FuncBackendResponseType::CodeGeneration,
        ),
        FuncKind::Qualification => (
            defaults.qualification_code.as_str(),
            FuncBackendKind::JsAttribute,
            FuncBackendResponseType::Qualification,
        ),
        _ => {
            return Err(FuncAuthoringError::InvalidFuncKindForCreation(kind));
        }
    };
    let scope = ctx.scope;
    let vis = ctx.visibility;
    let actor = ctx.actor;
    let now = ctx.now;
    let ghost pre_ctx = *ctx;
    if Func::find_by_name(ctx, name).is_some() {
        return Err(FuncAuthoringError::FuncNameExists);
    }
    let code_base64 = base64_encode_nopad(code);
    let func = match Func::new(
        ctx,
        name,
        backend_kind,
        response_type,
        defaults.handler.as_str(),
        code_base64.as_str(),
        false,
    ) {
        Ok(f) => f,
        Err(e) => {
            return Err(FuncAuthoringError::Model(e));
        }
    };
    match (kind, options) {
        (
            FuncKind::Authentication,
            Some(CreateFuncOptions::AuthenticationOptions { schema_variant_id }),
        ) => {
            proof {
                let nr = func.row;
                crate::standard_model::lemma_writable_context_row_reachable(ctx.db, vis, nr);
                crate::standard_model::lemma_decides_after_append(pre_ctx.db, ctx.db, vis, nr);
                crate::standard_model::lemma_decides_preserved_after_append(
                    pre_ctx.db,
                    ctx.db,
                    vis,
                    nr,
                    EntityKind::SchemaVariant,
                    schema_variant_id,
                );
            }
            match ctx.db.relate(
                &scope,
                &vis,
                &actor,
                RelationKind::AuthenticationFuncVariant,
                func.row.id,
                schema_variant_id,
                now,
            ) {
                Ok(_) => {}
                Err(e) => {
                    return Err(FuncAuthoringError::Model(e));
                }
            }
        }
        _ => {}
    }
    let code = func.code_plaintext();
    let handler = match &func.row.payload {
        Payload::Func { handler, .. } => Some(handler.clone()),
        _ => {
            proof {
                assert(false);
            }
            None
        }
    };
    let name_owned = match &func.row.payload {
        Payload::Func { name: nm, .. } => nm.clone(),
        _ => {
            proof {
                assert(false);
            }
            String::new()
        }
    };
    Ok(CreatedFunc { id: func.row.id, handler, kind, name: name_owned, code })
}

} // verus!
