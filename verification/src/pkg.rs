//! Declarative specs for exportable schema content, with their builders.
//!
//! A property spec is a tree: leaves are strings, numbers and booleans;
//! maps and arrays carry one element spec; objects carry a list of entry
//! specs. A schema variant spec owns a property tree whose root is always
//! the `domain` object.

use vstd::prelude::*;
use vstd::string::StringExecFns;

verus! {

/// An error from building a spec.
#[derive(Debug, PartialEq, Eq)]
pub enum SpecError {
    /// A required builder field was never set.
    UninitializedField(&'static str),
    /// A field's value was rejected.
    ValidationError(String),
}

/// One property of a schema variant's tree.
#[derive(Debug, PartialEq, Eq)]
pub enum PropSpec {
    String { name: String },
    Number { name: String },
    Boolean { name: String },
    Mapping { name: String, type_prop: Box<PropSpec> },
    Array { name: String, type_prop: Box<PropSpec> },
    Object { name: String, entries: Vec<PropSpec> },
}

impl PropSpec {
    pub fn builder() -> (b: PropSpecBuilder)
        ensures
            b.kind is None,
            b.name is None,
            b.type_prop is None,
            b.entries@ =~= Seq::<PropSpec>::empty(),
    {
        PropSpecBuilder { kind: None, name: None, type_prop: None, entries: Vec::new() }
    }
}

/// The shape a property spec under construction will take.
#[derive(Clone, Copy, Debug, PartialEq, Eq, Structural, Hash)]
pub enum PropSpecKind {
    String,
    Number,
    Boolean,
    Mapping,
    Array,
    Object,
}

/// Builds a [`PropSpec`] field by field.
#[derive(Debug)]
pub struct PropSpecBuilder {
    pub kind: Option<PropSpecKind>,
    pub name: Option<String>,
    pub type_prop: Option<PropSpec>,
    pub entries: Vec<PropSpec>,
}

impl PropSpecBuilder {
    pub fn kind(&mut self, value: PropSpecKind) -> (ret: &mut PropSpecBuilder)
        ensures
            *ret == (PropSpecBuilder { kind: Some(value), ..*old(self) }),
            *final(self) == *final(ret),
    {
        self.kind = Some(value);
        self
    }

    pub fn get_kind(&self) -> (k: Option<PropSpecKind>)
        ensures
            k == self.kind,
    {
        self.kind
    }

    pub fn name(&mut self, value: &str) -> (ret: &mut PropSpecBuilder)
        ensures
            ret.name matches Some(nm) && nm@ == value@,
            ret.kind == old(self).kind,
            ret.type_prop == old(self).type_prop,
            ret.entries == old(self).entries,
            *final(self) == *final(ret),
    {
        self.name = Some(value.to_owned());
        self
    }

    pub fn type_prop(&mut self, value: PropSpec) -> (ret: &mut PropSpecBuilder)
        ensures
            *ret == (PropSpecBuilder { type_prop: Some(value), ..*old(self) }),
            *final(self) == *final(ret),
    {
        self.type_prop = Some(value);
        self
    }

    pub fn entry(&mut self, value: PropSpec) -> (ret: &mut PropSpecBuilder)
        ensures
            ret.entries@ == old(self).entries@.push(value),
            ret.kind == old(self).kind,
            ret.name == old(self).name,
            ret.type_prop == old(self).type_prop,
            *final(self) == *final(ret),
    {
        self.entries.push(value);
        self
    }

    pub fn entries(&mut self, value: Vec<PropSpec>) -> (ret: &mut PropSpecBuilder)
        ensures
            *ret == (PropSpecBuilder { entries: value, ..*old(self) }),
            *final(self) == *final(ret),
    {
        self.entries = value;
        self
    }

    /// Builds the property. Fails with `UninitializedField` when the name,
    /// the kind, or — for maps and arrays — the element spec is missing.
    pub fn build(self) -> (res: Result<PropSpec, SpecError>)
        ensures
            self.name is None ==> (res matches Err(e) && e matches SpecError::UninitializedField(f)
                && f@ == "name"@),
            self.name is Some && self.kind is None ==> (res matches Err(e) && e matches SpecError::UninitializedField(f)
                && f@ == "kind"@),
            self.name matches Some(nm) ==> self.kind matches Some(k) ==> (match k {
                PropSpecKind::String => res == Ok::<PropSpec, SpecError>(
                    PropSpec::String { name: nm },
                ),
                PropSpecKind::Number => res == Ok::<PropSpec, SpecError>(
                    PropSpec::Number { name: nm },
                ),
                PropSpecKind::Boolean => res == Ok::<PropSpec, SpecError>(
                    PropSpec::Boolean { name: nm },
                ),
                PropSpecKind::Mapping => (match self.type_prop {
                    Some(tp) => res matches Ok(p) && p matches PropSpec::Mapping {
                        name: pn,
                        type_prop: ptp,
                    } && pn == nm && *ptp == tp,
                    None => res matches Err(e) && e matches SpecError::UninitializedField(f) && f@
                        == "type_prop"@,
                }),
                PropSpecKind::Array => (match self.type_prop {
                    Some(tp) => res matches Ok(p) && p matches PropSpec::Array {
                        name: pn,
                        type_prop: ptp,
                    } && pn == nm && *ptp == tp,
                    None => res matches Err(e) && e matches SpecError::UninitializedField(f) && f@
                        == "type_prop"@,
                }),
                PropSpecKind::Object => res == Ok::<PropSpec, SpecError>(
                    PropSpec::Object { name: nm, entries: self.entries },
                ),
            }),
    {
        let name = match self.name {
            Some(name) => name,
            None => {
                return Err(SpecError::UninitializedField("name"));
            }
        };
        match self.kind {
            Some(kind) => match kind {
                PropSpecKind::String => Ok(PropSpec::String { name }),
                PropSpecKind::Number => Ok(PropSpec::Number { name }),
                PropSpecKind::Boolean => Ok(PropSpec::Boolean { name }),
                PropSpecKind::Mapping => match self.type_prop {
                    Some(value) => Ok(
                        PropSpec::Mapping { name, type_prop: Box::new(value) },
                    ),
                    None => Err(SpecError::UninitializedField("type_prop")),
                },
                PropSpecKind::Array => match self.type_prop {
                    Some(value) => Ok(PropSpec::Array { name, type_prop: Box::new(value) }),
                    None => Err(SpecError::UninitializedField("type_prop")),
                },
                PropSpecKind::Object => Ok(
                    PropSpec::Object { name, entries: self.entries },
                ),
            },
            None => Err(SpecError::UninitializedField("kind")),
        }
    }
}

/// One exportable schema variant: identity plus its `domain` object tree.
#[derive(Debug, PartialEq, Eq)]
pub struct SchemaVariantSpec {
    pub name: String,
    pub link: Option<String>,
    pub color: Option<String>,
    pub domain: PropSpec,
}

impl SchemaVariantSpec {
    pub fn builder() -> (b: SchemaVariantSpecBuilder)
        ensures
            b.name is None,
            b.link is None,
            b.color is None,
            b.domain is None,
            b.wf(),
    {
        SchemaVariantSpecBuilder { name: None, link: None, color: None, domain: None }
    }
}

/// The serialization of the URL a text parses to, when it parses.
pub uninterp spec fn url_normalized(s: Seq<char>) -> Option<Seq<char>>;

/// Relies on `url::Url::parse` and `url::Url::as_str`: whether the text
/// parses as a URL, and the parsed URL's serialization; both depend on the
/// text alone.
#[verifier::external_body]
fn parse_url(s: &str) -> (res: Option<String>)
    ensures
        res matches Some(u) ==> url_normalized(s@) == Some(u@),
        res is None ==> url_normalized(s@) is None,
{
    match url::Url::parse(s) {
        Ok(u) => Some(u.as_str().to_owned()),
        Err(_) => None,
    }
}

/// Builds a [`SchemaVariantSpec`] field by field; its `domain` is always
/// an object.
#[derive(Debug)]
pub struct SchemaVariantSpecBuilder {
    pub name: Option<String>,
    pub link: Option<String>,
    pub color: Option<String>,
    pub domain: Option<PropSpec>,
}

impl SchemaVariantSpecBuilder {
    /// The domain under construction, when present, is an object.
    pub open spec fn wf(self) -> bool {
        match self.domain {
            Some(d) => d is Object,
            None => true,
        }
    }

    /// The entries of the domain under construction.
    pub open spec fn domain_entries(self) -> Seq<PropSpec> {
        match self.domain {
            Some(PropSpec::Object { entries, .. }) => entries@,
            _ => Seq::empty(),
        }
    }

    /// The empty `domain` object every variant starts from.
    pub fn default_domain() -> (d: PropSpec)
        ensures
            d matches PropSpec::Object { name, entries } && name@ == "domain"@ && entries@
                =~= Seq::<PropSpec>::empty(),
    {
        PropSpec::Object { name: "domain".to_owned(), entries: Vec::new() }
    }

    pub fn name(&mut self, value: &str) -> (ret: &mut SchemaVariantSpecBuilder)
        ensures
            ret.name matches Some(nm) && nm@ == value@,
            ret.link == old(self).link,
            ret.color == old(self).color,
            ret.domain == old(self).domain,
            *final(self) == *final(ret),
    {
        self.name = Some(value.to_owned());
        self
    }

    pub fn color(&mut self, value: &str) -> (ret: &mut SchemaVariantSpecBuilder)
        ensures
            ret.color matches Some(c) && c@ == value@,
            ret.name == old(self).name,
            ret.link == old(self).link,
            ret.domain == old(self).domain,
            *final(self) == *final(ret),
    {
        self.color = Some(value.to_owned());
        self
    }

    /// Validates and sets the link. Fails when the text is not a URL.
    pub fn try_link(&mut self, value: &str) -> (res: Result<&mut SchemaVariantSpecBuilder, SpecError>)
        ensures
            url_normalized(value@) is None ==> (res matches Err(e) && e matches SpecError::ValidationError(_)
                && *final(self) == *old(self)),
            url_normalized(value@) matches Some(u) ==> (res matches Ok(ret) && ret.link
                matches Some(lk) && lk@ == u && ret.name == old(self).name && ret.color == old(
                self,
            ).color && ret.domain == old(self).domain && *final(self) == *final(ret)),
    {
        match parse_url(value) {
            Some(u) => {
                self.link = Some(u);
                Ok(self)
            }
            None => Err(SpecError::ValidationError("the link is not a valid URL".to_owned())),
        }
    }

    /// Adds one property to the domain object.
    pub fn prop(&mut self, item: PropSpec) -> (ret: &mut SchemaVariantSpecBuilder)
        requires
            old(self).wf(),
        ensures
            ret.wf(),
            ret.domain_entries() == old(self).domain_entries().push(item),
            ret.domain matches Some(d) && d matches PropSpec::Object { name, .. } && (match old(
                self,
            ).domain {
                Some(PropSpec::Object { name: on, .. }) => name == on,
                _ => name@ == "domain"@,
            }),
            ret.name == old(self).name,
            ret.link == old(self).link,
            ret.color == old(self).color,
            *final(self) == *final(ret),
    {
        if self.domain.is_none() {
            self.domain = Some(SchemaVariantSpecBuilder::default_domain());
        }
        match &mut self.domain {
            Some(PropSpec::Object { entries, .. }) => {
                entries.push(item);
            }
            _ => {
                proof {
                    assert(false);
                }
            }
        }
        self
    }

    /// Adds one property built from a builder to the domain object. Fails
    /// with the builder's own error, leaving the variant untouched.
    pub fn try_prop(&mut self, item: PropSpecBuilder) -> (res: Result<
        &mut SchemaVariantSpecBuilder,
        SpecError,
    >)
        requires
            old(self).wf(),
        ensures
            res matches Ok(ret) ==> ret.wf() && ret.name == old(self).name && ret.link == old(
                self,
            ).link && ret.color == old(self).color && *final(self) == *final(ret),
            res is Err ==> *final(self) == *old(self),
            item.name is None ==> (res matches Err(e) && e matches SpecError::UninitializedField(f)
                && f@ == "name"@),
            item.name is Some && item.kind is None ==> (res matches Err(e) && e matches SpecError::UninitializedField(f)
                && f@ == "kind"@),
            item.name matches Some(nm) ==> item.kind matches Some(k) ==> (match k {
                PropSpecKind::String => res matches Ok(ret) && ret.domain_entries() == old(
                    self,
                ).domain_entries().push(PropSpec::String { name: nm }),
                PropSpecKind::Number => res matches Ok(ret) && ret.domain_entries() == old(
                    self,
                ).domain_entries().push(PropSpec::Number { name: nm }),
                PropSpecKind::Boolean => res matches Ok(ret) && ret.domain_entries() == old(
                    self,
                ).domain_entries().push(PropSpec::Boolean { name: nm }),
                PropSpecKind::Mapping => (match item.type_prop {
                    Some(tp) => res matches Ok(ret) && ret.domain_entries() == old(
                        self,
                    ).domain_entries().push(ret.domain_entries().last()) && (
                    ret.domain_entries().last() matches PropSpec::Mapping {
                        name: pn,
                        type_prop: ptp,
                    } && pn == nm && *ptp == tp),
                    None => res matches Err(e) && e matches SpecError::UninitializedField(f) && f@
                        == "type_prop"@,
                }),
                PropSpecKind::Array => (match item.type_prop {
                    Some(tp) => res matches Ok(ret) && ret.domain_entries() == old(
                        self,
                    ).domain_entries().push(ret.domain_entries().last()) && (
                    ret.domain_entries().last() matches PropSpec::Array {
                        name: pn,
                        type_prop: ptp,
                    } && pn == nm && *ptp == tp),
                    None => res matches Err(e) && e matches SpecError::UninitializedField(f) && f@
                        == "type_prop"@,
                }),
                PropSpecKind::Object => res matches Ok(ret) && ret.domain_entries() == old(
                    self,
                ).domain_entries().push(PropSpec::Object { name: nm, entries: item.entries }),
            }),
    {
        let converted = match item.build() {
            Ok(p) => p,
            Err(e) => {
                return Err(e);
            }
        };
        Ok(self.prop(converted))
    }

    /// Replaces the domain object's entries wholesale.
    pub fn props(&mut self, value: Vec<PropSpec>) -> (ret: &mut SchemaVariantSpecBuilder)
        requires
            old(self).wf(),
        ensures
            ret.wf(),
            ret.domain_entries() == value@,
            ret.domain matches Some(d) && d matches PropSpec::Object { name, .. } && (match old(
                self,
            ).domain {
                Some(PropSpec::Object { name: on, .. }) => name == on,
                _ => name@ == "domain"@,
            }),
            ret.name == old(self).name,
            ret.link == old(self).link,
            ret.color == old(self).color,
            *final(self) == *final(ret),
    {
        if self.domain.is_none() {
            self.domain = Some(SchemaVariantSpecBuilder::default_domain());
        }
        match &mut self.domain {
            Some(PropSpec::Object { entries, .. }) => {
                *entries = value;
            }
            _ => {
                proof {
                    assert(false);
                }
            }
        }
        self
    }

    /// Builds the variant. Fails with `UninitializedField` when the name
    /// is missing; an unset domain becomes the empty `domain` object.
    pub fn build(self) -> (res: Result<SchemaVariantSpec, SpecError>)
        requires
            self.wf(),
        ensures
            self.name is None ==> (res matches Err(e) && e matches SpecError::UninitializedField(f)
                && f@ == "name"@),
            self.name matches Some(nm) ==> (res matches Ok(v) && v.name == nm && v.link
                == self.link && v.color == self.color && (match self.domain {
                Some(d) => v.domain == d,
                None => v.domain matches PropSpec::Object { name: dn, entries: de } && dn@
                    == "domain"@ && de@ =~= Seq::<PropSpec>::empty(),
            })),
    {
        let name = match self.name {
            Some(name) => name,
            None => {
                return Err(SpecError::UninitializedField("name"));
            }
        };
        let domain = match self.domain {
            Some(d) => d,
            None => SchemaVariantSpecBuilder::default_domain(),
        };
        Ok(SchemaVariantSpec { name, link: self.link, color: self.color, domain })
    }
}

/// One exportable function: identity, code, and backend classification.
#[derive(Debug, PartialEq, Eq)]
pub struct FuncSpec {
    pub name: String,
    pub display_name: Option<String>,
    pub description: Option<String>,
    pub handler: String,
    pub code_base64: String,
    pub backend_kind: crate::func_kinds::FuncBackendKind,
    pub response_type: crate::func_kinds::FuncBackendResponseType,
    pub hidden: bool,
    pub link: Option<String>,
}

impl FuncSpec {
    pub fn builder() -> (b: FuncSpecBuilder)
        ensures
            b.name is None,
            b.display_name is None,
            b.description is None,
            b.handler is None,
            b.code_base64 is None,
            b.backend_kind is None,
            b.response_type is None,
            b.hidden is None,
            b.link is None,
    {
        FuncSpecBuilder {
            name: None,
            display_name: None,
            description: None,
            handler: None,
            code_base64: None,
            backend_kind: None,
            response_type: None,
            hidden: None,
            link: None,
        }
    }
}

/// Builds a [`FuncSpec`] field by field.
#[derive(Debug)]
pub struct FuncSpecBuilder {
    pub name: Option<String>,
    pub display_name: Option<String>,
    pub description: Option<String>,
    pub handler: Option<String>,
    pub code_base64: Option<String>,
    pub backend_kind: Option<crate::func_kinds::FuncBackendKind>,
    pub response_type: Option<crate::func_kinds::FuncBackendResponseType>,
    pub hidden: Option<bool>,
    pub link: Option<String>,
}

impl FuncSpecBuilder {
    pub fn name(&mut self, value: &str) -> (ret: &mut FuncSpecBuilder)
        ensures
            ret.name matches Some(nm) && nm@ == value@,
            *ret == (FuncSpecBuilder { name: ret.name, ..*old(self) }),
            *final(self) == *final(ret),
    {
        self.name = Some(value.to_owned());
        self
    }

    pub fn handler(&mut self, value: &str) -> (ret: &mut FuncSpecBuilder)
        ensures
            ret.handler matches Some(h) && h@ == value@,
            *ret == (FuncSpecBuilder { handler: ret.handler, ..*old(self) }),
            *final(self) == *final(ret),
    {
        self.handler = Some(value.to_owned());
        self
    }

    pub fn code_base64(&mut self, value: &str) -> (ret: &mut FuncSpecBuilder)
        ensures
            ret.code_base64 matches Some(c) && c@ == value@,
            *ret == (FuncSpecBuilder { code_base64: ret.code_base64, ..*old(self) }),
            *final(self) == *final(ret),
    {
        self.code_base64 = Some(value.to_owned());
        self
    }

    pub fn backend_kind(&mut self, value: crate::func_kinds::FuncBackendKind) -> (ret:
        &mut FuncSpecBuilder)
        ensures
            *ret == (FuncSpecBuilder { backend_kind: Some(value), ..*old(self) }),
            *final(self) == *final(ret),
    {
        self.backend_kind = Some(value);
        self
    }

    pub fn response_type(&mut self, value: crate::func_kinds::FuncBackendResponseType) -> (ret:
        &mut FuncSpecBuilder)
        ensures
            *ret == (FuncSpecBuilder { response_type: Some(value), ..*old(self) }),
            *final(self) == *final(ret),
    {
        self.response_type = Some(value);
        self
    }

    pub fn hidden(&mut self, value: bool) -> (ret: &mut FuncSpecBuilder)
        ensures
            *ret == (FuncSpecBuilder { hidden: Some(value), ..*old(self) }),
            *final(self) == *final(ret),
    {
        self.hidden = Some(value);
        self
    }

    /// Builds the function spec; every non-optional field must be set.
    pub fn build(self) -> (res: Result<FuncSpec, SpecError>)
        ensures
            self.name is None ==> (res matches Err(e) && e matches SpecError::UninitializedField(f)
                && f@ == "name"@),
            self.name is Some && self.handler is None ==> (res matches Err(e) && e matches SpecError::UninitializedField(f)
                && f@ == "handler"@),
            self.name is Some && self.handler is Some && self.code_base64 is None ==> (res
                matches Err(e) && e matches SpecError::UninitializedField(f) && f@
                == "code_base64"@),
            self.name is Some && self.handler is Some && self.code_base64 is Some
                && self.backend_kind is None ==> (res matches Err(e) && e matches SpecError::UninitializedField(f)
                && f@ == "backend_kind"@),
            self.name is Some && self.handler is Some && self.code_base64 is Some
                && self.backend_kind is Some && self.response_type is None ==> (res matches Err(e)
                && e matches SpecError::UninitializedField(f) && f@ == "response_type"@),
            self.name is Some && self.handler is Some && self.code_base64 is Some
                && self.backend_kind is Some && self.response_type is Some && self.hidden is None
                ==> (res matches Err(e) && e matches SpecError::UninitializedField(f) && f@
                == "hidden"@),
            self.name is Some && self.handler is Some && self.code_base64 is Some
                && self.backend_kind is Some && self.response_type is Some && self.hidden is Some
                ==> res == Ok::<FuncSpec, SpecError>(
                FuncSpec {
                    name: self.name.unwrap(),
                    display_name: self.display_name,
                    description: self.description,
                    handler: self.handler.unwrap(),
                    code_base64: self.code_base64.unwrap(),
                    backend_kind: self.backend_kind.unwrap(),
                    response_type: self.response_type.unwrap(),
                    hidden: self.hidden.unwrap(),
                    link: self.link,
                },
            ),
    {
        let name = match self.name {
            Some(v) => v,
            None => {
                return Err(SpecError::UninitializedField("name"));
            }
        };
        let handler = match self.handler {
            Some(v) => v,
            None => {
                return Err(SpecError::UninitializedField("handler"));
            }
        };
        let code_base64 = match self.code_base64 {
            Some(v) => v,
            None => {
                return Err(SpecError::UninitializedField("code_base64"));
            }
        };
        let backend_kind = match self.backend_kind {
            Some(v) => v,
            None => {
                return Err(SpecError::UninitializedField("backend_kind"));
            }
        };
        let response_type = match self.response_type {
            Some(v) => v,
            None => {
                return Err(SpecError::UninitializedField("response_type"));
            }
        };
        let hidden = match self.hidden {
            Some(v) => v,
            None => {
                return Err(SpecError::UninitializedField("hidden"));
            }
        };
        Ok(
            FuncSpec {
                name,
                display_name: self.display_name,
                description: self.description,
                handler,
                code_base64,
                backend_kind,
                response_type,
                hidden,
                link: self.link,
            },
        )
    }
}

/// One exportable schema: identity, category, and its variants.
#[derive(Debug, PartialEq, Eq)]
pub struct SchemaSpec {
    pub name: String,
    pub category: String,
    pub variants: Vec<SchemaVariantSpec>,
}

impl SchemaSpec {
    pub fn builder() -> (b: SchemaSpecBuilder)
        ensures
            b.name is None,
            b.category is None,
            b.variants@ =~= Seq::<SchemaVariantSpec>::empty(),
    {
        SchemaSpecBuilder { name: None, category: None, variants: Vec::new() }
    }

    /// Builds a variant from its builder and adds it to the schema. Fails
    /// with the builder's own error, leaving the schema untouched.
    pub fn try_variant(&mut self, item: SchemaVariantSpecBuilder) -> (res: Result<
        (),
        SpecError,
    >)
        requires
            item.wf(),
        ensures
            item.name is None ==> (res matches Err(e) && e matches SpecError::UninitializedField(f)
                && f@ == "name"@),
            res is Err ==> *final(self) == *old(self),
            item.name matches Some(nm) ==> res is Ok && final(self).variants@ == old(
                self,
            ).variants@.push(final(self).variants@.last()) && ({
                let v = final(self).variants@.last();
                &&& v.name == nm
                &&& v.link == item.link
                &&& v.color == item.color
                &&& (item.domain matches Some(d) ==> v.domain == d)
                &&& (item.domain is None ==> (v.domain matches PropSpec::Object {
                    name: dn,
                    entries: de,
                } && dn@ == "domain"@ && de@ =~= Seq::<PropSpec>::empty()))
            }) && final(self).name == old(self).name && final(self).category == old(
                self,
            ).category,
    {
        let converted = match item.build() {
            Ok(v) => v,
            Err(e) => {
                return Err(e);
            }
        };
        self.variants.push(converted);
        Ok(())
    }
}

/// Builds a [`SchemaSpec`] field by field.
#[derive(Debug)]
pub struct SchemaSpecBuilder {
    pub name: Option<String>,
    pub category: Option<String>,
    pub variants: Vec<SchemaVariantSpec>,
}

impl SchemaSpecBuilder {
    pub fn name(&mut self, value: &str) -> (ret: &mut SchemaSpecBuilder)
        ensures
            ret.name matches Some(nm) && nm@ == value@,
            ret.category == old(self).category,
            ret.variants == old(self).variants,
            *final(self) == *final(ret),
    {
        self.name = Some(value.to_owned());
        self
    }

    pub fn category(&mut self, value: &str) -> (ret: &mut SchemaSpecBuilder)
        ensures
            ret.category matches Some(c) && c@ == value@,
            ret.name == old(self).name,
            ret.variants == old(self).variants,
            *final(self) == *final(ret),
    {
        self.category = Some(value.to_owned());
        self
    }

    pub fn variant(&mut self, value: SchemaVariantSpec) -> (ret: &mut SchemaSpecBuilder)
        ensures
            ret.variants@ == old(self).variants@.push(value),
            ret.name == old(self).name,
            ret.category == old(self).category,
            *final(self) == *final(ret),
    {
        self.variants.push(value);
        self
    }

    /// Builds the schema spec; the name and the category must be set.
    pub fn build(self) -> (res: Result<SchemaSpec, SpecError>)
        ensures
            self.name is None ==> (res matches Err(e) && e matches SpecError::UninitializedField(f)
                && f@ == "name"@),
            self.name is Some && self.category is None ==> (res matches Err(e) && e matches SpecError::UninitializedField(f)
                && f@ == "category"@),
            self.name is Some && self.category is Some ==> res == Ok::<SchemaSpec, SpecError>(
                SchemaSpec {
                    name: self.name.unwrap(),
                    category: self.category.unwrap(),
                    variants: self.variants,
                },
            ),
    {
        let name = match self.name {
            Some(v) => v,
            None => {
                return Err(SpecError::UninitializedField("name"));
            }
        };
        let category = match self.category {
            Some(v) => v,
            None => {
                return Err(SpecError::UninitializedField("category"));
            }
        };
        Ok(SchemaSpec { name, category, variants: self.variants })
    }
}

/// One exportable package: identity, provenance, and its content.
#[derive(Debug, PartialEq, Eq)]
pub struct PkgSpec {
    pub name: String,
    pub version: String,
    pub description: String,
    /// Milliseconds since the Unix epoch.
    pub created_at: i64,
    pub created_by: String,
    pub schemas: Vec<SchemaSpec>,
    pub funcs: Vec<FuncSpec>,
}

impl PkgSpec {
    pub fn builder() -> (b: PkgSpecBuilder)
        ensures
            b.name is None,
            b.version is None,
            b.description is None,
            b.created_at is None,
            b.created_by is None,
            b.schemas@ =~= Seq::<SchemaSpec>::empty(),
            b.funcs@ =~= Seq::<FuncSpec>::empty(),
    {
        PkgSpecBuilder {
            name: None,
            version: None,
            description: None,
            created_at: None,
            created_by: None,
            schemas: Vec::new(),
            funcs: Vec::new(),
        }
    }
}

/// Builds a [`PkgSpec`] field by field.
#[derive(Debug)]
pub struct PkgSpecBuilder {
    pub name: Option<String>,
    pub version: Option<String>,
    pub description: Option<String>,
    pub created_at: Option<i64>,
    pub created_by: Option<String>,
    pub schemas: Vec<SchemaSpec>,
    pub funcs: Vec<FuncSpec>,
}

impl PkgSpecBuilder {
    pub fn name(&mut self, value: &str) -> (ret: &mut PkgSpecBuilder)
        ensures
            ret.name matches Some(nm) && nm@ == value@,
            *ret == (PkgSpecBuilder { name: ret.name, ..*old(self) }),
            *final(self) == *final(ret),
    {
        self.name = Some(value.to_owned());
        self
    }

    pub fn version(&mut self, value: &str) -> (ret: &mut PkgSpecBuilder)
        ensures
            ret.version matches Some(v) && v@ == value@,
            *ret == (PkgSpecBuilder { version: ret.version, ..*old(self) }),
            *final(self) == *final(ret),
    {
        self.version = Some(value.to_owned());
        self
    }

    pub fn created_by(&mut self, value: &str) -> (ret: &mut PkgSpecBuilder)
        ensures
            ret.created_by matches Some(v) && v@ == value@,
            *ret == (PkgSpecBuilder { created_by: ret.created_by, ..*old(self) }),
            *final(self) == *final(ret),
    {
        self.created_by = Some(value.to_owned());
        self
    }

    pub fn created_at(&mut self, value: i64) -> (ret: &mut PkgSpecBuilder)
        ensures
            *ret == (PkgSpecBuilder { created_at: Some(value), ..*old(self) }),
            *final(self) == *final(ret),
    {
        self.created_at = Some(value);
        self
    }

    pub fn schema(&mut self, value: SchemaSpec) -> (ret: &mut PkgSpecBuilder)
        ensures
            ret.schemas@ == old(self).schemas@.push(value),
            ret.funcs == old(self).funcs,
            ret.name == old(self).name,
            ret.version == old(self).version,
            ret.description == old(self).description,
            ret.created_at == old(self).created_at,
            ret.created_by == old(self).created_by,
            *final(self) == *final(ret),
    {
        self.schemas.push(value);
        self
    }

    pub fn func(&mut self, value: FuncSpec) -> (ret: &mut PkgSpecBuilder)
        ensures
            ret.funcs@ == old(self).funcs@.push(value),
            ret.schemas == old(self).schemas,
            ret.name == old(self).name,
            ret.version == old(self).version,
            ret.description == old(self).description,
            ret.created_at == old(self).created_at,
            ret.created_by == old(self).created_by,
            *final(self) == *final(ret),
    {
        self.funcs.push(value);
        self
    }

    /// Builds a schema from its builder and adds it to the package. Fails
    /// with the builder's own error, leaving the package untouched.
    pub fn try_schema(&mut self, item: SchemaSpecBuilder) -> (res: Result<
        &mut PkgSpecBuilder,
        SpecError,
    >)
        ensures
            item.name is None ==> (res matches Err(e) && e matches SpecError::UninitializedField(f)
                && f@ == "name"@),
            item.name is Some && item.category is None ==> (res matches Err(e) && e matches SpecError::UninitializedField(f)
                && f@ == "category"@),
            res is Err ==> *final(self) == *old(self),
            item.name matches Some(nm) ==> item.category matches Some(c) ==> (res matches Ok(ret)
                && ret.schemas@ == old(self).schemas@.push(
                SchemaSpec { name: nm, category: c, variants: item.variants },
            ) && ret.funcs == old(self).funcs && ret.name == old(self).name && ret.version == old(
                self,
            ).version && ret.description == old(self).description && ret.created_at == old(
                self,
            ).created_at && ret.created_by == old(self).created_by && *final(self) == *final(ret)),
    {
        let converted = match item.build() {
            Ok(s) => s,
            Err(e) => {
                return Err(e);
            }
        };
        Ok(self.schema(converted))
    }

    /// Builds a function from its builder and adds it to the package.
    /// Fails with the builder's own error, leaving the package untouched.
    pub fn try_func(&mut self, item: FuncSpecBuilder) -> (res: Result<
        &mut PkgSpecBuilder,
        SpecError,
    >)
        ensures
            item.name is None ==> (res matches Err(e) && e matches SpecError::UninitializedField(f)
                && f@ == "name"@),
            item.name is Some && item.handler is None ==> (res matches Err(e) && e matches SpecError::UninitializedField(f)
                && f@ == "handler"@),
            item.name is Some && item.handler is Some && item.code_base64 is None ==> (res
                matches Err(e) && e matches SpecError::UninitializedField(f) && f@
                == "code_base64"@),
            item.name is Some && item.handler is Some && item.code_base64 is Some
                && item.backend_kind is None ==> (res matches Err(e) && e matches SpecError::UninitializedField(f)
                && f@ == "backend_kind"@),
            item.name is Some && item.handler is Some && item.code_base64 is Some
                && item.backend_kind is Some && item.response_type is None ==> (res matches Err(e)
                && e matches SpecError::UninitializedField(f) && f@ == "response_type"@),
            item.name is Some && item.handler is Some && item.code_base64 is Some
                && item.backend_kind is Some && item.response_type is Some && item.hidden is None
                ==> (res matches Err(e) && e matches SpecError::UninitializedField(f) && f@
                == "hidden"@),
            res is Err ==> *final(self) == *old(self),
            item.name is Some && item.handler is Some && item.code_base64 is Some
                && item.backend_kind is Some && item.response_type is Some && item.hidden is Some
                ==> (res matches Ok(ret) && ret.funcs@ == old(self).funcs@.push(
                FuncSpec {
                    name: item.name.unwrap(),
                    display_name: item.display_name,
                    description: item.description,
                    handler: item.handler.unwrap(),
                    code_base64: item.code_base64.unwrap(),
                    backend_kind: item.backend_kind.unwrap(),
                    response_type: item.response_type.unwrap(),
                    hidden: item.hidden.unwrap(),
                    link: item.link,
                },
            ) && ret.schemas == old(self).schemas && ret.name == old(self).name && ret.version
                == old(self).version && ret.description == old(self).description && ret.created_at
                == old(self).created_at && ret.created_by == old(self).created_by && *final(self)
                == *final(ret)),
    {
        let converted = match item.build() {
            Ok(f) => f,
            Err(e) => {
                return Err(e);
            }
        };
        Ok(self.func(converted))
    }

    /// Builds the package; the name, version and author must be set, and a
    /// missing creation time is stamped from the wall clock.
    pub fn build(self) -> (res: Result<PkgSpec, SpecError>)
        ensures
            self.name is None ==> (res matches Err(e) && e matches SpecError::UninitializedField(f)
                && f@ == "name"@),
            self.name is Some && self.version is None ==> (res matches Err(e) && e matches SpecError::UninitializedField(f)
                && f@ == "version"@),
            self.name is Some && self.version is Some && self.created_by is None ==> (res
                matches Err(e) && e matches SpecError::UninitializedField(f) && f@
                == "created_by"@),
            self.name is Some && self.version is Some && self.created_by is Some ==> (res
                matches Ok(p) && p.name == self.name.unwrap() && p.version == self.version.unwrap()
                && p.created_by == self.created_by.unwrap() && (self.description matches Some(d)
                ==> p.description == d) && (self.description is None ==> p.description@
                == Seq::<char>::empty()) && (self.created_at matches Some(t) ==> p.created_at == t)
                && p.schemas == self.schemas && p.funcs == self.funcs),
    {
        let name = match self.name {
            Some(v) => v,
            None => {
                return Err(SpecError::UninitializedField("name"));
            }
        };
        let version = match self.version {
            Some(v) => v,
            None => {
                return Err(SpecError::UninitializedField("version"));
            }
        };
        let created_by = match self.created_by {
            Some(v) => v,
            None => {
                return Err(SpecError::UninitializedField("created_by"));
            }
        };
        let description = match self.description {
            Some(v) => v,
            None => String::new(),
        };
        let created_at = match self.created_at {
            Some(t) => t,
            None => crate::timestamp::now_millis(),
        };
        Ok(
            PkgSpec {
                name,
                version,
                description,
                created_at,
                created_by,
                schemas: self.schemas,
                funcs: self.funcs,
            },
        )
    }
}

} // verus!
