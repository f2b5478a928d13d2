use si_model::FuncBackendKind;
use si_model::FuncBackendResponseType;
use si_model::FuncSpec;
use si_model::PkgSpec;
use si_model::PropSpec;
use si_model::PropSpecKind;
use si_model::SchemaSpec;
use si_model::SchemaVariantSpec;
use si_model::SpecError;

#[test]
fn prop_spec_builder_builds_string() {
    let mut builder = PropSpec::builder();
    builder.kind(PropSpecKind::String).name("severity");
    assert_eq!(builder.get_kind(), Some(PropSpecKind::String));
    let prop = builder.build().expect("builds");
    assert_eq!(prop, PropSpec::String { name: "severity".to_string() });
}

#[test]
fn prop_spec_builder_requires_name() {
    let mut builder = PropSpec::builder();
    builder.kind(PropSpecKind::Boolean);
    let err = builder.build().expect_err("name is required");
    assert_eq!(err, SpecError::UninitializedField("name"));
}

#[test]
fn prop_spec_builder_requires_kind() {
    let mut builder = PropSpec::builder();
    builder.name("anonymous");
    let err = builder.build().expect_err("kind is required");
    assert_eq!(err, SpecError::UninitializedField("kind"));
}

#[test]
fn prop_spec_builder_requires_type_prop_for_array() {
    let mut builder = PropSpec::builder();
    builder.kind(PropSpecKind::Array).name("tags");
    let err = builder.build().expect_err("element spec is required");
    assert_eq!(err, SpecError::UninitializedField("type_prop"));
}

#[test]
fn prop_spec_builder_builds_nested_mapping() {
    let mut element = PropSpec::builder();
    element.kind(PropSpecKind::Number).name("count");
    let element = element.build().expect("element builds");

    let mut builder = PropSpec::builder();
    builder.kind(PropSpecKind::Mapping).name("counters").type_prop(element);
    let prop = builder.build().expect("builds");
    match prop {
        PropSpec::Mapping { name, type_prop } => {
            assert_eq!(name, "counters".to_string());
            assert_eq!(*type_prop, PropSpec::Number { name: "count".to_string() });
        }
        other => panic!("expected a mapping, got {:?}", other),
    }
}

#[test]
fn prop_spec_builder_collects_entries() {
    let mut first = PropSpec::builder();
    first.kind(PropSpecKind::String).name("alpha");
    let first = first.build().expect("alpha builds");
    let mut second = PropSpec::builder();
    second.kind(PropSpecKind::Boolean).name("beta");
    let second = second.build().expect("beta builds");

    let mut builder = PropSpec::builder();
    builder.kind(PropSpecKind::Object).name("pair").entry(first).entry(second);
    let prop = builder.build().expect("builds");
    match prop {
        PropSpec::Object { name, entries } => {
            assert_eq!(name, "pair".to_string());
            assert_eq!(entries.len(), 2);
            assert_eq!(entries[0], PropSpec::String { name: "alpha".to_string() });
            assert_eq!(entries[1], PropSpec::Boolean { name: "beta".to_string() });
        }
        other => panic!("expected an object, got {:?}", other),
    }
}

#[test]
fn schema_variant_builder_defaults_domain() {
    let mut builder = SchemaVariantSpec::builder();
    builder.name("v0");
    let variant = builder.build().expect("builds");
    assert_eq!(variant.name, "v0".to_string());
    assert_eq!(variant.link, None);
    match variant.domain {
        PropSpec::Object { name, entries } => {
            assert_eq!(name, "domain".to_string());
            assert!(entries.is_empty());
        }
        other => panic!("expected the domain object, got {:?}", other),
    }
}

#[test]
fn schema_variant_builder_gathers_props() {
    let mut inner = PropSpec::builder();
    inner.kind(PropSpecKind::String).name("region");
    let inner = inner.build().expect("inner builds");

    let mut builder = SchemaVariantSpec::builder();
    builder.name("v1");
    builder.prop(inner);
    let mut second = PropSpec::builder();
    second.kind(PropSpecKind::Boolean).name("active");
    builder.try_prop(second).expect("builder prop converts");
    let variant = builder.build().expect("builds");
    match variant.domain {
        PropSpec::Object { entries, .. } => {
            assert_eq!(entries.len(), 2);
            assert_eq!(entries[0], PropSpec::String { name: "region".to_string() });
            assert_eq!(entries[1], PropSpec::Boolean { name: "active".to_string() });
        }
        other => panic!("expected the domain object, got {:?}", other),
    }
}

#[test]
fn schema_variant_builder_validates_link() {
    let mut builder = SchemaVariantSpec::builder();
    builder.name("linked");
    builder.try_link("https://example.com").expect("a valid url");
    let variant = builder.build().expect("builds");
    // The URL is normalized by parsing, so a trailing slash appears.
    assert_eq!(variant.link, Some("https://example.com/".to_string()));

    let mut bad = SchemaVariantSpec::builder();
    bad.name("unlinked");
    let err = bad.try_link("not a url").expect_err("an invalid url");
    assert!(matches!(err, SpecError::ValidationError(_)));
}

#[test]
fn schema_variant_builder_requires_name() {
    let builder = SchemaVariantSpec::builder();
    let err = builder.build().expect_err("name is required");
    assert_eq!(err, SpecError::UninitializedField("name"));
}

#[test]
fn func_spec_builder_requires_all_code_fields() {
    let mut builder = FuncSpec::builder();
    builder.name("si:identity");
    let err = builder.build().expect_err("handler is required");
    assert_eq!(err, SpecError::UninitializedField("handler"));

    let mut builder = FuncSpec::builder();
    builder
        .name("si:identity")
        .handler("main")
        .code_base64("aGVsbG8")
        .backend_kind(FuncBackendKind::JsAttribute)
        .response_type(FuncBackendResponseType::Json)
        .hidden(false);
    let func = builder.build().expect("builds");
    assert_eq!(func.name, "si:identity".to_string());
    assert_eq!(func.handler, "main".to_string());
    assert_eq!(func.display_name, None);
}

#[test]
fn pkg_spec_builder_assembles_package() {
    let mut variant = SchemaVariantSpec::builder();
    variant.name("v0");
    let mut schema_builder = SchemaSpec::builder();
    schema_builder.name("The Bison").category("test exclusive");
    let mut schema = schema_builder.build().expect("schema builds");
    schema.try_variant(variant).expect("variant attaches");
    assert_eq!(schema.variants.len(), 1);

    let mut func_builder = FuncSpec::builder();
    func_builder
        .name("si:setString")
        .handler("main")
        .code_base64("aGVsbG8")
        .backend_kind(FuncBackendKind::JsAttribute)
        .response_type(FuncBackendResponseType::String)
        .hidden(false);

    let mut pkg_builder = PkgSpec::builder();
    pkg_builder
        .name("Paul's Test Pkg")
        .version("2019-06-03")
        .created_by("System Initiative")
        .created_at(1_559_520_000_000);
    pkg_builder.schema(schema);
    pkg_builder.try_func(func_builder).expect("func attaches");
    let pkg = pkg_builder.build().expect("package builds");

    assert_eq!(pkg.name, "Paul's Test Pkg".to_string());
    assert_eq!(pkg.version, "2019-06-03".to_string());
    assert_eq!(pkg.created_by, "System Initiative".to_string());
    assert_eq!(pkg.created_at, 1_559_520_000_000);
    assert_eq!(pkg.description, "".to_string());
    assert_eq!(pkg.schemas.len(), 1);
    assert_eq!(pkg.funcs.len(), 1);
}

#[test]
fn pkg_spec_builder_requires_version() {
    let mut builder = PkgSpec::builder();
    builder.name("unversioned");
    let err = builder.build().expect_err("version is required");
    assert_eq!(err, SpecError::UninitializedField("version"));
}
