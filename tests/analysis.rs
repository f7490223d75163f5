use autocxx_analysis::api::{
    Api, ApiDetail, Field, StructItem, TypeArg, TypeKind, TypeRef, TypedefItem, TypedefKind,
    TypedefPhaseApi, UnanalyzedApi,
};
use autocxx_analysis::config::{Directive, IncludeCppConfig};
use autocxx_analysis::error::{ConvertError, ConvertErrorWithContext, ErrorContext};
use autocxx_analysis::gen_cmd::format_gen_cmd;
use autocxx_analysis::names::{Namespace, QualifiedName};
use autocxx_analysis::pod::analyze_pod_apis;
use autocxx_analysis::tdef::convert_typedef_targets;
use autocxx_analysis::tracker::BridgeNameTracker;
use autocxx_analysis::type_converter::{TypeConversionContext, TypeConverter};

fn qn(s: &str) -> QualifiedName {
    QualifiedName::new_from_cpp_name(s)
}

fn c_int() -> TypeRef {
    TypeRef::Path(qn("std::os::raw::c_int"))
}

fn api(name: &str, detail: ApiDetail<(), ()>) -> UnanalyzedApi {
    Api {
        name: qn(name),
        original_name: None,
        deps: Vec::new(),
        rename_to: None,
        detail,
    }
}

fn strukt(ident: &str, fields: Vec<Field>, has_destructor: bool) -> ApiDetail<(), ()> {
    ApiDetail::Struct {
        item: StructItem {
            ident: ident.to_string(),
            fields,
            has_destructor,
            has_virtual: false,
            has_nontrivial_copy_or_move: false,
        },
        analysis: (),
    }
}

fn field(name: &str, ty: TypeRef) -> Field {
    Field { name: name.to_string(), ty }
}

fn typedef(ident: &str, target: TypeRef) -> ApiDetail<(), ()> {
    ApiDetail::Typedef {
        item: TypedefKind::Type(TypedefItem { ident: ident.to_string(), target }),
        analysis: (),
    }
}

fn config(ds: Vec<Directive>) -> IncludeCppConfig {
    IncludeCppConfig::from_directives(ds).unwrap()
}

fn find<'a, T, S>(apis: &'a [Api<T, S>], name: &str) -> &'a Api<T, S> {
    apis.iter().find(|a| a.name.to_string() == name).unwrap()
}

fn run(raw: Vec<UnanalyzedApi>, cfg: &IncludeCppConfig) -> Vec<autocxx_analysis::api::PodPhaseApi> {
    let typed: Vec<TypedefPhaseApi> = convert_typedef_targets(cfg, raw);
    analyze_pod_apis(typed, cfg).unwrap()
}

#[test]
fn point_is_plain_data() {
    let cfg = config(vec![]);
    let raw = vec![api(
        "Point",
        strukt("Point", vec![field("x", c_int()), field("y", c_int())], false),
    )];
    let out = run(raw, &cfg);
    let p = find(&out, "Point");
    match &p.detail {
        ApiDetail::Struct { analysis, item } => {
            assert_eq!(analysis.kind, TypeKind::Pod);
            assert!(analysis.bases.is_empty());
            assert_eq!(item.fields.len(), 2);
        }
        _ => panic!("expected a struct"),
    }
    assert_eq!(p.deps.len(), 1);
    assert_eq!(p.deps[0].to_string(), "std::os::raw::c_int");
    assert!(p.rename_to.is_none());
}

#[test]
fn handle_with_destructor_is_opaque() {
    let cfg = config(vec![]);
    let void_ptr = TypeRef::Pointer(Box::new(TypeRef::Path(qn("std::os::raw::c_void"))));
    let mut raw = vec![api(
        "Handle",
        strukt("Handle", vec![field("impl_", void_ptr)], true),
    )];
    raw[0].deps.push(qn("Something"));
    let out = run(raw, &cfg);
    let h = find(&out, "Handle");
    match &h.detail {
        ApiDetail::Struct { analysis, item } => {
            assert_eq!(analysis.kind, TypeKind::NonPod);
            assert!(item.fields.is_empty());
        }
        _ => panic!("expected a struct"),
    }
    assert!(h.deps.is_empty());
}

#[test]
fn handle_requested_as_pod_fails() {
    let cfg = config(vec![Directive::Pod("Handle".to_string())]);
    let void_ptr = TypeRef::Pointer(Box::new(TypeRef::Path(qn("std::os::raw::c_void"))));
    let raw = vec![api(
        "Handle",
        strukt("Handle", vec![field("impl_", void_ptr)], true),
    )];
    let typed = convert_typedef_targets(&cfg, raw);
    match analyze_pod_apis(typed, &cfg) {
        Err(ConvertError::UnsafePodType(msg)) => {
            assert!(msg.contains("Handle"));
            assert_eq!(msg, "Type Handle is not safe to hold by value");
        }
        _ => panic!("expected an unsafe POD type error"),
    }
}

#[test]
fn missing_pod_request_fails() {
    let cfg = config(vec![Directive::Pod("Nowhere".to_string())]);
    let typed = convert_typedef_targets(&cfg, vec![]);
    match analyze_pod_apis(typed, &cfg) {
        Err(e) => assert_eq!(
            e.to_message(),
            "An item was requested using 'generate_pod' which was not safe to hold by value in Rust. Unable to find Nowhere"
        ),
        Ok(_) => panic!("expected an error"),
    }
}

#[test]
fn pod_closure_follows_fields() {
    // Outer holds Inner by value; Inner has a destructor, so Outer is not POD either.
    let cfg = config(vec![]);
    let raw = vec![
        api("Inner", strukt("Inner", vec![field("v", c_int())], true)),
        api(
            "Outer",
            strukt("Outer", vec![field("i", TypeRef::Path(qn("Inner")))], false),
        ),
        api(
            "Fine",
            strukt("Fine", vec![field("p", TypeRef::Path(qn("Point")))], false),
        ),
        api("Point", strukt("Point", vec![field("x", c_int())], false)),
    ];
    let out = run(raw, &cfg);
    let kind = |n: &str| match &find(&out, n).detail {
        ApiDetail::Struct { analysis, .. } => analysis.kind,
        _ => panic!("expected a struct"),
    };
    assert_eq!(kind("Inner"), TypeKind::NonPod);
    assert_eq!(kind("Outer"), TypeKind::NonPod);
    assert_eq!(kind("Fine"), TypeKind::Pod);
    assert_eq!(kind("Point"), TypeKind::Pod);
    let fine = find(&out, "Fine");
    assert_eq!(fine.deps.len(), 1);
    assert_eq!(fine.deps[0].to_string(), "Point");
}

#[test]
fn string_field_is_not_plain_data() {
    let cfg = config(vec![]);
    let raw = vec![api(
        "Named",
        strukt("Named", vec![field("s", TypeRef::Path(qn("std::string")))], false),
    )];
    let out = run(raw, &cfg);
    match &find(&out, "Named").detail {
        ApiDetail::Struct { analysis, .. } => assert_eq!(analysis.kind, TypeKind::NonPod),
        _ => panic!("expected a struct"),
    }
}

#[test]
fn bases_are_recorded() {
    let cfg = config(vec![]);
    let raw = vec![
        api("Base", strukt("Base", vec![field("x", c_int())], false)),
        api(
            "Derived",
            strukt(
                "Derived",
                vec![field("_base", TypeRef::Path(qn("Base"))), field("y", c_int())],
                false,
            ),
        ),
    ];
    let out = run(raw, &cfg);
    match &find(&out, "Derived").detail {
        ApiDetail::Struct { analysis, .. } => {
            assert_eq!(analysis.bases.len(), 1);
            assert_eq!(analysis.bases[0].to_string(), "Base");
        }
        _ => panic!("expected a struct"),
    }
}

#[test]
fn int_alias_resolves_to_c_int() {
    let cfg = config(vec![]);
    let raw = vec![api("IntAlias", typedef("IntAlias", c_int()))];
    let out = convert_typedef_targets(&cfg, raw);
    assert_eq!(out.len(), 1);
    let a = &out[0];
    assert_eq!(a.name.to_string(), "IntAlias");
    assert!(a.rename_to.is_none());
    match &a.detail {
        ApiDetail::Typedef { analysis: TypedefKind::Type(t), .. } => match &t.target {
            TypeRef::Path(q) => assert_eq!(q.to_cpp_name(), "int"),
            _ => panic!("expected a path"),
        },
        _ => panic!("expected a typedef"),
    }
    assert_eq!(a.deps.len(), 1);
    assert_eq!(a.deps[0].to_string(), "std::os::raw::c_int");
}

#[test]
fn colliding_names_are_disambiguated() {
    let cfg = config(vec![]);
    let raw = vec![
        api("a::Impl", typedef("Impl", c_int())),
        api("b::Impl", typedef("Impl", c_int())),
    ];
    let out = convert_typedef_targets(&cfg, raw);
    assert_eq!(out[0].name.get_final_item(), "Impl");
    assert!(out[0].rename_to.is_none());
    assert!(out[0].original_name.is_none());
    assert_eq!(out[1].name.get_final_item(), "b_Impl");
    assert_eq!(out[1].name.to_string(), "b::b_Impl");
    assert_eq!(out[1].rename_to.as_deref(), Some("Impl"));
    assert_eq!(out[1].original_name.as_deref(), Some("Impl"));
}

#[test]
fn colliding_struct_names_are_unique() {
    let cfg = config(vec![]);
    let raw = vec![
        api("x::S", strukt("S", vec![], false)),
        api("y::S", strukt("S", vec![], false)),
        api("S", ApiDetail::ForwardDeclaration),
    ];
    let out = run(raw, &cfg);
    let names: Vec<&str> = out.iter().map(|a| a.name.get_final_item()).collect();
    assert_eq!(names, vec!["S", "y_S", "S_autocxx1"]);
}

#[test]
fn self_referential_alias_is_rejected() {
    let cfg = config(vec![]);
    let raw = vec![api("A", typedef("A", TypeRef::Path(qn("A"))))];
    let out = convert_typedef_targets(&cfg, raw);
    match &out[0].detail {
        ApiDetail::IgnoredItem { err, .. } => {
            assert!(matches!(err, ConvertError::InfinitelyRecursiveTypedef(_)));
            assert_eq!(
                err.to_message(),
                "Encountered typedef to itself - this is a known bindgen bug: A"
            );
        }
        _ => panic!("expected the alias to be ignored"),
    }
}

#[test]
fn alias_chain_is_followed() {
    let cfg = config(vec![]);
    let raw = vec![
        api("B", typedef("B", c_int())),
        api("A", typedef("A", TypeRef::Path(qn("B")))),
    ];
    let out = convert_typedef_targets(&cfg, raw);
    match &out[1].detail {
        ApiDetail::Typedef { analysis: TypedefKind::Type(t), .. } => match &t.target {
            TypeRef::Path(q) => assert_eq!(q.to_cpp_name(), "int"),
            _ => panic!("expected a path"),
        },
        _ => panic!("expected a typedef"),
    }
}

#[test]
fn template_field_synthesises_one_concrete_type() {
    let cfg = config(vec![]);
    let templ = TypeRef::Templated(qn("Foo"), vec![TypeArg::Path(qn("std::os::raw::c_int"))]);
    let templ2 = TypeRef::Templated(qn("Foo"), vec![TypeArg::Path(qn("std::os::raw::c_int"))]);
    let raw = vec![api(
        "Holder",
        strukt("Holder", vec![field("a", templ), field("b", templ2)], false),
    )];
    let out = run(raw, &cfg);
    assert_eq!(out.len(), 2);
    let c = &out[1];
    assert_eq!(c.name.to_string(), "AutocxxConcrete_Foo_std_os_raw_c_int");
    match &c.detail {
        ApiDetail::ConcreteType { cpp_definition, .. } => assert_eq!(cpp_definition, "Foo<int>"),
        _ => panic!("expected a concrete type"),
    }
}

#[test]
fn conversion_errors() {
    let cfg = config(vec![Directive::Block("Bad".to_string())]);
    let apis: Vec<UnanalyzedApi> = vec![api("Fwd", ApiDetail::ForwardDeclaration)];
    let mut conv = TypeConverter::new(&cfg, &apis);
    let inner = TypeConversionContext::CxxInnerType;
    assert!(matches!(
        conv.convert_type(&TypeRef::Path(qn("Bad")), inner),
        Err(ConvertError::Blocked(_))
    ));
    assert!(matches!(
        conv.convert_type(&TypeRef::Path(qn("i128")), inner),
        Err(ConvertError::UnsupportedBuiltInType(_))
    ));
    assert!(matches!(
        conv.convert_type(&TypeRef::Path(qn("std::os::raw::c_void")), inner),
        Err(ConvertError::UnsupportedBuiltInType(_))
    ));
    let void_ptr = TypeRef::Pointer(Box::new(TypeRef::Path(qn("std::os::raw::c_void"))));
    assert!(conv.convert_type(&void_ptr, inner).is_ok());
    let bad_ptr = TypeRef::Pointer(Box::new(TypeRef::Other("int[3]".to_string())));
    assert!(matches!(conv.convert_type(&bad_ptr, inner), Err(ConvertError::InvalidPointee)));
    assert!(matches!(
        conv.convert_type(&TypeRef::Other("int[3]".to_string()), inner),
        Err(ConvertError::UnsupportedType(_))
    ));
    let complex = TypeRef::Templated(qn("Foo"), vec![TypeArg::Complex("3".to_string())]);
    assert!(matches!(
        conv.convert_type(&complex, inner),
        Err(ConvertError::TemplatedTypeContainingNonPathArg(_))
    ));
    let fwd_in_container = TypeRef::Templated(qn("std::unique_ptr"), vec![TypeArg::Path(qn("Fwd"))]);
    match conv.convert_type(&fwd_in_container, inner) {
        Err(ConvertError::TypeContainingForwardDeclaration(q)) => assert_eq!(q.to_string(), "Fwd"),
        _ => panic!("expected a forward declaration error"),
    }
    let ok_container = TypeRef::Templated(qn("std::unique_ptr"), vec![TypeArg::Path(qn("Thing"))]);
    let a = conv.convert_type(&ok_container, inner).ok().unwrap();
    assert!(a.extra_apis.is_empty());
    assert_eq!(a.types_encountered.len(), 2);
}

#[test]
fn failed_field_conversion_makes_placeholder() {
    let cfg = config(vec![]);
    let bad_ptr = TypeRef::Pointer(Box::new(TypeRef::Other("int[3]".to_string())));
    let raw = vec![
        api("Odd", strukt("Odd", vec![field("p", bad_ptr)], false)),
        api("Point", strukt("Point", vec![field("x", c_int())], false)),
    ];
    let out = run(raw, &cfg);
    assert_eq!(out.len(), 2);
    match &out[0].detail {
        ApiDetail::IgnoredItem { err, .. } => assert!(matches!(err, ConvertError::InvalidPointee)),
        _ => panic!("expected a placeholder"),
    }
    match &out[1].detail {
        ApiDetail::Struct { analysis, .. } => assert_eq!(analysis.kind, TypeKind::Pod),
        _ => panic!("expected a struct"),
    }
}

#[test]
fn unsupported_field_makes_struct_opaque() {
    let cfg = config(vec![]);
    let raw = vec![api(
        "Weird",
        strukt("Weird", vec![field("f", TypeRef::Other("int[3]".to_string()))], false),
    )];
    let out = run(raw, &cfg);
    // A field of an unsupported kind makes the struct opaque rather than failing.
    match &out[0].detail {
        ApiDetail::Struct { analysis, .. } => assert_eq!(analysis.kind, TypeKind::NonPod),
        _ => panic!("expected a struct"),
    }
}

#[test]
fn tracker_allocates_unique_names() {
    let mut t = BridgeNameTracker::new();
    let ns = Namespace::from_user_input("n");
    assert_eq!(t.get_unique_cxx_bridge_name(None, "X", &ns), "X");
    assert_eq!(t.get_unique_cxx_bridge_name(None, "X", &ns), "n_X");
    assert_eq!(t.get_unique_cxx_bridge_name(None, "X", &ns), "n_X_autocxx1");
    assert_eq!(t.get_unique_cxx_bridge_name(Some("T"), "X", &ns), "n_T_X");
    assert!(t.is_taken("n_X_autocxx1"));
    assert!(!t.is_taken("Y"));
}

#[test]
fn analysis_is_deterministic() {
    let make = || {
        vec![
            api("a::Impl", typedef("Impl", c_int())),
            api("b::Impl", strukt("Impl", vec![field("x", c_int())], false)),
            api("c::Impl", ApiDetail::ForwardDeclaration),
        ]
    };
    let cfg = config(vec![]);
    let one = run(make(), &cfg);
    let two = run(make(), &cfg);
    let n1: Vec<String> = one.iter().map(|a| a.name.to_string()).collect();
    let n2: Vec<String> = two.iter().map(|a| a.name.to_string()).collect();
    assert_eq!(n1, n2);
}

#[test]
fn error_messages() {
    assert_eq!(
        ConvertError::UnexpectedThisType(Namespace::from_user_input("a"), "f".to_string()).to_message(),
        "Unexpected type for 'this' in the function f (in namespace a)."
    );
    assert_eq!(
        ConvertError::Blocked(qn("a::B")).to_message(),
        "Found an attempt at using a type marked as blocked! (a::B)"
    );
    assert_eq!(
        ConvertError::UnexpectedUseStatement(None).to_message(),
        "Unexpected 'use' statement encountered: <unknown>"
    );
    assert_eq!(
        ConvertError::UnsupportedBuiltInType(qn("i128")).to_message(),
        "autocxx does not yet know how to support the built-in C++ type __int128 - please raise an issue on github"
    );
}

#[test]
fn gen_cmd_arguments() {
    let args = format_gen_cmd("in.rs", "/tmp/d", &["-std=c++14"]);
    assert_eq!(
        args,
        vec!["-o", "/tmp/d", "-I", "/tmp/d", "in.rs", "--gen-rs-complete", "--gen-cpp", "--", "-std=c++14"]
    );
}

#[test]
fn empty_parse_is_a_global_failure() {
    let cfg = config(vec![]);
    let r = autocxx_analysis::pipeline::analyze_apis(vec![], &cfg);
    assert!(matches!(r, Err(ConvertError::NoContent)));
}

#[test]
fn whole_pipeline_runs_both_phases() {
    let cfg = config(vec![Directive::Pod("Point".to_string())]);
    let raw = vec![
        api("IntAlias", typedef("IntAlias", c_int())),
        api(
            "Point",
            strukt("Point", vec![field("x", TypeRef::Path(qn("IntAlias")))], false),
        ),
    ];
    let out = autocxx_analysis::pipeline::analyze_apis(raw, &cfg).ok().unwrap();
    assert_eq!(out.len(), 2);
    let p = find(&out, "Point");
    match &p.detail {
        ApiDetail::Struct { analysis, .. } => assert_eq!(analysis.kind, TypeKind::Pod),
        _ => panic!("expected a struct"),
    }
    assert_eq!(p.deps.len(), 1);
    assert_eq!(p.deps[0].to_string(), "std::os::raw::c_int");
}

#[test]
fn error_context_names_the_item() {
    let item = ErrorContext::Item("Foo".to_string());
    assert_eq!(item.get_id(), "Foo");
    assert_eq!(item.to_message(), "Foo");
    let method = ErrorContext::Method { self_ty: "Foo".to_string(), method: "bar".to_string() };
    assert_eq!(method.get_id(), "Foo");
    assert_eq!(method.to_message(), "Foo::bar");
    let e = ConvertErrorWithContext(ConvertError::InvalidPointee, Some(method));
    assert_eq!(e.to_message(), "Pointer pointed to something unsupported");
}

#[test]
fn pod_request_without_final_item_is_not_found() {
    let cfg = config(vec![Directive::Pod("ns::".to_string())]);
    let typed = convert_typedef_targets(&cfg, vec![api("ns::A", strukt("A", vec![], false))]);
    match analyze_pod_apis(typed, &cfg) {
        Err(ConvertError::UnsafePodType(msg)) => assert_eq!(msg, "Unable to find ns::"),
        _ => panic!("expected an unsafe POD type error"),
    }
}

#[test]
fn failed_aliases_come_last() {
    let cfg = config(vec![]);
    let templ = TypeRef::Templated(qn("Foo"), vec![TypeArg::Path(qn("std::os::raw::c_int"))]);
    let raw = vec![
        api("Bad", typedef("Bad", TypeRef::Other("int[3]".to_string()))),
        api("S", strukt("S", vec![field("x", c_int())], false)),
        api("Good", typedef("Good", templ)),
    ];
    let out = convert_typedef_targets(&cfg, raw);
    let names: Vec<String> = out.iter().map(|a| a.name.to_string()).collect();
    assert_eq!(names, vec!["S", "Good", "AutocxxConcrete_Foo_std_os_raw_c_int", "Bad"]);
    match &out[3].detail {
        ApiDetail::IgnoredItem { err, ctx } => {
            assert!(matches!(err, ConvertError::UnsupportedType(_)));
            match ctx {
                Some(ErrorContext::Item(id)) => assert_eq!(id, "Bad"),
                _ => panic!("expected the alias as context"),
            }
        }
        _ => panic!("expected a placeholder"),
    }
}

#[test]
fn self_referential_alias_context() {
    let cfg = config(vec![]);
    let raw = vec![
        api("ns::A", typedef("A", TypeRef::Path(qn("ns::A")))),
        api("P", strukt("P", vec![], false)),
    ];
    let out = convert_typedef_targets(&cfg, raw);
    assert_eq!(out[0].name.to_string(), "P");
    assert_eq!(out[1].name.to_string(), "ns::A");
    match &out[1].detail {
        ApiDetail::IgnoredItem { err, ctx } => {
            assert!(matches!(err, ConvertError::InfinitelyRecursiveTypedef(_)));
            assert!(matches!(ctx, Some(ErrorContext::Item(id)) if id == "A"));
        }
        _ => panic!("expected a placeholder"),
    }
}

#[test]
fn repeated_base_is_recorded_once() {
    let cfg = config(vec![]);
    let raw = vec![
        api("Base", strukt("Base", vec![field("x", c_int())], false)),
        api(
            "D",
            strukt(
                "D",
                vec![
                    field("_base", TypeRef::Path(qn("Base"))),
                    field("_base_1", TypeRef::Path(qn("Base"))),
                ],
                false,
            ),
        ),
    ];
    let out = run(raw, &cfg);
    match &find(&out, "D").detail {
        ApiDetail::Struct { analysis, .. } => assert_eq!(analysis.bases.len(), 1),
        _ => panic!("expected a struct"),
    }
}
