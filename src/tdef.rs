use vstd::prelude::*;

use crate::api::{
    names_view, Api, ApiDetail, ApiDetailView, ApiView, TypeRefView, TypedefItem,
    TypedefKind, TypedefKindView, TypedefPhaseApi, UnanalyzedApi,
};
use crate::config::{IncludeCppConfig, IncludeCppConfigView};
use crate::error::{
    ctx_view, ConvertError, ConvertErrorView, ConvertErrorWithContext, ErrorContext, ErrorContextView,
};
use crate::names::{QualifiedName, QualifiedNameView};
use crate::tracker::{allocated_name, BridgeNameTracker};
use crate::type_converter::{
    api_views, convert_spec, extend_unique, with_all, converter_after, extras_of, forward_declarations_of, raw_views,
    typedefs_of, TypeConversionContext, TypeConverter, TypeConverterView,
};

verus! {

pub type RawApiView = ApiView<(), ()>;

pub type TypedefApiView = ApiView<TypedefKindView, ()>;

/// What an item is, carried into the phase after typedef analysis unchanged;
/// an alias keeps its declaration as its analysis.
pub open spec fn retype_detail(d: ApiDetailView<(), ()>) -> ApiDetailView<TypedefKindView, ()> {
    match d {
        ApiDetailView::ForwardDeclaration => ApiDetailView::ForwardDeclaration,
        ApiDetailView::ConcreteType { rs_definition, cpp_definition } => ApiDetailView::ConcreteType {
            rs_definition,
            cpp_definition,
        },
        ApiDetailView::StringConstructor => ApiDetailView::StringConstructor,
        ApiDetailView::Function { fun } => ApiDetailView::Function { fun },
        ApiDetailView::Const { const_item } => ApiDetailView::Const { const_item },
        ApiDetailView::Typedef { item, .. } => ApiDetailView::Typedef { item, analysis: item },
        ApiDetailView::Struct { item, .. } => ApiDetailView::Struct { item, analysis: () },
        ApiDetailView::Enum { item } => ApiDetailView::Enum { item },
        ApiDetailView::CType { typename } => ApiDetailView::CType { typename },
        ApiDetailView::IgnoredItem { err, ctx } => ApiDetailView::IgnoredItem { err, ctx },
    }
}

/// An item carried into the phase after typedef analysis unchanged.
pub open spec fn retyped(a: RawApiView) -> TypedefApiView {
    ApiView {
        name: a.name,
        original_name: a.original_name,
        deps: a.deps,
        rename_to: a.rename_to,
        detail: retype_detail(a.detail),
    }
}

/// The placeholder that stands for an item whose analysis failed: it
/// carries the error, reported against the item's own final name.
pub open spec fn ignored<TV, SV>(name: QualifiedNameView, e: ConvertErrorView) -> ApiView<TV, SV> {
    ApiView {
        name,
        original_name: None,
        deps: Seq::empty(),
        rename_to: None,
        detail: ApiDetailView::IgnoredItem { err: e, ctx: Some(ErrorContextView::Item(name.1)) },
    }
}

/// How an alias target resolves: the converted target, or an error. A
/// target that converts to the alias's own name is an alias to itself.
pub open spec fn resolution(
    c: TypeConverterView,
    name: QualifiedNameView,
    target: TypeRefView,
) -> Result<(TypeRefView, Seq<QualifiedNameView>), ConvertErrorView> {
    match convert_spec(c, target, TypeConversionContext::CxxInnerType) {
        Err(e) => Err(e),
        Ok((tv, d)) => if tv == TypeRefView::Path(name) {
            Err(ConvertErrorView::InfinitelyRecursiveTypedef(name))
        } else {
            Ok((tv, d))
        },
    }
}

/// What the converter knows after resolving `target`: a failed conversion
/// leaves it as it was.
pub open spec fn converter_after_resolution(c: TypeConverterView, target: TypeRefView) -> TypeConverterView {
    match convert_spec(c, target, TypeConversionContext::CxxInnerType) {
        Err(_) => c,
        Ok(_) => converter_after(c, target),
    }
}

/// The analysis of one item, given what the converter and the name tracker
/// know: the item after the phase, what they know after it, and the items
/// synthesised for it.
pub open spec fn tdef_one(c: TypeConverterView, t: Seq<Seq<char>>, a: RawApiView) -> (
    TypedefApiView,
    TypeConverterView,
    Seq<Seq<char>>,
    Seq<RawApiView>,
) {
    match a.detail {
        ApiDetailView::Typedef { item: TypedefKindView::Type(ti), .. } => {
            let n = allocated_name(t, None, a.name.1, a.name.0);
            let t2 = t.push(n);
            let renamed = n != a.name.1;
            match resolution(c, a.name, ti.1) {
                Err(e) => (
                    ignored(a.name, e),
                    converter_after_resolution(c, ti.1),
                    t2,
                    Seq::empty(),
                ),
                Ok((tv, d)) => (
                    ApiView {
                        name: (a.name.0, n),
                        original_name: if renamed && a.original_name is None {
                            Some(a.name.1)
                        } else {
                            a.original_name
                        },
                        deps: with_all(a.deps, d),
                        rename_to: if renamed {
                            Some(a.name.1)
                        } else {
                            None
                        },
                        detail: ApiDetailView::Typedef {
                            item: TypedefKindView::Type(ti),
                            analysis: TypedefKindView::Type((ti.0, tv)),
                        },
                    },
                    converter_after(c, ti.1),
                    t2,
                    extras_of(c, ti.1),
                ),
            }
        },
        _ => (retyped(a), c, t, Seq::empty()),
    }
}

/// Whether the analysis of `a` fails: it is an alias whose target does not
/// resolve.
pub open spec fn tdef_failed(c: TypeConverterView, a: RawApiView) -> bool {
    match a.detail {
        ApiDetailView::Typedef { item: TypedefKindView::Type(ti), .. } => resolution(
            c,
            a.name,
            ti.1,
        ) is Err,
        _ => false,
    }
}

/// The typedef analysis of `apis` in order: the items after it, the items
/// synthesised, the placeholders of the aliases that failed, and what the
/// converter and the name tracker know at the end.
pub open spec fn tdef_fold(c: TypeConverterView, t: Seq<Seq<char>>, apis: Seq<RawApiView>) -> (
    Seq<TypedefApiView>,
    Seq<RawApiView>,
    Seq<TypedefApiView>,
    TypeConverterView,
    Seq<Seq<char>>,
)
    decreases apis.len(),
{
    if apis.len() == 0 {
        (Seq::empty(), Seq::empty(), Seq::empty(), c, t)
    } else {
        let (outs, exs, probs, c1, t1) = tdef_fold(c, t, apis.drop_last());
        let (o, c2, t2, e) = tdef_one(c1, t1, apis.last());
        if tdef_failed(c1, apis.last()) {
            (outs, exs + e, probs.push(o), c2, t2)
        } else {
            (outs.push(o), exs + e, probs, c2, t2)
        }
    }
}

/// What the converter knows at the start of the typedef analysis.
pub open spec fn initial_converter(cfg: IncludeCppConfigView, apis: Seq<RawApiView>) -> TypeConverterView {
    TypeConverterView {
        typedefs: typedefs_of(apis),
        forward_declarations: forward_declarations_of(apis),
        blocklist: cfg.blocklist,
        concretes: Seq::empty(),
    }
}

/// The items after the typedef analysis: the items whose analysis succeeded,
/// in input order; then the items synthesised on the way; then the
/// placeholders of the aliases that failed, in input order.
pub open spec fn typedef_phase(cfg: IncludeCppConfigView, apis: Seq<RawApiView>) -> Seq<TypedefApiView> {
    let (outs, exs, probs, _, _) = tdef_fold(initial_converter(cfg, apis), Seq::empty(), apis);
    outs + exs.map_values(|x: RawApiView| retyped(x)) + probs
}

impl TypedefKind {
    pub fn duplicate(&self) -> (r: Self)
        ensures
            r@ == self@,
    {
        match self {
            TypedefKind::Type(t) => TypedefKind::Type(
                TypedefItem { ident: t.ident.clone(), target: t.target.duplicate() },
            ),
            TypedefKind::Use(s) => TypedefKind::Use(s.clone()),
        }
    }
}

/// Carries an item into the phase after typedef analysis unchanged.
pub fn add_analysis(api: UnanalyzedApi) -> (r: TypedefPhaseApi)
    ensures
        r@ == retyped(api@),
{
    let detail = match api.detail {
        ApiDetail::ForwardDeclaration => ApiDetail::ForwardDeclaration,
        ApiDetail::ConcreteType { rs_definition, cpp_definition } => ApiDetail::ConcreteType {
            rs_definition,
            cpp_definition,
        },
        ApiDetail::StringConstructor => ApiDetail::StringConstructor,
        ApiDetail::Function { fun } => ApiDetail::Function { fun },
        ApiDetail::Const { const_item } => ApiDetail::Const { const_item },
        ApiDetail::Typedef { item, analysis: _ } => {
            let analysis = item.duplicate();
            ApiDetail::Typedef { item, analysis }
        },
        ApiDetail::Struct { item, analysis: _ } => ApiDetail::Struct { item, analysis: () },
        ApiDetail::Enum { item } => ApiDetail::Enum { item },
        ApiDetail::CType { typename } => ApiDetail::CType { typename },
        ApiDetail::IgnoredItem { err, ctx } => ApiDetail::IgnoredItem { err, ctx },
    };
    Api {
        name: api.name,
        original_name: api.original_name,
        deps: api.deps,
        rename_to: api.rename_to,
        detail,
    }
}

/// Resolves the target of the alias `name` declared by `ity`: adds what it
/// depends on to `deps` and what was synthesised for it to `extra_apis`.
pub fn get_replacement_typedef(
    name: &QualifiedName,
    ity: TypedefItem,
    type_converter: &mut TypeConverter,
    extra_apis: &mut Vec<UnanalyzedApi>,
    deps: &mut Vec<QualifiedName>,
) -> (r: Result<ApiDetail<TypedefKind, ()>, ConvertErrorWithContext>)
    ensures
        match resolution(old(type_converter)@, name@, ity.target@) {
            Err(e) => r matches Err(x) && x.0@ == e && ctx_view(x.1) == Some(
                ErrorContextView::Item(name@.1),
            ) && final(extra_apis)@ == old(extra_apis)@
                && final(deps)@ == old(deps)@ && final(type_converter)@ == converter_after_resolution(
                old(type_converter)@,
                ity.target@,
            ),
            Ok((tv, d)) => r matches Ok(x) && x@ == ApiDetailView::<TypedefKindView, ()>::Typedef {
                item: TypedefKindView::Type(ity@),
                analysis: TypedefKindView::Type((ity.ident@, tv)),
            } && raw_views(final(extra_apis)@) == raw_views(old(extra_apis)@) + extras_of(
                old(type_converter)@,
                ity.target@,
            ) && names_view(final(deps)@) == with_all(names_view(old(deps)@), d) && final(type_converter)@
                == converter_after(old(type_converter)@, ity.target@),
        },
{
    let ghost c0 = type_converter@;
    let converted = type_converter.convert_type(&ity.target, TypeConversionContext::CxxInnerType);
    match converted {
        Err(err) => {
            let id = crate::text::owned(name.get_final_item());
            Err(ConvertErrorWithContext(err, Some(ErrorContext::Item(id))))
        },
        Ok(mut final_type) => {
            let recursive = match &final_type.ty {
                crate::api::TypeRef::Path(q) => *q == *name,
                _ => false,
            };
            if recursive {
                let id = crate::text::owned(name.get_final_item());
                return Err(
                    ConvertErrorWithContext(
                        ConvertError::InfinitelyRecursiveTypedef(name.duplicate()),
                        Some(ErrorContext::Item(id)),
                    ),
                );
            }
            let ghost e0 = extra_apis@;
            let ghost d0 = deps@;
            let ghost fe = final_type.extra_apis@;
            let ghost fd = final_type.types_encountered@;
            extra_apis.append(&mut final_type.extra_apis);
            extend_unique(deps, final_type.types_encountered);
            assert(raw_views(extra_apis@) =~= raw_views(e0) + raw_views(fe));
            let converted_item = TypedefItem { ident: ity.ident.clone(), target: final_type.ty };
            Ok(
                ApiDetail::Typedef {
                    item: TypedefKind::Type(ity),
                    analysis: TypedefKind::Type(converted_item),
                },
            )
        },
    }
}

/// The typedef analysis of one item.
fn analyze_typedef_api(
    api: UnanalyzedApi,
    type_converter: &mut TypeConverter,
    bridge_tracker: &mut BridgeNameTracker,
    extra_apis: &mut Vec<UnanalyzedApi>,
) -> (r: Result<TypedefPhaseApi, TypedefPhaseApi>)
    ensures
        ({
            let (o, c, t, e) = tdef_one(old(type_converter)@, old(bridge_tracker)@, api@);
            &&& (r is Err) == tdef_failed(old(type_converter)@, api@)
            &&& match r {
                Ok(x) => x@ == o,
                Err(x) => x@ == o,
            }
            &&& final(type_converter)@ == c
            &&& final(bridge_tracker)@ == t
            &&& raw_views(final(extra_apis)@) == raw_views(old(extra_apis)@) + e
        }),
{
    let ghost a = api@;
    match api.detail {
        ApiDetail::Typedef { item: TypedefKind::Type(ity), analysis: _ } => {
            let name = api.name;
            let own = crate::text::owned(name.get_final_item());
            let replacement = bridge_tracker.get_unique_cxx_bridge_name(
                None,
                own.as_str(),
                name.get_namespace(),
            );
            proof {
                crate::tracker::lemma_allocated_non_empty(
                    old(bridge_tracker)@,
                    None,
                    own@,
                    name@.0,
                );
            }
            let renamed = !crate::text::str_eq(replacement.as_str(), own.as_str());
            let new_name = QualifiedName::new(name.get_namespace(), replacement);
            let rename_to = if renamed {
                Some(own.clone())
            } else {
                None
            };
            let original_name = if renamed && api.original_name.is_none() {
                Some(own)
            } else {
                api.original_name
            };
            let mut deps = api.deps;
            let ghost ev = extra_apis@;
            match get_replacement_typedef(&name, ity, type_converter, extra_apis, &mut deps) {
                Ok(detail) => Ok(Api { name: new_name, original_name, deps, rename_to, detail }),
                Err(e) => {
                    let empty: Vec<QualifiedName> = Vec::new();
                    assert(names_view(empty@) =~= Seq::<QualifiedNameView>::empty());
                    assert(raw_views(extra_apis@) =~= raw_views(ev) + Seq::<RawApiView>::empty());
                    Err(
                        Api {
                            name,
                            original_name: None,
                            deps: empty,
                            rename_to: None,
                            detail: ApiDetail::IgnoredItem { err: e.0, ctx: e.1 },
                        },
                    )
                },
            }
        },
        detail => {
            let api = Api {
                name: api.name,
                original_name: api.original_name,
                deps: api.deps,
                rename_to: api.rename_to,
                detail,
            };
            assert(raw_views(extra_apis@) =~= raw_views(extra_apis@) + Seq::<RawApiView>::empty());
            Ok(add_analysis(api))
        },
    }
}

/// Resolves the target of every alias among `apis`, giving each resolved
/// alias a unique name in the bridge. An alias that cannot be resolved, or
/// that resolves to itself, becomes a placeholder carrying the error. The
/// result holds the items whose analysis succeeded, in input order; then
/// the concrete types synthesised for alias targets; then the placeholders.
pub fn convert_typedef_targets(config: &IncludeCppConfig, apis: Vec<UnanalyzedApi>) -> (r: Vec<
    TypedefPhaseApi,
>)
    ensures
        api_views(r@) == typedef_phase(config@, api_views(apis@)),
{
    let ghost av = api_views(apis@);
    let mut type_converter = TypeConverter::new(config, &apis);
    let mut bridge_tracker = BridgeNameTracker::new();
    let mut extra_apis: Vec<UnanalyzedApi> = Vec::new();
    let mut new_apis: Vec<TypedefPhaseApi> = Vec::new();
    let mut problem_apis: Vec<TypedefPhaseApi> = Vec::new();
    let ghost c0 = type_converter@;
    assert(c0 == initial_converter(config@, av));
    let n = apis.len();
    let mut rest = apis;
    let mut i: usize = 0;
    assert(api_views(new_apis@) =~= Seq::<TypedefApiView>::empty());
    assert(api_views(problem_apis@) =~= Seq::<TypedefApiView>::empty());
    assert(raw_views(extra_apis@) =~= Seq::<RawApiView>::empty());
    assert(av.subrange(0, 0) =~= Seq::<RawApiView>::empty());
    while rest.len() > 0
        invariant
            av.len() == n,
            i + rest.len() == n,
            api_views(rest@) == av.subrange(i as int, n as int),
            ({
                let (o, e, p, c, t) = tdef_fold(c0, Seq::empty(), av.subrange(0, i as int));
                &&& api_views(new_apis@) == o
                &&& api_views(problem_apis@) == p
                &&& raw_views(extra_apis@) == e
                &&& type_converter@ == c
                &&& bridge_tracker@ == t
            }),
        decreases rest.len(),
    {
        let ghost before = rest@;
        let api = rest.remove(0);
        proof {
            assert(api@ == api_views(before)[0]);
            assert(api@ == av[i as int]);
            assert forall|k: int| 0 <= k < rest@.len() implies #[trigger] api_views(rest@)[k]
                == av.subrange(i + 1, n as int)[k] by {
                assert(rest@[k] == before[k + 1]);
                assert(api_views(before)[k + 1] == av.subrange(i as int, n as int)[k + 1]);
            }
            assert(api_views(rest@) =~= av.subrange(i + 1, n as int));
            assert(av.subrange(0, i + 1).drop_last() =~= av.subrange(0, i as int));
            assert(av.subrange(0, i + 1).last() == av[i as int]);
        }
        match analyze_typedef_api(api, &mut type_converter, &mut bridge_tracker, &mut extra_apis) {
            Ok(out) => {
                let ghost nb = new_apis@;
                new_apis.push(out);
                assert(api_views(new_apis@) =~= api_views(nb).push(out@));
            },
            Err(out) => {
                let ghost pb = problem_apis@;
                problem_apis.push(out);
                assert(api_views(problem_apis@) =~= api_views(pb).push(out@));
            },
        }
        i = i + 1;
    }
    assert(av.subrange(0, i as int) =~= av);
    let ghost probs = api_views(problem_apis@);
    let ghost outs = api_views(new_apis@);
    let ghost exs = raw_views(extra_apis@);
    let m = extra_apis.len();
    let mut j: usize = 0;
    let mut extras = extra_apis;
    while extras.len() > 0
        invariant
            j + extras.len() == m,
            exs.len() == m,
            probs == api_views(problem_apis@),
            raw_views(extras@) == exs.subrange(j as int, m as int),
            api_views(new_apis@) == outs + exs.subrange(0, j as int).map_values(
                |x: RawApiView| retyped(x),
            ),
        decreases extras.len(),
    {
        let ghost before = extras@;
        let x = extras.remove(0);
        proof {
            assert(x@ == raw_views(before)[0]);
            assert(x@ == exs[j as int]);
            assert forall|k: int| 0 <= k < extras@.len() implies #[trigger] raw_views(extras@)[k]
                == exs.subrange(j + 1, m as int)[k] by {
                assert(extras@[k] == before[k + 1]);
                assert(raw_views(before)[k + 1] == exs.subrange(j as int, m as int)[k + 1]);
            }
            assert(raw_views(extras@) =~= exs.subrange(j + 1, m as int));
        }
        let y = add_analysis(x);
        let ghost nb = new_apis@;
        new_apis.push(y);
        assert(api_views(new_apis@) =~= outs + exs.subrange(0, j + 1).map_values(
            |x: RawApiView| retyped(x),
        )) by {
            assert(api_views(new_apis@) =~= api_views(nb).push(y@));
            assert(exs.subrange(0, j + 1).map_values(|x: RawApiView| retyped(x)) =~= exs.subrange(
                0,
                j as int,
            ).map_values(|x: RawApiView| retyped(x)).push(retyped(exs[j as int])));
        }
        j = j + 1;
    }
    assert(exs.subrange(0, j as int) =~= exs);
    let ghost front = api_views(new_apis@);
    new_apis.append(&mut problem_apis);
    assert(api_views(new_apis@) =~= front + probs);
    new_apis
}

} // verus!
