use vstd::prelude::*;

use crate::api::{ApiDetailView, TypeRefView, TypedefKindView};
use crate::config::IncludeCppConfigView;
use crate::error::ConvertErrorView;
use crate::pod::{
    by_value_safe, carry_detail, field_class, fields_at, locally_ok, pod_fold, pod_one, pod_phase,
    FieldClass, PodApiView,
};
use crate::tdef::{retyped, tdef_one, typedef_phase, RawApiView, TypedefApiView};
use crate::tracker::lemma_allocated_is_free;
use crate::type_converter::{convert_spec, TypeConversionContext, TypeConverterView};

verus! {

/// The analyses are functions of their inputs: equal item lists and equal
/// configurations give equal names, dependencies and classifications.
pub proof fn lemma_phases_deterministic(
    cfg1: IncludeCppConfigView,
    cfg2: IncludeCppConfigView,
    raw1: Seq<RawApiView>,
    raw2: Seq<RawApiView>,
    typed1: Seq<TypedefApiView>,
    typed2: Seq<TypedefApiView>,
)
    requires
        cfg1 == cfg2,
        raw1 == raw2,
        typed1 == typed2,
    ensures
        typedef_phase(cfg1, raw1) == typedef_phase(cfg2, raw2),
        pod_phase(cfg1, typed1) == pod_phase(cfg2, typed2),
{
}

/// The names in the bridge of the structs and forward declarations among
/// `outs`, in order.
pub open spec fn bridge_names(outs: Seq<PodApiView>) -> Seq<Seq<char>>
    decreases outs.len(),
{
    if outs.len() == 0 {
        Seq::empty()
    } else {
        let rest = bridge_names(outs.drop_last());
        match outs.last().detail {
            ApiDetailView::Struct { .. } => rest.push(outs.last().name.1),
            ApiDetailView::ForwardDeclaration => rest.push(outs.last().name.1),
            _ => rest,
        }
    }
}

proof fn lemma_bridge_names_append(a: Seq<PodApiView>, b: Seq<PodApiView>)
    ensures
        bridge_names(a + b) == bridge_names(a) + bridge_names(b),
    decreases b.len(),
{
    if b.len() == 0 {
        assert(a + b =~= a);
        assert(bridge_names(a) + bridge_names(b) =~= bridge_names(a));
    } else {
        assert((a + b).drop_last() =~= a + b.drop_last());
        assert((a + b).last() == b.last());
        lemma_bridge_names_append(a, b.drop_last());
        let x = b.last();
        match x.detail {
            ApiDetailView::Struct { .. } => {
                assert(bridge_names(a) + bridge_names(b) =~= (bridge_names(a) + bridge_names(
                    b.drop_last(),
                )).push(x.name.1));
            },
            ApiDetailView::ForwardDeclaration => {
                assert(bridge_names(a) + bridge_names(b) =~= (bridge_names(a) + bridge_names(
                    b.drop_last(),
                )).push(x.name.1));
            },
            _ => {},
        }
    }
}

/// The name tracker of the plain-data analysis takes exactly the bridge
/// names of the structs and forward declarations it produces, and no name
/// twice.
proof fn lemma_pod_fold_names(
    all: Seq<TypedefApiView>,
    c: TypeConverterView,
    t: Seq<Seq<char>>,
    items: Seq<TypedefApiView>,
)
    requires
        t.no_duplicates(),
    ensures
        pod_fold(all, c, t, items).3 == t + bridge_names(pod_fold(all, c, t, items).0),
        pod_fold(all, c, t, items).3.no_duplicates(),
    decreases items.len(),
{
    if items.len() == 0 {
        assert(t + Seq::<Seq<char>>::empty() =~= t);
    } else {
        lemma_pod_fold_names(all, c, t, items.drop_last());
        let (outs, exs, c1, t1) = pod_fold(all, c, t, items.drop_last());
        let a = items.last();
        let (r, c2, t2, e) = pod_one(all, c1, t1, a);
        let o = match r {
            Ok(v) => v,
            Err(err) => crate::tdef::ignored::<TypedefKindView, crate::api::PodStructAnalysisView>(
                a.name,
                err,
            ),
        };
        assert(outs.push(o).drop_last() =~= outs);
        match a.detail {
            ApiDetailView::ForwardDeclaration => {
                lemma_allocated_is_free(t1, None, a.name.1, a.name.0);
                assert(t2 =~= t + bridge_names(outs).push(o.name.1));
            },
            ApiDetailView::Struct { .. } => {
                lemma_allocated_is_free(t1, None, a.name.1, a.name.0);
                if r is Ok {
                    assert(t2 =~= t + bridge_names(outs).push(o.name.1));
                }
            },
            _ => {
                assert(!(carry_detail(a.detail) is Struct) && !(carry_detail(a.detail) is ForwardDeclaration));
            },
        }
    }
}

proof fn lemma_concrete_fold(
    all: Seq<TypedefApiView>,
    c: TypeConverterView,
    t: Seq<Seq<char>>,
    items: Seq<TypedefApiView>,
)
    requires
        forall|k: int| 0 <= k < items.len() ==> (#[trigger] items[k]).detail is ConcreteType,
    ensures
        bridge_names(pod_fold(all, c, t, items).0) == Seq::<Seq<char>>::empty(),
    decreases items.len(),
{
    if items.len() > 0 {
        assert(items.last() == items[items.len() - 1]);
        lemma_concrete_fold(all, c, t, items.drop_last());
        let (outs, exs, c1, t1) = pod_fold(all, c, t, items.drop_last());
        let (r, c2, t2, e) = pod_one(all, c1, t1, items.last());
        assert(pod_fold(all, c, t, items).0.drop_last() =~= outs);
    }
}

/// Uniqueness: after the plain-data analysis no two structs or forward
/// declarations share a name in the flat namespace of the bridge.
pub proof fn lemma_bridge_names_unique(cfg: IncludeCppConfigView, apis: Seq<TypedefApiView>)
    requires
        (pod_phase(cfg, apis) is Ok),
    ensures
        bridge_names(pod_phase(cfg, apis)->Ok_0).no_duplicates(),
{
    let c0 = crate::type_converter::TypeConverterView {
        typedefs: crate::type_converter::typedefs_of(apis),
        forward_declarations: crate::type_converter::forward_declarations_of(apis),
        blocklist: cfg.blocklist,
        concretes: Seq::empty(),
    };
    let (o1, e1, c1, t1) = pod_fold(apis, c0, Seq::empty(), apis);
    let items2 = e1.map_values(|x: RawApiView| retyped(x));
    let (o2, e2, c2, t2) = pod_fold(apis, c1, t1, items2);
    lemma_pod_fold_names(apis, c0, Seq::empty(), apis);
    assert(Seq::<Seq<char>>::empty() + bridge_names(o1) =~= bridge_names(o1));
    crate::pod::lemma_pod_extras_concrete(apis, c0, Seq::empty(), apis);
    assert forall|k: int| 0 <= k < items2.len() implies (#[trigger] items2[k]).detail is ConcreteType by {
        assert(e1[k].detail is ConcreteType);
    }
    lemma_concrete_fold(apis, c1, t1, items2);
    lemma_bridge_names_append(o1, o2);
    assert(bridge_names(o1) + bridge_names(o2) =~= bridge_names(o1));
}

/// Round-trip naming: a struct or forward declaration whose own name is not
/// yet taken in the bridge keeps it, and no rename is recorded.
pub proof fn lemma_round_trip_naming(
    all: Seq<TypedefApiView>,
    c: TypeConverterView,
    t: Seq<Seq<char>>,
    a: TypedefApiView,
)
    requires
        a.detail is ForwardDeclaration || a.detail is Struct,
        !t.contains(a.name.1),
        (pod_one(all, c, t, a).0 is Ok),
    ensures
        pod_one(all, c, t, a).0->Ok_0.name == a.name,
        (pod_one(all, c, t, a).0->Ok_0.rename_to is None),
        pod_one(all, c, t, a).0->Ok_0.original_name == a.original_name,
{
}

/// Round-trip naming for aliases: a resolved alias whose own name is not yet
/// taken in the bridge keeps it, and no rename is recorded.
pub proof fn lemma_round_trip_naming_alias(c: TypeConverterView, t: Seq<Seq<char>>, a: RawApiView)
    requires
        a.detail matches ApiDetailView::Typedef { item: TypedefKindView::Type(_), .. },
        !t.contains(a.name.1),
        !(tdef_one(c, t, a).0.detail is IgnoredItem),
    ensures
        tdef_one(c, t, a).0.name == a.name,
        (tdef_one(c, t, a).0.rename_to is None),
        tdef_one(c, t, a).0.original_name == a.original_name,
{
}

/// An alias whose target resolves to the alias itself is refused with the
/// diagnostic for an alias to itself.
pub proof fn lemma_self_referential_alias(
    c: TypeConverterView,
    t: Seq<Seq<char>>,
    a: RawApiView,
    ident: Seq<char>,
    target: TypeRefView,
)
    requires
        a.detail matches ApiDetailView::Typedef { item: TypedefKindView::Type(ti), .. } && ti == (ident, target),
        convert_spec(c, target, TypeConversionContext::CxxInnerType) matches Ok((tv, _)) && tv
            == TypeRefView::Path(a.name),
    ensures
        (tdef_one(c, t, a).0.detail == ApiDetailView::<TypedefKindView, ()>::IgnoredItem {
            err: ConvertErrorView::InfinitelyRecursiveTypedef(a.name),
            ctx: Some(crate::error::ErrorContextView::Item(a.name.1)),
        }),
{
}

/// An alias `A` declared as `A` itself (and known to the converter as
/// such, neither blocked nor a built-in type) is refused with the
/// diagnostic for an alias to itself.
pub proof fn lemma_alias_to_itself(c: TypeConverterView, t: Seq<Seq<char>>, a: RawApiView, ident: Seq<char>)
    requires
        a.detail matches ApiDetailView::Typedef { item: TypedefKindView::Type(ti), .. } && ti == (
            ident,
            TypeRefView::Path(a.name),
        ),
        crate::type_converter::typedef_target_from(c.typedefs, a.name, 0) == Some(
            TypeRefView::Path(a.name),
        ),
        crate::known_types::find_known(crate::names::rendered(a.name)) is None,
        !c.blocklist.contains(crate::names::rendered(a.name)),
    ensures
        (tdef_one(c, t, a).0.detail == ApiDetailView::<TypedefKindView, ()>::IgnoredItem {
            err: ConvertErrorView::InfinitelyRecursiveTypedef(a.name),
            ctx: Some(crate::error::ErrorContextView::Item(a.name.1)),
        }),
{
    let tds = c.typedefs;
    assert(crate::type_converter::resolve_name(tds, a.name, tds.len()) == a.name);
}

/// Plain-data closure: a struct may be held by value exactly when it is
/// locally fine (no destructor, virtual functions or copy and move logic,
/// no field of a type refused by value) and every struct it holds by value
/// may be held by value too; so making any struct it holds unfit makes it
/// unfit.
pub proof fn lemma_pod_closure(apis: Seq<TypedefApiView>, i: int)
    requires
        0 <= i < apis.len(),
    ensures
        by_value_safe(apis, i) == (locally_ok(apis, i) && forall|f: int|
            0 <= f < fields_at(apis, i).len() ==> match #[trigger] field_class(
                apis,
                fields_at(apis, i)[f].1,
            ) {
                FieldClass::Holds(j) => 0 <= j < apis.len() ==> by_value_safe(apis, j),
                _ => true,
            }),
{
    let fs = fields_at(apis, i);
    if by_value_safe(apis, i) {
        assert(!crate::pod::bad_within(apis, i, 0));
        assert forall|f: int| 0 <= f < fs.len() implies match #[trigger] field_class(apis, fs[f].1) {
            FieldClass::Holds(j) => 0 <= j < apis.len() ==> by_value_safe(apis, j),
            _ => true,
        } by {
            match field_class(apis, fs[f].1) {
                FieldClass::Holds(j) => {
                    if 0 <= j < apis.len() {
                        assert forall|n: nat| !#[trigger] crate::pod::bad_within(apis, j, n) by {
                            assert(!crate::pod::bad_within(apis, i, n + 1));
                        }
                    }
                },
                _ => {},
            }
        }
    }
    if locally_ok(apis, i) && forall|f: int|
        0 <= f < fs.len() ==> match #[trigger] field_class(apis, fs[f].1) {
            FieldClass::Holds(j) => 0 <= j < apis.len() ==> by_value_safe(apis, j),
            _ => true,
        } {
        assert forall|n: nat| !#[trigger] crate::pod::bad_within(apis, i, n) by {
            if n > 0 {
                assert forall|f: int| 0 <= f < fs.len() implies !match #[trigger] field_class(apis, fs[f].1) {
                    FieldClass::Holds(j) => 0 <= j < apis.len() && crate::pod::bad_within(
                        apis,
                        j,
                        (n - 1) as nat,
                    ),
                    _ => false,
                } by {
                    match field_class(apis, fs[f].1) {
                        FieldClass::Holds(j) => {
                            if 0 <= j < apis.len() {
                                assert(by_value_safe(apis, j));
                                assert(!crate::pod::bad_within(apis, j, (n - 1) as nat));
                            }
                        },
                        _ => {},
                    }
                }
            }
        }
    }
}

/// The names in the bridge of the resolved aliases among `outs`, in order.
pub open spec fn alias_names(outs: Seq<TypedefApiView>) -> Seq<Seq<char>>
    decreases outs.len(),
{
    if outs.len() == 0 {
        Seq::empty()
    } else {
        let rest = alias_names(outs.drop_last());
        match outs.last().detail {
            ApiDetailView::Typedef { item: TypedefKindView::Type(_), .. } => rest.push(
                outs.last().name.1,
            ),
            _ => rest,
        }
    }
}

proof fn lemma_alias_names_append(a: Seq<TypedefApiView>, b: Seq<TypedefApiView>)
    ensures
        alias_names(a + b) == alias_names(a) + alias_names(b),
    decreases b.len(),
{
    if b.len() == 0 {
        assert(a + b =~= a);
        assert(alias_names(a) + alias_names(b) =~= alias_names(a));
    } else {
        assert((a + b).drop_last() =~= a + b.drop_last());
        assert((a + b).last() == b.last());
        lemma_alias_names_append(a, b.drop_last());
        let x = b.last();
        match x.detail {
            ApiDetailView::Typedef { item: TypedefKindView::Type(_), .. } => {
                assert(alias_names(a) + alias_names(b) =~= (alias_names(a) + alias_names(
                    b.drop_last(),
                )).push(x.name.1));
            },
            _ => {},
        }
    }
}

/// The typedef analysis names each resolved alias with a name its tracker
/// holds and that no earlier alias has; its placeholders and synthesised
/// items are no aliases.
proof fn lemma_tdef_fold_names(c: TypeConverterView, t: Seq<Seq<char>>, items: Seq<RawApiView>)
    ensures
        alias_names(crate::tdef::tdef_fold(c, t, items).0).no_duplicates(),
        forall|k: int|
            0 <= k < alias_names(crate::tdef::tdef_fold(c, t, items).0).len() ==> crate::tdef::tdef_fold(
                c,
                t,
                items,
            ).4.contains(#[trigger] alias_names(crate::tdef::tdef_fold(c, t, items).0)[k]),
        forall|k: int|
            0 <= k < crate::tdef::tdef_fold(c, t, items).1.len() ==> (#[trigger] crate::tdef::tdef_fold(
                c,
                t,
                items,
            ).1[k]).detail is ConcreteType,
        alias_names(crate::tdef::tdef_fold(c, t, items).2) == Seq::<Seq<char>>::empty(),
    decreases items.len(),
{
    if items.len() > 0 {
        lemma_tdef_fold_names(c, t, items.drop_last());
        let (outs, exs, probs, c1, t1) = crate::tdef::tdef_fold(c, t, items.drop_last());
        let a = items.last();
        let (o, c2, t2, e) = tdef_one(c1, t1, a);
        let names = alias_names(outs);
        assert(outs.push(o).drop_last() =~= outs);
        assert(probs.push(o).drop_last() =~= probs);
        match a.detail {
            ApiDetailView::Typedef { item: TypedefKindView::Type(ti), .. } => {
                lemma_allocated_is_free(t1, None, a.name.1, a.name.0);
                let n = crate::tracker::allocated_name(t1, None, a.name.1, a.name.0);
                assert forall|k: int| 0 <= k < names.len() implies t2.contains(#[trigger] names[k]) by {
                    assert(t1.contains(names[k]));
                    let j = choose|j: int| 0 <= j < t1.len() && t1[j] == names[k];
                    assert(t2[j] == names[k]);
                }
                if o.detail is Typedef {
                    assert(!names.contains(n));
                    assert(t2[t1.len() as int] == n);
                    assert(alias_names(outs.push(o)) == names.push(n));
                    assert forall|k: int| 0 <= k < names.push(n).len() implies t2.contains(
                        #[trigger] names.push(n)[k],
                    ) by {
                        if k < names.len() {
                            assert(names.push(n)[k] == names[k]);
                        }
                    }
                }
            },
            _ => {},
        }
    }
}

/// Uniqueness for aliases: after the typedef analysis no two resolved
/// aliases share a name in the flat namespace of the bridge.
pub proof fn lemma_alias_names_unique(cfg: IncludeCppConfigView, apis: Seq<RawApiView>)
    ensures
        alias_names(typedef_phase(cfg, apis)).no_duplicates(),
{
    let c0 = crate::tdef::initial_converter(cfg, apis);
    let (outs, exs, probs, c1, t1) = crate::tdef::tdef_fold(c0, Seq::empty(), apis);
    lemma_tdef_fold_names(c0, Seq::empty(), apis);
    let rest = exs.map_values(|x: RawApiView| retyped(x));
    lemma_alias_names_append(outs, rest);
    lemma_alias_names_append(outs + rest, probs);
    assert(alias_names(rest) == Seq::<Seq<char>>::empty()) by {
        lemma_retyped_concrete_names(exs);
    }
    assert(alias_names(outs) + alias_names(rest) + alias_names(probs) =~= alias_names(outs));
}

proof fn lemma_retyped_concrete_names(exs: Seq<RawApiView>)
    requires
        forall|k: int| 0 <= k < exs.len() ==> (#[trigger] exs[k]).detail is ConcreteType,
    ensures
        alias_names(exs.map_values(|x: RawApiView| retyped(x))) == Seq::<Seq<char>>::empty(),
    decreases exs.len(),
{
    if exs.len() > 0 {
        assert(exs.drop_last().map_values(|x: RawApiView| retyped(x)) =~= exs.map_values(
            |x: RawApiView| retyped(x),
        ).drop_last());
        assert(exs.last() == exs[exs.len() - 1]);
        lemma_retyped_concrete_names(exs.drop_last());
    }
}

/// Whether the struct at `j` is reached from the item at `i` through at
/// most `n` fields held by value.
pub open spec fn reaches(apis: Seq<TypedefApiView>, i: int, j: int, n: nat) -> bool
    decreases n,
{
    i == j || (n > 0 && exists|f: int|
        0 <= f < fields_at(apis, i).len() && match #[trigger] field_class(
            apis,
            fields_at(apis, i)[f].1,
        ) {
            FieldClass::Holds(k) => 0 <= k < apis.len() && reaches(apis, k, j, (n - 1) as nat),
            _ => false,
        })
}

/// Plain-data closure, transitively: a struct that reaches, through fields
/// held by value, a struct that may not be held by value may not be held by
/// value either.
pub proof fn lemma_unfit_reached_makes_unfit(apis: Seq<TypedefApiView>, i: int, j: int, n: nat)
    requires
        0 <= i < apis.len(),
        0 <= j < apis.len(),
        reaches(apis, i, j, n),
        !by_value_safe(apis, j),
    ensures
        !by_value_safe(apis, i),
    decreases n,
{
    if i != j {
        let fs = fields_at(apis, i);
        let f = choose|f: int|
            0 <= f < fs.len() && match #[trigger] field_class(apis, fs[f].1) {
                FieldClass::Holds(k) => 0 <= k < apis.len() && reaches(apis, k, j, (n - 1) as nat),
                _ => false,
            };
        match field_class(apis, fs[f].1) {
            FieldClass::Holds(k) => {
                lemma_unfit_reached_makes_unfit(apis, k, j, (n - 1) as nat);
                lemma_pod_closure(apis, i);
            },
            _ => {},
        }
    }
}

/// The classification the plain-data analysis records for the struct at
/// `i` (the first struct of its name) is the by-value eligibility of that
/// struct; a struct that is not eligible keeps no dependency.
pub proof fn lemma_pod_kind(all: Seq<TypedefApiView>, c: TypeConverterView, t: Seq<Seq<char>>, i: int)
    requires
        0 <= i < all.len(),
        all[i].detail is Struct,
        crate::pod::struct_index_from(all, all[i].name, 0) == Some(i),
        (pod_one(all, c, t, all[i]).0 is Ok),
    ensures
        ({
            let v = pod_one(all, c, t, all[i]).0->Ok_0;
            &&& v.detail is Struct
            &&& (v.detail->Struct_analysis.0 == crate::api::TypeKind::Pod) == by_value_safe(all, i)
            &&& !by_value_safe(all, i) ==> v.deps == Seq::<crate::names::QualifiedNameView>::empty()
                && v.detail->Struct_item.fields == Seq::<crate::api::FieldView>::empty()
        }),
{
}

/// A struct with a user-declared destructor may not be held by value.
pub proof fn lemma_destructor_unfit(apis: Seq<TypedefApiView>, i: int)
    requires
        0 <= i < apis.len(),
        apis[i].detail matches ApiDetailView::Struct { item, .. } && item.has_destructor,
    ensures
        !by_value_safe(apis, i),
{
    assert(crate::pod::bad_within(apis, i, 0));
}

/// A plain-data request naming a struct that may not be held by value is
/// refused with the error naming it.
pub proof fn lemma_unfit_request_refused(apis: Seq<TypedefApiView>, req: Seq<char>, i: int)
    requires
        crate::text::split_path(req).last().len() > 0,
        crate::pod::struct_index_from(apis, crate::names::name_of_cpp_text(req), 0) == Some(i),
        !by_value_safe(apis, i),
    ensures
        crate::pod::pod_request_error(apis, seq![req]) == Some(
            ConvertErrorView::UnsafePodType(
                "Type "@ + crate::names::cpp_name(crate::names::name_of_cpp_text(req))
                    + " is not safe to hold by value"@,
            ),
        ),
{
    assert(seq![req].drop_last() =~= Seq::<Seq<char>>::empty());
    assert(seq![req].last() == req);
    assert(crate::pod::pod_request_error(apis, Seq::<Seq<char>>::empty()) is None);
}

} // verus!
