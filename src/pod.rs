use vstd::prelude::*;

use crate::api::{
    names_view, Api, ApiDetail, ApiDetailView, ApiView, FieldView, PodPhaseApi,
    PodStructAnalysis, PodStructAnalysisView, StructItemView, TypeKind, TypeRef, TypeRefView,
    TypedefKindView, TypedefPhaseApi, UnanalyzedApi,
};
use crate::config::{IncludeCppConfig, IncludeCppConfigView};
use crate::error::{ConvertError, ConvertErrorView};
use crate::known_types::{find_known, lookup_known, KnownKind};
use crate::names::{
    cpp_name, name_of_cpp_text, rendered, views_of, QualifiedName, QualifiedNameView,
};
use crate::tdef::{add_analysis, ignored, retyped, RawApiView, TypedefApiView};
use crate::text::{has_prefix, owned, starts_with};
use crate::tracker::{allocated_name, BridgeNameTracker};
use crate::type_converter::{
    api_views, convert_spec, extend_unique, lemma_with_all_concat, with_all, converter_after, extras_of, forward_declarations_of, raw_views, resolve_name, typedefs_of, TypeConversionContext, TypeConverter,
    TypeConverterView,
};

verus! {

/// What the type of a field says of holding its struct by value.
pub enum FieldClass {
    /// Always fine by value: a plain built-in type, an enum, a pointer, an
    /// instantiation of a template other than a container of the bridge
    /// (it becomes a concrete type of its own).
    Fine,
    /// Never fine by value.
    Bad,
    /// Fine exactly when the struct at this index is.
    Holds(int),
}

/// The index of the first struct named `q` at or after `i`.
pub open spec fn struct_index_from(apis: Seq<TypedefApiView>, q: QualifiedNameView, i: int) -> Option<
    int,
>
    decreases apis.len() - i,
{
    if i < 0 || i >= apis.len() {
        None
    } else if apis[i].detail is Struct && apis[i].name == q {
        Some(i)
    } else {
        struct_index_from(apis, q, i + 1)
    }
}

/// Whether an enum named `q` is among `apis` at or after `i`.
pub open spec fn enum_from(apis: Seq<TypedefApiView>, q: QualifiedNameView, i: int) -> bool
    decreases apis.len() - i,
{
    if i < 0 || i >= apis.len() {
        false
    } else if apis[i].detail is Enum && apis[i].name == q {
        true
    } else {
        enum_from(apis, q, i + 1)
    }
}

/// How the type of a field bears on holding its struct by value. Aliases
/// are followed to the name they reach.
pub open spec fn field_class(apis: Seq<TypedefApiView>, t: TypeRefView) -> FieldClass {
    match t {
        TypeRefView::Pointer(_) => FieldClass::Fine,
        TypeRefView::Path(q) => {
            let tds = typedefs_of(apis);
            let r = resolve_name(tds, q, tds.len());
            match find_known(rendered(r)) {
                Some(k) => if k.3 == KnownKind::Pod {
                    FieldClass::Fine
                } else {
                    FieldClass::Bad
                },
                None => match struct_index_from(apis, r, 0) {
                    Some(j) => FieldClass::Holds(j),
                    None => if enum_from(apis, r, 0) {
                        FieldClass::Fine
                    } else {
                        FieldClass::Bad
                    },
                },
            }
        },
        TypeRefView::Templated(q, _) => if crate::type_converter::is_container(q) {
            FieldClass::Bad
        } else {
            FieldClass::Fine
        },
        _ => FieldClass::Bad,
    }
}

/// The fields of the item at `i`, if it is a struct.
pub open spec fn fields_at(apis: Seq<TypedefApiView>, i: int) -> Seq<FieldView> {
    match apis[i].detail {
        ApiDetailView::Struct { item, .. } => item.fields,
        _ => Seq::empty(),
    }
}

/// Whether the item at `i` is a struct that, apart from the structs it
/// holds, may be held by value: no destructor, no virtual functions, no
/// copy or move logic, and every field fine or a struct.
pub open spec fn locally_ok(apis: Seq<TypedefApiView>, i: int) -> bool {
    match apis[i].detail {
        ApiDetailView::Struct { item, .. } => !item.has_destructor && !item.has_virtual
            && !item.has_nontrivial_copy_or_move && forall|f: int|
            0 <= f < item.fields.len() ==> !(#[trigger] field_class(apis, item.fields[f].1) is Bad),
        _ => false,
    }
}

/// Whether a struct that is not locally fine is reached from the item at
/// `i` through at most `n` fields held by value.
pub open spec fn bad_within(apis: Seq<TypedefApiView>, i: int, n: nat) -> bool
    decreases n,
{
    !locally_ok(apis, i) || (n > 0 && exists|f: int|
        0 <= f < fields_at(apis, i).len() && match #[trigger] field_class(
            apis,
            fields_at(apis, i)[f].1,
        ) {
            FieldClass::Holds(j) => 0 <= j < apis.len() && bad_within(apis, j, (n - 1) as nat),
            _ => false,
        })
}

/// Whether the struct at `i` may be held by value: every struct reached
/// from it through fields held by value, itself included, is locally fine.
pub open spec fn by_value_safe(apis: Seq<TypedefApiView>, i: int) -> bool {
    forall|n: nat| !#[trigger] bad_within(apis, i, n)
}

/// Whether the struct named `q` may be held by value.
pub open spec fn pod_of(apis: Seq<TypedefApiView>, q: QualifiedNameView) -> bool {
    match struct_index_from(apis, q, 0) {
        Some(i) => by_value_safe(apis, i),
        None => false,
    }
}

/// The error for a plain-data request that cannot be met, if any: the first
/// request without a final item, naming no struct, or naming a struct not
/// safe by value.
pub open spec fn pod_request_error(apis: Seq<TypedefApiView>, reqs: Seq<Seq<char>>) -> Option<
    ConvertErrorView,
>
    decreases reqs.len(),
{
    if reqs.len() == 0 {
        None
    } else {
        match pod_request_error(apis, reqs.drop_last()) {
            Some(e) => Some(e),
            None => if crate::text::split_path(reqs.last()).last().len() == 0 {
                Some(ConvertErrorView::UnsafePodType("Unable to find "@ + reqs.last()))
            } else {
                let q = name_of_cpp_text(reqs.last());
                match struct_index_from(apis, q, 0) {
                    None => Some(ConvertErrorView::UnsafePodType("Unable to find "@ + cpp_name(q))),
                    Some(i) => if by_value_safe(apis, i) {
                        None
                    } else {
                        Some(
                            ConvertErrorView::UnsafePodType(
                                "Type "@ + cpp_name(q) + " is not safe to hold by value"@,
                            ),
                        )
                    },
                }
            },
        }
    }
}

/// The number of `true` entries.
pub open spec fn count_true(s: Seq<bool>) -> nat
    decreases s.len(),
{
    if s.len() == 0 {
        0
    } else {
        count_true(s.drop_last()) + if s.last() {
            1nat
        } else {
            0nat
        }
    }
}

proof fn lemma_count_clear(s: Seq<bool>, i: int)
    requires
        0 <= i < s.len(),
        s[i],
    ensures
        count_true(s.update(i, false)) + 1 == count_true(s),
    decreases s.len(),
{
    if i < s.len() - 1 {
        assert(s.update(i, false).drop_last() =~= s.drop_last().update(i, false));
        lemma_count_clear(s.drop_last(), i);
    } else {
        assert(s.update(i, false).drop_last() =~= s.drop_last());
    }
}

proof fn lemma_struct_index_is_struct(apis: Seq<TypedefApiView>, q: QualifiedNameView, i: int)
    ensures
        struct_index_from(apis, q, i) matches Some(j) ==> i <= j < apis.len() && apis[j].detail is Struct
            && apis[j].name == q,
    decreases apis.len() - i,
{
    if 0 <= i < apis.len() && !(apis[i].detail is Struct && apis[i].name == q) {
        lemma_struct_index_is_struct(apis, q, i + 1);
    }
}

proof fn lemma_request_error_sticks(apis: Seq<TypedefApiView>, reqs: Seq<Seq<char>>, n: int)
    requires
        0 < n <= reqs.len(),
        pod_request_error(apis, reqs.subrange(0, n)) is Some,
    ensures
        pod_request_error(apis, reqs) == pod_request_error(apis, reqs.subrange(0, n)),
    decreases reqs.len() - n,
{
    if n < reqs.len() {
        assert(reqs.subrange(0, n + 1).drop_last() =~= reqs.subrange(0, n));
        lemma_request_error_sticks(apis, reqs, n + 1);
    } else {
        assert(reqs.subrange(0, n) =~= reqs);
    }
}

/// A closed set of safe structs has none that reaches a bad one.
proof fn lemma_closed_safe(apis: Seq<TypedefApiView>, safe: Seq<bool>, n: nat)
    requires
        safe.len() == apis.len(),
        forall|i: int| 0 <= i < apis.len() && #[trigger] safe[i] ==> locally_ok(apis, i),
        forall|i: int, f: int|
            0 <= i < apis.len() && safe[i] && 0 <= f < fields_at(apis, i).len() ==> match #[trigger] field_class(
                apis,
                fields_at(apis, i)[f].1,
            ) {
                FieldClass::Holds(j) => 0 <= j < apis.len() && safe[j],
                _ => true,
            },
    ensures
        forall|i: int| 0 <= i < apis.len() && #[trigger] safe[i] ==> !bad_within(apis, i, n),
    decreases n,
{
    if n > 0 {
        lemma_closed_safe(apis, safe, (n - 1) as nat);
    }
    assert forall|i: int| 0 <= i < apis.len() && #[trigger] safe[i] implies !bad_within(
        apis,
        i,
        n,
    ) by {
        if n > 0 {
            assert forall|f: int| 0 <= f < fields_at(apis, i).len() implies !match #[trigger] field_class(
                apis,
                fields_at(apis, i)[f].1,
            ) {
                FieldClass::Holds(j) => 0 <= j < apis.len() && bad_within(apis, j, (n - 1) as nat),
                _ => false,
            } by {
                match field_class(apis, fields_at(apis, i)[f].1) {
                    FieldClass::Holds(j) => {
                        if 0 <= j < apis.len() {
                            assert(safe[j]);
                        }
                    },
                    _ => {},
                }
            }
        }
    }
}

/// A field class as computed: the index of a held struct as a `usize`.
pub enum FieldClassification {
    Fine,
    Bad,
    Holds(usize),
}

pub open spec fn classification_is(c: FieldClassification, f: FieldClass) -> bool {
    match (c, f) {
        (FieldClassification::Fine, FieldClass::Fine) => true,
        (FieldClassification::Bad, FieldClass::Bad) => true,
        (FieldClassification::Holds(a), FieldClass::Holds(b)) => a as int == b,
        _ => false,
    }
}

/// The index of the first struct named `q`.
fn find_struct(apis: &Vec<TypedefPhaseApi>, q: &QualifiedName) -> (r: Option<usize>)
    ensures
        match struct_index_from(api_views(apis@), q@, 0) {
            Some(i) => r == Some(i as usize) && 0 <= i < apis.len(),
            None => r is None,
        },
{
    let ghost av = api_views(apis@);
    let mut i: usize = 0;
    while i < apis.len()
        invariant
            av == api_views(apis@),
            i <= apis.len(),
            struct_index_from(av, q@, 0) == struct_index_from(av, q@, i as int),
        decreases apis.len() - i,
    {
        let is_struct = match &apis[i].detail {
            ApiDetail::Struct { .. } => true,
            _ => false,
        };
        assert(is_struct == av[i as int].detail is Struct);
        if is_struct && apis[i].name == *q {
            return Some(i);
        }
        i = i + 1;
    }
    None
}

/// Whether an enum named `q` is among `apis`.
fn find_enum(apis: &Vec<TypedefPhaseApi>, q: &QualifiedName) -> (r: bool)
    ensures
        r == enum_from(api_views(apis@), q@, 0),
{
    let ghost av = api_views(apis@);
    let mut i: usize = 0;
    while i < apis.len()
        invariant
            av == api_views(apis@),
            i <= apis.len(),
            enum_from(av, q@, 0) == enum_from(av, q@, i as int),
        decreases apis.len() - i,
    {
        let is_enum = match &apis[i].detail {
            ApiDetail::Enum { .. } => true,
            _ => false,
        };
        assert(is_enum == av[i as int].detail is Enum);
        if is_enum && apis[i].name == *q {
            return true;
        }
        i = i + 1;
    }
    false
}

/// How the type of a field bears on holding its struct by value.
fn classify(apis: &Vec<TypedefPhaseApi>, conv: &TypeConverter, t: &TypeRef) -> (r:
    FieldClassification)
    requires
        conv@.typedefs == typedefs_of(api_views(apis@)),
    ensures
        classification_is(r, field_class(api_views(apis@), t@)),
        r matches FieldClassification::Holds(j) ==> j < apis.len(),
{
    match t {
        TypeRef::Pointer(_) => FieldClassification::Fine,
        TypeRef::Path(q) => {
            let r = conv.resolve(q);
            let key = r.to_string();
            match lookup_known(key.as_str()) {
                Some(k) => {
                    if k.kind == KnownKind::Pod {
                        FieldClassification::Fine
                    } else {
                        FieldClassification::Bad
                    }
                },
                None => match find_struct(apis, &r) {
                    Some(j) => FieldClassification::Holds(j),
                    None => {
                        if find_enum(apis, &r) {
                            FieldClassification::Fine
                        } else {
                            FieldClassification::Bad
                        }
                    },
                },
            }
        },
        TypeRef::Templated(q, _) => {
            let key = q.to_string();
            match lookup_known(key.as_str()) {
                Some(k) => {
                    if k.kind == KnownKind::Container {
                        FieldClassification::Bad
                    } else {
                        FieldClassification::Fine
                    }
                },
                None => FieldClassification::Fine,
            }
        },
        _ => FieldClassification::Bad,
    }
}

/// Whether the item at `i` is locally fine to hold by value.
fn check_locally_ok(apis: &Vec<TypedefPhaseApi>, conv: &TypeConverter, i: usize) -> (r: bool)
    requires
        i < apis.len(),
        conv@.typedefs == typedefs_of(api_views(apis@)),
    ensures
        r == locally_ok(api_views(apis@), i as int),
{
    let ghost av = api_views(apis@);
    assert(av[i as int] == apis@[i as int]@);
    match &apis[i].detail {
        ApiDetail::Struct { item, .. } => {
            if item.has_destructor || item.has_virtual || item.has_nontrivial_copy_or_move {
                return false;
            }
            let ghost fv = item.fields@.map_values(|f: crate::api::Field| f@);
            assert(fv == fields_at(av, i as int));
            let mut f: usize = 0;
            while f < item.fields.len()
                invariant
                    av == api_views(apis@),
                    conv@.typedefs == typedefs_of(av),
                    fv == item.fields@.map_values(|f: crate::api::Field| f@),
                    f <= item.fields.len(),
                    locally_ok(av, i as int) <==> forall|k: int|
                        0 <= k < fv.len() ==> !(#[trigger] field_class(av, fv[k].1) is Bad),
                    forall|k: int| 0 <= k < f ==> !(#[trigger] field_class(av, fv[k].1) is Bad),
                decreases item.fields.len() - f,
            {
                let c = classify(apis, conv, &item.fields[f].ty);
                assert(fv[f as int].1 == item.fields[f as int].ty@);
                if let FieldClassification::Bad = c {
                    return false;
                }
                f = f + 1;
            }
            true
        },
        _ => false,
    }
}

/// Which structs may be held by value.
pub struct ByValueChecker {
    names: Vec<QualifiedName>,
    structs: Vec<bool>,
    safe: Vec<bool>,
}

impl ByValueChecker {
    /// Whether this checker holds the classification of `apis`.
    pub closed spec fn represents(&self, apis: Seq<TypedefApiView>) -> bool {
        &&& self.names@.len() == apis.len()
        &&& self.safe@.len() == apis.len()
        &&& self.structs@.len() == apis.len()
        &&& forall|i: int| 0 <= i < apis.len() ==> #[trigger] self.names@[i]@ == apis[i].name
        &&& forall|i: int| 0 <= i < apis.len() ==> #[trigger] self.structs@[i] == apis[i].detail is Struct
        &&& forall|i: int| 0 <= i < apis.len() ==> #[trigger] self.safe@[i] == (apis[i].detail is Struct
            && by_value_safe(apis, i))
    }

    /// Classifies every struct among `apis`; fails when a plain-data request
    /// of `config` names no struct or a struct not safe by value.
    pub fn new_from_apis(apis: &Vec<TypedefPhaseApi>, config: &IncludeCppConfig) -> (r: Result<
        ByValueChecker,
        ConvertError,
    >)
        ensures
            match pod_request_error(api_views(apis@), config@.pod_requests) {
                Some(e) => r matches Err(x) && x@ == e,
                None => r matches Ok(c) && c.represents(api_views(apis@)),
            },
    {
        let ghost av = api_views(apis@);
        let conv = TypeConverter::new(config, apis);
        let n = apis.len();
        let mut safe: Vec<bool> = Vec::new();
        let mut names: Vec<QualifiedName> = Vec::new();
        let mut structs: Vec<bool> = Vec::new();
        let ghost mut blame: Seq<nat> = Seq::empty();
        let mut i: usize = 0;
        while i < n
            invariant
                n == apis.len(),
                av == api_views(apis@),
                conv@.typedefs == typedefs_of(av),
                i <= n,
                safe@.len() == i,
                names@.len() == i,
                structs@.len() == i,
                blame.len() == i,
                forall|k: int| 0 <= k < i ==> #[trigger] structs@[k] == av[k].detail is Struct,
                forall|k: int| 0 <= k < i ==> #[trigger] names@[k]@ == av[k].name,
                forall|k: int| 0 <= k < i ==> (#[trigger] safe@[k] == locally_ok(av, k)),
                forall|k: int| 0 <= k < i && !(#[trigger] safe@[k]) ==> bad_within(av, k, blame[k]),
            decreases n - i,
        {
            let ok = check_locally_ok(apis, &conv, i);
            safe.push(ok);
            names.push(apis[i].name.duplicate());
            let is_struct = match &apis[i].detail {
                ApiDetail::Struct { .. } => true,
                _ => false,
            };
            structs.push(is_struct);
            proof {
                blame = blame.push(0);
            }
            i = i + 1;
        }
        let mut changed = true;
        while changed
            invariant
                n == apis.len(),
                av == api_views(apis@),
                conv@.typedefs == typedefs_of(av),
                safe@.len() == n,
                blame.len() == n,
                forall|k: int| 0 <= k < n && #[trigger] safe@[k] ==> locally_ok(av, k),
                forall|k: int| 0 <= k < n && !(#[trigger] safe@[k]) ==> bad_within(av, k, blame[k]),
                !changed ==> forall|k: int, f: int|
                    0 <= k < n && safe@[k] && 0 <= f < fields_at(av, k).len() ==> match #[trigger] field_class(
                        av,
                        fields_at(av, k)[f].1,
                    ) {
                        FieldClass::Holds(j) => 0 <= j < n && safe@[j],
                        _ => true,
                    },
            decreases count_true(safe@) + if changed {
                1nat
            } else {
                0nat
            },
        {
            changed = false;
            let ghost start = count_true(safe@);
            let mut k: usize = 0;
            while k < n
                invariant
                    n == apis.len(),
                    av == api_views(apis@),
                    conv@.typedefs == typedefs_of(av),
                    safe@.len() == n,
                    blame.len() == n,
                    k <= n,
                    forall|x: int| 0 <= x < n && #[trigger] safe@[x] ==> locally_ok(av, x),
                    forall|x: int| 0 <= x < n && !(#[trigger] safe@[x]) ==> bad_within(av, x, blame[x]),
                    changed ==> count_true(safe@) < start,
                    !changed ==> count_true(safe@) == start,
                    !changed ==> forall|x: int, f: int|
                        0 <= x < k && safe@[x] && 0 <= f < fields_at(av, x).len() ==> match #[trigger] field_class(
                            av,
                            fields_at(av, x)[f].1,
                        ) {
                            FieldClass::Holds(j) => 0 <= j < n && safe@[j],
                            _ => true,
                        },
                decreases n - k,
            {
                if safe[k] {
                    match &apis[k].detail {
                        ApiDetail::Struct { item, .. } => {
                            let ghost fv = item.fields@.map_values(|f: crate::api::Field| f@);
                            assert(fv == fields_at(av, k as int));
                            let mut f: usize = 0;
                            let mut cleared = false;
                            while f < item.fields.len()
                                invariant_except_break
                                    !cleared,
                                invariant
                                    n == apis.len(),
                                    av == api_views(apis@),
                                    conv@.typedefs == typedefs_of(av),
                                    fv == item.fields@.map_values(|f: crate::api::Field| f@),
                                    fv == fields_at(av, k as int),
                                    f <= item.fields.len(),
                                    k < n,
                                    safe@.len() == n,
                                    forall|y: int| 0 <= y < f ==> match #[trigger] field_class(av, fv[y].1) {
                                        FieldClass::Holds(j) => 0 <= j < n && safe@[j],
                                        _ => true,
                                    },
                                ensures
                                    !cleared ==> forall|y: int| 0 <= y < fv.len() ==> match #[trigger] field_class(av, fv[y].1) {
                                        FieldClass::Holds(j) => 0 <= j < n && safe@[j],
                                        _ => true,
                                    },
                                    cleared ==> f < fv.len(),
                                    cleared ==> (field_class(av, fv[f as int].1) matches FieldClass::Holds(j) && 0 <= j < n && !safe@[j]),
                                decreases item.fields.len() - f,
                            {
                                let c = classify(apis, &conv, &item.fields[f].ty);
                                assert(fv[f as int].1 == item.fields[f as int].ty@);
                                if let FieldClassification::Holds(j) = c {
                                    if !safe[j] {
                                        cleared = true;
                                        break;
                                    }
                                }
                                f = f + 1;
                            }
                            if cleared {
                                proof {
                                    let j = match field_class(av, fv[f as int].1) {
                                        FieldClass::Holds(j) => j,
                                        _ => 0,
                                    };
                                    lemma_count_clear(safe@, k as int);
                                    assert(bad_within(av, k as int, blame[j] + 1));
                                    blame = blame.update(k as int, blame[j] + 1);
                                }
                                safe.set(k, false);
                                changed = true;
                            }
                        },
                        _ => {},
                    }
                }
                k = k + 1;
            }
        }
        proof {
            lemma_closed_safe(av, safe@, 0);
            assert forall|x: int| 0 <= x < n implies #[trigger] safe@[x] == (av[x].detail is Struct
                && by_value_safe(av, x)) by {
                if safe@[x] {
                    assert forall|m: nat| !#[trigger] bad_within(av, x, m) by {
                        lemma_closed_safe(av, safe@, m);
                    }
                } else {
                    assert(bad_within(av, x, blame[x]));
                }
            }
        }
        let checker = ByValueChecker { names, structs, safe };
        checker.check_requests(apis, config)?;
        Ok(checker)
    }

    /// Fails on the first plain-data request that cannot be met.
    fn check_requests(&self, apis: &Vec<TypedefPhaseApi>, config: &IncludeCppConfig) -> (r: Result<
        (),
        ConvertError,
    >)
        requires
            self.represents(api_views(apis@)),
        ensures
            match pod_request_error(api_views(apis@), config@.pod_requests) {
                Some(e) => r matches Err(x) && x@ == e,
                None => r is Ok,
            },
    {
        let ghost av = api_views(apis@);
        let reqs = config.get_pod_requests();
        let ghost rv = config@.pod_requests;
        let mut k: usize = 0;
        while k < reqs.len()
            invariant
                av == api_views(apis@),
                self.represents(av),
                views_of(reqs@) == rv,
                rv == config@.pod_requests,
                k <= reqs.len(),
                pod_request_error(av, rv.subrange(0, k as int)) is None,
            decreases reqs.len() - k,
        {
            assert(rv.subrange(0, k + 1).drop_last() =~= rv.subrange(0, k as int));
            assert(rv.subrange(0, k + 1).last() == reqs[k as int]@);
            let segs = crate::text::split_segments(reqs[k].as_str());
            proof {
                crate::names::lemma_split_path_non_empty(reqs[k as int]@);
                crate::names::lemma_views_len(segs@);
            }
            if segs[segs.len() - 1].as_str().unicode_len() == 0 {
                let mut msg = owned("Unable to find ");
                msg.append(reqs[k].as_str());
                assert(pod_request_error(av, rv.subrange(0, k + 1)) == Some(
                    ConvertErrorView::UnsafePodType(msg@),
                ));
                proof {
                    lemma_request_error_sticks(av, rv, k + 1);
                }
                return Err(ConvertError::UnsafePodType(msg));
            }
            let q = QualifiedName::new_from_cpp_name(reqs[k].as_str());
            match find_struct(apis, &q) {
                None => {
                    let mut msg = owned("Unable to find ");
                    let c = q.to_cpp_name();
                    msg.append(c.as_str());
                    assert(pod_request_error(av, rv.subrange(0, k + 1)) == Some(ConvertErrorView::UnsafePodType(msg@)));
                    proof {
                        lemma_request_error_sticks(av, rv, k + 1);
                    }
                    return Err(ConvertError::UnsafePodType(msg));
                },
                Some(i) => {
                    proof {
                        lemma_struct_index_is_struct(av, q@, 0);
                    }
                    if !self.safe[i] {
                        let mut msg = owned("Type ");
                        let c = q.to_cpp_name();
                        msg.append(c.as_str());
                        msg.append(" is not safe to hold by value");
                        assert(pod_request_error(av, rv.subrange(0, k + 1)) == Some(ConvertErrorView::UnsafePodType(msg@)));
                        proof {
                            lemma_request_error_sticks(av, rv, k + 1);
                        }
                        return Err(ConvertError::UnsafePodType(msg));
                    }
                },
            }
            k = k + 1;
        }
        assert(rv.subrange(0, k as int) =~= rv);
        Ok(())
    }

    /// Whether the struct named `q` may be held by value.
    pub fn is_pod(&self, q: &QualifiedName) -> (r: bool)
        ensures
            forall|apis: Seq<TypedefApiView>| #[trigger] self.represents(apis) ==> r == pod_of(apis, q@),
    {
        let mut i: usize = 0;
        let n = self.names.len();
        while i < n
            invariant
                n == self.names.len(),
                i <= n,
                forall|apis: Seq<TypedefApiView>| #[trigger] self.represents(apis) ==> struct_index_from(
                    apis,
                    q@,
                    0,
                ) == struct_index_from(apis, q@, i as int),
            decreases n - i,
        {
            if i < self.structs.len() && i < self.safe.len() && self.structs[i] && self.names[i] == *q {
                proof {
                    assert forall|apis: Seq<TypedefApiView>| #[trigger] self.represents(apis) implies struct_index_from(apis, q@, i as int) == Some(i as int) by {
                        assert(self.names@[i as int]@ == apis[i as int].name);
                        assert(self.structs@[i as int] == apis[i as int].detail is Struct);
                    }
                }
                return self.safe[i];
            }
            proof {
                assert forall|apis: Seq<TypedefApiView>| #[trigger] self.represents(apis) implies struct_index_from(apis, q@, i as int) == struct_index_from(apis, q@, i + 1) by {
                    assert(self.names@[i as int]@ == apis[i as int].name);
                    assert(self.structs@[i as int] == apis[i as int].detail is Struct);
                }
            }
            i = i + 1;
        }
        false
    }
}

pub type PodApiView = ApiView<TypedefKindView, PodStructAnalysisView>;

/// The base classes of a struct: the types of its fields whose names start
/// with `_base`, where those types are names; each once.
pub open spec fn bases_of(fields: Seq<FieldView>) -> Seq<QualifiedNameView>
    decreases fields.len(),
{
    if fields.len() == 0 {
        Seq::empty()
    } else {
        let rest = bases_of(fields.drop_last());
        let f = fields.last();
        match f.1 {
            TypeRefView::Path(q) => if has_prefix(f.0, "_base"@) && !rest.contains(q) {
                rest.push(q)
            } else {
                rest
            },
            _ => rest,
        }
    }
}

/// The conversion of the field types in order, as a struct held by value
/// needs: the names they depend on or the first error, what the converter
/// knows after, and the items synthesised.
pub open spec fn fields_fold(c: TypeConverterView, fields: Seq<FieldView>) -> (
    Result<Seq<QualifiedNameView>, ConvertErrorView>,
    TypeConverterView,
    Seq<RawApiView>,
)
    decreases fields.len(),
{
    if fields.len() == 0 {
        (Ok(Seq::empty()), c, Seq::empty())
    } else {
        let (r, c1, e1) = fields_fold(c, fields.drop_last());
        match r {
            Err(e) => (Err(e), c1, e1),
            Ok(d) => match convert_spec(c1, fields.last().1, TypeConversionContext::CxxInnerType) {
                Err(e) => (Err(e), c1, e1),
                Ok((_, d2)) => (
                    Ok(d + d2),
                    converter_after(c1, fields.last().1),
                    e1 + extras_of(c1, fields.last().1),
                ),
            },
        }
    }
}

/// What an item is, carried into the phase after plain-data analysis
/// unchanged (a struct always goes through the analysis instead).
pub open spec fn carry_detail(d: ApiDetailView<TypedefKindView, ()>) -> ApiDetailView<
    TypedefKindView,
    PodStructAnalysisView,
> {
    match d {
        ApiDetailView::ForwardDeclaration => ApiDetailView::ForwardDeclaration,
        ApiDetailView::ConcreteType { rs_definition, cpp_definition } => ApiDetailView::ConcreteType {
            rs_definition,
            cpp_definition,
        },
        ApiDetailView::StringConstructor => ApiDetailView::StringConstructor,
        ApiDetailView::Function { fun } => ApiDetailView::Function { fun },
        ApiDetailView::Const { const_item } => ApiDetailView::Const { const_item },
        ApiDetailView::Typedef { item, analysis } => ApiDetailView::Typedef { item, analysis },
        ApiDetailView::Struct { item, .. } => ApiDetailView::Struct {
            item,
            analysis: (TypeKind::NonPod, Seq::empty()),
        },
        ApiDetailView::Enum { item } => ApiDetailView::Enum { item },
        ApiDetailView::CType { typename } => ApiDetailView::CType { typename },
        ApiDetailView::IgnoredItem { err, ctx } => ApiDetailView::IgnoredItem { err, ctx },
    }
}

/// An item renamed to `n` in the bridge, where its own name is `own`.
pub open spec fn renamed_api<TV, SV>(
    a: ApiView<TypedefKindView, ()>,
    own: Seq<char>,
    n: Seq<char>,
    deps: Seq<QualifiedNameView>,
    detail: ApiDetailView<TV, SV>,
) -> ApiView<TV, SV> {
    let renamed = n != own;
    ApiView {
        name: (a.name.0, n),
        original_name: if renamed && a.original_name is None {
            Some(own)
        } else {
            a.original_name
        },
        deps,
        rename_to: if renamed {
            Some(own)
        } else {
            None
        },
        detail,
    }
}

/// The plain-data analysis of one item, with `all` the items the
/// classification was made on: the item after the analysis or its error,
/// what the converter and the name tracker know after, and the items
/// synthesised.
pub open spec fn pod_one(
    all: Seq<TypedefApiView>,
    c: TypeConverterView,
    t: Seq<Seq<char>>,
    a: TypedefApiView,
) -> (Result<PodApiView, ConvertErrorView>, TypeConverterView, Seq<Seq<char>>, Seq<RawApiView>) {
    match a.detail {
        ApiDetailView::ForwardDeclaration => {
            let n = allocated_name(t, None, a.name.1, a.name.0);
            (
                Ok(renamed_api(a, a.name.1, n, a.deps, ApiDetailView::ForwardDeclaration)),
                c,
                t.push(n),
                Seq::empty(),
            )
        },
        ApiDetailView::Struct { item, .. } => {
            let bases = bases_of(item.fields);
            if pod_of(all, a.name) {
                let (fr, c2, e2) = fields_fold(c, item.fields);
                match fr {
                    Err(e) => (Err(e), c2, t, e2),
                    Ok(d) => {
                        let n = allocated_name(t, None, a.name.1, a.name.0);
                        (
                            Ok(
                                renamed_api(
                                    a,
                                    a.name.1,
                                    n,
                                    with_all(a.deps, d),
                                    ApiDetailView::Struct {
                                        item,
                                        analysis: (TypeKind::Pod, bases),
                                    },
                                ),
                            ),
                            c2,
                            t.push(n),
                            e2,
                        )
                    },
                }
            } else {
                let n = allocated_name(t, None, a.name.1, a.name.0);
                (
                    Ok(
                        renamed_api(
                            a,
                            a.name.1,
                            n,
                            Seq::empty(),
                            ApiDetailView::Struct {
                                item: StructItemView { fields: Seq::empty(), ..item },
                                analysis: (TypeKind::NonPod, bases),
                            },
                        ),
                    ),
                    c,
                    t.push(n),
                    Seq::empty(),
                )
            }
        },
        _ => (
            Ok(
                ApiView {
                    name: a.name,
                    original_name: a.original_name,
                    deps: a.deps,
                    rename_to: a.rename_to,
                    detail: carry_detail(a.detail),
                },
            ),
            c,
            t,
            Seq::empty(),
        ),
    }
}

/// The plain-data analysis of `items` in order; an item whose analysis
/// fails becomes a placeholder carrying the error.
pub open spec fn pod_fold(
    all: Seq<TypedefApiView>,
    c: TypeConverterView,
    t: Seq<Seq<char>>,
    items: Seq<TypedefApiView>,
) -> (Seq<PodApiView>, Seq<RawApiView>, TypeConverterView, Seq<Seq<char>>)
    decreases items.len(),
{
    if items.len() == 0 {
        (Seq::empty(), Seq::empty(), c, t)
    } else {
        let (outs, exs, c1, t1) = pod_fold(all, c, t, items.drop_last());
        let a = items.last();
        let (r, c2, t2, e) = pod_one(all, c1, t1, a);
        let o = match r {
            Ok(v) => v,
            Err(err) => ignored(a.name, err),
        };
        (outs.push(o), exs + e, c2, t2)
    }
}

/// The items after the plain-data analysis: each item of `apis` in its
/// place, then the items synthesised on the way, analysed in turn; or the
/// error for a plain-data request that cannot be met.
pub open spec fn pod_phase(cfg: IncludeCppConfigView, apis: Seq<TypedefApiView>) -> Result<
    Seq<PodApiView>,
    ConvertErrorView,
> {
    match pod_request_error(apis, cfg.pod_requests) {
        Some(e) => Err(e),
        None => {
            let c0 = TypeConverterView {
                typedefs: typedefs_of(apis),
                forward_declarations: forward_declarations_of(apis),
                blocklist: cfg.blocklist,
                concretes: Seq::empty(),
            };
            let (o1, e1, c1, t1) = pod_fold(apis, c0, Seq::empty(), apis);
            let (o2, _, _, _) = pod_fold(apis, c1, t1, e1.map_values(|x: RawApiView| retyped(x)));
            Ok(o1 + o2)
        },
    }
}

/// The base classes of a struct.
pub fn get_bases(item: &crate::api::StructItem) -> (r: Vec<QualifiedName>)
    ensures
        names_view(r@) == bases_of(item@.fields),
        names_view(r@).no_duplicates(),
{
    let ghost fv = item@.fields;
    let mut r: Vec<QualifiedName> = Vec::new();
    let mut i: usize = 0;
    while i < item.fields.len()
        invariant
            fv == item@.fields,
            i <= item.fields.len(),
            names_view(r@) == bases_of(fv.subrange(0, i as int)),
            names_view(r@).no_duplicates(),
        decreases item.fields.len() - i,
    {
        let f = &item.fields[i];
        assert(fv[i as int] == f@);
        assert(fv.subrange(0, i + 1).drop_last() =~= fv.subrange(0, i as int));
        match &f.ty {
            TypeRef::Path(q) => {
                if starts_with(f.name.as_str(), "_base") {
                    let mut found = false;
                    let mut k: usize = 0;
                    while k < r.len()
                        invariant
                            k <= r.len(),
                            !found ==> forall|x: int| 0 <= x < k ==> names_view(r@)[x] != q@,
                            found ==> names_view(r@).contains(q@),
                        decreases r.len() - k,
                    {
                        if r[k] == *q {
                            found = true;
                            assert(names_view(r@)[k as int] == q@);
                        }
                        k = k + 1;
                    }
                    if !found {
                        let d = q.duplicate();
                        let ghost before = r@;
                        r.push(d);
                        assert(names_view(r@) =~= names_view(before).push(d@));
                    }
                }
            },
            _ => {},
        }
        i = i + 1;
    }
    assert(fv.subrange(0, i as int) =~= fv);
    r
}

/// Converts the field types of a struct held by value: adds what they
/// depend on to `deps` and what was synthesised for them to `extra_apis`.
pub fn get_struct_field_types(
    type_converter: &mut TypeConverter,
    item: &crate::api::StructItem,
    deps: &mut Vec<QualifiedName>,
    extra_apis: &mut Vec<UnanalyzedApi>,
) -> (r: Result<(), ConvertError>)
    ensures
        ({
            let (fr, c2, e2) = fields_fold(old(type_converter)@, item@.fields);
            &&& final(type_converter)@ == c2
            &&& raw_views(final(extra_apis)@) == raw_views(old(extra_apis)@) + e2
            &&& match fr {
                Ok(d) => r is Ok && names_view(final(deps)@) == with_all(names_view(old(deps)@), d),
                Err(e) => r matches Err(x) && x@ == e,
            }
        }),
{
    let ghost fv = item@.fields;
    let ghost c0 = type_converter@;
    let ghost d0 = names_view(deps@);
    let ghost x0 = raw_views(extra_apis@);
    let mut i: usize = 0;
    assert(fv.subrange(0, 0) =~= Seq::<FieldView>::empty());
    assert(x0 + Seq::<RawApiView>::empty() =~= x0);
    while i < item.fields.len()
        invariant
            fv == item@.fields,
            c0 == old(type_converter)@,
            x0 == raw_views(old(extra_apis)@),
            d0 == names_view(old(deps)@),
            i <= item.fields.len(),
            ({
                let (fr, c2, e2) = fields_fold(c0, fv.subrange(0, i as int));
                &&& fr is Ok
                &&& type_converter@ == c2
                &&& raw_views(extra_apis@) == x0 + e2
                &&& names_view(deps@) == with_all(d0, fr->Ok_0)
            }),
        decreases item.fields.len() - i,
    {
        let f = &item.fields[i];
        assert(fv[i as int] == f@);
        assert(fv.subrange(0, i + 1).drop_last() =~= fv.subrange(0, i as int));
        let ghost xb = raw_views(extra_apis@);
        let ghost db = names_view(deps@);
        let mut annotated = match type_converter.convert_type(
            &f.ty,
            TypeConversionContext::CxxInnerType,
        ) {
            Ok(a) => a,
            Err(e) => {
                proof {
                    let (fr, c2, e2) = fields_fold(c0, fv.subrange(0, i as int));
                    assert(fields_fold(c0, fv.subrange(0, i + 1)) == (
                        Err::<Seq<QualifiedNameView>, ConvertErrorView>(e@),
                        c2,
                        e2,
                    ));
                    lemma_fields_error_sticks(c0, fv, i + 1);
                }
                return Err(e);
            },
        };
        let ghost ae = raw_views(annotated.extra_apis@);
        let ghost ad = names_view(annotated.types_encountered@);
        let ghost xe = extra_apis@;
        let ghost de = deps@;
        extra_apis.append(&mut annotated.extra_apis);
        extend_unique(deps, annotated.types_encountered);
        assert(raw_views(extra_apis@) =~= xb + ae);
        proof {
            let (fr, c2, e2) = fields_fold(c0, fv.subrange(0, i as int));
            lemma_with_all_concat(d0, fr->Ok_0, ad);
        }
        i = i + 1;
    }
    assert(fv.subrange(0, i as int) =~= fv);
    Ok(())
}

proof fn lemma_fields_error_sticks(c: TypeConverterView, fields: Seq<FieldView>, n: int)
    requires
        0 < n <= fields.len(),
        fields_fold(c, fields.subrange(0, n)).0 is Err,
    ensures
        fields_fold(c, fields) == fields_fold(c, fields.subrange(0, n)),
    decreases fields.len() - n,
{
    if n < fields.len() {
        assert(fields.subrange(0, n + 1).drop_last() =~= fields.subrange(0, n));
        lemma_fields_error_sticks(c, fields, n + 1);
    } else {
        assert(fields.subrange(0, n) =~= fields);
    }
}

/// Makes a struct opaque: its fields are no longer exposed.
pub fn make_non_pod(item: &mut crate::api::StructItem)
    ensures
        final(item)@ == (StructItemView { fields: Seq::empty(), ..old(item)@ }),
{
    item.fields = Vec::new();
    assert(item@.fields =~= Seq::<FieldView>::empty());
}

/// Gives the item `api` the name `replacement` in the bridge, where its
/// own name is `own`.
fn rename<TB: View, SB: View>(
    api_name: &QualifiedName,
    api_original_name: Option<String>,
    own: &String,
    replacement: String,
    deps: Vec<QualifiedName>,
    detail: ApiDetail<TB, SB>,
) -> (r: Api<TB, SB>)
    requires
        replacement@.len() > 0,
    ensures
        r@ == (ApiView {
            name: (api_name@.0, replacement@),
            original_name: if replacement@ != own@ && api_original_name is None {
                Some(own@)
            } else {
                crate::api::opt_view(api_original_name)
            },
            deps: names_view(deps@),
            rename_to: if replacement@ != own@ {
                Some(own@)
            } else {
                None
            },
            detail: detail@,
        }),
{
    let renamed = !crate::text::str_eq(replacement.as_str(), own.as_str());
    let name = QualifiedName::new(api_name.get_namespace(), replacement);
    let rename_to = if renamed {
        Some(own.clone())
    } else {
        None
    };
    let original_name = if renamed && api_original_name.is_none() {
        Some(own.clone())
    } else {
        api_original_name
    };
    Api { name, original_name, deps, rename_to, detail }
}

/// The plain-data analysis of one item.
fn analyze_pod_api(
    api: TypedefPhaseApi,
    Ghost(all): Ghost<Seq<TypedefApiView>>,
    byvalue_checker: &ByValueChecker,
    type_converter: &mut TypeConverter,
    extra_apis: &mut Vec<UnanalyzedApi>,
    bridge_name_tracker: &mut BridgeNameTracker,
) -> (r: Result<PodPhaseApi, ConvertError>)
    requires
        byvalue_checker.represents(all),
    ensures
        ({
            let (r1, c, t, e) = pod_one(all, old(type_converter)@, old(bridge_name_tracker)@, api@);
            &&& match r1 {
                Ok(v) => r matches Ok(x) && x@ == v,
                Err(err) => r matches Err(x) && x@ == err,
            }
            &&& final(type_converter)@ == c
            &&& final(bridge_name_tracker)@ == t
            &&& raw_views(final(extra_apis)@) == raw_views(old(extra_apis)@) + e
        }),
{
    let ghost a = api@;
    let ghost x0 = raw_views(extra_apis@);
    assert(x0 + Seq::<RawApiView>::empty() =~= x0);
    match api.detail {
        ApiDetail::ForwardDeclaration => {
            let own = owned(api.name.get_final_item());
            let replacement = bridge_name_tracker.get_unique_cxx_bridge_name(
                None,
                own.as_str(),
                api.name.get_namespace(),
            );
            proof {
                crate::tracker::lemma_allocated_non_empty(
                    old(bridge_name_tracker)@,
                    None,
                    own@,
                    api.name@.0,
                );
            }
            Ok(
                rename(
                    &api.name,
                    api.original_name,
                    &own,
                    replacement,
                    api.deps,
                    ApiDetail::ForwardDeclaration,
                ),
            )
        },
        ApiDetail::Struct { mut item, analysis: _ } => {
            let bases = get_bases(&item);
            let mut new_deps = api.deps;
            let kind = if byvalue_checker.is_pod(&api.name) {
                get_struct_field_types(type_converter, &item, &mut new_deps, extra_apis)?;
                TypeKind::Pod
            } else {
                make_non_pod(&mut item);
                new_deps = Vec::new();
                assert(names_view(new_deps@) =~= Seq::<QualifiedNameView>::empty());
                TypeKind::NonPod
            };
            let own = owned(api.name.get_final_item());
            let replacement = bridge_name_tracker.get_unique_cxx_bridge_name(
                None,
                own.as_str(),
                api.name.get_namespace(),
            );
            proof {
                crate::tracker::lemma_allocated_non_empty(
                    old(bridge_name_tracker)@,
                    None,
                    own@,
                    api.name@.0,
                );
            }
            Ok(
                rename(
                    &api.name,
                    api.original_name,
                    &own,
                    replacement,
                    new_deps,
                    ApiDetail::Struct { item, analysis: PodStructAnalysis { kind, bases } },
                ),
            )
        },
        detail => {
            let detail = match detail {
                ApiDetail::ForwardDeclaration => ApiDetail::ForwardDeclaration,
                ApiDetail::ConcreteType { rs_definition, cpp_definition } => ApiDetail::ConcreteType {
                    rs_definition,
                    cpp_definition,
                },
                ApiDetail::StringConstructor => ApiDetail::StringConstructor,
                ApiDetail::Function { fun } => ApiDetail::Function { fun },
                ApiDetail::Const { const_item } => ApiDetail::Const { const_item },
                ApiDetail::Typedef { item, analysis } => ApiDetail::Typedef { item, analysis },
                ApiDetail::Struct { item, analysis: _ } => ApiDetail::Struct {
                    item,
                    analysis: PodStructAnalysis { kind: TypeKind::NonPod, bases: Vec::new() },
                },
                ApiDetail::Enum { item } => ApiDetail::Enum { item },
                ApiDetail::CType { typename } => ApiDetail::CType { typename },
                ApiDetail::IgnoredItem { err, ctx } => ApiDetail::IgnoredItem { err, ctx },
            };
            Ok(
                Api {
                    name: api.name,
                    original_name: api.original_name,
                    deps: api.deps,
                    rename_to: api.rename_to,
                    detail,
                },
            )
        },
    }
}

proof fn lemma_fields_extras_concrete(c: TypeConverterView, fields: Seq<FieldView>)
    ensures
        forall|k: int|
            0 <= k < fields_fold(c, fields).2.len() ==> (#[trigger] fields_fold(c, fields).2[k]).detail is ConcreteType,
    decreases fields.len(),
{
    if fields.len() > 0 {
        lemma_fields_extras_concrete(c, fields.drop_last());
    }
}

/// The items synthesised by the plain-data analysis are concrete types.
pub proof fn lemma_pod_extras_concrete(
    all: Seq<TypedefApiView>,
    c: TypeConverterView,
    t: Seq<Seq<char>>,
    items: Seq<TypedefApiView>,
)
    ensures
        forall|k: int|
            0 <= k < pod_fold(all, c, t, items).1.len() ==> (#[trigger] pod_fold(
                all,
                c,
                t,
                items,
            ).1[k]).detail is ConcreteType,
    decreases items.len(),
{
    if items.len() > 0 {
        let (outs, exs, c1, t1) = pod_fold(all, c, t, items.drop_last());
        lemma_pod_extras_concrete(all, c, t, items.drop_last());
        match items.last().detail {
            ApiDetailView::Struct { item, .. } => {
                lemma_fields_extras_concrete(c1, item.fields);
            },
            _ => {},
        }
    }
}

/// Running the plain-data analysis over items that it synthesised itself
/// (concrete types) synthesises nothing further, and allocates no name.
pub proof fn lemma_auxiliary_closure(
    all: Seq<TypedefApiView>,
    c: TypeConverterView,
    t: Seq<Seq<char>>,
    items: Seq<TypedefApiView>,
)
    requires
        forall|k: int| 0 <= k < items.len() ==> (#[trigger] items[k]).detail is ConcreteType,
    ensures
        pod_fold(all, c, t, items).1 == Seq::<RawApiView>::empty(),
        pod_fold(all, c, t, items).3 == t,
    decreases items.len(),
{
    if items.len() > 0 {
        assert(items.last() == items[items.len() - 1]);
        lemma_auxiliary_closure(all, c, t, items.drop_last());
    }
}

/// Decides which structs may be held by value and records it: a struct
/// held by value depends on the types of its fields; any other struct
/// becomes opaque and depends on nothing. Structs and forward declarations
/// get unique names in the bridge. An item whose analysis fails becomes a
/// placeholder carrying the error; the concrete types synthesised on the
/// way are analysed in turn, which synthesises nothing further. Fails when
/// a plain-data request of `config` cannot be met.
pub fn analyze_pod_apis(apis: Vec<TypedefPhaseApi>, config: &IncludeCppConfig) -> (r: Result<
    Vec<PodPhaseApi>,
    ConvertError,
>)
    ensures
        match pod_phase(config@, api_views(apis@)) {
            Ok(v) => r matches Ok(x) && api_views(x@) == v,
            Err(e) => r matches Err(x) && x@ == e,
        },
{
    let ghost av = api_views(apis@);
    let byvalue_checker = ByValueChecker::new_from_apis(&apis, config)?;
    let mut type_converter = TypeConverter::new(config, &apis);
    let mut bridge_tracker = BridgeNameTracker::new();
    let mut extra_apis: Vec<UnanalyzedApi> = Vec::new();
    let mut results: Vec<PodPhaseApi> = Vec::new();
    let ghost c0 = type_converter@;
    let n = apis.len();
    let mut rest = apis;
    let mut i: usize = 0;
    assert(api_views(results@) =~= Seq::<PodApiView>::empty());
    assert(raw_views(extra_apis@) =~= Seq::<RawApiView>::empty());
    assert(av.subrange(0, 0) =~= Seq::<TypedefApiView>::empty());
    while rest.len() > 0
        invariant
            av.len() == n,
            byvalue_checker.represents(av),
            i + rest.len() == n,
            api_views(rest@) == av.subrange(i as int, n as int),
            ({
                let (o, e, c, t) = pod_fold(av, c0, Seq::empty(), av.subrange(0, i as int));
                &&& api_views(results@) == o
                &&& raw_views(extra_apis@) == e
                &&& type_converter@ == c
                &&& bridge_tracker@ == t
            }),
        decreases rest.len(),
    {
        let ghost before = rest@;
        let api = rest.remove(0);
        proof {
            assert(api@ == api_views(before)[0]);
            assert(api@ == av[i as int]);
            assert forall|k: int| 0 <= k < rest@.len() implies #[trigger] api_views(rest@)[k]
                == av.subrange(i + 1, n as int)[k] by {
                assert(rest@[k] == before[k + 1]);
                assert(api_views(before)[k + 1] == av.subrange(i as int, n as int)[k + 1]);
            }
            assert(api_views(rest@) =~= av.subrange(i + 1, n as int));
            assert(av.subrange(0, i + 1).drop_last() =~= av.subrange(0, i as int));
            assert(av.subrange(0, i + 1).last() == av[i as int]);
        }
        let name = api.name.duplicate();
        let out = match analyze_pod_api(
            api,
            Ghost(av),
            &byvalue_checker,
            &mut type_converter,
            &mut extra_apis,
            &mut bridge_tracker,
        ) {
            Ok(x) => x,
            Err(err) => ignored_item(name, err),
        };
        let ghost nb = results@;
        results.push(out);
        assert(api_views(results@) =~= api_views(nb).push(out@));
        i = i + 1;
    }
    assert(av.subrange(0, i as int) =~= av);
    let ghost o1 = api_views(results@);
    let ghost e1 = raw_views(extra_apis@);
    let ghost c1 = type_converter@;
    let ghost t1 = bridge_tracker@;
    let ghost items2 = e1.map_values(|x: RawApiView| retyped(x));
    let m = extra_apis.len();
    let mut more_extra_apis: Vec<UnanalyzedApi> = Vec::new();
    let mut extras = extra_apis;
    let mut j: usize = 0;
    assert(raw_views(more_extra_apis@) =~= Seq::<RawApiView>::empty());
    assert(items2.subrange(0, 0) =~= Seq::<TypedefApiView>::empty());
    assert(o1 + Seq::<PodApiView>::empty() =~= o1);
    while extras.len() > 0
        invariant
            byvalue_checker.represents(av),
            j + extras.len() == m,
            e1.len() == m,
            items2 == e1.map_values(|x: RawApiView| retyped(x)),
            raw_views(extras@) == e1.subrange(j as int, m as int),
            ({
                let (o, e, c, t) = pod_fold(av, c1, t1, items2.subrange(0, j as int));
                &&& api_views(results@) == o1 + o
                &&& raw_views(more_extra_apis@) == e
                &&& type_converter@ == c
                &&& bridge_tracker@ == t
            }),
        decreases extras.len(),
    {
        let ghost before = extras@;
        let x = extras.remove(0);
        proof {
            assert(x@ == raw_views(before)[0]);
            assert(x@ == e1[j as int]);
            assert forall|k: int| 0 <= k < extras@.len() implies #[trigger] raw_views(extras@)[k]
                == e1.subrange(j + 1, m as int)[k] by {
                assert(extras@[k] == before[k + 1]);
                assert(raw_views(before)[k + 1] == e1.subrange(j as int, m as int)[k + 1]);
            }
            assert(raw_views(extras@) =~= e1.subrange(j + 1, m as int));
            assert(items2.subrange(0, j + 1).drop_last() =~= items2.subrange(0, j as int));
            assert(items2.subrange(0, j + 1).last() == retyped(e1[j as int]));
        }
        let api = add_analysis(x);
        let name = api.name.duplicate();
        let out = match analyze_pod_api(
            api,
            Ghost(av),
            &byvalue_checker,
            &mut type_converter,
            &mut more_extra_apis,
            &mut bridge_tracker,
        ) {
            Ok(x) => x,
            Err(err) => ignored_item(name, err),
        };
        let ghost nb = results@;
        results.push(out);
        proof {
            let (o, e, c, t) = pod_fold(av, c1, t1, items2.subrange(0, j as int));
            assert(api_views(results@) =~= api_views(nb).push(out@));
            assert(o1 + o.push(out@) =~= (o1 + o).push(out@));
        }
        j = j + 1;
    }
    assert(items2.subrange(0, j as int) =~= items2);
    proof {
        lemma_pod_extras_concrete(av, c0, Seq::empty(), av);
        assert forall|k: int| 0 <= k < items2.len() implies (#[trigger] items2[k]).detail is ConcreteType by {
            assert(e1[k].detail is ConcreteType);
        }
        lemma_auxiliary_closure(av, c1, t1, items2);
    }
    assert(more_extra_apis.len() == 0) by {
        assert(raw_views(more_extra_apis@).len() == more_extra_apis.len());
    }
    Ok(results)
}

/// The placeholder for an item whose analysis failed.
fn ignored_item(name: QualifiedName, err: ConvertError) -> (r: PodPhaseApi)
    ensures
        r@ == ignored::<TypedefKindView, PodStructAnalysisView>(name@, err@),
{
    let id = owned(name.get_final_item());
    let deps: Vec<QualifiedName> = Vec::new();
    assert(names_view(deps@) =~= Seq::<QualifiedNameView>::empty());
    Api {
        name,
        original_name: None,
        deps,
        rename_to: None,
        detail: ApiDetail::IgnoredItem {
            err,
            ctx: Some(crate::error::ErrorContext::Item(id)),
        },
    }
}

} // verus!
