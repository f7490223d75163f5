use vstd::prelude::*;

use crate::api::{
    duplicate_args, names_view, Api, ApiDetail, ApiDetailView, ApiView, TypeArg, TypeArgView,
    TypeRef, TypeRefView, UnanalyzedApi,
};
use crate::config::IncludeCppConfig;
use crate::error::{ConvertError, ConvertErrorView};
use crate::known_types::{find_known, lookup_known, KnownKind};
use crate::names::{
    cpp_name, lemma_views_push, rendered, views_of, Namespace, QualifiedName, QualifiedNameView,
};
use crate::text::{join, joined, owned, str_eq};

verus! {

/// Where a converted type will stand.
#[derive(Debug, Clone, Copy, PartialEq, Eq, Structural)]
pub enum TypeConversionContext {
    /// A field, a typedef target, a parameter passed by value: the type must
    /// be complete, so `void` is refused.
    CxxInnerType,
    /// Behind a pointer or as a return type, where `void` is allowed.
    CxxOuterType,
}

/// What the converter knows: the aliases (name and declared target), the
/// forward declarations, the blocked C++ names and the instantiations
/// already made concrete.
pub struct TypeConverterView {
    pub typedefs: Seq<(QualifiedNameView, TypeRefView)>,
    pub forward_declarations: Seq<QualifiedNameView>,
    pub blocklist: Seq<Seq<char>>,
    pub concretes: Seq<QualifiedNameView>,
}

/// The declared target of the first alias named `q` at or after `i`.
pub open spec fn typedef_target_from(
    tds: Seq<(QualifiedNameView, TypeRefView)>,
    q: QualifiedNameView,
    i: int,
) -> Option<TypeRefView>
    decreases tds.len() - i,
{
    if i < 0 || i >= tds.len() {
        None
    } else if tds[i].0 == q {
        Some(tds[i].1)
    } else {
        typedef_target_from(tds, q, i + 1)
    }
}

/// The name reached from `q` by following aliases to other names, at most
/// `fuel` steps; an alias to itself, or to a type that is not a plain name,
/// ends the chain.
pub open spec fn resolve_name(
    tds: Seq<(QualifiedNameView, TypeRefView)>,
    q: QualifiedNameView,
    fuel: nat,
) -> QualifiedNameView
    decreases fuel,
{
    if fuel == 0 {
        q
    } else {
        match typedef_target_from(tds, q, 0) {
            Some(TypeRefView::Path(q2)) => if q2 != q {
                resolve_name(tds, q2, (fuel - 1) as nat)
            } else {
                q
            },
            _ => q,
        }
    }
}

/// The items of a name joined by `_`.
pub open spec fn mangled(q: QualifiedNameView) -> Seq<char> {
    joined(q.0.push(q.1), "_"@)
}

pub open spec fn all_path_args(args: Seq<TypeArgView>) -> bool {
    forall|i: int| 0 <= i < args.len() ==> #[trigger] args[i] is Path
}

pub open spec fn arg_name(a: TypeArgView) -> QualifiedNameView {
    match a {
        TypeArgView::Path(q) => q,
        TypeArgView::Complex(_) => (Seq::empty(), Seq::empty()),
    }
}

pub open spec fn arg_names(args: Seq<TypeArgView>) -> Seq<QualifiedNameView> {
    args.map_values(|a: TypeArgView| arg_name(a))
}

/// The name of the concrete type that stands for `q<args>`, in the global
/// namespace.
pub open spec fn concrete_name(q: QualifiedNameView, args: Seq<TypeArgView>) -> QualifiedNameView {
    (
        Seq::empty(),
        "AutocxxConcrete_"@ + joined(
            seq![mangled(q)] + arg_names(args).map_values(|a: QualifiedNameView| mangled(a)),
            "_"@,
        ),
    )
}

/// The C++ spelling of `q<args>`.
pub open spec fn cpp_instantiation(q: QualifiedNameView, args: Seq<TypeArgView>) -> Seq<char> {
    cpp_name(q) + "<"@ + joined(
        arg_names(args).map_values(|a: QualifiedNameView| cpp_name(a)),
        ", "@,
    ) + ">"@
}

pub open spec fn is_container(q: QualifiedNameView) -> bool {
    match find_known(rendered(q)) {
        Some(k) => k.3 == KnownKind::Container,
        None => false,
    }
}

/// The first of `names` that is only forward declared.
pub open spec fn first_forward_from(
    fwd: Seq<QualifiedNameView>,
    names: Seq<QualifiedNameView>,
    i: int,
) -> Option<QualifiedNameView>
    decreases names.len() - i,
{
    if i < 0 || i >= names.len() {
        None
    } else if fwd.contains(names[i]) {
        Some(names[i])
    } else {
        first_forward_from(fwd, names, i + 1)
    }
}

/// A converted type and the names it depends on.
pub type Converted = (TypeRefView, Seq<QualifiedNameView>);

/// How a name converts: aliases are followed; a blocked name, a built-in
/// type the bridge cannot hold, and `void` where a complete type is needed
/// are refused; the result depends on the name reached.
pub open spec fn convert_path_spec(
    c: TypeConverterView,
    q: QualifiedNameView,
    ctx: TypeConversionContext,
) -> Result<Converted, ConvertErrorView> {
    let r = resolve_name(c.typedefs, q, c.typedefs.len());
    if c.blocklist.contains(cpp_name(r)) {
        Err(ConvertErrorView::Blocked(r))
    } else {
        match find_known(rendered(r)) {
            Some(k) => if k.3 == KnownKind::Unsupported || (k.3 == KnownKind::Void && ctx
                == TypeConversionContext::CxxInnerType) {
                Err(ConvertErrorView::UnsupportedBuiltInType(r))
            } else {
                Ok((TypeRefView::Path(r), seq![r]))
            },
            None => Ok((TypeRefView::Path(r), seq![r])),
        }
    }
}

/// How a template instantiation converts: its arguments must be names; a
/// container of the bridge stays as it is, but must not hold a type that is
/// only forward declared; any other template becomes a concrete type.
pub open spec fn convert_templated_spec(
    c: TypeConverterView,
    q: QualifiedNameView,
    args: Seq<TypeArgView>,
) -> Result<Converted, ConvertErrorView> {
    if !all_path_args(args) {
        Err(ConvertErrorView::TemplatedTypeContainingNonPathArg(q))
    } else if is_container(q) {
        match first_forward_from(c.forward_declarations, arg_names(args), 0) {
            Some(f) => Err(ConvertErrorView::TypeContainingForwardDeclaration(f)),
            None => Ok((TypeRefView::Templated(q, args), seq![q] + arg_names(args))),
        }
    } else {
        let n = concrete_name(q, args);
        Ok((TypeRefView::Path(n), seq![n]))
    }
}

/// How a type converts.
pub open spec fn convert_spec(
    c: TypeConverterView,
    t: TypeRefView,
    ctx: TypeConversionContext,
) -> Result<Converted, ConvertErrorView>
    decreases t,
{
    match t {
        TypeRefView::Path(q) => convert_path_spec(c, q, ctx),
        TypeRefView::Templated(q, args) => convert_templated_spec(c, q, args),
        TypeRefView::Pointer(inner) => match *inner {
            TypeRefView::Other(_) => Err(ConvertErrorView::InvalidPointee),
            _ => match convert_spec(c, *inner, TypeConversionContext::CxxOuterType) {
                Ok((ti, d)) => Ok((TypeRefView::Pointer(Box::new(ti)), d)),
                Err(e) => Err(e),
            },
        },
        TypeRefView::Other(d) => Err(ConvertErrorView::UnsupportedType(d)),
    }
}

/// The template instantiation a type holds, if any.
pub open spec fn template_in(t: TypeRefView) -> Option<(QualifiedNameView, Seq<TypeArgView>)>
    decreases t,
{
    match t {
        TypeRefView::Templated(q, args) => Some((q, args)),
        TypeRefView::Pointer(inner) => template_in(*inner),
        _ => None,
    }
}

/// The instantiation that converting `t` makes concrete for the first time.
pub open spec fn new_concrete(c: TypeConverterView, t: TypeRefView) -> Option<
    (QualifiedNameView, Seq<TypeArgView>),
> {
    match template_in(t) {
        Some((q, args)) => if all_path_args(args) && !is_container(q) && !c.concretes.contains(
            concrete_name(q, args),
        ) {
            Some((q, args))
        } else {
            None
        },
        None => None,
    }
}

/// The item that stands for the concrete type of `q<args>`.
pub open spec fn concrete_api(q: QualifiedNameView, args: Seq<TypeArgView>) -> ApiView<(), ()> {
    ApiView {
        name: concrete_name(q, args),
        original_name: None,
        deps: seq![q] + arg_names(args),
        rename_to: None,
        detail: ApiDetailView::ConcreteType {
            rs_definition: TypeRefView::Templated(q, args),
            cpp_definition: cpp_instantiation(q, args),
        },
    }
}

/// What converting `t` adds to what the converter knows.
pub open spec fn converter_after(c: TypeConverterView, t: TypeRefView) -> TypeConverterView {
    match new_concrete(c, t) {
        Some((q, args)) => TypeConverterView { concretes: c.concretes.push(concrete_name(q, args)), ..c },
        None => c,
    }
}

/// The items that converting `t` adds.
pub open spec fn extras_of(c: TypeConverterView, t: TypeRefView) -> Seq<ApiView<(), ()>> {
    match new_concrete(c, t) {
        Some((q, args)) => seq![concrete_api(q, args)],
        None => Seq::empty(),
    }
}

/// A converted type, the names it depends on, and the items made for it.
pub struct Annotated {
    pub ty: TypeRef,
    pub types_encountered: Vec<QualifiedName>,
    pub extra_apis: Vec<UnanalyzedApi>,
}

/// An alias known to the converter.
pub struct TypedefEntry {
    pub name: QualifiedName,
    pub target: TypeRef,
}

/// Converts the types of declarations into types the bridge can hold.
pub struct TypeConverter {
    typedefs: Vec<TypedefEntry>,
    forward_declarations: Vec<QualifiedName>,
    blocklist: Vec<String>,
    concretes: Vec<QualifiedName>,
}

impl View for TypeConverter {
    type V = TypeConverterView;

    closed spec fn view(&self) -> TypeConverterView {
        TypeConverterView {
            typedefs: self.typedefs@.map_values(|e: TypedefEntry| (e.name@, e.target@)),
            forward_declarations: names_view(self.forward_declarations@),
            blocklist: views_of(self.blocklist@),
            concretes: names_view(self.concretes@),
        }
    }
}

/// Each item as values.
pub open spec fn api_views<T: View, S: View>(v: Seq<Api<T, S>>) -> Seq<ApiView<T::V, S::V>> {
    v.map_values(|a: Api<T, S>| a@)
}

/// The aliases declared among `apis`, with their declared targets.
pub open spec fn typedefs_of<TV, SV>(apis: Seq<ApiView<TV, SV>>) -> Seq<
    (QualifiedNameView, TypeRefView),
>
    decreases apis.len(),
{
    if apis.len() == 0 {
        Seq::empty()
    } else {
        let rest = typedefs_of(apis.drop_last());
        match apis.last().detail {
            ApiDetailView::Typedef { item: crate::api::TypedefKindView::Type(ti), .. } => rest.push(
                (apis.last().name, ti.1),
            ),
            _ => rest,
        }
    }
}

/// The forward declarations among `apis`.
pub open spec fn forward_declarations_of<TV, SV>(apis: Seq<ApiView<TV, SV>>) -> Seq<
    QualifiedNameView,
>
    decreases apis.len(),
{
    if apis.len() == 0 {
        Seq::empty()
    } else {
        let rest = forward_declarations_of(apis.drop_last());
        match apis.last().detail {
            ApiDetailView::ForwardDeclaration => rest.push(apis.last().name),
            _ => rest,
        }
    }
}

/// `a` followed by the names of `b` that it does not hold yet, each once.
pub open spec fn with_all(a: Seq<QualifiedNameView>, b: Seq<QualifiedNameView>) -> Seq<
    QualifiedNameView,
>
    decreases b.len(),
{
    if b.len() == 0 {
        a
    } else {
        let r = with_all(a, b.drop_last());
        if r.contains(b.last()) {
            r
        } else {
            r.push(b.last())
        }
    }
}

pub proof fn lemma_with_all_concat(
    a: Seq<QualifiedNameView>,
    b: Seq<QualifiedNameView>,
    c: Seq<QualifiedNameView>,
)
    ensures
        with_all(with_all(a, b), c) == with_all(a, b + c),
    decreases c.len(),
{
    if c.len() == 0 {
        assert(b + c =~= b);
    } else {
        assert((b + c).drop_last() =~= b + c.drop_last());
        assert((b + c).last() == c.last());
        lemma_with_all_concat(a, b, c.drop_last());
    }
}

/// Adds to `deps` each name of `more` that it does not hold yet.
pub fn extend_unique(deps: &mut Vec<QualifiedName>, more: Vec<QualifiedName>)
    ensures
        names_view(final(deps)@) == with_all(names_view(old(deps)@), names_view(more@)),
{
    let ghost mv = names_view(more@);
    let n = more.len();
    let mut rest = more;
    let mut i: usize = 0;
    assert(mv.subrange(0, 0) =~= Seq::<QualifiedNameView>::empty());
    while rest.len() > 0
        invariant
            mv.len() == n,
            i + rest.len() == n,
            names_view(rest@) == mv.subrange(i as int, n as int),
            names_view(deps@) == with_all(names_view(old(deps)@), mv.subrange(0, i as int)),
        decreases rest.len(),
    {
        let ghost before = rest@;
        let q = rest.remove(0);
        proof {
            assert(q@ == names_view(before)[0]);
            assert forall|k: int| 0 <= k < rest@.len() implies #[trigger] names_view(rest@)[k]
                == mv.subrange(i + 1, n as int)[k] by {
                assert(rest@[k] == before[k + 1]);
                assert(names_view(before)[k + 1] == mv.subrange(i as int, n as int)[k + 1]);
            }
            assert(names_view(rest@) =~= mv.subrange(i + 1, n as int));
            assert(mv.subrange(0, i + 1).drop_last() =~= mv.subrange(0, i as int));
        }
        let mut found = false;
        let mut k: usize = 0;
        while k < deps.len()
            invariant
                k <= deps.len(),
                !found ==> forall|x: int| 0 <= x < k ==> names_view(deps@)[x] != q@,
                found ==> names_view(deps@).contains(q@),
            decreases deps.len() - k,
        {
            if deps[k] == q {
                found = true;
                assert(names_view(deps@)[k as int] == q@);
            }
            k = k + 1;
        }
        if !found {
            proof {
                lemma_names_push(deps@, q);
            }
            deps.push(q);
        }
        i = i + 1;
    }
    assert(mv.subrange(0, i as int) =~= mv);
}

pub open spec fn raw_views(v: Seq<UnanalyzedApi>) -> Seq<ApiView<(), ()>> {
    v.map_values(|a: UnanalyzedApi| a@)
}

/// A copy of each name.
pub fn names_copy(v: &Vec<QualifiedName>) -> (r: Vec<QualifiedName>)
    ensures
        names_view(r@) == names_view(v@),
{
    let mut r: Vec<QualifiedName> = Vec::new();
    let mut i: usize = 0;
    while i < v.len()
        invariant
            i <= v.len(),
            names_view(r@) == names_view(v@).subrange(0, i as int),
        decreases v.len() - i,
    {
        let q = v[i].duplicate();
        proof {
            lemma_names_push(r@, q);
        }
        r.push(q);
        assert(names_view(r@) =~= names_view(v@).subrange(0, i + 1));
        i = i + 1;
    }
    assert(names_view(v@).subrange(0, i as int) =~= names_view(v@));
    r
}

/// The names of the arguments, all of which are names.
fn arg_name_list(args: &Vec<TypeArg>) -> (r: Vec<QualifiedName>)
    requires
        all_path_args(args@.map_values(|a: TypeArg| a@)),
    ensures
        names_view(r@) == arg_names(args@.map_values(|a: TypeArg| a@)),
{
    let ghost av = args@.map_values(|a: TypeArg| a@);
    let mut r: Vec<QualifiedName> = Vec::new();
    let mut i: usize = 0;
    while i < args.len()
        invariant
            av == args@.map_values(|a: TypeArg| a@),
            all_path_args(av),
            i <= args.len(),
            names_view(r@) == arg_names(av).subrange(0, i as int),
        decreases args.len() - i,
    {
        assert(av[i as int] is Path);
        match &args[i] {
            TypeArg::Path(q) => {
                let d = q.duplicate();
                proof {
                    lemma_names_push(r@, d);
                }
                r.push(d);
            },
            TypeArg::Complex(_) => {},
        }
        assert(names_view(r@) =~= arg_names(av).subrange(0, i + 1));
        i = i + 1;
    }
    assert(arg_names(av).subrange(0, i as int) =~= arg_names(av));
    r
}

/// The items of a name joined by `_`.
fn mangled_name(q: &QualifiedName) -> (r: String)
    ensures
        r@ == mangled(q@),
{
    let mut segs: Vec<String> = Vec::new();
    let ns = q.ns_segment_iter();
    let mut i: usize = 0;
    while i < ns.len()
        invariant
            views_of(ns@) == q@.0,
            i <= ns.len(),
            views_of(segs@) == q@.0.subrange(0, i as int),
        decreases ns.len() - i,
    {
        let s = ns[i].clone();
        proof {
            lemma_views_push(segs@, s);
        }
        segs.push(s);
        assert(views_of(segs@) =~= q@.0.subrange(0, i + 1));
        i = i + 1;
    }
    let last = owned(q.get_final_item());
    proof {
        lemma_views_push(segs@, last);
    }
    segs.push(last);
    assert(views_of(segs@) =~= q@.0.push(q@.1));
    join(&segs, "_")
}

/// The name of the concrete type that stands for `q<args>`.
fn concrete_name_of(q: &QualifiedName, args: &Vec<TypeArg>) -> (r: QualifiedName)
    requires
        all_path_args(args@.map_values(|a: TypeArg| a@)),
    ensures
        r@ == concrete_name(q@, args@.map_values(|a: TypeArg| a@)),
{
    let ghost av = args@.map_values(|a: TypeArg| a@);
    let names = arg_name_list(args);
    let ghost want = seq![mangled(q@)] + arg_names(av).map_values(|a: QualifiedNameView| mangled(a));
    let mut parts: Vec<String> = Vec::new();
    let m = mangled_name(q);
    proof {
        lemma_views_push(parts@, m);
    }
    parts.push(m);
    let mut i: usize = 0;
    while i < names.len()
        invariant
            names_view(names@) == arg_names(av),
            i <= names.len(),
            views_of(parts@) == want.subrange(0, i + 1),
            want.len() == names.len() + 1,
            forall|k: int| 0 <= k < names.len() ==> want[k + 1] == mangled(#[trigger] names_view(names@)[k]),
        decreases names.len() - i,
    {
        let m = mangled_name(&names[i]);
        proof {
            lemma_views_push(parts@, m);
            assert(names_view(names@)[i as int] == names[i as int]@);
        }
        parts.push(m);
        assert(views_of(parts@) =~= want.subrange(0, i + 2));
        i = i + 1;
    }
    assert(want.subrange(0, i + 1) =~= want);
    let mut text = owned("AutocxxConcrete_");
    let j = join(&parts, "_");
    text.append(j.as_str());
    proof {
        reveal_strlit("AutocxxConcrete_");
    }
    QualifiedName::new(&Namespace::new(), text)
}

/// The C++ spelling of `q<names>`.
fn cpp_instantiation_of(q: &QualifiedName, names: &Vec<QualifiedName>) -> (r: String)
    ensures
        r@ == cpp_name(q@) + "<"@ + joined(
            names_view(names@).map_values(|a: QualifiedNameView| cpp_name(a)),
            ", "@,
        ) + ">"@,
{
    let ghost want = names_view(names@).map_values(|a: QualifiedNameView| cpp_name(a));
    let mut parts: Vec<String> = Vec::new();
    let mut i: usize = 0;
    while i < names.len()
        invariant
            i <= names.len(),
            want.len() == names.len(),
            forall|k: int| 0 <= k < names.len() ==> want[k] == cpp_name(#[trigger] names_view(names@)[k]),
            views_of(parts@) == want.subrange(0, i as int),
        decreases names.len() - i,
    {
        let c = names[i].to_cpp_name();
        proof {
            lemma_views_push(parts@, c);
            assert(names_view(names@)[i as int] == names[i as int]@);
        }
        parts.push(c);
        assert(views_of(parts@) =~= want.subrange(0, i + 1));
        i = i + 1;
    }
    assert(want.subrange(0, i as int) =~= want);
    let mut s = q.to_cpp_name();
    s.append("<");
    let j = join(&parts, ", ");
    s.append(j.as_str());
    s.append(">");
    s
}

proof fn lemma_names_push(v: Seq<QualifiedName>, q: QualifiedName)
    ensures
        names_view(v.push(q)) == names_view(v).push(q@),
{
    assert(names_view(v.push(q)) =~= names_view(v).push(q@));
}

impl TypeConverter {
    /// A converter that knows the aliases and forward declarations among
    /// `apis` and the blocklist of `config`.
    pub fn new<T: View, S: View>(config: &IncludeCppConfig, apis: &Vec<Api<T, S>>) -> (r: Self)
        ensures
            r@ == (TypeConverterView {
                typedefs: typedefs_of(api_views(apis@)),
                forward_declarations: forward_declarations_of(api_views(apis@)),
                blocklist: config@.blocklist,
                concretes: Seq::empty(),
            }),
    {
        let mut typedefs: Vec<TypedefEntry> = Vec::new();
        let mut fwd: Vec<QualifiedName> = Vec::new();
        let mut i: usize = 0;
        while i < apis.len()
            invariant
                i <= apis.len(),
                typedefs@.map_values(|e: TypedefEntry| (e.name@, e.target@)) == typedefs_of(
                    api_views(apis@).subrange(0, i as int),
                ),
                names_view(fwd@) == forward_declarations_of(api_views(apis@).subrange(0, i as int)),
            decreases apis.len() - i,
        {
            let api = &apis[i];
            assert(api_views(apis@).subrange(0, i + 1).drop_last() =~= api_views(apis@).subrange(0, i as int));
            assert(api_views(apis@).subrange(0, i + 1).last() == apis@[i as int]@);
            match &api.detail {
                ApiDetail::Typedef { item: crate::api::TypedefKind::Type(ti), .. } => {
                    let e = TypedefEntry { name: api.name.duplicate(), target: ti.target.duplicate() };
                    let ghost before = typedefs@;
                    typedefs.push(e);
                    assert(typedefs@.map_values(|e: TypedefEntry| (e.name@, e.target@))
                        =~= before.map_values(|e: TypedefEntry| (e.name@, e.target@)).push(
                        (e.name@, e.target@),
                    ));
                },
                ApiDetail::ForwardDeclaration => {
                    let q = api.name.duplicate();
                    proof {
                        lemma_names_push(fwd@, q);
                    }
                    fwd.push(q);
                },
                _ => {},
            }
            i = i + 1;
        }
        assert(api_views(apis@).subrange(0, i as int) =~= api_views(apis@));
        let blocked = config.get_blocklist();
        let mut blocklist: Vec<String> = Vec::new();
        let mut k: usize = 0;
        while k < blocked.len()
            invariant
                k <= blocked.len(),
                views_of(blocklist@) == views_of(blocked@).subrange(0, k as int),
            decreases blocked.len() - k,
        {
            let s = blocked[k].clone();
            proof {
                lemma_views_push(blocklist@, s);
            }
            blocklist.push(s);
            assert(views_of(blocklist@) =~= views_of(blocked@).subrange(0, k + 1));
            k = k + 1;
        }
        assert(views_of(blocked@).subrange(0, k as int) =~= views_of(blocked@));
        let r = TypeConverter { typedefs, forward_declarations: fwd, blocklist, concretes: Vec::new() };
        assert(names_view(r.concretes@) =~= Seq::<QualifiedNameView>::empty());
        r
    }

    /// The declared target of the first alias named `q`.
    fn typedef_target(&self, q: &QualifiedName) -> (r: Option<&TypeRef>)
        ensures
            match typedef_target_from(self@.typedefs, q@, 0) {
                Some(t) => r matches Some(x) && x@ == t,
                None => r is None,
            },
    {
        let ghost tds = self@.typedefs;
        let mut i: usize = 0;
        while i < self.typedefs.len()
            invariant
                tds == self@.typedefs,
                tds.len() == self.typedefs.len(),
                i <= self.typedefs.len(),
                typedef_target_from(tds, q@, 0) == typedef_target_from(tds, q@, i as int),
            decreases self.typedefs.len() - i,
        {
            if self.typedefs[i].name == *q {
                assert(tds[i as int].0 == q@);
                return Some(&self.typedefs[i].target);
            }
            i = i + 1;
        }
        None
    }

    /// The name reached from `q` through aliases.
    pub fn resolve(&self, q: &QualifiedName) -> (r: QualifiedName)
        ensures
            r@ == resolve_name(self@.typedefs, q@, self@.typedefs.len()),
    {
        let ghost tds = self@.typedefs;
        let mut cur = q.duplicate();
        let mut fuel: usize = self.typedefs.len();
        assert(fuel == tds.len());
        loop
            invariant
                tds == self@.typedefs,
                resolve_name(tds, q@, tds.len()) == resolve_name(tds, cur@, fuel as nat),
            decreases fuel,
        {
            if fuel == 0 {
                return cur;
            }
            let next = match self.typedef_target(&cur) {
                Some(TypeRef::Path(q2)) => {
                    if *q2 != cur {
                        Some(q2.duplicate())
                    } else {
                        None
                    }
                },
                _ => None,
            };
            match next {
                Some(n) => {
                    cur = n;
                    fuel = fuel - 1;
                },
                None => {
                    return cur;
                },
            }
        }
    }

    fn is_forward_declaration(&self, q: &QualifiedName) -> (r: bool)
        ensures
            r == self@.forward_declarations.contains(q@),
    {
        let ghost f = self@.forward_declarations;
        let mut i: usize = 0;
        while i < self.forward_declarations.len()
            invariant
                f == self@.forward_declarations,
                f.len() == self.forward_declarations.len(),
                i <= self.forward_declarations.len(),
                forall|k: int| 0 <= k < i ==> f[k] != q@,
            decreases self.forward_declarations.len() - i,
        {
            if self.forward_declarations[i] == *q {
                assert(f[i as int] == q@);
                return true;
            }
            i = i + 1;
        }
        false
    }

    fn is_blocked(&self, cpp: &str) -> (r: bool)
        ensures
            r == self@.blocklist.contains(cpp@),
    {
        let ghost b = self@.blocklist;
        let mut i: usize = 0;
        while i < self.blocklist.len()
            invariant
                b == self@.blocklist,
                b.len() == self.blocklist.len(),
                i <= self.blocklist.len(),
                forall|k: int| 0 <= k < i ==> b[k] != cpp@,
            decreases self.blocklist.len() - i,
        {
            if str_eq(self.blocklist[i].as_str(), cpp) {
                assert(b[i as int] == cpp@);
                return true;
            }
            i = i + 1;
        }
        false
    }

    fn is_concrete(&self, q: &QualifiedName) -> (r: bool)
        ensures
            r == self@.concretes.contains(q@),
    {
        let ghost c = self@.concretes;
        let mut i: usize = 0;
        while i < self.concretes.len()
            invariant
                c == self@.concretes,
                c.len() == self.concretes.len(),
                i <= self.concretes.len(),
                forall|k: int| 0 <= k < i ==> c[k] != q@,
            decreases self.concretes.len() - i,
        {
            if self.concretes[i] == *q {
                assert(c[i as int] == q@);
                return true;
            }
            i = i + 1;
        }
        false
    }

    /// Converts a name.
    fn convert_path(&self, q: &QualifiedName, ctx: TypeConversionContext) -> (r: Result<
        Annotated,
        ConvertError,
    >)
        ensures
            match convert_path_spec(self@, q@, ctx) {
                Ok(cv) => r matches Ok(a) && a.ty@ == cv.0 && names_view(a.types_encountered@)
                    == cv.1 && a.extra_apis@.len() == 0,
                Err(e) => r matches Err(x) && x@ == e,
            },
    {
        let r = self.resolve(q);
        let cpp = r.to_cpp_name();
        if self.is_blocked(cpp.as_str()) {
            return Err(ConvertError::Blocked(r));
        }
        let key = r.to_string();
        match lookup_known(key.as_str()) {
            Some(k) => {
                if k.kind == KnownKind::Unsupported || (k.kind == KnownKind::Void && ctx
                    == TypeConversionContext::CxxInnerType) {
                    return Err(ConvertError::UnsupportedBuiltInType(r));
                }
            },
            None => {},
        }
        let mut deps: Vec<QualifiedName> = Vec::new();
        let d = r.duplicate();
        proof {
            lemma_names_push(deps@, d);
            assert(names_view(deps@) =~= Seq::<QualifiedNameView>::empty());
        }
        deps.push(d);
        let extra_apis: Vec<UnanalyzedApi> = Vec::new();
        Ok(Annotated { ty: TypeRef::Path(r), types_encountered: deps, extra_apis })
    }

    /// Converts a template instantiation `q<args>`.
    fn convert_templated(&mut self, q: &QualifiedName, args: &Vec<TypeArg>) -> (r: Result<
        Annotated,
        ConvertError,
    >)
        ensures
            match convert_templated_spec(
                old(self)@,
                q@,
                args@.map_values(|a: TypeArg| a@),
            ) {
                Ok(cv) => r matches Ok(a) && a.ty@ == cv.0 && names_view(a.types_encountered@)
                    == cv.1 && raw_views(a.extra_apis@) == extras_of(
                    old(self)@,
                    TypeRefView::Templated(q@, args@.map_values(|a: TypeArg| a@)),
                ) && final(self)@ == converter_after(
                    old(self)@,
                    TypeRefView::Templated(q@, args@.map_values(|a: TypeArg| a@)),
                ),
                Err(e) => r matches Err(x) && x@ == e && final(self)@ == old(self)@,
            },
    {
        let ghost av = args@.map_values(|a: TypeArg| a@);
        let mut i: usize = 0;
        while i < args.len()
            invariant
                av == args@.map_values(|a: TypeArg| a@),
                i <= args.len(),
                forall|k: int| 0 <= k < i ==> #[trigger] av[k] is Path,
            decreases args.len() - i,
        {
            if let TypeArg::Complex(_) = &args[i] {
                assert(!(av[i as int] is Path));
                return Err(ConvertError::TemplatedTypeContainingNonPathArg(q.duplicate()));
            }
            i = i + 1;
        }
        assert(all_path_args(av));
        let names = arg_name_list(args);
        let key = q.to_string();
        let container = match lookup_known(key.as_str()) {
            Some(k) => k.kind == KnownKind::Container,
            None => false,
        };
        assert(container == is_container(q@));
        if container {
            let ghost nv = names_view(names@);
            let mut j: usize = 0;
            while j < names.len()
                invariant
                    nv == names_view(names@),
                    nv == arg_names(av),
                    j <= names.len(),
                    first_forward_from(old(self)@.forward_declarations, nv, 0) == first_forward_from(
                        old(self)@.forward_declarations,
                        nv,
                        j as int,
                    ),
                    self@ == old(self)@,
                    is_container(q@),
                    all_path_args(av),
                    av == args@.map_values(|a: TypeArg| a@),
                decreases names.len() - j,
            {
                if self.is_forward_declaration(&names[j]) {
                    assert(nv[j as int] == names[j as int]@);
                    assert(first_forward_from(old(self)@.forward_declarations, nv, j as int) == Some(nv[j as int]));
                    return Err(ConvertError::TypeContainingForwardDeclaration(names[j].duplicate()));
                }
                j = j + 1;
            }
            let mut deps: Vec<QualifiedName> = Vec::new();
            let qd = q.duplicate();
            proof {
                lemma_names_push(deps@, qd);
                assert(names_view(deps@) =~= Seq::<QualifiedNameView>::empty());
            }
            deps.push(qd);
            let ghost first = names_view(deps@);
            deps.append(&mut names_copy(&names));
            assert(names_view(deps@) =~= first + nv);
            let extra_apis: Vec<UnanalyzedApi> = Vec::new();
            assert(raw_views(extra_apis@) =~= Seq::<ApiView<(), ()>>::empty());
            return Ok(
                Annotated {
                    ty: TypeRef::Templated(q.duplicate(), duplicate_args(args)),
                    types_encountered: deps,
                    extra_apis,
                },
            );
        }
        let n = concrete_name_of(q, args);
        let mut deps: Vec<QualifiedName> = Vec::new();
        let nd = n.duplicate();
        proof {
            lemma_names_push(deps@, nd);
            assert(names_view(deps@) =~= Seq::<QualifiedNameView>::empty());
        }
        deps.push(nd);
        let mut extra_apis: Vec<UnanalyzedApi> = Vec::new();
        if !self.is_concrete(&n) {
            let mut adeps: Vec<QualifiedName> = Vec::new();
            let qd = q.duplicate();
            proof {
                lemma_names_push(adeps@, qd);
                assert(names_view(adeps@) =~= Seq::<QualifiedNameView>::empty());
            }
            adeps.push(qd);
            let ghost first = names_view(adeps@);
            adeps.append(&mut names_copy(&names));
            assert(names_view(adeps@) =~= first + arg_names(av));
            let cpp_definition = cpp_instantiation_of(q, &names);
            let api: UnanalyzedApi = Api {
                name: n.duplicate(),
                original_name: None,
                deps: adeps,
                rename_to: None,
                detail: ApiDetail::ConcreteType {
                    rs_definition: TypeRef::Templated(q.duplicate(), duplicate_args(args)),
                    cpp_definition,
                },
            };
            let ghost before = self.concretes@;
            let nc = n.duplicate();
            self.concretes.push(nc);
            proof {
                lemma_names_push(before, nc);
            }
            extra_apis.push(api);
            assert(raw_views(extra_apis@) =~= seq![concrete_api(q@, av)]);
            assert(self@ =~= converter_after(old(self)@, TypeRefView::Templated(q@, av)));
        } else {
            assert(raw_views(extra_apis@) =~= Seq::<ApiView<(), ()>>::empty());
        }
        Ok(Annotated { ty: TypeRef::Path(n), types_encountered: deps, extra_apis })
    }

    /// Converts a type; `ctx` says where it will stand.
    pub fn convert_type(&mut self, ty: &TypeRef, ctx: TypeConversionContext) -> (r: Result<
        Annotated,
        ConvertError,
    >)
        ensures
            match convert_spec(old(self)@, ty@, ctx) {
                Ok(cv) => r matches Ok(a) && a.ty@ == cv.0 && names_view(a.types_encountered@)
                    == cv.1 && raw_views(a.extra_apis@) == extras_of(old(self)@, ty@) && final(self)@ == converter_after(old(self)@, ty@),
                Err(e) => r matches Err(x) && x@ == e && final(self)@ == old(self)@,
            },
        decreases ty,
    {
        match ty {
            TypeRef::Path(q) => {
                let r = self.convert_path(q, ctx);
                proof {
                    if r is Ok {
                        assert(raw_views(r->Ok_0.extra_apis@) =~= Seq::<ApiView<(), ()>>::empty());
                    }
                }
                r
            },
            TypeRef::Templated(q, args) => self.convert_templated(q, args),
            TypeRef::Pointer(inner) => {
                if let TypeRef::Other(_) = &**inner {
                    assert(ty@ == TypeRefView::Pointer(Box::new((**inner)@)));
                    assert((**inner)@ is Other);
                    return Err(ConvertError::InvalidPointee);
                }
                let a = self.convert_type(&**inner, TypeConversionContext::CxxOuterType)?;
                Ok(
                    Annotated {
                        ty: TypeRef::Pointer(Box::new(a.ty)),
                        types_encountered: a.types_encountered,
                        extra_apis: a.extra_apis,
                    },
                )
            },
            TypeRef::Other(d) => Err(ConvertError::UnsupportedType(d.clone())),
        }
    }
}

} // verus!
