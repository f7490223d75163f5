use vstd::prelude::*;

use crate::error::{ctx_view, ConvertError, ConvertErrorView, ErrorContext, ErrorContextView};
use crate::names::{QualifiedName, QualifiedNameView};

verus! {

/// The characters of an optional string.
pub open spec fn opt_view(o: Option<String>) -> Option<Seq<char>> {
    match o {
        Some(s) => Some(s@),
        None => None,
    }
}

/// Each name as values.
pub open spec fn names_view(v: Seq<QualifiedName>) -> Seq<QualifiedNameView> {
    v.map_values(|q: QualifiedName| q@)
}

/// An argument of a template instantiation.
pub enum TypeArg {
    /// A type named by a path.
    Path(QualifiedName),
    /// Anything else (a literal, an expression, a nested type), described in text.
    Complex(String),
}

pub enum TypeArgView {
    Path(QualifiedNameView),
    Complex(Seq<char>),
}

impl View for TypeArg {
    type V = TypeArgView;

    open spec fn view(&self) -> TypeArgView {
        match self {
            TypeArg::Path(q) => TypeArgView::Path(q@),
            TypeArg::Complex(s) => TypeArgView::Complex(s@),
        }
    }
}

/// A type as written in a declaration.
pub enum TypeRef {
    /// A type named by a path, without template arguments.
    Path(QualifiedName),
    /// A template instantiation `name<args>`.
    Templated(QualifiedName, Vec<TypeArg>),
    /// A pointer or reference to a type.
    Pointer(Box<TypeRef>),
    /// A type of another form (array, function pointer...), described in text.
    Other(String),
}

pub enum TypeRefView {
    Path(QualifiedNameView),
    Templated(QualifiedNameView, Seq<TypeArgView>),
    Pointer(Box<TypeRefView>),
    Other(Seq<char>),
}

impl View for TypeRef {
    type V = TypeRefView;

    open spec fn view(&self) -> TypeRefView
        decreases self,
    {
        match self {
            TypeRef::Path(q) => TypeRefView::Path(q@),
            TypeRef::Templated(q, args) => TypeRefView::Templated(
                q@,
                args@.map_values(|a: TypeArg| a@),
            ),
            TypeRef::Pointer(b) => TypeRefView::Pointer(Box::new((**b).view())),
            TypeRef::Other(s) => TypeRefView::Other(s@),
        }
    }
}

impl TypeArg {
    pub fn duplicate(&self) -> (r: Self)
        ensures
            r@ == self@,
    {
        match self {
            TypeArg::Path(q) => TypeArg::Path(q.duplicate()),
            TypeArg::Complex(s) => TypeArg::Complex(s.clone()),
        }
    }
}

/// A copy of each argument.
pub fn duplicate_args(args: &Vec<TypeArg>) -> (r: Vec<TypeArg>)
    ensures
        r@.map_values(|a: TypeArg| a@) == args@.map_values(|a: TypeArg| a@),
{
    let mut r: Vec<TypeArg> = Vec::new();
    let mut i: usize = 0;
    while i < args.len()
        invariant
            i <= args.len(),
            r@.map_values(|a: TypeArg| a@) == args@.map_values(|a: TypeArg| a@).subrange(
                0,
                i as int,
            ),
        decreases args.len() - i,
    {
        let a = args[i].duplicate();
        let ghost before = r@;
        r.push(a);
        assert(r@.map_values(|a: TypeArg| a@) =~= args@.map_values(|a: TypeArg| a@).subrange(
            0,
            i + 1,
        )) by {
            assert(r@ == before.push(a));
            assert(before.map_values(|a: TypeArg| a@).len() == i);
        }
        i = i + 1;
    }
    assert(args@.map_values(|a: TypeArg| a@).subrange(0, i as int) =~= args@.map_values(
        |a: TypeArg| a@,
    ));
    r
}

impl TypeRef {
    pub fn duplicate(&self) -> (r: Self)
        ensures
            r@ == self@,
        decreases self,
    {
        match self {
            TypeRef::Path(q) => TypeRef::Path(q.duplicate()),
            TypeRef::Templated(q, args) => TypeRef::Templated(q.duplicate(), duplicate_args(args)),
            TypeRef::Pointer(b) => {
                let inner = (**b).duplicate();
                TypeRef::Pointer(Box::new(inner))
            },
            TypeRef::Other(s) => TypeRef::Other(s.clone()),
        }
    }
}

/// A field of a struct.
pub struct Field {
    pub name: String,
    pub ty: TypeRef,
}

pub type FieldView = (Seq<char>, TypeRefView);

impl View for Field {
    type V = FieldView;

    open spec fn view(&self) -> FieldView {
        (self.name@, self.ty@)
    }
}

/// A struct or class as declared, with what the declaration shows of its
/// special members.
pub struct StructItem {
    pub ident: String,
    pub fields: Vec<Field>,
    pub has_destructor: bool,
    pub has_virtual: bool,
    pub has_nontrivial_copy_or_move: bool,
}

pub struct StructItemView {
    pub ident: Seq<char>,
    pub fields: Seq<FieldView>,
    pub has_destructor: bool,
    pub has_virtual: bool,
    pub has_nontrivial_copy_or_move: bool,
}

impl View for StructItem {
    type V = StructItemView;

    open spec fn view(&self) -> StructItemView {
        StructItemView {
            ident: self.ident@,
            fields: self.fields@.map_values(|f: Field| f@),
            has_destructor: self.has_destructor,
            has_virtual: self.has_virtual,
            has_nontrivial_copy_or_move: self.has_nontrivial_copy_or_move,
        }
    }
}

/// An enum as declared.
pub struct EnumItem {
    pub ident: String,
    pub variants: Vec<String>,
}

pub type EnumItemView = (Seq<char>, Seq<Seq<char>>);

impl View for EnumItem {
    type V = EnumItemView;

    open spec fn view(&self) -> EnumItemView {
        (self.ident@, self.variants@.map_values(|s: String| s@))
    }
}

/// A `typedef` / `using X = Y;` alias.
pub struct TypedefItem {
    pub ident: String,
    pub target: TypeRef,
}

pub type TypedefItemView = (Seq<char>, TypeRefView);

impl View for TypedefItem {
    type V = TypedefItemView;

    open spec fn view(&self) -> TypedefItemView {
        (self.ident@, self.target@)
    }
}

/// An alias: a type alias, or a re-export of another path.
pub enum TypedefKind {
    Type(TypedefItem),
    Use(String),
}

pub enum TypedefKindView {
    Type(TypedefItemView),
    Use(Seq<char>),
}

impl View for TypedefKind {
    type V = TypedefKindView;

    open spec fn view(&self) -> TypedefKindView {
        match self {
            TypedefKind::Type(t) => TypedefKindView::Type(t@),
            TypedefKind::Use(s) => TypedefKindView::Use(s@),
        }
    }
}

/// Whether a struct may be held by value on both sides of the bridge.
#[derive(Debug, Clone, Copy, PartialEq, Eq, Structural)]
pub enum TypeKind {
    Pod,
    NonPod,
}

/// The result of the plain-data analysis of one struct.
pub struct PodStructAnalysis {
    pub kind: TypeKind,
    pub bases: Vec<QualifiedName>,
}

pub type PodStructAnalysisView = (TypeKind, Seq<QualifiedNameView>);

impl View for PodStructAnalysis {
    type V = PodStructAnalysisView;

    open spec fn view(&self) -> PodStructAnalysisView {
        (self.kind, names_view(self.bases@))
    }
}

/// What an item is. `T` is what the analysis of typedefs has added to an
/// alias and `S` what the plain-data analysis has added to a struct, so
/// that the type of an item shows which analyses it went through.
pub enum ApiDetail<T, S> {
    ForwardDeclaration,
    ConcreteType { rs_definition: TypeRef, cpp_definition: String },
    StringConstructor,
    Function { fun: String },
    Const { const_item: String },
    Typedef { item: TypedefKind, analysis: T },
    Struct { item: StructItem, analysis: S },
    Enum { item: EnumItem },
    CType { typename: QualifiedName },
    IgnoredItem { err: ConvertError, ctx: Option<ErrorContext> },
}

pub enum ApiDetailView<TV, SV> {
    ForwardDeclaration,
    ConcreteType { rs_definition: TypeRefView, cpp_definition: Seq<char> },
    StringConstructor,
    Function { fun: Seq<char> },
    Const { const_item: Seq<char> },
    Typedef { item: TypedefKindView, analysis: TV },
    Struct { item: StructItemView, analysis: SV },
    Enum { item: EnumItemView },
    CType { typename: QualifiedNameView },
    IgnoredItem { err: ConvertErrorView, ctx: Option<ErrorContextView> },
}

impl<T: View, S: View> View for ApiDetail<T, S> {
    type V = ApiDetailView<T::V, S::V>;

    open spec fn view(&self) -> ApiDetailView<T::V, S::V> {
        match self {
            ApiDetail::ForwardDeclaration => ApiDetailView::ForwardDeclaration,
            ApiDetail::ConcreteType { rs_definition, cpp_definition } => ApiDetailView::ConcreteType {
                rs_definition: rs_definition@,
                cpp_definition: cpp_definition@,
            },
            ApiDetail::StringConstructor => ApiDetailView::StringConstructor,
            ApiDetail::Function { fun } => ApiDetailView::Function { fun: fun@ },
            ApiDetail::Const { const_item } => ApiDetailView::Const { const_item: const_item@ },
            ApiDetail::Typedef { item, analysis } => ApiDetailView::Typedef {
                item: item@,
                analysis: analysis@,
            },
            ApiDetail::Struct { item, analysis } => ApiDetailView::Struct {
                item: item@,
                analysis: analysis@,
            },
            ApiDetail::Enum { item } => ApiDetailView::Enum { item: item@ },
            ApiDetail::CType { typename } => ApiDetailView::CType { typename: typename@ },
            ApiDetail::IgnoredItem { err, ctx } => ApiDetailView::IgnoredItem {
                err: err@,
                ctx: ctx_view(*ctx),
            },
        }
    }
}

/// One item of the bindings: its current name, its name before any rename,
/// the names it depends on, the name to re-export it under, and what it is.
pub struct Api<T, S> {
    pub name: QualifiedName,
    pub original_name: Option<String>,
    pub deps: Vec<QualifiedName>,
    pub rename_to: Option<String>,
    pub detail: ApiDetail<T, S>,
}

pub struct ApiView<TV, SV> {
    pub name: QualifiedNameView,
    pub original_name: Option<Seq<char>>,
    pub deps: Seq<QualifiedNameView>,
    pub rename_to: Option<Seq<char>>,
    pub detail: ApiDetailView<TV, SV>,
}

impl<T: View, S: View> View for Api<T, S> {
    type V = ApiView<T::V, S::V>;

    open spec fn view(&self) -> ApiView<T::V, S::V> {
        ApiView {
            name: self.name@,
            original_name: opt_view(self.original_name),
            deps: names_view(self.deps@),
            rename_to: opt_view(self.rename_to),
            detail: self.detail@,
        }
    }
}

/// An item as the parser produced it.
pub type UnanalyzedApi = Api<(), ()>;

/// An item after the analysis of typedefs.
pub type TypedefPhaseApi = Api<TypedefKind, ()>;

/// An item after the plain-data analysis.
pub type PodPhaseApi = Api<TypedefKind, PodStructAnalysis>;

} // verus!
