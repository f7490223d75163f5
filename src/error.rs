use vstd::prelude::*;

use crate::names::{
    cpp_name, display_suffix, rendered, Namespace, NamespaceView, QualifiedName,
    QualifiedNameView,
};
use crate::text::owned;

verus! {

/// Why an item could not be carried over the bridge.
#[derive(Debug, Clone)]
pub enum ConvertError {
    NoContent,
    UnsafePodType(String),
    UnexpectedForeignItem,
    UnexpectedOuterItem,
    UnexpectedItemInMod,
    ComplexTypedefTarget(String),
    UnexpectedThisType(Namespace, String),
    UnsupportedBuiltInType(QualifiedName),
    VirtualThisType(Namespace, String),
    ConflictingTemplatedArgsWithTypedef(QualifiedName),
    UnacceptableParam(String),
    NotOneInputReference(String),
    UnsupportedType(String),
    UnknownType(String),
    StaticData(String),
    InfinitelyRecursiveTypedef(QualifiedName),
    UnexpectedUseStatement(Option<String>),
    TemplatedTypeContainingNonPathArg(QualifiedName),
    InvalidPointee,
    DidNotGenerateAnything(String),
    TypeContainingForwardDeclaration(QualifiedName),
    Blocked(QualifiedName),
    UnusedTemplateParam,
    TooManyUnderscores,
    ReservedName,
    UnknownDependentType,
    IgnoredDependent,
    MoveConstructorUnsupported,
}

/// A `ConvertError` as values.
pub enum ConvertErrorView {
    NoContent,
    UnsafePodType(Seq<char>),
    UnexpectedForeignItem,
    UnexpectedOuterItem,
    UnexpectedItemInMod,
    ComplexTypedefTarget(Seq<char>),
    UnexpectedThisType(NamespaceView, Seq<char>),
    UnsupportedBuiltInType(QualifiedNameView),
    VirtualThisType(NamespaceView, Seq<char>),
    ConflictingTemplatedArgsWithTypedef(QualifiedNameView),
    UnacceptableParam(Seq<char>),
    NotOneInputReference(Seq<char>),
    UnsupportedType(Seq<char>),
    UnknownType(Seq<char>),
    StaticData(Seq<char>),
    InfinitelyRecursiveTypedef(QualifiedNameView),
    UnexpectedUseStatement(Option<Seq<char>>),
    TemplatedTypeContainingNonPathArg(QualifiedNameView),
    InvalidPointee,
    DidNotGenerateAnything(Seq<char>),
    TypeContainingForwardDeclaration(QualifiedNameView),
    Blocked(QualifiedNameView),
    UnusedTemplateParam,
    TooManyUnderscores,
    ReservedName,
    UnknownDependentType,
    IgnoredDependent,
    MoveConstructorUnsupported,
}

impl View for ConvertError {
    type V = ConvertErrorView;

    open spec fn view(&self) -> ConvertErrorView {
        match self {
            ConvertError::NoContent => ConvertErrorView::NoContent,
            ConvertError::UnsafePodType(s) => ConvertErrorView::UnsafePodType(s@),
            ConvertError::UnexpectedForeignItem => ConvertErrorView::UnexpectedForeignItem,
            ConvertError::UnexpectedOuterItem => ConvertErrorView::UnexpectedOuterItem,
            ConvertError::UnexpectedItemInMod => ConvertErrorView::UnexpectedItemInMod,
            ConvertError::ComplexTypedefTarget(s) => ConvertErrorView::ComplexTypedefTarget(s@),
            ConvertError::UnexpectedThisType(ns, s) => ConvertErrorView::UnexpectedThisType(
                ns@,
                s@,
            ),
            ConvertError::UnsupportedBuiltInType(q) => ConvertErrorView::UnsupportedBuiltInType(q@),
            ConvertError::VirtualThisType(ns, s) => ConvertErrorView::VirtualThisType(ns@, s@),
            ConvertError::ConflictingTemplatedArgsWithTypedef(
                q,
            ) => ConvertErrorView::ConflictingTemplatedArgsWithTypedef(q@),
            ConvertError::UnacceptableParam(s) => ConvertErrorView::UnacceptableParam(s@),
            ConvertError::NotOneInputReference(s) => ConvertErrorView::NotOneInputReference(s@),
            ConvertError::UnsupportedType(s) => ConvertErrorView::UnsupportedType(s@),
            ConvertError::UnknownType(s) => ConvertErrorView::UnknownType(s@),
            ConvertError::StaticData(s) => ConvertErrorView::StaticData(s@),
            ConvertError::InfinitelyRecursiveTypedef(
                q,
            ) => ConvertErrorView::InfinitelyRecursiveTypedef(q@),
            ConvertError::UnexpectedUseStatement(o) => ConvertErrorView::UnexpectedUseStatement(
                match o {
                    Some(s) => Some(s@),
                    None => None,
                },
            ),
            ConvertError::TemplatedTypeContainingNonPathArg(
                q,
            ) => ConvertErrorView::TemplatedTypeContainingNonPathArg(q@),
            ConvertError::InvalidPointee => ConvertErrorView::InvalidPointee,
            ConvertError::DidNotGenerateAnything(s) => ConvertErrorView::DidNotGenerateAnything(s@),
            ConvertError::TypeContainingForwardDeclaration(
                q,
            ) => ConvertErrorView::TypeContainingForwardDeclaration(q@),
            ConvertError::Blocked(q) => ConvertErrorView::Blocked(q@),
            ConvertError::UnusedTemplateParam => ConvertErrorView::UnusedTemplateParam,
            ConvertError::TooManyUnderscores => ConvertErrorView::TooManyUnderscores,
            ConvertError::ReservedName => ConvertErrorView::ReservedName,
            ConvertError::UnknownDependentType => ConvertErrorView::UnknownDependentType,
            ConvertError::IgnoredDependent => ConvertErrorView::IgnoredDependent,
            ConvertError::MoveConstructorUnsupported => ConvertErrorView::MoveConstructorUnsupported,
        }
    }
}

/// The text of an optional identifier in a diagnostic.
pub open spec fn maybe_identifier_text(id: Option<Seq<char>>) -> Seq<char> {
    match id {
        Some(s) => s,
        None => "<unknown>"@,
    }
}

/// The human-readable diagnostic for an error.
pub open spec fn error_message(e: ConvertErrorView) -> Seq<char> {
    match e {
        ConvertErrorView::NoContent => "The initial run of 'bindgen' did not generate any content. This might be because none of the requested items for generation could be converted."@,
        ConvertErrorView::UnsafePodType(err) => "An item was requested using 'generate_pod' which was not safe to hold by value in Rust. "@ + err,
        ConvertErrorView::UnexpectedForeignItem => "Bindgen generated some unexpected code in a foreign mod section. You may have specified something in a 'generate' directive which is not currently compatible with autocxx."@,
        ConvertErrorView::UnexpectedOuterItem => "Bindgen generated some unexpected code in its outermost mod section. You may have specified something in a 'generate' directive which is not currently compatible with autocxx."@,
        ConvertErrorView::UnexpectedItemInMod => "Bindgen generated some unexpected code in an inner namespace mod. You may have specified something in a 'generate' directive which is not currently compatible with autocxx."@,
        ConvertErrorView::ComplexTypedefTarget(ty) => "autocxx was unable to produce a typdef pointing to the complex type "@ + ty + "."@,
        ConvertErrorView::UnexpectedThisType(ns, f) => "Unexpected type for 'this' in the function "@ + f + display_suffix(ns) + "."@,
        ConvertErrorView::UnsupportedBuiltInType(ty) => "autocxx does not yet know how to support the built-in C++ type "@ + cpp_name(ty) + " - please raise an issue on github"@,
        ConvertErrorView::VirtualThisType(ns, f) => "Member function encountered where the 'this' type is 'void*', but we were unable to recognize which type that corresponds to. Function "@ + f + display_suffix(ns) + "."@,
        ConvertErrorView::ConflictingTemplatedArgsWithTypedef(tn) => "Type "@ + rendered(tn) + " has templated arguments and so does the typedef to which it points"@,
        ConvertErrorView::UnacceptableParam(f) => "Function "@ + f + " has a parameter or return type which is either on the blocklist or a forward declaration"@,
        ConvertErrorView::NotOneInputReference(f) => "Function "@ + f + " has a return reference parameter, but 0 or >1 input reference parameters, so the lifetime of the output reference cannot be deduced."@,
        ConvertErrorView::UnsupportedType(d) => "Encountered type not yet supported by autocxx: "@ + d,
        ConvertErrorView::UnknownType(d) => "Encountered type not yet known by autocxx: "@ + d,
        ConvertErrorView::StaticData(d) => "Encountered mutable static data, not yet supported: "@ + d,
        ConvertErrorView::InfinitelyRecursiveTypedef(tn) => "Encountered typedef to itself - this is a known bindgen bug: "@ + cpp_name(tn),
        ConvertErrorView::UnexpectedUseStatement(id) => "Unexpected 'use' statement encountered: "@ + maybe_identifier_text(id),
        ConvertErrorView::TemplatedTypeContainingNonPathArg(tn) => "Type "@ + rendered(tn) + " was parameterized over something complex which we don't yet support"@,
        ConvertErrorView::InvalidPointee => "Pointer pointed to something unsupported"@,
        ConvertErrorView::DidNotGenerateAnything(d) => "The 'generate' or 'generate_pod' directive for '"@ + d + "' did not result in any code being generated. Perhaps this was mis-spelled or you didn't qualify the name with any namespaces? Otherwise please report a bug."@,
        ConvertErrorView::TypeContainingForwardDeclaration(tn) => "Found an attempt at using a forward declaration ("@ + cpp_name(tn) + ") inside a templated cxx type such as UniquePtr or CxxVector"@,
        ConvertErrorView::Blocked(tn) => "Found an attempt at using a type marked as blocked! ("@ + cpp_name(tn) + ")"@,
        ConvertErrorView::UnusedTemplateParam => "This function or method uses a type where one of the template parameters was incomprehensible to bindgen/autocxx - probably because it uses template specialization."@,
        ConvertErrorView::TooManyUnderscores => "Names containing __ are reserved by C++ so not acceptable to cxx"@,
        ConvertErrorView::UnknownDependentType => "This item relies on a type not known to autocxx."@,
        ConvertErrorView::IgnoredDependent => "This item depends on some other type which autocxx could not generate."@,
        ConvertErrorView::MoveConstructorUnsupported => "This is a move constructor, for which we currently cannot generate bindings."@,
        ConvertErrorView::ReservedName => "This name is reserved in Rust."@,
    }
}

fn cat2(a: &str, b: &str) -> (r: String)
    ensures
        r@ == a@ + b@,
{
    let mut s = owned(a);
    s.append(b);
    s
}

fn cat3(a: &str, b: &str, c: &str) -> (r: String)
    ensures
        r@ == a@ + b@ + c@,
{
    let mut s = owned(a);
    s.append(b);
    s.append(c);
    s
}

fn cat4(a: &str, b: &str, c: &str, d: &str) -> (r: String)
    ensures
        r@ == a@ + b@ + c@ + d@,
{
    let mut s = owned(a);
    s.append(b);
    s.append(c);
    s.append(d);
    s
}

/// The text of an optional identifier in a diagnostic.
fn format_maybe_identifier(id: &Option<String>) -> (r: String)
    ensures
        r@ == maybe_identifier_text(
            match id {
                Some(s) => Some(s@),
                None => None,
            },
        ),
{
    match id {
        Some(id) => owned(id.as_str()),
        None => owned("<unknown>"),
    }
}

impl ConvertError {
    /// The human-readable diagnostic for this error.
    pub fn to_message(&self) -> (r: String)
        ensures
            r@ == error_message(self@),
    {
        match self {
            ConvertError::NoContent => owned("The initial run of 'bindgen' did not generate any content. This might be because none of the requested items for generation could be converted."),
            ConvertError::UnsafePodType(err) => cat2("An item was requested using 'generate_pod' which was not safe to hold by value in Rust. ", err.as_str()),
            ConvertError::UnexpectedForeignItem => owned("Bindgen generated some unexpected code in a foreign mod section. You may have specified something in a 'generate' directive which is not currently compatible with autocxx."),
            ConvertError::UnexpectedOuterItem => owned("Bindgen generated some unexpected code in its outermost mod section. You may have specified something in a 'generate' directive which is not currently compatible with autocxx."),
            ConvertError::UnexpectedItemInMod => owned("Bindgen generated some unexpected code in an inner namespace mod. You may have specified something in a 'generate' directive which is not currently compatible with autocxx."),
            ConvertError::ComplexTypedefTarget(ty) => cat3("autocxx was unable to produce a typdef pointing to the complex type ", ty.as_str(), "."),
            ConvertError::UnexpectedThisType(ns, f) => {
                let suffix = ns.to_display_suffix();
                cat4("Unexpected type for 'this' in the function ", f.as_str(), suffix.as_str(), ".")
            },
            ConvertError::UnsupportedBuiltInType(ty) => {
                let n = ty.to_cpp_name();
                cat3("autocxx does not yet know how to support the built-in C++ type ", n.as_str(), " - please raise an issue on github")
            },
            ConvertError::VirtualThisType(ns, f) => {
                let suffix = ns.to_display_suffix();
                cat4("Member function encountered where the 'this' type is 'void*', but we were unable to recognize which type that corresponds to. Function ", f.as_str(), suffix.as_str(), ".")
            },
            ConvertError::ConflictingTemplatedArgsWithTypedef(tn) => {
                let n = tn.to_string();
                cat3("Type ", n.as_str(), " has templated arguments and so does the typedef to which it points")
            },
            ConvertError::UnacceptableParam(f) => cat3("Function ", f.as_str(), " has a parameter or return type which is either on the blocklist or a forward declaration"),
            ConvertError::NotOneInputReference(f) => cat3("Function ", f.as_str(), " has a return reference parameter, but 0 or >1 input reference parameters, so the lifetime of the output reference cannot be deduced."),
            ConvertError::UnsupportedType(d) => cat2("Encountered type not yet supported by autocxx: ", d.as_str()),
            ConvertError::UnknownType(d) => cat2("Encountered type not yet known by autocxx: ", d.as_str()),
            ConvertError::StaticData(d) => cat2("Encountered mutable static data, not yet supported: ", d.as_str()),
            ConvertError::InfinitelyRecursiveTypedef(tn) => {
                let n = tn.to_cpp_name();
                cat2("Encountered typedef to itself - this is a known bindgen bug: ", n.as_str())
            },
            ConvertError::UnexpectedUseStatement(id) => {
                let n = format_maybe_identifier(id);
                cat2("Unexpected 'use' statement encountered: ", n.as_str())
            },
            ConvertError::TemplatedTypeContainingNonPathArg(tn) => {
                let n = tn.to_string();
                cat3("Type ", n.as_str(), " was parameterized over something complex which we don't yet support")
            },
            ConvertError::InvalidPointee => owned("Pointer pointed to something unsupported"),
            ConvertError::DidNotGenerateAnything(d) => cat3("The 'generate' or 'generate_pod' directive for '", d.as_str(), "' did not result in any code being generated. Perhaps this was mis-spelled or you didn't qualify the name with any namespaces? Otherwise please report a bug."),
            ConvertError::TypeContainingForwardDeclaration(tn) => {
                let n = tn.to_cpp_name();
                cat3("Found an attempt at using a forward declaration (", n.as_str(), ") inside a templated cxx type such as UniquePtr or CxxVector")
            },
            ConvertError::Blocked(tn) => {
                let n = tn.to_cpp_name();
                cat3("Found an attempt at using a type marked as blocked! (", n.as_str(), ")")
            },
            ConvertError::UnusedTemplateParam => owned("This function or method uses a type where one of the template parameters was incomprehensible to bindgen/autocxx - probably because it uses template specialization."),
            ConvertError::TooManyUnderscores => owned("Names containing __ are reserved by C++ so not acceptable to cxx"),
            ConvertError::UnknownDependentType => owned("This item relies on a type not known to autocxx."),
            ConvertError::IgnoredDependent => owned("This item depends on some other type which autocxx could not generate."),
            ConvertError::MoveConstructorUnsupported => owned("This is a move constructor, for which we currently cannot generate bindings."),
            ConvertError::ReservedName => owned("This name is reserved in Rust."),
        }
    }
}

/// Where an error arose: an item, or a method of a type.
pub enum ErrorContext {
    Item(String),
    Method { self_ty: String, method: String },
}

/// An `ErrorContext` as values.
pub enum ErrorContextView {
    Item(Seq<char>),
    Method { self_ty: Seq<char>, method: Seq<char> },
}

impl View for ErrorContext {
    type V = ErrorContextView;

    open spec fn view(&self) -> ErrorContextView {
        match self {
            ErrorContext::Item(id) => ErrorContextView::Item(id@),
            ErrorContext::Method { self_ty, method } => ErrorContextView::Method {
                self_ty: self_ty@,
                method: method@,
            },
        }
    }
}

/// The context of an optional error context, as values.
pub open spec fn ctx_view(c: Option<ErrorContext>) -> Option<ErrorContextView> {
    match c {
        Some(x) => Some(x@),
        None => None,
    }
}

impl ErrorContext {
    /// The item of the bindings with which the error should be reported.
    pub fn get_id(&self) -> (r: &String)
        ensures
            r@ == match self {
                ErrorContext::Item(id) => id@,
                ErrorContext::Method { self_ty, .. } => self_ty@,
            },
    {
        match self {
            ErrorContext::Item(id) => id,
            ErrorContext::Method { self_ty, method: _ } => self_ty,
        }
    }

    /// `item`, or `type::method`.
    pub fn to_message(&self) -> (r: String)
        ensures
            r@ == match self {
                ErrorContext::Item(id) => id@,
                ErrorContext::Method { self_ty, method } => self_ty@ + "::"@ + method@,
            },
    {
        match self {
            ErrorContext::Item(id) => owned(id.as_str()),
            ErrorContext::Method { self_ty, method } => cat3(self_ty.as_str(), "::", method.as_str()),
        }
    }
}

/// An error and, where known, where it arose.
pub struct ConvertErrorWithContext(pub ConvertError, pub Option<ErrorContext>);

impl ConvertErrorWithContext {
    /// The diagnostic of the error.
    pub fn to_message(&self) -> (r: String)
        ensures
            r@ == error_message(self.0@),
    {
        self.0.to_message()
    }
}

} // verus!
