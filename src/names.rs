use vstd::prelude::*;

use crate::error::ConvertError;
use crate::known_types::{find_known, lookup_known};
use crate::text::{
    join, joined, owned, push_terminated, split_path, split_segments, str_eq, terminated,
};

verus! {

pub type NamespaceView = Seq<Seq<char>>;

/// A qualified name as values: its namespace segments and its final item.
pub type QualifiedNameView = (Seq<Seq<char>>, Seq<char>);

/// The characters of each string.
pub open spec fn views_of(v: Seq<String>) -> Seq<Seq<char>> {
    v.map_values(|s: String| s@)
}

pub proof fn lemma_views_push(v: Seq<String>, s: String)
    ensures
        views_of(v.push(s)) == views_of(v).push(s@),
        views_of(v).len() == v.len(),
{
    assert(views_of(v.push(s)) =~= views_of(v).push(s@));
}

pub proof fn lemma_views_len(v: Seq<String>)
    ensures
        views_of(v).len() == v.len(),
        forall|i: int| 0 <= i < v.len() ==> #[trigger] views_of(v)[i] == v[i]@,
{
}

/// A C++ namespace: an ordered list of segments, possibly empty.
#[derive(Debug, Clone, Eq, Hash, PartialOrd, Ord)]
pub struct Namespace(Vec<String>);

impl View for Namespace {
    type V = NamespaceView;

    closed spec fn view(&self) -> NamespaceView {
        views_of(self.0@)
    }
}

/// A copy of each string of `v`.
fn copy_strings(v: &Vec<String>) -> (r: Vec<String>)
    ensures
        views_of(r@) == views_of(v@),
{
    let mut r: Vec<String> = Vec::new();
    let mut i: usize = 0;
    while i < v.len()
        invariant
            i <= v.len(),
            views_of(r@) == views_of(v@).subrange(0, i as int),
        decreases v.len() - i,
    {
        let s = v[i].clone();
        proof {
            lemma_views_push(r@, s);
        }
        r.push(s);
        assert(views_of(r@) =~= views_of(v@).subrange(0, i + 1));
        i = i + 1;
    }
    assert(views_of(v@).subrange(0, v.len() as int) =~= views_of(v@));
    r
}

/// Whether two lists of strings hold the same characters, item by item.
fn strings_eq(a: &Vec<String>, b: &Vec<String>) -> (r: bool)
    ensures
        r == (views_of(a@) == views_of(b@)),
{
    if a.len() != b.len() {
        assert(views_of(a@).len() != views_of(b@).len());
        return false;
    }
    let mut i: usize = 0;
    while i < a.len()
        invariant
            a.len() == b.len(),
            i <= a.len(),
            views_of(a@).subrange(0, i as int) == views_of(b@).subrange(0, i as int),
        decreases a.len() - i,
    {
        if !str_eq(a[i].as_str(), b[i].as_str()) {
            assert(views_of(a@)[i as int] != views_of(b@)[i as int]);
            return false;
        }
        assert(views_of(a@).subrange(0, i + 1) =~= views_of(a@).subrange(0, i as int).push(
            a@[i as int]@,
        ));
        assert(views_of(b@).subrange(0, i + 1) =~= views_of(b@).subrange(0, i as int).push(
            b@[i as int]@,
        ));
        i = i + 1;
    }
    assert(views_of(a@) =~= views_of(a@).subrange(0, a.len() as int));
    assert(views_of(b@) =~= views_of(b@).subrange(0, b.len() as int));
    true
}

/// `" (in namespace a::b)"` for a non-empty namespace, empty otherwise.
pub open spec fn display_suffix(ns: NamespaceView) -> Seq<char> {
    if ns.len() == 0 {
        Seq::empty()
    } else {
        " (in namespace "@ + joined(ns, "::"@) + ")"@
    }
}

impl Namespace {
    /// The empty (global) namespace.
    pub fn new() -> (r: Self)
        ensures
            r@ == Seq::<Seq<char>>::empty(),
    {
        let r = Namespace(Vec::new());
        assert(r@ =~= Seq::<Seq<char>>::empty());
        r
    }

    /// The namespace nested in this one under `segment`; this one is unchanged.
    pub fn push(&self, segment: String) -> (r: Self)
        ensures
            r@ == self@.push(segment@),
    {
        let mut bigger = copy_strings(&self.0);
        let ghost before = bigger@;
        proof {
            lemma_views_push(bigger@, segment);
        }
        bigger.push(segment);
        Namespace(bigger)
    }

    pub fn is_empty(&self) -> (r: bool)
        ensures
            r == (self@.len() == 0),
    {
        self.0.len() == 0
    }

    /// The segments, outermost first.
    pub fn iter(&self) -> (r: &Vec<String>)
        ensures
            views_of(r@) == self@,
    {
        &self.0
    }

    /// A namespace from `::`-separated text such as `a::b`.
    pub fn from_user_input(input: &str) -> (r: Self)
        ensures
            r@ == split_path(input@),
    {
        Namespace(split_segments(input))
    }

    /// The number of segments.
    pub fn depth(&self) -> (r: usize)
        ensures
            r == self@.len(),
    {
        self.0.len()
    }

    /// Text to append to a diagnostic that names something in this namespace.
    pub fn to_display_suffix(&self) -> (r: String)
        ensures
            r@ == display_suffix(self@),
    {
        if self.is_empty() {
            String::new()
        } else {
            let mut s = owned(" (in namespace ");
            let j = join(&self.0, "::");
            s.append(j.as_str());
            s.append(")");
            s
        }
    }

    /// The segments joined by `::`.
    pub fn to_string(&self) -> (r: String)
        ensures
            r@ == joined(self@, "::"@),
    {
        join(&self.0, "::")
    }

    /// A copy of this namespace.
    pub fn duplicate(&self) -> (r: Self)
        ensures
            r@ == self@,
    {
        Namespace(copy_strings(&self.0))
    }
}

impl PartialEq for Namespace {
    fn eq(&self, other: &Namespace) -> (r: bool) {
        strings_eq(&self.0, &other.0)
    }
}

impl vstd::std_specs::cmp::PartialEqSpecImpl for Namespace {
    open spec fn obeys_eq_spec() -> bool {
        true
    }

    open spec fn eq_spec(&self, other: &Namespace) -> bool {
        self@ == other@
    }
}

/// The segments of a namespace, then the final item, joined by `::`.
pub open spec fn rendered(q: QualifiedNameView) -> Seq<char> {
    terminated(q.0, "::"@) + q.1
}

/// The C++ spelling of a name: that of the built-in types table for a known
/// type, else the qualified name itself.
pub open spec fn cpp_name(q: QualifiedNameView) -> Seq<char> {
    match find_known(rendered(q)) {
        Some(k) => k.1,
        None => rendered(q),
    }
}

/// The path of a name on the Rust side of the bridge: the table's path for a
/// known type, else the name under the `root` module.
pub open spec fn type_path(q: QualifiedNameView) -> Seq<Seq<char>> {
    match find_known(rendered(q)) {
        Some(k) => split_path(k.2),
        None => seq!["root"@] + q.0 + seq![q.1],
    }
}

/// A name from its namespace segments and final item: all but the last
/// segment of a path form the namespace.
pub open spec fn name_of_segments(segs: Seq<Seq<char>>) -> QualifiedNameView {
    (segs.drop_last(), segs.last())
}

/// A name from a type path, without the `root` prefix that C++ types carry.
pub open spec fn name_of_type_path(segs: Seq<Seq<char>>) -> QualifiedNameView {
    if segs[0] == "root"@ {
        name_of_segments(segs.drop_first())
    } else {
        name_of_segments(segs)
    }
}

/// The non-empty strings of `s`, in order.
pub open spec fn non_empty(s: Seq<Seq<char>>) -> Seq<Seq<char>> {
    s.filter(|x: Seq<char>| x.len() > 0)
}

/// A name from user text `a::b::C`: empty namespace segments are dropped.
pub open spec fn name_of_cpp_text(s: Seq<char>) -> QualifiedNameView {
    (non_empty(split_path(s).drop_last()), split_path(s).last())
}

/// A name the bridge knows: a namespace and a final item.
#[derive(Debug, Eq, Hash, PartialOrd, Ord)]
pub struct QualifiedName(Namespace, String);

impl View for QualifiedName {
    type V = QualifiedNameView;

    closed spec fn view(&self) -> QualifiedNameView {
        (self.0@, self.1@)
    }
}

pub proof fn lemma_split_path_non_empty(s: Seq<char>)
    ensures
        split_path(s).len() >= 1,
{
    reveal_with_fuel(crate::text::split_from, 1);
}

impl QualifiedName {
    /// The final item of a name is never empty.
    #[verifier::type_invariant]
    spec fn has_leaf(self) -> bool {
        self.1@.len() > 0
    }

    /// A name from a type path; a leading `root` segment marks a C++ type and
    /// is dropped.
    pub fn from_type_path(segs: &Vec<String>) -> (r: Self)
        requires
            segs.len() >= 1,
            segs[0]@ == "root"@ ==> segs.len() >= 2,
            segs[segs.len() - 1]@.len() > 0,
        ensures
            r@ == name_of_type_path(views_of(segs@)),
    {
        if str_eq(segs[0].as_str(), "root") {
            Self::from_segments(segs, 1)
        } else {
            Self::from_segments(segs, 0)
        }
    }

    /// The name made of `segs[start..]`.
    fn from_segments(segs: &Vec<String>, start: usize) -> (r: Self)
        requires
            start < segs.len(),
            segs[segs.len() - 1]@.len() > 0,
        ensures
            r@ == name_of_segments(views_of(segs@).subrange(start as int, segs.len() as int)),
    {
        let ghost v = views_of(segs@).subrange(start as int, segs.len() as int);
        let mut ns = Namespace::new();
        let mut i: usize = start;
        while i + 1 < segs.len()
            invariant
                start <= i < segs.len(),
                v == views_of(segs@).subrange(start as int, segs.len() as int),
                ns@ == v.subrange(0, i - start),
            decreases segs.len() - i,
        {
            ns = ns.push(segs[i].clone());
            assert(ns@ =~= v.subrange(0, i + 1 - start));
            i = i + 1;
        }
        assert(ns@ =~= v.drop_last());
        QualifiedName(ns, segs[i].clone())
    }

    /// A name from a namespace and a final item.
    pub fn new(ns: &Namespace, id: String) -> (r: Self)
        requires
            id@.len() > 0,
        ensures
            r@ == (ns@, id@),
    {
        QualifiedName(ns.duplicate(), id)
    }

    /// A name from user text such as `a::b::C`, as in a directive.
    pub fn new_from_cpp_name(id: &str) -> (r: Self)
        requires
            split_path(id@).last().len() > 0,
        ensures
            r@ == name_of_cpp_text(id@),
    {
        let segs = split_segments(id);
        let ghost v = split_path(id@);
        proof {
            lemma_split_path_non_empty(id@);
        }
        let mut ns = Namespace::new();
        let mut i: usize = 0;
        while i + 1 < segs.len()
            invariant
                views_of(segs@) == v,
                v.len() >= 1,
                i < segs.len(),
                ns@ == non_empty(v.subrange(0, i as int)),
            decreases segs.len() - i,
        {
            let ghost pre = v.subrange(0, i as int);
            assert(v.subrange(0, i + 1) =~= pre.push(v[i as int]));
            proof {
                reveal_with_fuel(Seq::filter, 1);
                assert(pre.push(v[i as int]).drop_last() =~= pre);
            }
            if segs[i].as_str().unicode_len() > 0 {
                ns = ns.push(segs[i].clone());
                assert(ns@ =~= non_empty(v.subrange(0, i + 1)));
            } else {
                assert(ns@ =~= non_empty(v.subrange(0, i + 1)));
            }
            i = i + 1;
        }
        assert(v.subrange(0, i as int) =~= v.drop_last());
        QualifiedName(ns, segs[i].clone())
    }

    /// The final item, without its namespace.
    pub fn get_final_item(&self) -> (r: &str)
        ensures
            r@ == self@.1,
            r@.len() > 0,
    {
        proof {
            use_type_invariant(self);
        }
        self.1.as_str()
    }

    /// Checks the final item against what the C++ side of the bridge accepts.
    pub fn validate_ok_for_cxx(&self) -> (r: Result<(), ConvertError>)
        ensures
            r == ident_check_for_cxx(self@.1),
    {
        validate_ident_ok_for_cxx(self.get_final_item())
    }

    pub fn get_namespace(&self) -> (r: &Namespace)
        ensures
            r@ == self@.0,
    {
        &self.0
    }

    /// The path in the generated bindings: `bindgen::root::`, the namespace, the item.
    pub fn get_bindgen_path_idents(&self) -> (r: Vec<String>)
        ensures
            views_of(r@) == seq!["bindgen"@, "root"@] + self@.0 + seq![self@.1],
    {
        let mut r: Vec<String> = Vec::new();
        r.push(owned("bindgen"));
        r.push(owned("root"));
        let ns = self.0.iter();
        let mut i: usize = 0;
        while i < ns.len()
            invariant
                views_of(ns@) == self@.0,
                i <= ns.len(),
                views_of(r@) == seq!["bindgen"@, "root"@] + self@.0.subrange(0, i as int),
            decreases ns.len() - i,
        {
            let seg = ns[i].clone();
            proof {
                lemma_views_push(r@, seg);
            }
            r.push(seg);
            assert(views_of(r@) =~= seq!["bindgen"@, "root"@] + self@.0.subrange(0, i + 1));
            i = i + 1;
        }
        let last = self.1.clone();
        proof {
            lemma_views_push(r@, last);
        }
        r.push(last);
        assert(views_of(r@) =~= seq!["bindgen"@, "root"@] + self@.0 + seq![self@.1]);
        r
    }

    /// The segments and the item joined by `::`.
    pub fn to_string(&self) -> (r: String)
        ensures
            r@ == rendered(self@),
    {
        let mut s = String::new();
        push_terminated(&mut s, &self.0.0, "::");
        s.append(self.1.as_str());
        s
    }

    /// The fully qualified C++ spelling, with the table's spelling for
    /// built-in types (`i8` is `int8_t`).
    pub fn to_cpp_name(&self) -> (r: String)
        ensures
            r@ == cpp_name(self@),
    {
        let s = self.to_string();
        match lookup_known(s.as_str()) {
            Some(k) => k.cpp_name,
            None => s,
        }
    }

    /// The path on the Rust side of the bridge.
    pub fn to_type_path(&self) -> (r: Vec<String>)
        ensures
            views_of(r@) == type_path(self@),
    {
        let s = self.to_string();
        match lookup_known(s.as_str()) {
            Some(k) => split_segments(k.rust_path.as_str()),
            None => {
                let mut r = self.get_bindgen_path_idents();
                let ghost before = views_of(r@);
                assert(before.len() == r@.len());
                r.remove(0);
                assert(views_of(r@) =~= seq!["root"@] + self@.0 + seq![self@.1]) by {
                    assert(views_of(r@) =~= before.drop_first());
                }
                r
            }
        }
    }

    /// The segments of the namespace.
    pub fn ns_segment_iter(&self) -> (r: &Vec<String>)
        ensures
            views_of(r@) == self@.0,
    {
        self.0.iter()
    }

    /// Whether this is C++ `void`.
    pub fn is_cvoid(&self) -> (r: bool)
        ensures
            r == (cpp_name(self@) == "void"@),
    {
        str_eq(self.to_cpp_name().as_str(), "void")
    }

    /// A copy of this name.
    pub fn duplicate(&self) -> (r: Self)
        ensures
            r@ == self@,
    {
        proof {
            use_type_invariant(self);
        }
        QualifiedName(self.0.duplicate(), self.1.clone())
    }
}

impl Clone for QualifiedName {
    fn clone(&self) -> (r: Self)
        ensures
            r@ == self@,
    {
        self.duplicate()
    }
}

impl PartialEq for QualifiedName {
    fn eq(&self, other: &QualifiedName) -> (r: bool) {
        strings_eq(&self.0.0, &other.0.0) && str_eq(self.1.as_str(), other.1.as_str())
    }
}

impl vstd::std_specs::cmp::PartialEqSpecImpl for QualifiedName {
    open spec fn obeys_eq_spec() -> bool {
        true
    }

    open spec fn eq_spec(&self, other: &QualifiedName) -> bool {
        self@ == other@
    }
}

/// Names that C++ accepts and Rust reserves.
pub open spec fn reserved_rust_name(id: Seq<char>) -> bool {
    id == "move"@ || id == "ref"@ || id == "async"@ || id == "await"@
}

pub open spec fn ident_check_for_rust(id: Seq<char>) -> Result<(), ConvertError> {
    if reserved_rust_name(id) {
        Err(ConvertError::ReservedName)
    } else {
        Ok(())
    }
}

pub open spec fn ident_check_for_cxx(id: Seq<char>) -> Result<(), ConvertError> {
    if reserved_rust_name(id) {
        Err(ConvertError::ReservedName)
    } else if crate::text::has_double_underscore(id) {
        Err(ConvertError::TooManyUnderscores)
    } else {
        Ok(())
    }
}

/// Checks an identifier for the C++ side of the bridge, which also refuses
/// names holding `__`.
pub fn validate_ident_ok_for_cxx(id: &str) -> (r: Result<(), ConvertError>)
    ensures
        r == ident_check_for_cxx(id@),
{
    validate_ident_ok_for_rust(id)?;
    if crate::text::contains_double_underscore(id) {
        Err(ConvertError::TooManyUnderscores)
    } else {
        Ok(())
    }
}

/// Checks an identifier against the names Rust reserves.
pub fn validate_ident_ok_for_rust(id: &str) -> (r: Result<(), ConvertError>)
    ensures
        r == ident_check_for_rust(id@),
{
    if str_eq(id, "move") || str_eq(id, "ref") || str_eq(id, "async") || str_eq(id, "await") {
        Err(ConvertError::ReservedName)
    } else {
        Ok(())
    }
}

} // verus!
