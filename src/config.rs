use vstd::prelude::*;

use crate::names::{lemma_views_push, views_of};
use crate::text::{owned, str_eq};

verus! {

/// Whether the generated functions are `unsafe` to call.
#[derive(Debug, Clone, Copy, PartialEq, Eq, Structural, Hash)]
pub enum UnsafePolicy {
    AllFunctionsSafe,
    AllFunctionsUnsafe,
}

/// A token inside a directive's parentheses.
pub enum ConfigToken {
    Ident(String),
    Punct(char),
    Literal(String),
}

/// Why a directive was refused.
#[derive(Debug, Clone, Copy, PartialEq, Eq, Structural)]
pub enum ConfigError {
    /// `safety!(x)` with an identifier other than `unsafe` or `unsafe_ffi`.
    ExpectedUnsafeFfi,
    /// `safety!(...)` with more than one token.
    UnexpectedTokensInSafety,
    /// `generate_all!` together with `generate!` or `generate_pod!`.
    ConflictingAllowlist,
    /// `#` not followed by `include`.
    ExpectedInclude,
    /// A directive that takes one string literal was given something else.
    ExpectedLiteral,
    /// `name!(...)` without exactly one identifier.
    ExpectedIdent,
    /// A directive without its parentheses.
    ExpectedParenthesis,
    /// A directive that takes no argument was given some.
    ExpectedNoArguments,
    /// An identifier that names no directive.
    UnknownDirective,
    /// A token that cannot start a directive.
    ExpectedDirective,
}

impl ConfigError {
    pub fn to_message(&self) -> (r: String)
        ensures
            r@ == match self {
                ConfigError::ExpectedUnsafeFfi => "expected unsafe_ffi"@,
                ConfigError::UnexpectedTokensInSafety => "unexpected tokens within safety directive"@,
                ConfigError::ConflictingAllowlist => "use either generate!/generate_pod! or generate_all!, not both."@,
                ConfigError::ExpectedInclude => "expected include"@,
                ConfigError::ExpectedLiteral => "expected a string literal"@,
                ConfigError::ExpectedIdent => "expected an identifier"@,
                ConfigError::ExpectedParenthesis => "expected a parenthesized argument list"@,
                ConfigError::ExpectedNoArguments => "expected no arguments to directive"@,
                ConfigError::UnknownDirective => "expected generate, generate_pod, nested_type, safety or exclude_utilities"@,
                ConfigError::ExpectedDirective => "expected identifier"@,
            },
    {
        match self {
            ConfigError::ExpectedUnsafeFfi => owned("expected unsafe_ffi"),
            ConfigError::UnexpectedTokensInSafety => owned("unexpected tokens within safety directive"),
            ConfigError::ConflictingAllowlist => owned(
                "use either generate!/generate_pod! or generate_all!, not both.",
            ),
            ConfigError::ExpectedInclude => owned("expected include"),
            ConfigError::ExpectedLiteral => owned("expected a string literal"),
            ConfigError::ExpectedIdent => owned("expected an identifier"),
            ConfigError::ExpectedParenthesis => owned("expected a parenthesized argument list"),
            ConfigError::ExpectedNoArguments => owned("expected no arguments to directive"),
            ConfigError::UnknownDirective => owned(
                "expected generate, generate_pod, nested_type, safety or exclude_utilities",
            ),
            ConfigError::ExpectedDirective => owned("expected identifier"),
        }
    }
}

pub enum ConfigTokenView {
    Ident(Seq<char>),
    Punct(char),
    Literal(Seq<char>),
}

impl View for ConfigToken {
    type V = ConfigTokenView;

    open spec fn view(&self) -> ConfigTokenView {
        match self {
            ConfigToken::Ident(s) => ConfigTokenView::Ident(s@),
            ConfigToken::Punct(c) => ConfigTokenView::Punct(*c),
            ConfigToken::Literal(s) => ConfigTokenView::Literal(s@),
        }
    }
}

/// The policy named by the tokens of a `safety!(...)` directive: `unsafe`
/// (whatever follows) or `unsafe_ffi` make every function safe; nothing
/// leaves them unsafe.
pub open spec fn policy_of(tokens: Seq<ConfigTokenView>) -> Result<UnsafePolicy, ConfigError> {
    if tokens.len() > 0 && tokens[0] == ConfigTokenView::Ident("unsafe"@) {
        Ok(UnsafePolicy::AllFunctionsSafe)
    } else {
        let (r, used) = match tokens.first() {
            ConfigTokenView::Ident(id) if tokens.len() > 0 => {
                if id == "unsafe_ffi"@ {
                    (Ok(UnsafePolicy::AllFunctionsSafe), 1nat)
                } else {
                    (Err(ConfigError::ExpectedUnsafeFfi), 1nat)
                }
            },
            _ => (Ok(UnsafePolicy::AllFunctionsUnsafe), 0nat),
        };
        if tokens.len() > used {
            Err(ConfigError::UnexpectedTokensInSafety)
        } else {
            r
        }
    }
}

impl UnsafePolicy {
    /// Reads the tokens of a `safety!(...)` directive.
    pub fn parse(tokens: &Vec<ConfigToken>) -> (r: Result<UnsafePolicy, ConfigError>)
        ensures
            r == policy_of(tokens@.map_values(|t: ConfigToken| t@)),
    {
        let ghost v = tokens@.map_values(|t: ConfigToken| t@);
        if tokens.len() > 0 {
            if let ConfigToken::Ident(id) = &tokens[0] {
                if str_eq(id.as_str(), "unsafe") {
                    assert(v[0] == ConfigTokenView::Ident("unsafe"@));
                    return Ok(UnsafePolicy::AllFunctionsSafe);
                }
                assert(v[0] != ConfigTokenView::Ident("unsafe"@));
                let r = if str_eq(id.as_str(), "unsafe_ffi") {
                    Ok(UnsafePolicy::AllFunctionsSafe)
                } else {
                    Err(ConfigError::ExpectedUnsafeFfi)
                };
                if tokens.len() > 1 {
                    return Err(ConfigError::UnexpectedTokensInSafety);
                }
                return r;
            }
            assert(v[0] != ConfigTokenView::Ident("unsafe"@));
            return Err(ConfigError::UnexpectedTokensInSafety);
        }
        Ok(UnsafePolicy::AllFunctionsUnsafe)
    }
}

/// Which items the user asked to generate.
#[derive(Debug)]
pub enum Allowlist {
    /// No `generate` directive yet.
    Unspecified,
    /// `generate_all!()`.
    All,
    /// The names given by `generate!` and `generate_pod!`.
    Specific(Vec<String>),
}

pub enum AllowlistView {
    Unspecified,
    All,
    Specific(Seq<Seq<char>>),
}

impl View for Allowlist {
    type V = AllowlistView;

    open spec fn view(&self) -> AllowlistView {
        match self {
            Allowlist::Unspecified => AllowlistView::Unspecified,
            Allowlist::All => AllowlistView::All,
            Allowlist::Specific(v) => AllowlistView::Specific(views_of(v@)),
        }
    }
}

impl Allowlist {
    /// Adds a name asked for by `generate!` or `generate_pod!`.
    pub fn push(&mut self, item: String) -> (r: Result<(), ConfigError>)
        ensures
            match old(self)@ {
                AllowlistView::Unspecified => r is Ok && final(self)@ == AllowlistView::Specific(
                    seq![item@],
                ),
                AllowlistView::All => r == Err::<(), ConfigError>(ConfigError::ConflictingAllowlist)
                    && final(self)@ == old(self)@,
                AllowlistView::Specific(v) => r is Ok && final(self)@ == AllowlistView::Specific(
                    v.push(item@),
                ),
            },
    {
        match self {
            Allowlist::Unspecified => {
                let mut v: Vec<String> = Vec::new();
                proof {
                    lemma_views_push(v@, item);
                }
                v.push(item);
                assert(views_of(v@) =~= seq![item@]);
                *self = Allowlist::Specific(v);
            },
            Allowlist::All => {
                return Err(ConfigError::ConflictingAllowlist);
            },
            Allowlist::Specific(list) => {
                proof {
                    lemma_views_push(list@, item);
                }
                list.push(item);
            },
        }
        Ok(())
    }

    /// Records `generate_all!()`.
    pub fn set_all(&mut self) -> (r: Result<(), ConfigError>)
        ensures
            match old(self)@ {
                AllowlistView::Specific(_) => r == Err::<(), ConfigError>(
                    ConfigError::ConflictingAllowlist,
                ) && final(self)@ == old(self)@,
                _ => r is Ok && final(self)@ == AllowlistView::All,
            },
    {
        if let Allowlist::Specific(_) = self {
            return Err(ConfigError::ConflictingAllowlist);
        }
        *self = Allowlist::All;
        Ok(())
    }
}

impl Default for Allowlist {
    fn default() -> (r: Self)
        ensures
            r@ == AllowlistView::Unspecified,
    {
        Allowlist::Unspecified
    }
}

/// One directive of an `include_cpp!` block.
pub enum Directive {
    /// `#include "header.h"`
    Include(String),
    /// `generate!("Name")`
    Generate(String),
    /// `generate_pod!("Name")`
    GeneratePod(String),
    /// `pod!("Name")`
    Pod(String),
    /// `block!("Name")`
    Block(String),
    /// `parse_only!()`
    ParseOnly,
    /// `generate_all!()`
    GenerateAll,
    /// `name!(ident)`
    Name(String),
    /// `exclude_utilities!()`
    ExcludeUtilities,
    /// `safety!(...)`, already read.
    Safety(UnsafePolicy),
}

/// The configuration given by the directives of an `include_cpp!` block.
pub struct IncludeCppConfig {
    pub inclusions: Vec<String>,
    pub unsafe_policy: UnsafePolicy,
    pub parse_only: bool,
    pod_requests: Vec<String>,
    allowlist: Allowlist,
    blocklist: Vec<String>,
    exclude_utilities: bool,
    mod_name: Option<String>,
}

pub struct IncludeCppConfigView {
    pub inclusions: Seq<Seq<char>>,
    pub unsafe_policy: UnsafePolicy,
    pub parse_only: bool,
    pub pod_requests: Seq<Seq<char>>,
    pub allowlist: AllowlistView,
    pub blocklist: Seq<Seq<char>>,
    pub exclude_utilities: bool,
    pub mod_name: Option<Seq<char>>,
}

impl View for IncludeCppConfig {
    type V = IncludeCppConfigView;

    closed spec fn view(&self) -> IncludeCppConfigView {
        IncludeCppConfigView {
            inclusions: views_of(self.inclusions@),
            unsafe_policy: self.unsafe_policy,
            parse_only: self.parse_only,
            pod_requests: views_of(self.pod_requests@),
            allowlist: self.allowlist@,
            blocklist: views_of(self.blocklist@),
            exclude_utilities: self.exclude_utilities,
            mod_name: match self.mod_name {
                Some(s) => Some(s@),
                None => None,
            },
        }
    }
}

/// The configuration before any directive.
pub open spec fn empty_config() -> IncludeCppConfigView {
    IncludeCppConfigView {
        inclusions: Seq::empty(),
        unsafe_policy: UnsafePolicy::AllFunctionsUnsafe,
        parse_only: false,
        pod_requests: Seq::empty(),
        allowlist: AllowlistView::Unspecified,
        blocklist: Seq::empty(),
        exclude_utilities: false,
        mod_name: None,
    }
}

pub enum DirectiveView {
    Include(Seq<char>),
    Generate(Seq<char>),
    GeneratePod(Seq<char>),
    Pod(Seq<char>),
    Block(Seq<char>),
    ParseOnly,
    GenerateAll,
    Name(Seq<char>),
    ExcludeUtilities,
    Safety(UnsafePolicy),
}

impl View for Directive {
    type V = DirectiveView;

    open spec fn view(&self) -> DirectiveView {
        match self {
            Directive::Include(s) => DirectiveView::Include(s@),
            Directive::Generate(s) => DirectiveView::Generate(s@),
            Directive::GeneratePod(s) => DirectiveView::GeneratePod(s@),
            Directive::Pod(s) => DirectiveView::Pod(s@),
            Directive::Block(s) => DirectiveView::Block(s@),
            Directive::ParseOnly => DirectiveView::ParseOnly,
            Directive::GenerateAll => DirectiveView::GenerateAll,
            Directive::Name(s) => DirectiveView::Name(s@),
            Directive::ExcludeUtilities => DirectiveView::ExcludeUtilities,
            Directive::Safety(p) => DirectiveView::Safety(*p),
        }
    }
}

/// The allowlist after one more name.
pub open spec fn allowlist_push(a: AllowlistView, item: Seq<char>) -> Result<AllowlistView, ConfigError> {
    match a {
        AllowlistView::Unspecified => Ok(AllowlistView::Specific(seq![item])),
        AllowlistView::All => Err(ConfigError::ConflictingAllowlist),
        AllowlistView::Specific(v) => Ok(AllowlistView::Specific(v.push(item))),
    }
}

/// The configuration after one more directive.
pub open spec fn apply_directive(c: IncludeCppConfigView, d: DirectiveView) -> Result<
    IncludeCppConfigView,
    ConfigError,
> {
    match d {
        DirectiveView::Include(h) => Ok(IncludeCppConfigView { inclusions: c.inclusions.push(h), ..c }),
        DirectiveView::Generate(g) => match allowlist_push(c.allowlist, g) {
            Ok(a) => Ok(IncludeCppConfigView { allowlist: a, ..c }),
            Err(e) => Err(e),
        },
        DirectiveView::GeneratePod(g) => match allowlist_push(c.allowlist, g) {
            Ok(a) => Ok(
                IncludeCppConfigView { allowlist: a, pod_requests: c.pod_requests.push(g), ..c },
            ),
            Err(e) => Err(e),
        },
        DirectiveView::Pod(p) => Ok(IncludeCppConfigView { pod_requests: c.pod_requests.push(p), ..c }),
        DirectiveView::Block(b) => Ok(IncludeCppConfigView { blocklist: c.blocklist.push(b), ..c }),
        DirectiveView::ParseOnly => Ok(IncludeCppConfigView { parse_only: true, ..c }),
        DirectiveView::GenerateAll => match c.allowlist {
            AllowlistView::Specific(_) => Err(ConfigError::ConflictingAllowlist),
            _ => Ok(IncludeCppConfigView { allowlist: AllowlistView::All, ..c }),
        },
        DirectiveView::Name(n) => Ok(IncludeCppConfigView { mod_name: Some(n), ..c }),
        DirectiveView::ExcludeUtilities => Ok(IncludeCppConfigView { exclude_utilities: true, ..c }),
        DirectiveView::Safety(p) => Ok(IncludeCppConfigView { unsafe_policy: p, ..c }),
    }
}

pub open spec fn directives_view(v: Seq<Directive>) -> Seq<DirectiveView> {
    v.map_values(|d: Directive| d@)
}

/// The configuration given by a list of directives, read in order; the
/// first refused directive ends the reading.
pub open spec fn config_of(ds: Seq<DirectiveView>) -> Result<IncludeCppConfigView, ConfigError>
    decreases ds.len(),
{
    if ds.len() == 0 {
        Ok(empty_config())
    } else {
        match config_of(ds.drop_last()) {
            Ok(c) => apply_directive(c, ds.last()),
            Err(e) => Err(e),
        }
    }
}

/// The name of the string-making utility for a module name.
pub open spec fn makestring_name(mod_name: Option<Seq<char>>) -> Seq<char> {
    "autocxx_make_string_"@ + match mod_name {
        Some(n) => n,
        None => "default"@,
    }
}

/// The utilities generated in every module, unless excluded.
pub open spec fn active_utilities(c: IncludeCppConfigView) -> Seq<Seq<char>> {
    if c.exclude_utilities {
        Seq::empty()
    } else {
        seq![makestring_name(c.mod_name)]
    }
}

/// The names to hand to the generator of raw bindings, if restricted.
pub open spec fn bindgen_allowlist(c: IncludeCppConfigView) -> Option<Seq<Seq<char>>> {
    match c.allowlist {
        AllowlistView::Specific(items) => Some(items + c.pod_requests + active_utilities(c)),
        _ => None,
    }
}

/// A copy of each string of `v`, appended to `out`.
fn append_copies(out: &mut Vec<String>, v: &Vec<String>)
    ensures
        views_of(final(out)@) == views_of(old(out)@) + views_of(v@),
{
    let mut i: usize = 0;
    while i < v.len()
        invariant
            i <= v.len(),
            views_of(out@) == views_of(old(out)@) + views_of(v@).subrange(0, i as int),
        decreases v.len() - i,
    {
        let s = v[i].clone();
        proof {
            lemma_views_push(out@, s);
        }
        out.push(s);
        assert(views_of(v@).subrange(0, i + 1) =~= views_of(v@).subrange(0, i as int).push(s@));
        assert(views_of(out@) =~= views_of(old(out)@) + views_of(v@).subrange(0, i + 1));
        i = i + 1;
    }
    assert(views_of(v@).subrange(0, i as int) =~= views_of(v@));
}

/// Whether some string of `v` holds the characters of `s`.
fn contains_str(v: &Vec<String>, s: &str) -> (r: bool)
    ensures
        r == views_of(v@).contains(s@),
{
    let mut i: usize = 0;
    while i < v.len()
        invariant
            i <= v.len(),
            forall|k: int| 0 <= k < i ==> views_of(v@)[k] != s@,
        decreases v.len() - i,
    {
        if str_eq(v[i].as_str(), s) {
            assert(views_of(v@)[i as int] == s@);
            return true;
        }
        i = i + 1;
    }
    false
}

impl IncludeCppConfig {
    /// The configuration before any directive.
    pub fn new() -> (r: Self)
        ensures
            r@ == empty_config(),
    {
        let r = IncludeCppConfig {
            inclusions: Vec::new(),
            unsafe_policy: UnsafePolicy::AllFunctionsUnsafe,
            parse_only: false,
            pod_requests: Vec::new(),
            allowlist: Allowlist::Unspecified,
            blocklist: Vec::new(),
            exclude_utilities: false,
            mod_name: None,
        };
        assert(r@.inclusions =~= Seq::<Seq<char>>::empty());
        assert(r@.pod_requests =~= Seq::<Seq<char>>::empty());
        assert(r@.blocklist =~= Seq::<Seq<char>>::empty());
        r
    }

    /// Applies one directive; a refused one leaves the configuration as it was.
    pub fn apply(&mut self, d: Directive) -> (r: Result<(), ConfigError>)
        ensures
            match apply_directive(old(self)@, d@) {
                Ok(c) => r is Ok && final(self)@ == c,
                Err(e) => r == Err::<(), ConfigError>(e) && final(self)@ == old(self)@,
            },
    {
        match d {
            Directive::Include(h) => {
                proof {
                    lemma_views_push(self.inclusions@, h);
                }
                self.inclusions.push(h);
            },
            Directive::Generate(g) => {
                self.allowlist.push(g)?;
            },
            Directive::GeneratePod(g) => {
                let copy = g.clone();
                self.allowlist.push(g)?;
                proof {
                    lemma_views_push(self.pod_requests@, copy);
                }
                self.pod_requests.push(copy);
            },
            Directive::Pod(p) => {
                proof {
                    lemma_views_push(self.pod_requests@, p);
                }
                self.pod_requests.push(p);
            },
            Directive::Block(b) => {
                proof {
                    lemma_views_push(self.blocklist@, b);
                }
                self.blocklist.push(b);
            },
            Directive::ParseOnly => {
                self.parse_only = true;
            },
            Directive::GenerateAll => {
                self.allowlist.set_all()?;
            },
            Directive::Name(n) => {
                self.mod_name = Some(n);
            },
            Directive::ExcludeUtilities => {
                self.exclude_utilities = true;
            },
            Directive::Safety(p) => {
                self.unsafe_policy = p;
            },
        }
        Ok(())
    }

    /// The configuration given by `directives`, read in order.
    pub fn from_directives(directives: Vec<Directive>) -> (r: Result<Self, ConfigError>)
        ensures
            match config_of(directives_view(directives@)) {
                Ok(c) => r matches Ok(cfg) && cfg@ == c,
                Err(e) => r matches Err(x) && x == e,
            },
    {
        let ghost ds = directives_view(directives@);
        let mut cfg = IncludeCppConfig::new();
        let mut i: usize = 0;
        let n = directives.len();
        let mut rest = directives;
        while rest.len() > 0
            invariant
                ds == directives_view(directives@),
                ds.len() == n,
                i + rest.len() == ds.len(),
                directives_view(rest@) == ds.subrange(i as int, ds.len() as int),
                config_of(ds.subrange(0, i as int)) == Ok::<IncludeCppConfigView, ConfigError>(
                    cfg@,
                ),
            decreases rest.len(),
        {
            let ghost before = rest@;
            let d = rest.remove(0);
            assert(d@ == directives_view(before)[0]);
            assert(d@ == ds[i as int]);
            assert forall|k: int| 0 <= k < rest@.len() implies #[trigger] directives_view(rest@)[k]
                == ds.subrange(i + 1, ds.len() as int)[k] by {
                assert(rest@[k] == before[k + 1]);
                assert(directives_view(before)[k + 1] == ds.subrange(
                    i as int,
                    ds.len() as int,
                )[k + 1]);
            }
            assert(directives_view(rest@) =~= ds.subrange(i + 1, ds.len() as int));
            assert(ds.subrange(0, i + 1).drop_last() =~= ds.subrange(0, i as int));
            let ghost prev = cfg@;
            assert(config_of(ds.subrange(0, i + 1)) == apply_directive(prev, ds[i as int]));
            match cfg.apply(d) {
                Ok(()) => {},
                Err(e) => {
                    assert(config_of(ds.subrange(0, i + 1)) == Err::<IncludeCppConfigView, ConfigError>(e));
                    proof {
                        lemma_config_error_sticks(ds, i + 1);
                        assert(config_of(ds) == Err::<IncludeCppConfigView, ConfigError>(e));
                        assert(ds == directives_view(directives@));
                    }
                    return Err(e);
                },
            }
            i = i + 1;
        }
        assert(ds.subrange(0, i as int) =~= ds);
        Ok(cfg)
    }

    pub fn get_pod_requests(&self) -> (r: &Vec<String>)
        ensures
            views_of(r@) == self@.pod_requests,
    {
        &self.pod_requests
    }

    /// The name of the generated module: the one given, else `ffi`.
    pub fn get_mod_name(&self) -> (r: String)
        ensures
            r@ == match self@.mod_name {
                Some(n) => n,
                None => "ffi"@,
            },
    {
        match &self.mod_name {
            Some(n) => n.clone(),
            None => owned("ffi"),
        }
    }

    /// Whether to leave out the utilities normally generated in every module.
    pub fn exclude_utilities(&self) -> (r: bool)
        ensures
            r == self@.exclude_utilities,
    {
        self.exclude_utilities
    }

    /// The items the user asked for explicitly, which must be generated.
    pub fn must_generate_list(&self) -> (r: Vec<String>)
        ensures
            views_of(r@) == match self@.allowlist {
                AllowlistView::Specific(items) => items + self@.pod_requests,
                _ => self@.pod_requests,
            },
    {
        let mut r: Vec<String> = Vec::new();
        assert(views_of(r@) =~= Seq::<Seq<char>>::empty());
        if let Allowlist::Specific(items) = &self.allowlist {
            append_copies(&mut r, items);
        }
        append_copies(&mut r, &self.pod_requests);
        r
    }

    /// The names to hand to the generator of raw bindings; `None` for all.
    pub fn bindgen_allowlist(&self) -> (r: Option<Vec<String>>)
        requires
            !(self@.allowlist is Unspecified),
        ensures
            match bindgen_allowlist(self@) {
                Some(v) => r matches Some(x) && views_of(x@) == v,
                None => r is None,
            },
    {
        match &self.allowlist {
            Allowlist::All => None,
            Allowlist::Specific(items) => {
                let mut r: Vec<String> = Vec::new();
                assert(views_of(r@) =~= Seq::<Seq<char>>::empty());
                append_copies(&mut r, items);
                append_copies(&mut r, &self.pod_requests);
                let u = self.active_utilities();
                append_copies(&mut r, &u);
                Some(r)
            },
            Allowlist::Unspecified => None,
        }
    }

    /// The utilities generated in every module, unless excluded.
    pub fn active_utilities(&self) -> (r: Vec<String>)
        ensures
            views_of(r@) == active_utilities(self@),
    {
        let mut r: Vec<String> = Vec::new();
        if !self.exclude_utilities {
            let n = self.get_makestring_name();
            proof {
                lemma_views_push(r@, n);
            }
            r.push(n);
        }
        assert(views_of(r@) =~= active_utilities(self@));
        r
    }

    /// Whether the user asked for `cpp_name`; everything is when all is asked for.
    pub fn is_on_allowlist(&self, cpp_name: &str) -> (r: bool)
        requires
            !(self@.allowlist is Unspecified),
        ensures
            r == match bindgen_allowlist(self@) {
                Some(v) => v.contains(cpp_name@),
                None => true,
            },
    {
        match self.bindgen_allowlist() {
            None => true,
            Some(items) => contains_str(&items, cpp_name),
        }
    }

    /// Whether the user blocked `cpp_name`.
    pub fn is_on_blocklist(&self, cpp_name: &str) -> (r: bool)
        ensures
            r == self@.blocklist.contains(cpp_name@),
    {
        contains_str(&self.blocklist, cpp_name)
    }

    pub fn get_blocklist(&self) -> (r: &Vec<String>)
        ensures
            views_of(r@) == self@.blocklist,
    {
        &self.blocklist
    }

    /// The name of the utility that makes a C++ string in this module.
    pub fn get_makestring_name(&self) -> (r: String)
        ensures
            r@ == makestring_name(self@.mod_name),
    {
        let mut s = owned("autocxx_make_string_");
        match &self.mod_name {
            Some(n) => s.append(n.as_str()),
            None => s.append("default"),
        }
        s
    }
}

/// The index of the first `)` at or after `j`, or the length when there is none.
pub open spec fn close_from(t: Seq<ConfigTokenView>, j: int) -> int
    decreases t.len() - j,
{
    if j < 0 || j >= t.len() {
        t.len() as int
    } else if t[j] == ConfigTokenView::Punct(')') {
        j
    } else {
        close_from(t, j + 1)
    }
}

/// The directive `name!(args)`.
pub open spec fn directive_named(name: Seq<char>, args: Seq<ConfigTokenView>) -> Result<
    DirectiveView,
    ConfigError,
> {
    if name == "generate"@ || name == "generate_pod"@ || name == "pod"@ || name == "block"@ {
        if args.len() == 1 && args[0] is Literal {
            let v = args[0]->Literal_0;
            Ok(
                if name == "generate"@ {
                    DirectiveView::Generate(v)
                } else if name == "generate_pod"@ {
                    DirectiveView::GeneratePod(v)
                } else if name == "pod"@ {
                    DirectiveView::Pod(v)
                } else {
                    DirectiveView::Block(v)
                },
            )
        } else {
            Err(ConfigError::ExpectedLiteral)
        }
    } else if name == "parse_only"@ || name == "generate_all"@ || name == "exclude_utilities"@ {
        if args.len() == 0 {
            Ok(
                if name == "parse_only"@ {
                    DirectiveView::ParseOnly
                } else if name == "generate_all"@ {
                    DirectiveView::GenerateAll
                } else {
                    DirectiveView::ExcludeUtilities
                },
            )
        } else {
            Err(ConfigError::ExpectedNoArguments)
        }
    } else if name == "name"@ {
        if args.len() == 1 && args[0] is Ident {
            Ok(DirectiveView::Name(args[0]->Ident_0))
        } else {
            Err(ConfigError::ExpectedIdent)
        }
    } else if name == "safety"@ {
        match policy_of(args) {
            Ok(p) => Ok(DirectiveView::Safety(p)),
            Err(e) => Err(e),
        }
    } else {
        Err(ConfigError::UnknownDirective)
    }
}

/// The directive that starts at `i` and the index just after it:
/// `#include "h"`, or `name!(args)` (the `!` may be left out).
pub open spec fn directive_at(t: Seq<ConfigTokenView>, i: int) -> Result<(DirectiveView, int), ConfigError> {
    if t[i] == ConfigTokenView::Punct('#') {
        if i + 1 < t.len() && t[i + 1] == ConfigTokenView::Ident("include"@) {
            if i + 2 < t.len() && t[i + 2] is Literal {
                Ok((DirectiveView::Include(t[i + 2]->Literal_0), i + 3))
            } else {
                Err(ConfigError::ExpectedLiteral)
            }
        } else {
            Err(ConfigError::ExpectedInclude)
        }
    } else if t[i] is Ident {
        let j = if i + 1 < t.len() && t[i + 1] == ConfigTokenView::Punct('!') {
            i + 2
        } else {
            i + 1
        };
        if j < t.len() && t[j] == ConfigTokenView::Punct('(') {
            let k = close_from(t, j + 1);
            if k < t.len() {
                match directive_named(t[i]->Ident_0, t.subrange(j + 1, k)) {
                    Ok(d) => Ok((d, k + 1)),
                    Err(e) => Err(e),
                }
            } else {
                Err(ConfigError::ExpectedParenthesis)
            }
        } else {
            Err(ConfigError::ExpectedParenthesis)
        }
    } else {
        Err(ConfigError::ExpectedDirective)
    }
}

/// The configuration after reading the directives from `i` on, starting
/// from `c`; the first malformed or refused directive ends the reading.
pub open spec fn parse_from(t: Seq<ConfigTokenView>, i: int, c: IncludeCppConfigView) -> Result<
    IncludeCppConfigView,
    ConfigError,
>
    decreases t.len() - i,
{
    if i < 0 || i >= t.len() {
        Ok(c)
    } else {
        match directive_at(t, i) {
            Err(e) => Err(e),
            Ok((d, j)) => if j <= i {
                Ok(c)
            } else {
                match apply_directive(c, d) {
                    Err(e) => Err(e),
                    Ok(c2) => parse_from(t, j, c2),
                }
            },
        }
    }
}

pub open spec fn tokens_view(v: Seq<ConfigToken>) -> Seq<ConfigTokenView> {
    v.map_values(|t: ConfigToken| t@)
}

impl ConfigToken {
    pub fn duplicate(&self) -> (r: Self)
        ensures
            r@ == self@,
    {
        match self {
            ConfigToken::Ident(s) => ConfigToken::Ident(s.clone()),
            ConfigToken::Punct(c) => ConfigToken::Punct(*c),
            ConfigToken::Literal(s) => ConfigToken::Literal(s.clone()),
        }
    }

    fn is_punct(&self, c: char) -> (r: bool)
        ensures
            r == (self@ == ConfigTokenView::Punct(c)),
    {
        match self {
            ConfigToken::Punct(p) => *p == c,
            _ => false,
        }
    }
}

/// The index of the first `)` at or after `j`.
fn find_close(tokens: &Vec<ConfigToken>, j: usize) -> (r: usize)
    ensures
        r as int == close_from(tokens_view(tokens@), j as int),
        j <= r || r == tokens.len(),
        r <= tokens.len(),
{
    let ghost t = tokens_view(tokens@);
    if j >= tokens.len() {
        return tokens.len();
    }
    let mut k: usize = j;
    while k < tokens.len()
        invariant
            t == tokens_view(tokens@),
            j <= k <= tokens.len(),
            close_from(t, j as int) == close_from(t, k as int),
        decreases tokens.len() - k,
    {
        if tokens[k].is_punct(')') {
            return k;
        }
        k = k + 1;
    }
    k
}

/// A copy of `tokens[from..to]`.
fn slice_tokens(tokens: &Vec<ConfigToken>, from: usize, to: usize) -> (r: Vec<ConfigToken>)
    requires
        from <= to <= tokens.len(),
    ensures
        tokens_view(r@) == tokens_view(tokens@).subrange(from as int, to as int),
{
    let mut r: Vec<ConfigToken> = Vec::new();
    let mut k: usize = from;
    while k < to
        invariant
            from <= k <= to <= tokens.len(),
            tokens_view(r@) == tokens_view(tokens@).subrange(from as int, k as int),
        decreases to - k,
    {
        let x = tokens[k].duplicate();
        proof {
            assert(tokens_view(r@.push(x)) =~= tokens_view(r@).push(x@));
        }
        r.push(x);
        assert(tokens_view(r@) =~= tokens_view(tokens@).subrange(from as int, k + 1));
        k = k + 1;
    }
    r
}

/// The directive `name!(args)`.
fn read_named(name: &str, args: &Vec<ConfigToken>) -> (r: Result<Directive, ConfigError>)
    ensures
        match directive_named(name@, tokens_view(args@)) {
            Ok(d) => r matches Ok(x) && x@ == d,
            Err(e) => r matches Err(x) && x == e,
        },
{
    let ghost a = tokens_view(args@);
    let with_literal = str_eq(name, "generate") || str_eq(name, "generate_pod") || str_eq(name, "pod")
        || str_eq(name, "block");
    if with_literal {
        if args.len() == 1 {
            if let ConfigToken::Literal(v) = &args[0] {
                assert(a[0] == args@[0]@);
                let v = v.clone();
                if str_eq(name, "generate") {
                    return Ok(Directive::Generate(v));
                } else if str_eq(name, "generate_pod") {
                    return Ok(Directive::GeneratePod(v));
                } else if str_eq(name, "pod") {
                    return Ok(Directive::Pod(v));
                } else {
                    return Ok(Directive::Block(v));
                }
            }
            assert(a[0] == args@[0]@);
        }
        return Err(ConfigError::ExpectedLiteral);
    }
    let no_args = str_eq(name, "parse_only") || str_eq(name, "generate_all") || str_eq(
        name,
        "exclude_utilities",
    );
    if no_args {
        if args.len() != 0 {
            return Err(ConfigError::ExpectedNoArguments);
        }
        if str_eq(name, "parse_only") {
            return Ok(Directive::ParseOnly);
        } else if str_eq(name, "generate_all") {
            return Ok(Directive::GenerateAll);
        } else {
            return Ok(Directive::ExcludeUtilities);
        }
    }
    if str_eq(name, "name") {
        if args.len() == 1 {
            if let ConfigToken::Ident(v) = &args[0] {
                assert(a[0] == args@[0]@);
                return Ok(Directive::Name(v.clone()));
            }
            assert(a[0] == args@[0]@);
        }
        return Err(ConfigError::ExpectedIdent);
    }
    if str_eq(name, "safety") {
        return match UnsafePolicy::parse(args) {
            Ok(p) => Ok(Directive::Safety(p)),
            Err(e) => Err(e),
        };
    }
    Err(ConfigError::UnknownDirective)
}

/// The directive that starts at `i`, and the index just after it.
fn read_directive(tokens: &Vec<ConfigToken>, i: usize) -> (r: Result<(Directive, usize), ConfigError>)
    requires
        i < tokens.len(),
    ensures
        match directive_at(tokens_view(tokens@), i as int) {
            Ok((d, j)) => r matches Ok((x, k)) && x@ == d && k as int == j && i < k <= tokens.len(),
            Err(e) => r matches Err(x) && x == e,
        },
{
    let ghost t = tokens_view(tokens@);
    assert(t[i as int] == tokens@[i as int]@);
    if tokens[i].is_punct('#') {
        if i + 1 < tokens.len() {
            assert(t[i + 1] == tokens@[i + 1]@);
            if let ConfigToken::Ident(id) = &tokens[i + 1] {
                if str_eq(id.as_str(), "include") {
                    if i + 2 < tokens.len() {
                        assert(t[i + 2] == tokens@[i + 2]@);
                        if let ConfigToken::Literal(h) = &tokens[i + 2] {
                            return Ok((Directive::Include(h.clone()), i + 3));
                        }
                    }
                    return Err(ConfigError::ExpectedLiteral);
                }
            }
        }
        return Err(ConfigError::ExpectedInclude);
    }
    match &tokens[i] {
        ConfigToken::Ident(name) => {
            let mut j = i + 1;
            if j < tokens.len() {
                assert(t[j as int] == tokens@[j as int]@);
                if tokens[j].is_punct('!') {
                    j = j + 1;
                }
            }
            if j < tokens.len() {
                assert(t[j as int] == tokens@[j as int]@);
                if tokens[j].is_punct('(') {
                    let k = find_close(tokens, j + 1);
                    if k < tokens.len() {
                        proof {
                            lemma_close_from_bounds(t, j + 1);
                        }
                        let args = slice_tokens(tokens, j + 1, k);
                        let d = read_named(name.as_str(), &args)?;
                        return Ok((d, k + 1));
                    }
                }
            }
            Err(ConfigError::ExpectedParenthesis)
        },
        _ => Err(ConfigError::ExpectedDirective),
    }
}

proof fn lemma_close_from_bounds(t: Seq<ConfigTokenView>, j: int)
    requires
        0 <= j,
    ensures
        j <= close_from(t, j) <= t.len() || close_from(t, j) == t.len(),
    decreases t.len() - j,
{
    if j < t.len() && t[j] != ConfigTokenView::Punct(')') {
        lemma_close_from_bounds(t, j + 1);
    }
}

impl IncludeCppConfig {
    /// Reads the tokens of an `include_cpp!` block: directives one after the
    /// other, each applied as it is read.
    pub fn parse(tokens: &Vec<ConfigToken>) -> (r: Result<Self, ConfigError>)
        ensures
            match parse_from(tokens_view(tokens@), 0, empty_config()) {
                Ok(c) => r matches Ok(cfg) && cfg@ == c,
                Err(e) => r matches Err(x) && x == e,
            },
    {
        let ghost t = tokens_view(tokens@);
        let mut cfg = IncludeCppConfig::new();
        let mut i: usize = 0;
        while i < tokens.len()
            invariant
                t == tokens_view(tokens@),
                i <= tokens.len(),
                parse_from(t, 0, empty_config()) == parse_from(t, i as int, cfg@),
            decreases tokens.len() - i,
        {
            let (d, j) = read_directive(tokens, i)?;
            let ghost prev = cfg@;
            cfg.apply(d)?;
            assert(parse_from(t, i as int, prev) == parse_from(t, j as int, cfg@));
            i = j;
        }
        Ok(cfg)
    }
}

proof fn lemma_config_error_sticks(ds: Seq<DirectiveView>, n: int)
    requires
        0 < n <= ds.len(),
        config_of(ds.subrange(0, n)) is Err,
    ensures
        config_of(ds) == config_of(ds.subrange(0, n)),
    decreases ds.len() - n,
{
    if n < ds.len() {
        assert(ds.subrange(0, n + 1).drop_last() =~= ds.subrange(0, n));
        lemma_config_error_sticks(ds, n + 1);
    } else {
        assert(ds.subrange(0, n) =~= ds);
    }
}

} // verus!
