use autocxx_analysis::config::{
    Allowlist, ConfigError, ConfigToken, Directive, IncludeCppConfig, UnsafePolicy,
};

#[test]
fn test_safety_unsafe() {
    let us = UnsafePolicy::parse(&vec![ConfigToken::Ident("unsafe".to_string())]);
    assert_eq!(us, Ok(UnsafePolicy::AllFunctionsSafe))
}

#[test]
fn test_safety_unsafe_ffi() {
    let us = UnsafePolicy::parse(&vec![ConfigToken::Ident("unsafe_ffi".to_string())]);
    assert_eq!(us, Ok(UnsafePolicy::AllFunctionsSafe))
}

#[test]
fn test_safety_safe() {
    let us = UnsafePolicy::parse(&vec![]);
    assert_eq!(us, Ok(UnsafePolicy::AllFunctionsUnsafe))
}

#[test]
fn safety_errors() {
    let r = UnsafePolicy::parse(&vec![ConfigToken::Ident("bogus".to_string())]);
    assert_eq!(r, Err(ConfigError::ExpectedUnsafeFfi));
    let r = UnsafePolicy::parse(&vec![
        ConfigToken::Ident("unsafe_ffi".to_string()),
        ConfigToken::Punct(','),
    ]);
    assert_eq!(r, Err(ConfigError::UnexpectedTokensInSafety));
    let r = UnsafePolicy::parse(&vec![ConfigToken::Literal("x".to_string())]);
    assert_eq!(r, Err(ConfigError::UnexpectedTokensInSafety));
    assert_eq!(ConfigError::ExpectedUnsafeFfi.to_message(), "expected unsafe_ffi");
}

#[test]
fn allowlist_conflicts() {
    let mut a = Allowlist::default();
    assert!(a.push("A".to_string()).is_ok());
    assert_eq!(a.set_all(), Err(ConfigError::ConflictingAllowlist));
    let mut b = Allowlist::default();
    assert!(b.set_all().is_ok());
    assert_eq!(b.push("A".to_string()), Err(ConfigError::ConflictingAllowlist));
}

#[test]
fn parse_directives() {
    let cfg = IncludeCppConfig::from_directives(vec![
        Directive::Include("a.h".to_string()),
        Directive::Generate("A".to_string()),
        Directive::GeneratePod("P".to_string()),
        Directive::Block("B".to_string()),
        Directive::Name("mine".to_string()),
        Directive::Safety(UnsafePolicy::AllFunctionsSafe),
    ])
    .unwrap();
    assert_eq!(cfg.inclusions, vec!["a.h".to_string()]);
    assert_eq!(cfg.unsafe_policy, UnsafePolicy::AllFunctionsSafe);
    assert_eq!(cfg.get_pod_requests(), &vec!["P".to_string()]);
    assert_eq!(cfg.get_mod_name(), "mine");
    assert_eq!(cfg.get_makestring_name(), "autocxx_make_string_mine");
    assert_eq!(cfg.must_generate_list(), vec!["A", "P", "P"]);
    assert_eq!(
        cfg.bindgen_allowlist(),
        Some(vec![
            "A".to_string(),
            "P".to_string(),
            "P".to_string(),
            "autocxx_make_string_mine".to_string()
        ])
    );
    assert!(cfg.is_on_allowlist("A"));
    assert!(cfg.is_on_allowlist("autocxx_make_string_mine"));
    assert!(!cfg.is_on_allowlist("Z"));
    assert!(cfg.is_on_blocklist("B"));
    assert!(!cfg.is_on_blocklist("A"));
    assert!(!cfg.exclude_utilities());
}

#[test]
fn parse_generate_all_and_defaults() {
    let cfg = IncludeCppConfig::from_directives(vec![
        Directive::GenerateAll,
        Directive::ExcludeUtilities,
        Directive::ParseOnly,
    ])
    .unwrap();
    assert_eq!(cfg.get_mod_name(), "ffi");
    assert_eq!(cfg.get_makestring_name(), "autocxx_make_string_default");
    assert!(cfg.bindgen_allowlist().is_none());
    assert!(cfg.is_on_allowlist("anything"));
    assert!(cfg.exclude_utilities());
    assert!(cfg.parse_only);
    assert!(cfg.active_utilities().is_empty());
    let err = IncludeCppConfig::from_directives(vec![
        Directive::Generate("A".to_string()),
        Directive::GenerateAll,
    ]);
    assert!(matches!(err, Err(ConfigError::ConflictingAllowlist)));
}

fn ident(s: &str) -> ConfigToken {
    ConfigToken::Ident(s.to_string())
}

fn lit(s: &str) -> ConfigToken {
    ConfigToken::Literal(s.to_string())
}

fn punct(c: char) -> ConfigToken {
    ConfigToken::Punct(c)
}

#[test]
fn parse_tokens_of_a_block() {
    let tokens = vec![
        punct('#'), ident("include"), lit("a.h"),
        ident("generate"), punct('!'), punct('('), lit("A"), punct(')'),
        ident("generate_pod"), punct('!'), punct('('), lit("P"), punct(')'),
        ident("safety"), punct('!'), punct('('), ident("unsafe_ffi"), punct(')'),
        ident("name"), punct('!'), punct('('), ident("mine"), punct(')'),
        ident("exclude_utilities"), punct('('), punct(')'),
    ];
    let cfg = IncludeCppConfig::parse(&tokens).unwrap();
    assert_eq!(cfg.inclusions, vec!["a.h".to_string()]);
    assert_eq!(cfg.unsafe_policy, UnsafePolicy::AllFunctionsSafe);
    assert_eq!(cfg.get_pod_requests(), &vec!["P".to_string()]);
    assert_eq!(cfg.get_mod_name(), "mine");
    assert!(cfg.exclude_utilities());
    assert_eq!(cfg.bindgen_allowlist(), Some(vec!["A".to_string(), "P".to_string(), "P".to_string()]));
}

#[test]
fn parse_tokens_errors() {
    let e = |t: Vec<ConfigToken>| IncludeCppConfig::parse(&t).err().unwrap();
    assert_eq!(e(vec![punct('#'), ident("define"), lit("x")]), ConfigError::ExpectedInclude);
    assert_eq!(e(vec![punct('#'), ident("include"), ident("x")]), ConfigError::ExpectedLiteral);
    assert_eq!(e(vec![ident("generate"), punct('!'), punct('('), ident("A"), punct(')')]), ConfigError::ExpectedLiteral);
    assert_eq!(e(vec![ident("parse_only"), punct('!'), punct('('), lit("x"), punct(')')]), ConfigError::ExpectedNoArguments);
    assert_eq!(e(vec![ident("bogus"), punct('!'), punct('('), punct(')')]), ConfigError::UnknownDirective);
    assert_eq!(e(vec![ident("generate"), punct('!'), lit("A")]), ConfigError::ExpectedParenthesis);
    assert_eq!(e(vec![ident("generate"), punct('('), lit("A")]), ConfigError::ExpectedParenthesis);
    assert_eq!(e(vec![lit("x")]), ConfigError::ExpectedDirective);
    assert_eq!(e(vec![ident("name"), punct('('), lit("x"), punct(')')]), ConfigError::ExpectedIdent);
    assert_eq!(e(vec![ident("safety"), punct('('), ident("nope"), punct(')')]), ConfigError::ExpectedUnsafeFfi);
    assert_eq!(
        e(vec![
            ident("generate"), punct('('), lit("A"), punct(')'),
            ident("generate_all"), punct('('), punct(')'),
        ]),
        ConfigError::ConflictingAllowlist
    );
    assert_eq!(ConfigError::ExpectedNoArguments.to_message(), "expected no arguments to directive");
}
