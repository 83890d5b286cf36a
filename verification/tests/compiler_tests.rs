use linux_details::compile::{compile, CompileError};
use linux_details::grammar::{punctuated_idents, Field, ParseError};
use linux_details::metadata::{TypeDefinition, Variant};
use linux_details::package_manager::PackageManager;
use linux_details::parse::parse_variant;
use linux_details::token::{Delim, InnerToken, Token};

fn ident(s: &str) -> Token {
    Token::Ident(s.to_string())
}

fn group(inner: Vec<InnerToken>) -> Token {
    Token::Group(Delim::Paren, inner)
}

fn inner_ident(s: &str) -> InnerToken {
    InnerToken::Ident(s.to_string())
}

fn variant(name: &str, annotation: Vec<Token>) -> Variant {
    Variant { name: name.to_string(), annotation }
}

fn definition(name: &str, variants: Vec<Variant>) -> TypeDefinition {
    TypeDefinition { name: name.to_string(), variants }
}

#[test]
fn package_manager_scenario() {
    let def = definition(
        "PackageManager",
        vec![
            variant(
                "Apk",
                vec![
                    ident("platform_ids"),
                    group(vec![inner_ident("Alpine")]),
                    Token::Sep,
                    ident("primary_platform_ids"),
                    group(vec![inner_ident("Alpine")]),
                ],
            ),
            variant(
                "Pacman",
                vec![
                    ident("platform_ids"),
                    group(vec![inner_ident("Arch"), InnerToken::Sep, inner_ident("Manjaro")]),
                    Token::Sep,
                    ident("primary_platform_ids"),
                    group(vec![inner_ident("Arch"), InnerToken::Sep, inner_ident("Manjaro")]),
                ],
            ),
            variant("Unknown", vec![ident("is_default_variant")]),
        ],
    );
    let meta = compile(&def).expect("the definition is well formed");
    assert_eq!(meta.default_variant(), 2);
    assert_eq!(meta.display(0).as_str(), "apk");
    assert_eq!(meta.display(1).as_str(), "pacman");
    assert_eq!(meta.display(2).as_str(), "unknown");
    assert_eq!(meta.applicable_for(&"Arch".to_string()), vec![1]);
    assert_eq!(meta.applicable_for(&"Alpine".to_string()), vec![0]);
    assert_eq!(meta.applicable_for(&"Fedora".to_string()), Vec::<usize>::new());
    assert_eq!(meta.primary_for(&"Manjaro".to_string()), 1);
    assert_eq!(meta.primary_for(&"Alpine".to_string()), 0);
    assert_eq!(meta.primary_for(&"Fedora".to_string()), 2);
}

#[test]
fn missing_separator_aborts_with_grammar_error() {
    let def = definition(
        "PackageManager",
        vec![
            variant(
                "Apk",
                vec![
                    ident("platform_ids"),
                    group(vec![inner_ident("Alpine"), inner_ident("Arch")]),
                ],
            ),
            variant("Unknown", vec![ident("is_default_variant")]),
        ],
    );
    let err = compile(&def).expect_err("a missing separator is a grammar error");
    match err {
        CompileError::Annotation { variant, error } => {
            assert_eq!(variant.as_str(), "Apk");
            match error {
                ParseError::ListToken { field, token } => {
                    assert_eq!(field, Field::PlatformList);
                    assert_eq!(token, InnerToken::Ident("Arch".to_string()));
                }
                other => panic!("wrong grammar error: {:?}", other),
            }
        }
        other => panic!("wrong error: {:?}", other),
    }
}

#[test]
fn missing_default_aborts() {
    let def = definition(
        "PackageManager",
        vec![
            variant("Apk", vec![ident("platform_ids"), group(vec![inner_ident("Alpine")])]),
            variant("Pacman", vec![ident("platform_ids"), group(vec![inner_ident("Arch")])]),
        ],
    );
    let err = compile(&def).expect_err("no variant carries the default marker");
    assert!(matches!(err, CompileError::MissingDefault));
}

#[test]
fn multiple_defaults_abort() {
    let def = definition(
        "Init",
        vec![
            variant("Unknown", vec![ident("is_default_variant")]),
            variant("Systemd", vec![ident("is_default_variant")]),
        ],
    );
    let err = compile(&def).expect_err("two default markers clash");
    assert!(matches!(err, CompileError::MultipleDefaults));
}

#[test]
fn duplicate_primary_aborts() {
    let def = definition(
        "PackageManager",
        vec![
            variant(
                "Apt",
                vec![
                    ident("platform_ids"),
                    group(vec![inner_ident("Debian")]),
                    Token::Sep,
                    ident("primary_platform_ids"),
                    group(vec![inner_ident("Debian")]),
                ],
            ),
            variant(
                "Aptitude",
                vec![
                    ident("platform_ids"),
                    group(vec![inner_ident("Debian")]),
                    Token::Sep,
                    ident("primary_platform_ids"),
                    group(vec![inner_ident("Debian")]),
                ],
            ),
            variant("Unknown", vec![ident("is_default_variant")]),
        ],
    );
    let err = compile(&def).expect_err("two variants prefer the same platform");
    match err {
        CompileError::DuplicatePrimary { platform } => {
            assert_eq!(platform.as_str(), "Debian");
        }
        other => panic!("wrong error: {:?}", other),
    }
}

#[test]
fn primary_outside_platform_list_aborts() {
    let def = definition(
        "PackageManager",
        vec![
            variant(
                "Apk",
                vec![
                    ident("platform_ids"),
                    group(vec![inner_ident("Alpine")]),
                    Token::Sep,
                    ident("primary_platform_ids"),
                    group(vec![inner_ident("Arch")]),
                ],
            ),
            variant("Unknown", vec![ident("is_default_variant")]),
        ],
    );
    let err = compile(&def).expect_err("a primary platform must also be applicable");
    match err {
        CompileError::PrimaryNotApplicable { variant, platform } => {
            assert_eq!(variant.as_str(), "Apk");
            assert_eq!(platform.as_str(), "Arch");
        }
        other => panic!("wrong error: {:?}", other),
    }
}

#[test]
fn trailing_separator_is_tolerated() {
    let tokens = vec![inner_ident("Alpine"), InnerToken::Sep];
    let ids = punctuated_idents(&tokens, Field::PlatformList).expect("trailing separator is fine");
    assert_eq!(ids, vec!["Alpine".to_string()]);
}

#[test]
fn leading_separator_is_rejected() {
    let tokens = vec![InnerToken::Sep, inner_ident("Alpine")];
    let err = punctuated_idents(&tokens, Field::PlatformList).expect_err("leading separator");
    assert!(matches!(err, ParseError::ListToken { field: Field::PlatformList, token: InnerToken::Sep }));
}

#[test]
fn double_separator_is_rejected() {
    let tokens = vec![
        inner_ident("Alpine"),
        InnerToken::Sep,
        InnerToken::Sep,
        inner_ident("Arch"),
    ];
    let err = punctuated_idents(&tokens, Field::PrimaryPlatformList).expect_err("double separator");
    assert!(matches!(
        err,
        ParseError::ListToken { field: Field::PrimaryPlatformList, token: InnerToken::Sep }
    ));
}

#[test]
fn empty_group_is_an_empty_list() {
    let tokens: Vec<InnerToken> = vec![];
    let ids = punctuated_idents(&tokens, Field::PlatformList).expect("empty list");
    assert!(ids.is_empty());
}

#[test]
fn wrong_delimiter_is_rejected() {
    let v = variant(
        "Apk",
        vec![ident("platform_ids"), Token::Group(Delim::Bracket, vec![inner_ident("Alpine")])],
    );
    let err = parse_variant(&v).expect_err("only parentheses group an identifier list");
    assert!(matches!(err, ParseError::WrongDelimiter { field: Field::PlatformList }));
}

#[test]
fn unknown_field_is_rejected() {
    let v = variant("Apk", vec![ident("os_flavours")]);
    let err = parse_variant(&v).expect_err("unknown field name");
    match err {
        ParseError::UnknownField { name } => assert_eq!(name.as_str(), "os_flavours"),
        other => panic!("wrong error: {:?}", other),
    }
}

#[test]
fn dangling_separator_is_rejected() {
    let v = variant("Apk", vec![ident("platform_ids"), Token::Sep]);
    let err = parse_variant(&v).expect_err("separator before the payload");
    assert!(matches!(err, ParseError::DanglingSeparator { field: Field::PlatformList }));
}

#[test]
fn field_without_payload_is_rejected() {
    let v = variant("Apk", vec![ident("platform_ids")]);
    let err = parse_variant(&v).expect_err("the list field never received its payload");
    assert!(matches!(err, ParseError::MissingPayload { field: Field::PlatformList }));
}

#[test]
fn separator_outside_a_field_is_rejected() {
    let v = variant("Apk", vec![Token::Sep]);
    let err = parse_variant(&v).expect_err("no field is open");
    assert!(matches!(err, ParseError::SeparatorOutsideField));
}

#[test]
fn literal_outside_display_field_is_rejected() {
    let v = variant("Apk", vec![Token::LitStr("apk".to_string())]);
    let err = parse_variant(&v).expect_err("a literal needs the display field");
    assert!(matches!(err, ParseError::UnexpectedToken { field: None, token: _ }));
}

#[test]
fn default_marker_takes_no_payload() {
    let v = variant(
        "Unknown",
        vec![ident("is_default_variant"), group(vec![inner_ident("Alpine")])],
    );
    let err = parse_variant(&v).expect_err("the marker is a zero-argument field");
    assert!(matches!(
        err,
        ParseError::UnexpectedToken { field: Some(Field::DefaultMarker), token: _ }
    ));
}

#[test]
fn display_override_is_recorded() {
    let v = variant(
        "ArchBased",
        vec![ident("display_name"), Token::LitStr("arch-based".to_string())],
    );
    let md = parse_variant(&v).expect("a plain display override");
    assert_eq!(md.display_name.as_str(), "arch-based");
    assert!(!md.is_default);
}

#[test]
fn display_defaults_to_lowercased_name() {
    let v = variant("SysV", vec![]);
    let md = parse_variant(&v).expect("no annotations at all is valid");
    assert_eq!(md.display_name.as_str(), "sysv");
    assert!(!md.is_default);
    assert!(md.platform_ids.is_empty());
    assert!(md.primary_platform_ids.is_empty());
}

#[test]
fn repeated_identifiers_accumulate_without_duplicates() {
    let v = variant(
        "Apt",
        vec![
            ident("platform_ids"),
            group(vec![inner_ident("Debian"), InnerToken::Sep, inner_ident("Debian")]),
            Token::Sep,
            ident("platform_ids"),
            group(vec![inner_ident("Debian"), InnerToken::Sep, inner_ident("Ubuntu")]),
        ],
    );
    let md = parse_variant(&v).expect("duplicates are a no-op");
    assert_eq!(md.platform_ids, vec!["Debian".to_string(), "Ubuntu".to_string()]);
}

#[test]
fn marker_combines_with_other_fields() {
    let v = variant(
        "Unknown",
        vec![
            ident("is_default_variant"),
            Token::Sep,
            ident("platform_ids"),
            group(vec![inner_ident("Linux")]),
        ],
    );
    let md = parse_variant(&v).expect("marker then another field");
    assert!(md.is_default);
    assert_eq!(md.platform_ids, vec!["Linux".to_string()]);
}

#[test]
fn availability_filter_keeps_present_entries_only() {
    let def = definition(
        "PackageManager",
        vec![
            variant("Apt", vec![ident("platform_ids"), group(vec![inner_ident("Debian")])]),
            variant("Aptitude", vec![ident("platform_ids"), group(vec![inner_ident("Debian")])]),
            variant("Unknown", vec![ident("is_default_variant")]),
        ],
    );
    let meta = compile(&def).expect("well formed");
    let present = vec![true, false, true];
    let avail = meta.available_for_with(&"Debian".to_string(), &present);
    assert_eq!(avail, vec![0]);
    let none = meta.available_for_with(&"Debian".to_string(), &vec![false, false, false]);
    assert!(none.is_empty());
}

#[test]
fn available_entries_are_a_subset_of_applicable() {
    let def = definition(
        "PackageManager",
        vec![
            variant("Pacman", vec![ident("platform_ids"), group(vec![inner_ident("Arch")])]),
            variant("Snap", vec![ident("platform_ids"), group(vec![inner_ident("Arch")])]),
            variant("Unknown", vec![ident("is_default_variant")]),
        ],
    );
    let meta = compile(&def).expect("well formed");
    let applicable = meta.applicable_for(&"Arch".to_string());
    let available = meta.available_for(&"Arch".to_string());
    for v in available {
        assert!(applicable.contains(&v));
    }
}

fn id_list(names: &[&str]) -> Token {
    let mut inner: Vec<InnerToken> = Vec::new();
    for (k, n) in names.iter().enumerate() {
        if k > 0 {
            inner.push(InnerToken::Sep);
        }
        inner.push(inner_ident(n));
    }
    group(inner)
}

fn manager_variant(name: &str, platforms: &[&str], primaries: &[&str]) -> Variant {
    let mut annotation = vec![ident("platform_ids"), id_list(platforms)];
    if !primaries.is_empty() {
        annotation.push(Token::Sep);
        annotation.push(ident("primary_platform_ids"));
        annotation.push(id_list(primaries));
    }
    variant(name, annotation)
}

#[test]
fn package_manager_tables_agree_with_the_compiler() {
    let apt_platforms = ["Debian", "Mint", "Pop", "Raspbian", "Ubuntu"];
    let yum_platforms = ["Amazon", "OracleLinux", "RedHatEnterprise", "Redhat"];
    let flatpak_platforms = [
        "Alpine", "Arch", "CentOS", "Debian", "EndeavourOS", "Fedora", "Gentoo", "Manjaro",
        "Mint", "NixOS", "openSUSE", "SUSE", "Pop", "Raspbian", "Solus", "Ubuntu",
    ];
    let snap_platforms = [
        "Arch", "CentOS", "Debian", "EndeavourOS", "Fedora", "Manjaro", "Mint", "openSUSE",
        "SUSE", "Pop", "Solus", "Ubuntu", "RedHatEnterprise", "Redhat",
    ];
    let def = definition(
        "PackageManager",
        vec![
            variant("Unknown", vec![ident("is_default_variant")]),
            manager_variant("Apk", &["Alpine"], &["Alpine"]),
            manager_variant("Apt", &apt_platforms, &apt_platforms),
            manager_variant("Aptitude", &apt_platforms, &[]),
            manager_variant("Dnf", &["CentOS", "Fedora"], &["CentOS", "Fedora"]),
            manager_variant("Yum", &yum_platforms, &yum_platforms),
            manager_variant("Zypper", &["openSUSE", "SUSE"], &["openSUSE", "SUSE"]),
            manager_variant("Eopkg", &["Solus"], &["Solus"]),
            manager_variant("Nix", &["NixOS"], &["NixOS"]),
            manager_variant(
                "Pacman",
                &["Arch", "EndeavourOS", "Manjaro"],
                &["Arch", "EndeavourOS", "Manjaro"],
            ),
            manager_variant("Portage", &["Gentoo"], &["Gentoo"]),
            manager_variant("Flatpak", &flatpak_platforms, &[]),
            manager_variant("Snap", &snap_platforms, &[]),
        ],
    );
    let meta = compile(&def).expect("the full definition is well formed");
    let all = PackageManager::all_variants();
    assert_eq!(meta.default_variant(), 0);
    let probes = [
        "Alpine", "Amazon", "Android", "Arch", "CentOS", "Debian", "EndeavourOS", "Fedora",
        "Gentoo", "Linux", "Manjaro", "Mint", "NixOS", "openSUSE", "OracleLinux", "Pop",
        "Raspbian", "Redhat", "RedHatEnterprise", "Solus", "SUSE", "Ubuntu", "Windows", "",
    ];
    for p in probes {
        let platform = p.to_string();
        let supported = PackageManager::supported_in_os_type(&platform);
        let applicable: Vec<PackageManager> = meta
            .applicable_for(&platform)
            .into_iter()
            .map(|i| all[i])
            .collect();
        assert_eq!(supported, applicable, "supported set differs on {:?}", p);
        assert_eq!(
            PackageManager::default_in_os_type(&platform),
            all[meta.primary_for(&platform)],
            "primary differs on {:?}",
            p
        );
    }
}

#[test]
fn compiling_twice_yields_the_same_metadata() {
    let def = definition(
        "PackageManager",
        vec![
            variant(
                "Apk",
                vec![
                    ident("platform_ids"),
                    group(vec![inner_ident("Alpine")]),
                    Token::Sep,
                    ident("primary_platform_ids"),
                    group(vec![inner_ident("Alpine")]),
                ],
            ),
            variant("Unknown", vec![ident("is_default_variant")]),
        ],
    );
    let m1 = compile(&def).expect("well formed");
    let m2 = compile(&def).expect("well formed");
    assert_eq!(m1.default_variant(), m2.default_variant());
    assert_eq!(m1.variant_names, m2.variant_names);
    assert_eq!(
        m1.applicable_for(&"Alpine".to_string()),
        m2.applicable_for(&"Alpine".to_string())
    );
    assert_eq!(m1.primary_for(&"Alpine".to_string()), m2.primary_for(&"Alpine".to_string()));
    assert_eq!(m1.display(0), m2.display(0));
}
