use spdx::allowed::AllowedLicense;
use spdx::error::Reason;
use spdx::identifiers::{
    exception_name_at, imprecise_name_at, imprecise_target_at, license_flags_at,
    license_full_name_at, license_name_at, EXCEPTION_COUNT, IMPRECISE_COUNT, IS_COPYLEFT,
    IS_GNU, LICENSE_COUNT,
};
use spdx::lexer::{Lexer, Token};
use spdx::registry::{is_copyleft, is_gnu};
use spdx::{
    exception_id, imprecise_license_id, license_id, license_version, AdditionItem, Expression,
    LicenseItem, LicenseReq, ParseError, ParseMode,
};

fn spans(text: &str, mode: ParseMode) -> Vec<(Token<'_>, std::ops::Range<usize>)> {
    let mut lexer = Lexer::new_mode(text, mode);
    let mut out = Vec::new();
    while let Some(r) = lexer.next() {
        let t = r.unwrap();
        out.push((t.token, t.span));
    }
    out
}

#[test]
fn tables_are_sorted_and_consistent() {
    for index in 1..LICENSE_COUNT {
        assert!(
            license_name_at(index - 1).as_bytes() < license_name_at(index).as_bytes(),
            "{}",
            license_name_at(index)
        );
    }
    for index in 1..EXCEPTION_COUNT {
        assert!(exception_name_at(index - 1).as_bytes() < exception_name_at(index).as_bytes());
    }
    for index in 0..LICENSE_COUNT {
        let name = license_name_at(index);
        let flags = license_flags_at(index);
        assert!(!name.is_empty());
        assert!(!license_full_name_at(index).is_empty());
        assert_eq!(flags & IS_GNU != 0, is_gnu(name), "{name}");
        assert_eq!(flags & IS_COPYLEFT != 0, is_copyleft(name), "{name}");
        if !name.ends_with('+') {
            let id = license_id(name).unwrap();
            assert_eq!(id.index(), index);
            assert_eq!(id.name(), name);
            assert_eq!(id.license().index, index);
            assert_eq!(id.license().flags, flags);
            assert_eq!(id.license().full_name, id.full_name());
        }
    }
    assert_eq!(license_name_at(LICENSE_COUNT), "");
    for index in 0..EXCEPTION_COUNT {
        let id = exception_id(exception_name_at(index)).unwrap();
        assert_eq!(id.index(), index);
        assert_eq!(id.exception().name, id.name());
    }
    for index in 0..IMPRECISE_COUNT {
        let name = imprecise_name_at(index);
        assert_eq!(name, name.to_lowercase());
        assert!(name.is_ascii() && !name.is_empty());
        let found = imprecise_license_id(name).unwrap();
        assert_eq!(found.1, name.len());
        assert_eq!(found.0.name(), imprecise_target_at(index));
    }
    assert_eq!(license_version(), "3.6");
}

#[test]
fn copyleft_and_gnu_by_name() {
    assert!(is_gnu("GPL-2.0-only") && is_gnu("AGPL-1.0") && is_gnu("LGPL-x") && is_gnu("GFDL-"));
    assert!(!is_gnu("GPL") && !is_gnu("MIT") && !is_gnu("") && !is_gnu("XGPL-2.0"));
    assert!(is_copyleft("MPL-2.0") && is_copyleft("EUPL") && is_copyleft("xinetd"));
    assert!(is_copyleft("CC-BY-SA-4.0") && is_copyleft("Parity-6.0.0") && is_copyleft("MS-RL"));
    assert!(!is_copyleft("MIT") && !is_copyleft("xinetd-2") && !is_copyleft("OpenSSL"));
    assert!(license_id("AGPL-3.0-only").unwrap().is_gnu());
    assert!(license_id("LGPL-3.0-or-later").unwrap().is_copyleft());
    assert!(!license_id("MIT").unwrap().is_gnu());
}

#[test]
fn lookups() {
    assert!(license_id("MIT").is_some());
    assert!(license_id("BitTorrent-1.1+").is_some());
    assert_eq!(license_id("BitTorrent-1.1+"), license_id("BitTorrent-1.1"));
    // one `+` is left out of the search, not two
    assert_eq!(license_id("BitTorrent-1.1++"), None);
    assert_eq!(license_id("mit"), None);
    assert_eq!(license_id(""), None);
    assert_eq!(license_id("+"), None);
    assert_eq!(license_id("MIT "), None);
    assert!(exception_id("LLVM-exception").is_some());
    assert_eq!(exception_id("LLVM-exception+"), None);
    assert_eq!(exception_id("MIT"), None);

    assert_eq!(
        imprecise_license_id("simplified bsd license").unwrap().0,
        license_id("BSD-2-Clause").unwrap()
    );
    // the longest name that begins the text decides; what follows is ignored
    assert_eq!(
        imprecise_license_id("Apache License 2.0, see LICENSE").unwrap(),
        (license_id("Apache-2.0").unwrap(), 18)
    );
    assert_eq!(
        imprecise_license_id("APACHE").unwrap(),
        (license_id("Apache-2.0").unwrap(), 6)
    );
    assert_eq!(
        imprecise_license_id("gpl v2").unwrap(),
        (license_id("GPL-2.0").unwrap(), 6)
    );
    assert_eq!(
        imprecise_license_id("gpl v4").unwrap(),
        (license_id("GPL-3.0").unwrap(), 3)
    );
    assert_eq!(imprecise_license_id("nothing"), None);
    assert_eq!(imprecise_license_id(""), None);
    assert_eq!(imprecise_license_id(" mit"), None);
}

#[test]
fn versions_and_bases() {
    let version = |name: &str| license_id(name).unwrap().version();
    assert_eq!(version("GPL-2.0-only").unwrap(), "2.0");
    assert_eq!(version("BSD-3-Clause").unwrap(), "3");
    assert!(version("Aladdin").is_none());
    assert_eq!(version("0BSD"), None);
    assert_eq!(version("CC-BY-NC-ND-2.5").unwrap(), "2.5");
    assert_eq!(version("BlueOak-1.0.0").unwrap(), "1.0.0");
    assert_eq!(version("BSD-3-Clause-No-Nuclear-License-2014").unwrap(), "3");

    let base = |name: &str| license_id(name).unwrap().base();
    assert_eq!(base("GPL-2.0-only"), "GPL");
    assert_eq!(base("MIT"), "MIT");
    assert_eq!(base("CC-BY-NC-ND-2.5"), "CC");
}

#[test]
fn unicode_whitespace_separates_tokens() {
    let text = "MIT\u{a0}OR\u{2003}ISC\u{3000}AND\u{85}0BSD\u{1680}\u{2028}\u{205f}";
    let tokens = spans(text, ParseMode::strict());
    assert_eq!(tokens.len(), 5);
    assert_eq!(tokens[0].1, 0..3);
    assert_eq!(tokens[1], (Token::Or, 5..7));
    assert_eq!(tokens[2].1, 10..13);
    assert_eq!(tokens[3], (Token::And, 16..19));
    assert_eq!(tokens[4].1, 21..25);
    Expression::parse(text).unwrap();

    // a character that is no whitespace and no part of a term
    let err = Expression::parse("MIT \u{200b}OR ISC").unwrap_err();
    assert_eq!(err.reason, Reason::InvalidCharacters);
    assert_eq!(err.span, 4..13);
    let err = Expression::parse("MIT\u{a0}+").unwrap_err();
    assert_eq!(err.reason, Reason::SeparatedPlus);
    assert_eq!(err.span, 3..5);
}

#[test]
fn references_are_cut_at_colons() {
    let strict = ParseMode::strict();
    assert_eq!(
        spans("LicenseRef-", strict),
        [(
            Token::LicenseRef {
                doc_ref: None,
                lic_ref: ""
            },
            0..11
        )]
    );
    assert_eq!(
        spans("DocumentRef-:AdditionRef-x.y-z", strict),
        [(
            Token::AdditionRef {
                doc_ref: Some(""),
                add_ref: "x.y-z"
            },
            0..30
        )]
    );
    assert_eq!(
        spans("DocumentRef-spdx-tool-1.2:LicenseRef-MIT-Style-2", strict),
        [(
            Token::LicenseRef {
                doc_ref: Some("spdx-tool-1.2"),
                lic_ref: "MIT-Style-2"
            },
            0..48
        )]
    );

    // the reference ends at the next colon; what follows is lexed on its own
    let mut lexer = Lexer::new("LicenseRef-a:b");
    let first = lexer.next().unwrap().unwrap();
    assert_eq!(
        first.token,
        Token::LicenseRef {
            doc_ref: None,
            lic_ref: "a"
        }
    );
    assert_eq!(first.span, 0..12);
    assert_eq!(
        lexer.next().unwrap().unwrap_err(),
        ParseError {
            original: "LicenseRef-a:b".to_owned(),
            span: 12..14,
            reason: Reason::UnknownTerm
        }
    );
    // an error does not move the lexer on
    assert_eq!(lexer.next().unwrap().unwrap_err().span, 12..14);

    let err = Expression::parse("DocumentRef-d:MIT").unwrap_err();
    assert_eq!((err.reason, err.span), (Reason::UnknownTerm, 0..17));
    let err = Expression::parse("licenseref-x").unwrap_err();
    assert_eq!((err.reason, err.span), (Reason::UnknownTerm, 0..12));
}

#[test]
fn modes_decide_what_is_lexed() {
    let strict = ParseMode::strict();
    let lax = ParseMode::lax();
    assert!(!strict.allow_slash_as_or_operator && lax.allow_slash_as_or_operator);
    assert!(!strict.allow_imprecise_license_names && lax.allow_imprecise_license_names);
    assert!(!strict.allow_postfix_plus_on_gpl && lax.allow_postfix_plus_on_gpl);
    assert!(!strict.allow_deprecated && lax.allow_deprecated);
    assert!(!strict.allow_unknown && !lax.allow_unknown);
    assert!(strict.allow_lowercase_operators && lax.allow_lowercase_operators);
    assert_eq!(ParseMode::default(), strict);

}

#[test]
fn lowercase_operators_need_their_flag() {
    let tokens: Vec<_> = spans("MIT with or and", ParseMode::strict())
        .into_iter()
        .map(|t| t.0)
        .collect();
    assert_eq!(
        tokens,
        [
            Token::Spdx(license_id("MIT").unwrap()),
            Token::With,
            Token::Or,
            Token::And
        ]
    );
    let upper = ParseMode {
        allow_lowercase_operators: false,
        ..ParseMode::strict()
    };
    let err = Expression::parse_mode("MIT and ISC", upper).unwrap_err();
    assert_eq!((err.reason, err.span), (Reason::UnknownTerm, 4..7));
    let err = Expression::parse("MIT And ISC").unwrap_err();
    assert_eq!((err.reason, err.span), (Reason::UnknownTerm, 4..7));
    Expression::parse_mode("MIT AND ISC", upper).unwrap();
    Expression::parse_mode("MIT and ISC", ParseMode::default()).unwrap();

    let unknown = ParseMode {
        allow_unknown: true,
        ..upper
    };
    assert_eq!(
        spans("and Foo:bar", unknown),
        [(Token::Unknown("and"), 0..3), (Token::Unknown("Foo:bar"), 4..11)]
    );
}

#[test]
fn token_lengths() {
    let mit = Token::Spdx(license_id("MIT").unwrap());
    assert_eq!(mit.len(), 3);
    assert_eq!(
        Token::Exception(exception_id("LLVM-exception").unwrap()).len(),
        14
    );
    assert_eq!(Token::With.len(), 4);
    assert_eq!(Token::And.len(), 3);
    assert_eq!(Token::Or.len(), 2);
    assert_eq!(Token::Plus.len(), 1);
    assert_eq!(Token::OpenParen.len(), 1);
    assert_eq!(Token::CloseParen.len(), 1);
    assert_eq!(
        Token::LicenseRef {
            doc_ref: Some("doc"),
            lic_ref: "lic"
        }
        .len(),
        "DocumentRef-doc:LicenseRef-lic".len()
    );
    assert_eq!(
        Token::AdditionRef {
            doc_ref: None,
            add_ref: "add"
        }
        .len(),
        "AdditionRef-add".len()
    );
    assert_eq!(Token::Unknown("ünknown").len(), 8);
}

#[test]
fn error_reports() {
    let report = |text: &str| Expression::parse(text).unwrap_err().to_string();
    assert_eq!(
        report("MIT OR OR ISC"),
        "MIT OR OR ISC\n       ^^ expected one of `<license>`, `(` here"
    );
    assert_eq!(report("MIT WITH ISC"), "MIT WITH ISC\n         ^^^ expected a `<addition>` here");
    assert_eq!(report("(MIT"), "(MIT\n- unclosed parens");
    assert_eq!(report("MIT)"), "MIT)\n   ^ unopened parens");
    assert_eq!(report(""), "\n empty expression");
    assert_eq!(report("MIT +"), "MIT +\n   ^ `+` must not follow whitespace");
    assert_eq!(report("MIT ?"), "MIT ?\n    ^ invalid character(s)");
    assert_eq!(report("nope"), "nope\n^^^^ unknown term");
    assert_eq!(
        report("GPL-2.0-only+"),
        "GPL-2.0-only+\n            ^ a GNU license was followed by a `+`"
    );
    assert_eq!(
        report("GPL-2.0"),
        "GPL-2.0\n^^^^^^^ a deprecated license identifier was used"
    );

    assert_eq!(Reason::Unexpected(&[]).to_string(), "the term was not expected here");
    assert_eq!(Reason::Unexpected(&["a"]).to_string(), "expected a `a` here");
    assert_eq!(
        Reason::Unexpected(&["a", "b", "c"]).to_string(),
        "expected one of `a`, `b`, `c` here"
    );
    assert_eq!(Reason::Unexpected(&["a", "b"]).description(), "unexpected term");
    assert_eq!(Reason::UnknownLicense.to_string(), "unknown license id");
    assert_eq!(Reason::UnknownException.description(), "unknown exception id");
    assert_eq!(
        Reason::GnuPlusWithSuffix.to_string(),
        "a GNU license was followed by a `+` even though it ended in `-only` or `-or-later`"
    );
}

#[test]
fn requirements_are_written_as_in_expressions() {
    let mut req = LicenseReq::from(license_id("MIT").unwrap());
    assert_eq!(req.to_string(), "MIT");
    assert_eq!(req.license.id(), license_id("MIT"));
    assert_eq!(req.addition, None);
    req.addition = exception_id("LLVM-exception").map(AdditionItem::Spdx);
    assert_eq!(req.to_string(), "MIT WITH LLVM-exception");
    assert_eq!(
        req.addition.as_ref().unwrap().id(),
        exception_id("LLVM-exception")
    );
    req.license = LicenseItem::Spdx {
        id: license_id("GPL-2.0-only").unwrap(),
        or_later: true,
    };
    assert_eq!(req.to_string(), "GPL-2.0-only WITH LLVM-exception");
    assert!(req.same(&req.duplicate()));

    let expr = Expression::parse("DocumentRef-d:LicenseRef-l WITH AdditionRef-a").unwrap();
    let reqs = expr.requirements();
    assert_eq!(reqs[0].req.license.id(), None);
    assert_eq!(reqs[0].req.addition.as_ref().unwrap().id(), None);
    match (&reqs[0].req.license, &reqs[0].req.addition) {
        (LicenseItem::Other(l), Some(AdditionItem::Other(a))) => {
            assert_eq!(l.to_string(), "DocumentRef-d:LicenseRef-l");
            assert_eq!(a.to_string(), "AdditionRef-a");
            assert!(l.same(&l.duplicate()) && a.same(&a.duplicate()));
        }
        _ => panic!("references expected"),
    }
}

#[test]
fn allowed_licenses() {
    let allowed = AllowedLicense::parse("Apache-2.0 WITH LLVM-exception").unwrap();
    assert_eq!(allowed.license.id(), license_id("Apache-2.0"));
    assert_eq!(allowed.exception, exception_id("LLVM-exception"));
    let mut req = LicenseReq::from(license_id("Apache-2.0").unwrap());
    assert!(!allowed.satisfies(&req));
    req.addition = exception_id("LLVM-exception").map(AdditionItem::Spdx);
    assert!(allowed.satisfies(&req));
    req.license = LicenseItem::Spdx {
        id: license_id("Apache-1.1").unwrap(),
        or_later: true,
    };
    assert!(allowed.satisfies(&req));
    req.license = LicenseItem::Spdx {
        id: license_id("Apache-1.1").unwrap(),
        or_later: false,
    };
    assert!(!allowed.satisfies(&req));

    // the GNU licenses are matched like any other
    let gpl = AllowedLicense::parse("GPL-3.0-only").unwrap();
    let wanted = |name: &str, or_later: bool| LicenseReq {
        license: LicenseItem::Spdx {
            id: license_id(name).unwrap(),
            or_later,
        },
        addition: None,
    };
    assert!(gpl.satisfies(&wanted("GPL-3.0-only", false)));
    assert!(!gpl.satisfies(&wanted("GPL-3.0-or-later", false)));
    assert!(!gpl.satisfies(&wanted("GPL-2.0-or-later", false)));
    assert!(!gpl.satisfies(&wanted("GPL-2.0-only", true)));

    let other = AllowedLicense::parse("LicenseRef-x").unwrap();
    let expr = Expression::parse("LicenseRef-x OR LicenseRef-y OR MIT").unwrap();
    let reqs = expr.requirements();
    assert!(other.satisfies(&reqs[0].req));
    assert!(!other.satisfies(&reqs[1].req));
    assert!(!other.satisfies(&reqs[2].req));

    let err = AllowedLicense::parse("").unwrap_err();
    assert_eq!((err.reason, err.span), (Reason::Empty, 0..0));
    let err = AllowedLicense::parse("MIT WITH").unwrap_err();
    assert_eq!((err.reason, err.span), (Reason::Empty, 4..8));
    let err = AllowedLicense::parse("MIT AND").unwrap_err();
    assert_eq!((err.reason, err.span), (Reason::Unexpected(&["WITH"]), 4..7));
    let err = AllowedLicense::parse("MIT WITH AdditionRef-a").unwrap_err();
    assert_eq!(
        (err.reason, err.span),
        (Reason::Unexpected(&["<exception>"]), 9..22)
    );
    let err = AllowedLicense::parse("WITH").unwrap_err();
    assert_eq!(
        (err.reason, err.span),
        (Reason::Unexpected(&["<license>"]), 0..4)
    );
    let err = AllowedLicense::parse("apache").unwrap_err();
    assert_eq!((err.reason, err.span), (Reason::UnknownTerm, 0..6));
}
