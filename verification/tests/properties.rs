use spdx::error::Reason;
use spdx::expression::{ExprNode, MinimizeError, Operator};
use spdx::{
    exception_id, gnu_license_id, license_id, AdditionItem, AdditionRef, Expression, LicenseItem,
    LicenseRef, LicenseReq, Licensee, ParseMode,
};

fn licensee(text: &str) -> Licensee {
    Licensee::parse_mode(text, ParseMode::lax()).unwrap()
}

fn req(name: &str, or_later: bool) -> LicenseReq {
    LicenseReq {
        license: LicenseItem::Spdx {
            id: license_id(name).unwrap(),
            or_later,
        },
        addition: None,
    }
}

fn postfix(text: &str) -> String {
    Expression::parse(text).unwrap().to_postfix_string()
}

const VALID: &[&str] = &[
    "MIT",
    "MIT OR Apache-2.0",
    "(MIT AND (LGPL-2.1-or-later OR BSD-3-Clause))",
    "Apache-2.0 WITH LLVM-exception OR Apache-2.0 AND (OpenSSL OR MIT)",
    "  ISC\tAND\n0BSD  ",
    "BitTorrent-1.1+ or MIT and ISC",
    "LicenseRef-a AND DocumentRef-d:LicenseRef-b WITH AdditionRef-c",
    "((((MIT))))",
    "MIT OR ISC OR 0BSD OR Zlib AND Unlicense AND BSL-1.0",
];

#[test]
fn text_round_trips() {
    for text in VALID {
        let expr = Expression::parse(text).unwrap();
        assert_eq!(expr.to_string(), *text);
        assert_eq!(expr.as_ref(), *text);
    }
}

#[test]
fn canonical_text_stays_canonical() {
    for bad in [
        "Apache-2.0/MIT",
        "MIT and GPL-3.0+",
        "GPL-2.0 and mit",
        "simplified bsd license or gpl-2.0+",
        "apache with LLVM-exception / gpl-3.0 or mit",
        "(mit  OR   isc license)and LicenseRef-x with AdditionRef-y",
    ] {
        let once = Expression::canonicalize(bad).unwrap().unwrap();
        assert_eq!(Expression::canonicalize(&once).unwrap(), None, "{once}");
        Expression::parse_mode(&once, ParseMode::lax()).unwrap();
    }
    // a GNU license stays as it was written
    assert_eq!(Expression::canonicalize("GPL-2.0").unwrap(), None);
    assert_eq!(Expression::canonicalize("GPL-2.0-only").unwrap(), None);
    assert_eq!(
        Expression::canonicalize("GPL-2.0+").unwrap().unwrap(),
        "GPL-2.0-or-later"
    );

    assert_eq!(
        Expression::canonicalize("(mit  OR   isc license)and LicenseRef-x with AdditionRef-y")
            .unwrap()
            .unwrap(),
        "(MIT OR ISC) AND LicenseRef-x WITH AdditionRef-y"
    );
    assert_eq!(Expression::canonicalize("").unwrap(), None);
    assert_eq!(Expression::canonicalize("  ").unwrap().unwrap(), "");
}

#[test]
fn canonicalize_reports_the_first_lexer_error() {
    let err = Expression::canonicalize("MIT OR nope").unwrap_err();
    assert_eq!(err.reason, Reason::UnknownTerm);
    assert_eq!(err.span, 7..11);
    assert_eq!(err.original, "MIT OR nope");

    // canonical text of tokens that make no expression need not lex again
    assert_eq!(
        Expression::canonicalize("0BSD AAL").unwrap().unwrap(),
        "0BSDAAL"
    );
    assert_eq!(
        Expression::canonicalize("0BSDAAL").unwrap_err().reason,
        Reason::UnknownTerm
    );
    // nor that of a GNU license of which the list has no -or-later form
    assert_eq!(
        Expression::canonicalize("GPL-2.0-with-GCC-exception+")
            .unwrap()
            .unwrap(),
        "GPL-2.0-with-GCC-exception-or-later"
    );
    assert!(Expression::canonicalize("GPL-2.0-with-GCC-exception-or-later").is_err());
    assert_eq!(Expression::canonicalize("BitTorrent-1.1+").unwrap(), None);
    assert_eq!(
        Expression::canonicalize("GPL-2.0-with-GCC-exception").unwrap(),
        None
    );
}

#[test]
fn parsed_nodes_are_postfix() {
    for text in VALID {
        let expr = Expression::parse_mode(text, ParseMode::lax()).unwrap();
        let nodes = expr.iter();
        let mut counter = 0i64;
        for node in nodes {
            match node {
                ExprNode::Req(_) => counter += 1,
                ExprNode::Op(_) => counter -= 1,
            }
            assert!(counter >= 1, "{text}");
        }
        assert_eq!(counter, 1, "{text}");
    }
}

#[test]
fn operators_agree_with_boolean_algebra() {
    let or = Expression::parse("MIT OR ISC").unwrap();
    let and = Expression::parse("MIT AND ISC").unwrap();
    let mixed = Expression::parse("MIT OR ISC AND 0BSD").unwrap();
    let other = Expression::parse("MIT AND ISC OR 0BSD").unwrap();

    for a in [false, true] {
        for b in [false, true] {
            assert_eq!(or.evaluate_answers(&[a, b]), a || b);
            assert_eq!(and.evaluate_answers(&[a, b]), a && b);
            let mit = license_id("MIT");
            let isc = license_id("ISC");
            let by_id = |r: &LicenseReq| {
                let id = r.license.id();
                (a && id == mit) || (b && id == isc)
            };
            assert_eq!(or.evaluate(by_id), a || b);
            assert_eq!(and.evaluate(by_id), a && b);

            for c in [false, true] {
                assert_eq!(mixed.evaluate_answers(&[a, b, c]), a || (b && c));
                assert_eq!(other.evaluate_answers(&[a, b, c]), (a && b) || c);
            }
        }
    }

    // an answer that is missing counts as false
    assert!(!and.evaluate_answers(&[true]));
    assert!(or.evaluate_answers(&[true]));
    assert!(!or.evaluate_answers(&[]));
}

#[test]
fn postfix_order_follows_precedence() {
    assert_eq!(postfix("MIT OR ISC AND 0BSD"), "MIT ISC 0BSD AND OR");
    assert_eq!(postfix("MIT AND ISC OR 0BSD"), "MIT ISC AND 0BSD OR");
    assert_eq!(postfix("(MIT OR ISC) AND 0BSD"), "MIT ISC OR 0BSD AND");
    // both operators group from the left
    assert_eq!(postfix("MIT OR ISC OR 0BSD"), "MIT ISC OR 0BSD OR");
    assert_eq!(postfix("MIT AND ISC AND 0BSD"), "MIT ISC AND 0BSD AND");
    assert_eq!(
        postfix("MIT OR ISC AND 0BSD AND Zlib OR Unlicense"),
        "MIT ISC 0BSD AND Zlib AND OR Unlicense OR"
    );
    assert_eq!(
        postfix("Apache-2.0 WITH LLVM-exception OR BitTorrent-1.1+"),
        "Apache-2.0 WITH LLVM-exception BitTorrent-1.1+ OR"
    );
}

#[test]
fn parentheses_do_not_change_the_nodes() {
    let plain = Expression::parse("MIT OR ISC").unwrap();
    let grouped = Expression::parse("(MIT OR ISC)").unwrap();
    assert!(plain == grouped);
    assert!(plain.same(&grouped));
    assert_ne!(plain.to_string(), grouped.to_string());
    assert_eq!(plain.to_postfix_string(), grouped.to_postfix_string());
    assert_eq!(plain.iter().len(), 3);
    assert_eq!(grouped.iter()[2], ExprNode::Op(Operator::Or));
    // the places differ
    match (&plain.iter()[0], &grouped.iter()[0]) {
        (ExprNode::Req(a), ExprNode::Req(b)) => {
            assert_eq!(a.span, 0..3);
            assert_eq!(b.span, 1..4);
            assert!(a == b);
        }
        _ => panic!("requirements expected"),
    }

    let and = Expression::parse("MIT AND ISC").unwrap();
    assert!(plain != and);
    let longer = Expression::parse("MIT OR ISC OR 0BSD").unwrap();
    assert!(plain != longer);
}

#[test]
fn eq() {
    let normal = Expression::parse("MIT OR Apache-2.0").unwrap();
    let extra_parens = Expression::parse("(MIT OR (Apache-2.0))").unwrap();
    let llvm_exc = Expression::parse("MIT OR Apache-2.0 WITH LLVM-exception").unwrap();

    assert_eq!(normal, normal);
    assert_eq!(extra_parens, extra_parens);
    assert_eq!(llvm_exc, llvm_exc);

    assert_eq!(normal, extra_parens);

    assert_ne!(normal, llvm_exc);
}

#[test]
fn gnu_or_later_display() {
    let gpl_or_later = LicenseItem::Spdx {
        id: license_id("GPL-3.0").unwrap(),
        or_later: true,
    };

    let gpl_or_later_in_id = LicenseItem::Spdx {
        id: license_id("GPL-3.0-or-later").unwrap(),
        or_later: true,
    };

    let gpl_or_later_parsed = Expression::parse("GPL-3.0-or-later").unwrap();

    let non_gnu_or_later = LicenseItem::Spdx {
        id: license_id("Apache-2.0").unwrap(),
        or_later: true,
    };

    assert_eq!(gpl_or_later.to_string(), "GPL-3.0-or-later");
    assert_eq!(gpl_or_later_parsed.to_string(), "GPL-3.0-or-later");
    assert_eq!(gpl_or_later_in_id.to_string(), "GPL-3.0-or-later");
    assert_eq!(non_gnu_or_later.to_string(), "Apache-2.0+");
}

#[test]
fn satisfaction_examples() {
    assert!(Licensee::parse("MIT")
        .unwrap()
        .satisfies(&LicenseReq::from(license_id("MIT").unwrap())));
    assert!(Licensee::parse("Apache-2.0")
        .unwrap()
        .satisfies(&req("Apache-2.0", true)));
    assert!(!Licensee::parse("GPL-2.0-only")
        .unwrap()
        .satisfies(&req("GPL-3.0-or-later", true)));

    // a later version only where the requirement allows it
    assert!(licensee("Apache-2.0").satisfies(&req("Apache-1.1", true)));
    assert!(!licensee("Apache-2.0").satisfies(&req("Apache-1.1", false)));
    assert!(!licensee("Apache-1.1").satisfies(&req("Apache-2.0", true)));
    // what stands before the version must be the same
    assert!(!licensee("BSD-2-Clause").satisfies(&req("BSD-1-Clause", true)));
    assert!(!licensee("MPL-2.0").satisfies(&req("MIT", true)));
    assert!(licensee("CECILL-2.1").satisfies(&req("CECILL-1.0", true)));
    // and only a version is left out of the comparison
    assert!(!licensee("MIT-feh").satisfies(&req("MIT-advertising", true)));
    assert!(!licensee("CECILL-C").satisfies(&req("CECILL-B", true)));
    assert!(!licensee("BSD-3-Clause-LBNL").satisfies(&req("BSD-3-Clause-Clear", true)));
    assert!(!licensee("Adobe-Glyph").satisfies(&req("Adobe-2006", true)));
    // another license only where the requirement allows later versions,
    // whatever suffix a GNU identifier has
    assert!(!licensee("GPL-3.0-only").satisfies(&req("GPL-2.0-or-later", false)));
    assert!(!licensee("GPL-3.0-only").satisfies(&req("GPL-2.0-only", false)));
    assert!(!licensee("GPL-2.0-or-later").satisfies(&req("GPL-2.0-only", false)));
    assert!(!licensee("GPL-2.0").satisfies(&req("GPL-2.0-only", false)));
    assert!(licensee("GPL-2.0-only").satisfies(&req("GPL-2.0-only", false)));
    // with later versions allowed the GNU suffixes do not count
    assert!(licensee("GPL-3.0-only").satisfies(&req("GPL-2.0-only", true)));
    assert!(licensee("GPL-3.0-only").satisfies(&req("GPL-2.0-or-later", true)));
    assert!(licensee("GPL-2.0").satisfies(&req("GPL-2.0-or-later", true)));
    assert!(licensee("GPL-2.0-or-later").satisfies(&req("GPL-2.0", true)));
    assert!(!licensee("GPL-1.0-only").satisfies(&req("GPL-2.0", true)));
    assert!(!licensee("LGPL-3.0-only").satisfies(&req("GPL-2.0-or-later", true)));
    // invariants never mix
    assert!(!licensee("GFDL-1.3-invariants-only").satisfies(&req("GFDL-1.2-or-later", true)));
    assert!(!licensee("GFDL-1.3").satisfies(&req("GFDL-1.2-invariants-or-later", true)));
    assert!(licensee("GFDL-1.3-invariants").satisfies(&req("GFDL-1.2-invariants-only", true)));
    assert!(licensee("GFDL-1.3-only").satisfies(&req("GFDL-1.2", true)));
}

#[test]
fn satisfaction_of_references_and_additions() {
    let with_llvm = licensee("Apache-2.0 WITH LLVM-exception");
    let wanted = LicenseReq {
        license: LicenseItem::Spdx {
            id: license_id("Apache-2.0").unwrap(),
            or_later: true,
        },
        addition: exception_id("LLVM-exception").map(AdditionItem::Spdx),
    };
    assert!(with_llvm.satisfies(&wanted));
    assert!(!licensee("Apache-2.0").satisfies(&wanted));
    assert!(!with_llvm.satisfies(&req("Apache-2.0", true)));
    assert!(!licensee("Apache-2.0 WITH Swift-exception").satisfies(&wanted));

    let reference = |doc: Option<&str>, name: &str| LicenseReq {
        license: LicenseItem::Other(Box::new(LicenseRef {
            doc_ref: doc.map(str::to_owned),
            lic_ref: name.to_owned(),
        })),
        addition: None,
    };
    assert!(licensee("LicenseRef-x").satisfies(&reference(None, "x")));
    assert!(!licensee("LicenseRef-x").satisfies(&reference(None, "y")));
    assert!(!licensee("LicenseRef-x").satisfies(&reference(Some("d"), "x")));
    assert!(licensee("DocumentRef-d:LicenseRef-x").satisfies(&reference(Some("d"), "x")));
    assert!(!licensee("LicenseRef-MIT").satisfies(&req("MIT", true)));
    assert!(!licensee("MIT").satisfies(&reference(None, "MIT")));

    let with_ref = licensee("MIT WITH DocumentRef-d:AdditionRef-e");
    let mut wanted = req("MIT", false);
    wanted.addition = Some(AdditionItem::Other(Box::new(AdditionRef {
        doc_ref: Some("d".to_owned()),
        add_ref: "e".to_owned(),
    })));
    assert!(with_ref.satisfies(&wanted));
    assert_eq!(with_ref.clone().into_req(), wanted);
    assert_eq!(with_ref.as_ref(), &wanted);
    assert_eq!(with_ref.to_string(), "MIT WITH DocumentRef-d:AdditionRef-e");
    wanted.addition = Some(AdditionItem::Other(Box::new(AdditionRef {
        doc_ref: None,
        add_ref: "e".to_owned(),
    })));
    assert!(!with_ref.satisfies(&wanted));
}

#[test]
fn gnu_restrictions() {
    // a licensee never allows later versions: no `+` may follow
    let err = Licensee::parse("GPL-3.0-or-later+").unwrap_err();
    assert_eq!(err.reason, Reason::Unexpected(&["WITH"]));
    assert_eq!(err.span, 16..17);
    let err = Licensee::parse_mode("GPL-3.0+", ParseMode::lax()).unwrap_err();
    assert_eq!(err.reason, Reason::Unexpected(&["WITH"]));
    assert_eq!(err.span, 7..8);
    assert!(Licensee::parse("Apache-2.0+").is_err());

    // in an expression the strict mode forbids the `+` behind a GNU license
    let err = Expression::parse("GPL-3.0-or-later+").unwrap_err();
    assert_eq!(err.reason, Reason::GnuNoPlus);
    assert_eq!(err.span, 16..17);
    let lax = Expression::parse_mode("GPL-3.0-or-later+ OR GPL-2.0+", ParseMode::lax()).unwrap();
    assert_eq!(lax.requirements().len(), 2);
    assert_eq!(lax.requirements()[1].req, req("GPL-2.0", true));

    // a deprecated license needs a mode that allows it
    let err = Licensee::parse("GPL-3.0").unwrap_err();
    assert_eq!(err.reason, Reason::DeprecatedLicenseId);
    assert_eq!(err.span, 0..7);
    let err = Expression::parse("MIT OR wxWindows").unwrap_err();
    assert_eq!(err.reason, Reason::DeprecatedLicenseId);
    assert_eq!(err.span, 7..16);

    // a GFDL license marked -no-invariants is no licensee
    let err = Licensee::parse("GFDL-1.3-no-invariants-only").unwrap_err();
    assert_eq!(err.reason, Reason::Unexpected(&["<license>"]));
    assert_eq!(err.span, 0..27);
    Expression::parse("GFDL-1.3-no-invariants-only").unwrap();
}

#[test]
fn licensee_parsing() {
    let err = Licensee::parse("").unwrap_err();
    assert_eq!((err.reason, err.span), (Reason::Empty, 0..0));
    let err = Licensee::parse("   ").unwrap_err();
    assert_eq!((err.reason, err.span), (Reason::Empty, 0..3));
    let err = Licensee::parse("MIT WITH").unwrap_err();
    assert_eq!((err.reason, err.span), (Reason::Empty, 4..8));
    let err = Licensee::parse("MIT OR ISC").unwrap_err();
    assert_eq!((err.reason, err.span), (Reason::Unexpected(&["WITH"]), 4..6));
    let err = Licensee::parse("MIT WITH ISC").unwrap_err();
    assert_eq!(
        (err.reason, err.span),
        (Reason::Unexpected(&["<addition>"]), 9..12)
    );
    let err = Licensee::parse("(MIT)").unwrap_err();
    assert_eq!(
        (err.reason, err.span),
        (Reason::Unexpected(&["<license>"]), 0..1)
    );
    let err = Licensee::parse("MIT §").unwrap_err();
    assert_eq!((err.reason, err.span), (Reason::InvalidCharacters, 4..6));
    let err = Licensee::parse("MIT WITH nope").unwrap_err();
    assert_eq!((err.reason, err.span), (Reason::UnknownTerm, 9..13));

    // what follows the addition is not looked at
    assert_eq!(
        Licensee::parse("MIT WITH LLVM-exception OR (").unwrap(),
        Licensee::parse("MIT WITH LLVM-exception").unwrap()
    );
    assert_eq!(
        Licensee::parse("MIT").unwrap(),
        Licensee::new(
            LicenseItem::Spdx {
                id: license_id("MIT").unwrap(),
                or_later: false
            },
            None
        )
    );
    assert!(Licensee::parse("MIT").unwrap().same(&licensee("mit")));
}

#[test]
fn minimization_examples() {
    let expr = Expression::parse("Apache-2.0 OR MIT").unwrap();
    let apache = Licensee::parse("Apache-2.0").unwrap();
    let mit = Licensee::parse("MIT").unwrap();
    let bsd = Licensee::parse("BSD-3-Clause").unwrap();

    assert_eq!(
        expr.minimized_requirements(&[&apache, &mit]).unwrap(),
        vec![apache.clone().into_req()]
    );
    assert_eq!(
        expr.minimized_requirements(&[&mit, &apache]).unwrap(),
        vec![mit.clone().into_req()]
    );
    assert_eq!(
        expr.minimized_requirements(&[&bsd]).unwrap_err(),
        MinimizeError::RequirementsUnmet
    );
    let nobody: [&Licensee; 0] = [];
    assert_eq!(
        expr.minimized_requirements(&nobody).unwrap_err(),
        MinimizeError::RequirementsUnmet
    );
    // licensees that satisfy nothing, and repeated ones, are left out
    assert_eq!(
        expr.minimized_requirements(&[&bsd, &mit, &bsd, &mit, &apache])
            .unwrap(),
        vec![mit.clone().into_req()]
    );

    // the least mask wins, not the fewest licensees
    let expr = Expression::parse("(MIT AND ISC) OR 0BSD").unwrap();
    let isc = Licensee::parse("ISC").unwrap();
    let zero = Licensee::parse("0BSD").unwrap();
    assert_eq!(
        expr.minimized_requirements(&[&mit, &isc, &zero]).unwrap(),
        vec![mit.clone().into_req(), isc.clone().into_req()]
    );
    assert_eq!(
        expr.minimized_requirements(&[&zero, &mit, &isc]).unwrap(),
        vec![zero.clone().into_req()]
    );

    // a licensee of a later version stands in the result as it is
    let expr = Expression::parse("Apache-1.1+ AND MIT").unwrap();
    assert_eq!(
        expr.minimized_requirements(&[&mit, &apache]).unwrap(),
        vec![mit.into_req(), apache.into_req()]
    );
}

#[test]
fn sixty_four_licensees_can_be_minimized() {
    let mut names = Vec::new();
    let mut index = 0;
    while names.len() < 64 {
        let name = spdx::identifiers::license_name_at(index);
        let flags = spdx::identifiers::license_flags_at(index);
        if flags & spdx::identifiers::IS_GNU == 0 && !name.contains('+') {
            names.push(name);
        }
        index += 1;
    }
    let text = names.join(" OR ");
    let expr = Expression::parse_mode(&text, ParseMode::lax()).unwrap();
    let licensees: Vec<Licensee> = names.iter().map(|n| licensee(n)).collect();
    let accepted: Vec<&Licensee> = licensees.iter().collect();
    assert_eq!(
        expr.minimized_requirements(&accepted).unwrap(),
        vec![licensees[0].clone().into_req()]
    );
}

#[test]
fn failures_are_listed_term_by_term() {
    let expr = Expression::parse("MIT AND (ISC OR 0BSD) AND Zlib").unwrap();
    let failed = expr
        .evaluate_with_failures(|r| r.license.id() == license_id("ISC"))
        .unwrap_err();
    let names: Vec<String> = failed.iter().map(|f| f.req.to_string()).collect();
    // 0BSD is listed although ISC next to it was met
    assert_eq!(names, ["MIT", "0BSD", "Zlib"]);
    assert_eq!(failed[1].span, 16..20);

    assert_eq!(
        expr.evaluate_with_failures(|r| r.license.id() != license_id("0BSD")),
        Ok(())
    );
    assert_eq!(expr.failures_for(&[true, false, true, true]), Ok(()));
    let failed = expr.failures_for(&[true, true, false, false]).unwrap_err();
    assert_eq!(failed.len(), 2);
    assert_eq!(failed[0].req, req("0BSD", false));
    assert_eq!(expr.answers(|r| r.license.id() == license_id("Zlib")), [false, false, false, true]);
}

#[test]
fn requirements_come_in_source_order() {
    let expr = Expression::parse("MIT AND BSD-2-Clause").unwrap();
    let ids: Vec<_> = expr
        .requirements()
        .iter()
        .map(|er| er.req.license.id())
        .collect();
    assert_eq!(ids, [license_id("MIT"), license_id("BSD-2-Clause")]);

    let expr = Expression::parse("Apache-2.0 OR MIT").unwrap();
    let nodes = expr.iter();
    assert!(matches!(nodes[0], ExprNode::Req(_)));
    assert!(matches!(nodes[1], ExprNode::Req(_)));
    assert_eq!(nodes[2], ExprNode::Op(Operator::Or));
    let copy = expr.clone();
    assert_eq!(copy, expr);
    assert_eq!(copy.to_string(), "Apache-2.0 OR MIT");
}

#[test]
fn unknown_terms_where_the_mode_lets_them_through() {
    let mode = ParseMode {
        allow_unknown: true,
        ..ParseMode::strict()
    };
    let err = Expression::parse_mode("MIT OR nope", mode).unwrap_err();
    assert_eq!((err.reason, err.span), (Reason::UnknownLicense, 7..11));
    let err = Expression::parse_mode("MIT WITH nope", mode).unwrap_err();
    assert_eq!((err.reason, err.span), (Reason::UnknownException, 9..13));
    let err = Expression::parse_mode("MIT nope", mode).unwrap_err();
    assert_eq!(
        (err.reason, err.span),
        (Reason::Unexpected(&["AND", "OR", "WITH", ")", "+"]), 4..8)
    );
    let err = Licensee::parse_mode("nope", mode).unwrap_err();
    assert_eq!(
        (err.reason, err.span),
        (Reason::Unexpected(&["<license>"]), 0..4)
    );
}

#[test]
fn gnu_identifiers_by_base() {
    assert_eq!(gnu_license_id("GPL-2.0", true), license_id("GPL-2.0-or-later"));
    assert_eq!(gnu_license_id("GPL-2.0", false), license_id("GPL-2.0-only"));
    assert_eq!(gnu_license_id("GPL-2.0-only", true), license_id("GPL-2.0-only"));
    assert_eq!(
        gnu_license_id("LGPL-3.0-or-later", false),
        license_id("LGPL-3.0-or-later")
    );
    assert!(gnu_license_id("GPL-2.0", true).is_some());
    assert_ne!(gnu_license_id("GPL-2.0", true), license_id("GPL-2.0"));
    assert_eq!(gnu_license_id("GPL-9.0", true), None);
    assert_eq!(gnu_license_id("MIT", false), None);
    assert_eq!(gnu_license_id("", false), None);
}

#[test]
fn minimize_errors_are_written_out() {
    assert_eq!(
        MinimizeError::TooManyRequirements(65).to_string(),
        "the license expression required 65 licensees which exceeds the limit of 64"
    );
    assert_eq!(
        MinimizeError::TooManyRequirements(0).to_string(),
        "the license expression required 0 licensees which exceeds the limit of 64"
    );
    assert_eq!(
        MinimizeError::TooManyRequirements(1009080).to_string(),
        "the license expression required 1009080 licensees which exceeds the limit of 64"
    );
    assert_eq!(
        MinimizeError::TooManyRequirements(usize::MAX).to_string(),
        format!(
            "the license expression required {} licensees which exceeds the limit of 64",
            usize::MAX
        )
    );
    assert_eq!(
        MinimizeError::RequirementsUnmet.to_string(),
        "the expression was not satisfied by the provided list of licensees"
    );
    assert_eq!(
        MinimizeError::TooManyRequirements(65).description(),
        "too many requirements in license expression"
    );
    assert_eq!(
        MinimizeError::RequirementsUnmet.description(),
        "the expression was not satisfied by the provided list of licensees"
    );
}

#[test]
fn gnu_flag_follows_the_identifier() {
    for name in ["AGPL-1.0", "GFDL-1.3-invariants", "GPL-2.0+", "LGPL-2.1-only"] {
        assert!(license_id(name).unwrap().is_gnu(), "{name}");
    }
    for name in ["MIT", "CNRI-Python-GPL-Compatible", "NGPL", "LGPLLR", "0BSD"] {
        assert!(!license_id(name).unwrap().is_gnu(), "{name}");
    }
}
