use spdx::error::Reason;
use spdx::ParseError;
use std::ops::Range;

fn validate_ok(text: &str, expected: &[&str]) {
    let val_expr = spdx::Expression::parse(text).unwrap();
    let reqs = val_expr.requirements();
    let mut reqs = reqs.iter().enumerate();

    for expected_str in expected {
        let actual = reqs.next().unwrap();
        let actual_str = actual.1.req.to_string();

        assert_eq!(&actual_str, expected_str, "failed @ index {}", actual.0);
    }

    if let Some((_, additional)) = reqs.next() {
        panic!("found additional requirement {}", additional.req.to_string());
    }
}

fn err(text: &str, reason: Reason, range: Range<usize>) {
    let act_err = spdx::Expression::parse(text).unwrap_err();

    let expected = ParseError {
        original: text.to_owned(),
        span: range,
        reason,
    };

    assert_eq!(act_err, expected);
}

fn unexpected(text: &str, expected: &'static [&'static str], range: Range<usize>) {
    err(text, Reason::Unexpected(expected), range);
}

#[test]
fn fails_empty() {
    err("", Reason::Empty, 0..0);
    err(" ", Reason::Empty, 0..1);
    err("\n\t\n", Reason::Empty, 0..3);
    unexpected("()", &["<license>", "("], 1..2);
    unexpected("( )", &["<license>", "("], 2..3);
    unexpected("(   )", &["<license>", "("], 4..5);
    unexpected("  ( )", &["<license>", "("], 4..5);
    unexpected("AND", &["<license>", "("], 0..3);
}

#[test]
fn fails_unbalanced_parens() {
    err("(Apache-2.0", Reason::UnclosedParens, 0..1);
    err("BSD-3-Clause-No-Nuclear-License)", Reason::UnopenedParens, 31..32);
    err("((BSD-3-Clause-No-Nuclear-License OR MIT)", Reason::UnclosedParens, 0..1);
    err("(BSD-3-Clause-No-Nuclear-License OR MIT) AND Glulxe)", Reason::UnopenedParens, 51..52);
    err("Glulxe OR MIT) AND BSD-3-Clause-No-Nuclear-License", Reason::UnopenedParens, 13..14);
    err("Glulxe OR ( MIT AND BSD-3-Clause-No-Nuclear-License", Reason::UnclosedParens, 10..11);
}

#[test]
fn fails_bad_exception() {
    unexpected("Apache-2.0 WITH WITH LLVM-exception OR Apache-2.0", &["<addition>"], 16..20);
    unexpected("Apache-2.0 WITH WITH LLVM-exception", &["<addition>"], 16..20);
    unexpected("(Apache-2.0) WITH LLVM-exception", &["AND", "OR"], 13..17);
    unexpected("Apache-2.0 (WITH LLVM-exception)", &["AND", "OR", "WITH", ")", "+"], 11..12);
    unexpected("(Apache-2.0 WITH) LLVM-exception", &["<addition>"], 16..17);
    unexpected("(Apache-2.0 WITH)+ LLVM-exception", &["<addition>"], 16..17);
    unexpected("Apache-2.0 WITH MIT", &["<addition>"], 16..19);
    unexpected("Apache-2.0 WITH WITH MIT", &["<addition>"], 16..20);
    unexpected("Apache-2.0 AND WITH MIT", &["<license>", "("], 15..19);
    unexpected("Apache-2.0 WITH AND MIT", &["<addition>"], 16..19);
    unexpected("Apache-2.0 WITH", &["<addition>"], 15..15);
}

#[test]
fn fails_bad_plus() {
    err("LAL-1.2 +", Reason::SeparatedPlus, 7..8);
    unexpected("+LAL-1.2", &["<license>", "("], 0..1);
    unexpected("++LAL-1.2", &["<license>", "("], 0..1);
    err("LAL+-1.2", Reason::UnknownTerm, 0..3);
    err("LAL-+1.2", Reason::UnknownTerm, 0..4);
    err("LAL-1.+2", Reason::UnknownTerm, 0..6);
    unexpected("LAL-1.2++", &["AND", "OR", "WITH", ")"], 8..9);
    // + can only be applied to valid SDPX short identifiers, not license/doc refs
    unexpected("LicenseRef-Nope+", &["AND", "OR", "WITH", ")"], 15..16);
    unexpected("LAL-1.2 AND+", &["<license>", "("], 11..12);
    err("LAL-1.2 OR +", Reason::SeparatedPlus, 10..11);
    unexpected("LAL-1.2 WITH+ LLVM-exception", &["<addition>"], 12..13);
    unexpected("LAL-1.2 WITH LLVM-exception+", &["AND", "OR", ")"], 27..28);
    unexpected("LAL-1.2 WITH AdditionRef-myexc+", &["AND", "OR", ")"], 30..31);
}

#[test]
fn fails_bad_ops() {
    unexpected("MIT-advertising AND", &["<license>", "("], 19..19);
    unexpected("MIT-advertising OR MIT AND", &["<license>", "("], 26..26);
    unexpected("MIT-advertising OR OR MIT", &["<license>", "("], 19..21);
    unexpected("MIT-advertising OR AND MIT", &["<license>", "("], 19..22);
    unexpected("MIT-advertising AND OR MIT", &["<license>", "("], 20..22);
    unexpected("(MIT-advertising AND) MIT", &["<license>", "("], 20..21);
    unexpected("MIT-advertising (AND MIT)", &["AND", "OR", "WITH", ")", "+"], 16..17);
    unexpected("OR MIT-advertising", &["<license>", "("], 0..2);
    unexpected("MIT-advertising WITH AND", &["<addition>"], 21..24);
}

#[test]
fn validates_single() {
    validate_ok("MIT", &["MIT"]);
    validate_ok("Apache-2.0", &["Apache-2.0"]);
}

#[test]
fn validates_canonical() {
    let canonical = "Apache-2.0 OR MIT";
    let canonical_w_parens = "(Apache-2.0 OR MIT)";

    validate_ok(canonical, &["Apache-2.0", "MIT"]);
    validate_ok(canonical_w_parens, &["Apache-2.0", "MIT"]);
}

#[test]
fn validates_single_with_exception() {
    let with_exception = "Apache-2.0 WITH LLVM-exception";
    let addition_ref = "MPL-2.0 WITH AdditionRef-Embark-Exception";
    let doc_addition_ref = "MIT WITH DocumentRef-Embark:AdditionRef-Embark-Exception";

    validate_ok(with_exception, &[with_exception]);
    validate_ok(addition_ref, &[addition_ref]);
    validate_ok(doc_addition_ref, &[doc_addition_ref]);
}

#[test]
fn validates_complex() {
    let complex = "(Apache-2.0 WITH LLVM-exception OR Apache-2.0) AND MIT";

    validate_ok(
        complex,
        &["Apache-2.0 WITH LLVM-exception", "Apache-2.0", "MIT"],
    );
}

#[test]
fn validates_parens_plus() {
    let expression = "(MIT AND (BitTorrent-1.1+ OR BSD-3-Clause))";

    validate_ok(expression, &["MIT", "BitTorrent-1.1+", "BSD-3-Clause"]);
}

#[test]
fn validates_leading_parens() {
    let leading_parens = "((Apache-2.0 WITH LLVM-exception) OR Apache-2.0) AND OpenSSL OR MIT";

    validate_ok(
        leading_parens,
        &[
            "Apache-2.0 WITH LLVM-exception",
            "Apache-2.0",
            "OpenSSL",
            "MIT",
        ],
    );
}

#[test]
fn validates_trailing_parens() {
    let trailing_parens = "Apache-2.0 WITH LLVM-exception OR Apache-2.0 AND (OpenSSL OR MIT)";

    validate_ok(
        trailing_parens,
        &[
            "Apache-2.0 WITH LLVM-exception",
            "Apache-2.0",
            "OpenSSL",
            "MIT",
        ],
    );
}

#[test]
fn validates_middle_parens() {
    let middle_parens = "Apache-2.0 WITH LLVM-exception OR (Apache-2.0 AND OpenSSL) OR MIT";

    validate_ok(
        middle_parens,
        &[
            "Apache-2.0 WITH LLVM-exception",
            "Apache-2.0",
            "OpenSSL",
            "MIT",
        ],
    );
}

#[test]
fn validates_excessive_parens() {
    let excessive_parens =
        "((((Apache-2.0 WITH LLVM-exception) OR (Apache-2.0)) AND (OpenSSL)) OR (MIT))";

    validate_ok(
        excessive_parens,
        &[
            "Apache-2.0 WITH LLVM-exception",
            "Apache-2.0",
            "OpenSSL",
            "MIT",
        ],
    );
}

fn canon(bad: &str, exp: &str) {
    assert_eq!(spdx::Expression::canonicalize(bad).unwrap().unwrap(), exp);
}

#[test]
fn canonicalization() {
    assert!(spdx::Expression::canonicalize("Apache-2.0 OR MIT")
        .unwrap()
        .is_none());

    canon("Apache-2.0/MIT", "Apache-2.0 OR MIT");
    canon("MIT and GPL-3.0+", "MIT AND GPL-3.0-or-later");
    canon("GPL-2.0 and mit", "GPL-2.0 AND MIT");
    canon(
        "simplified bsd license or gpl-2.0+",
        "BSD-2-Clause OR GPL-2.0-or-later",
    );
    canon(
        "apache with LLVM-exception/mpl",
        "Apache-2.0 WITH LLVM-exception OR MPL-2.0",
    );
    canon(
        "simplified bsd license or gpl-3.0+",
        "BSD-2-Clause OR GPL-3.0-or-later",
    );
    canon(
        "apache with LLVM-exception/gpl-2.0",
        "Apache-2.0 WITH LLVM-exception OR GPL-2.0",
    );
    canon(
        "apache with LLVM-exception / gpl-3.0 or mit",
        "Apache-2.0 WITH LLVM-exception OR GPL-3.0 OR MIT",
    );
}
