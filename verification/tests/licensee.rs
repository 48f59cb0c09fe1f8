use spdx::{exception_id, license_id, AdditionItem, LicenseItem, LicenseRef, LicenseReq, Licensee};

const LICENSEES: &[&str] = &[
    "LicenseRef-Embark-Proprietary",
    "BSD-2-Clause",
    "Apache-2.0 WITH LLVM-exception",
    "BSD-2-Clause-FreeBSD",
    "BSL-1.0",
    "Zlib",
    "CC0-1.0",
    "FTL",
    "ISC",
    "MIT",
    "MPL-2.0",
    "BSD-3-Clause",
    "Unicode-DFS-2016",
    "Unlicense",
    "Apache-2.0",
    "Apache-2.0 WITH AdditionRef-Embark-Exception",
];

fn sorted_licensees() -> Vec<Licensee> {
    let mut licensees: Vec<_> = LICENSEES
        .iter()
        .map(|l| Licensee::parse_mode(l, spdx::ParseMode::lax()).unwrap())
        .collect();
    licensees.sort();
    licensees
}

#[test]
fn handles_exceptions() {
    let licensees = sorted_licensees();

    let apache_id = license_id("Apache-2.0").unwrap();
    let llvm_exc = exception_id("LLVM-exception").unwrap();
    let req = LicenseReq {
        license: LicenseItem::Spdx {
            id: apache_id,
            or_later: false,
        },
        addition: Some(AdditionItem::Spdx(llvm_exc)),
    };

    assert_eq!(
        &req,
        licensees[licensees
            .binary_search_by(|l| l.as_ref().partial_cmp(&req).unwrap())
            .unwrap()]
        .as_ref()
    );
}

#[test]
fn handles_license_ref() {
    let licensees = sorted_licensees();

    let req = LicenseReq {
        license: LicenseItem::Other(Box::new(LicenseRef {
            doc_ref: None,
            lic_ref: "Embark-Proprietary".to_owned(),
        })),
        addition: None,
    };

    assert_eq!(
        &req,
        licensees[licensees
            .binary_search_by(|l| l.as_ref().partial_cmp(&req).unwrap())
            .unwrap()]
        .as_ref()
    );
}

#[test]
fn licensees_never_allow_later_versions() {
    let licensees = sorted_licensees();

    for id in ["MPL-2.0", "BSD-2-Clause", "BSD-2-Clause-FreeBSD"] {
        let lic_id = license_id(id).unwrap();
        let req = LicenseReq {
            license: LicenseItem::Spdx {
                id: lic_id,
                or_later: true,
            },
            addition: None,
        };

        // Licensees can't have the `or_later`
        assert!(licensees
            .binary_search_by(|l| l.as_ref().cmp(&req))
            .is_err());
        assert!(licensees
            .iter()
            .any(|l| l.as_ref().license.id() == Some(lic_id) && l.satisfies(&req)));
    }

    let parsed: Licensee = "MIT WITH LLVM-exception".parse().unwrap();
    assert_eq!(Ok(parsed), Licensee::parse("MIT WITH LLVM-exception"));
    let expr: spdx::Expression = "MIT OR ISC".parse().unwrap();
    assert_eq!(expr.to_string(), "MIT OR ISC");
    let valid = spdx::expression::ValidExpression::parse("MIT").unwrap();
    assert_eq!(valid.requirements().len(), 1);
}
