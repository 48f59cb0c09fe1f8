//! Read-only lookup of license and exception identifiers.
//!
//! A [`LicenseId`] or an [`ExceptionId`] is a handle: the position of an
//! entry in the identifier tables. Two handles are equal exactly when they
//! name the same entry. The tables are sorted by identifier, so an
//! identifier is found by binary search.

use crate::collections::{name_bytes, NameBuffer};
use crate::identifiers::{
    lemma_exception_order, lemma_gnu_flag, lemma_license_order, exception_flags, exception_flags_at, exception_name, exception_name_at, imprecise_name,
    imprecise_name_at, imprecise_target, imprecise_target_at, license_flags, license_flags_at,
    license_full_name, license_full_name_at, license_name, license_name_at, EXCEPTION_COUNT,
    IMPRECISE_COUNT, IS_COPYLEFT, IS_DEPRECATED, IS_FSF_LIBRE, IS_GNU, IS_OSI_APPROVED,
    LICENSE_COUNT, VERSION,
};
use crate::text::{
    lemma_sorts_before_irreflexive, lemma_sorts_before_transitive, order_of, sorts_before, Order,
    all_ascii, bytes_eq, ends_with, is_ascii_bytes, lower, first_at, has_prefix, has_prefix_ignoring_case, has_suffix,
    lemma_ascii_run_boundary, slice_between, starts_with, starts_with_ignoring_case_at,
};
use vstd::prelude::*;
use vstd::slice::slice_subrange;
use vstd::string::*;
use vstd::utf8::*;

verus! {

/// An entry of the license table.
#[derive(Clone, Copy, Debug)]
pub struct License {
    /// The short identifier of the license
    pub name: &'static str,
    /// The full name of the license
    pub full_name: &'static str,
    /// The position of the license in the table
    pub index: usize,
    /// The flags of the license
    pub flags: u8,
}

/// An entry of the exception table.
#[derive(Clone, Copy, Debug)]
pub struct Exception {
    /// The short identifier of the exception
    pub name: &'static str,
    /// The position of the exception in the table
    pub index: usize,
    /// The flags of the exception
    pub flags: u8,
}

/// Unique identifier of a license of the table.
#[derive(Clone, Copy, Debug, PartialEq, Eq, PartialOrd, Ord, Hash)]
pub struct LicenseId {
    index: usize,
}

/// Unique identifier of an exception of the table.
#[derive(Clone, Copy, Debug, PartialEq, Eq, PartialOrd, Ord, Hash)]
pub struct ExceptionId {
    index: usize,
}

/// The bytes of the short identifier of the license at `index`.
pub open spec fn license_bytes(index: usize) -> Seq<u8> {
    license_name(index).spec_bytes()
}

/// The bytes of the short identifier of the exception at `index`.
pub open spec fn exception_bytes(index: usize) -> Seq<u8> {
    exception_name(index).spec_bytes()
}

/// Whether the license at `index` carries the flag `flag`.
pub open spec fn license_has(index: usize, flag: u8) -> bool {
    license_flags(index) & flag != 0
}

/// The first position at or after `from` whose license is called `name`.
pub open spec fn license_lookup_from(name: Seq<u8>, from: usize) -> Option<usize>
    decreases LICENSE_COUNT - from,
{
    if from >= LICENSE_COUNT {
        None
    } else if license_bytes(from) == name {
        Some(from)
    } else {
        license_lookup_from(name, (from + 1) as usize)
    }
}

/// The position of the license called `name`, exactly as written.
pub open spec fn license_lookup(name: Seq<u8>) -> Option<usize> {
    license_lookup_from(name, 0)
}

/// The first position at or after `from` whose exception is called `name`.
pub open spec fn exception_lookup_from(name: Seq<u8>, from: usize) -> Option<usize>
    decreases EXCEPTION_COUNT - from,
{
    if from >= EXCEPTION_COUNT {
        None
    } else if exception_bytes(from) == name {
        Some(from)
    } else {
        exception_lookup_from(name, (from + 1) as usize)
    }
}

/// The position of the exception called `name`, exactly as written.
pub open spec fn exception_lookup(name: Seq<u8>) -> Option<usize> {
    exception_lookup_from(name, 0)
}

/// `name` without one trailing `+`.
pub open spec fn trim_plus(name: Seq<u8>) -> Seq<u8> {
    if name.len() > 0 && name.last() == 0x2bu8 {
        name.drop_last()
    } else {
        name
    }
}

/// The loosely written name at position `k`, which is ASCII text and not
/// empty, begins `text`, whatever the case of the letters.
pub open spec fn imprecise_matches(text: Seq<u8>, k: usize) -> bool {
    imprecise_name(k).spec_bytes().len() > 0 && is_ascii_bytes(imprecise_name(k).spec_bytes())
        && has_prefix_ignoring_case(
        text,
        imprecise_name(k).spec_bytes(),
    )
}

/// Among the first `upto` loosely written names, the position of the longest
/// one that begins `text`; of several with that length, the first.
pub open spec fn imprecise_best(text: Seq<u8>, upto: usize) -> Option<usize>
    decreases upto,
{
    if upto == 0 {
        None
    } else {
        let k = (upto - 1) as usize;
        let before = imprecise_best(text, k);
        if !imprecise_matches(text, k) {
            before
        } else {
            match before {
                Some(b) if imprecise_name(b).spec_bytes().len() >= imprecise_name(
                    k,
                ).spec_bytes().len() => before,
                _ => Some(k),
            }
        }
    }
}

/// What a loosely written name at the start of `text` stands for: the
/// position of the license meant and the number of bytes of `text` that
/// spell the name.
pub open spec fn imprecise_lookup(text: Seq<u8>) -> Option<(usize, int)> {
    match imprecise_best(text, IMPRECISE_COUNT) {
        None => None,
        Some(k) => match license_lookup(imprecise_target(k).spec_bytes()) {
            None => None,
            Some(index) => Some((index, imprecise_name(k).spec_bytes().len() as int)),
        },
    }
}

/// What `imprecise_best` finds begins the text.
pub proof fn lemma_imprecise_best(text: Seq<u8>, upto: usize)
    ensures
        imprecise_best(text, upto) matches Some(k) ==> k < upto && imprecise_matches(text, k),
    decreases upto,
{
    if upto > 0 {
        lemma_imprecise_best(text, (upto - 1) as usize);
    }
}

/// A loosely written name that is found is not empty and no longer than
/// the text.
pub proof fn lemma_imprecise_lookup(text: Seq<u8>)
    ensures
        imprecise_lookup(text) matches Some((_, n)) ==> 0 < n <= text.len(),
{
    lemma_imprecise_best(text, IMPRECISE_COUNT);
}

/// Whether `name` ends in one of the two GNU suffixes.
pub open spec fn has_gnu_suffix(name: Seq<u8>) -> bool {
    has_suffix(name, "-only".spec_bytes()) || has_suffix(name, "-or-later".spec_bytes())
}

/// The position of the GNU license that `base` names: `base` itself when it
/// already ends in `-only` or `-or-later`, else `base` with the suffix
/// that `or_later` asks for.
pub open spec fn gnu_lookup(base: Seq<u8>, or_later: bool) -> Option<usize> {
    if has_gnu_suffix(base) {
        license_lookup(trim_plus(base))
    } else if or_later {
        license_lookup(trim_plus(base + "-or-later".spec_bytes()))
    } else {
        license_lookup(trim_plus(base + "-only".spec_bytes()))
    }
}

/// Whether a license called `name` counts as copyleft.
pub open spec fn copyleft_name(name: Seq<u8>) -> bool {
    ||| has_prefix(name, "AGPL-".spec_bytes())
    ||| has_prefix(name, "CC-BY-NC-SA-".spec_bytes())
    ||| has_prefix(name, "CC-BY-SA-".spec_bytes())
    ||| has_prefix(name, "CECILL-".spec_bytes())
    ||| has_prefix(name, "CPL-".spec_bytes())
    ||| has_prefix(name, "CDDL-".spec_bytes())
    ||| has_prefix(name, "EUPL".spec_bytes())
    ||| has_prefix(name, "GFDL-".spec_bytes())
    ||| has_prefix(name, "GPL-".spec_bytes())
    ||| has_prefix(name, "LGPL-".spec_bytes())
    ||| has_prefix(name, "MPL-".spec_bytes())
    ||| has_prefix(name, "NPL-".spec_bytes())
    ||| has_prefix(name, "OSL-".spec_bytes())
    ||| name == "BSD-Protection".spec_bytes()
    ||| name == "MS-PL".spec_bytes()
    ||| name == "MS-RL".spec_bytes()
    ||| name == "Parity-6.0.0".spec_bytes()
    ||| name == "SISSL".spec_bytes()
    ||| name == "xinetd".spec_bytes()
    ||| name == "YPL-1.1".spec_bytes()
}

/// Whether a license called `name` belongs to the GNU family.
pub open spec fn gnu_name(name: Seq<u8>) -> bool {
    ||| has_prefix(name, "AGPL-".spec_bytes())
    ||| has_prefix(name, "GFDL-".spec_bytes())
    ||| has_prefix(name, "GPL-".spec_bytes())
    ||| has_prefix(name, "LGPL-".spec_bytes())
}

/// A byte that may stand in a version number: a digit or a dot.
pub open spec fn is_version_byte(b: u8) -> bool {
    b == 0x2eu8 || (0x30 <= b <= 0x39)
}

/// Every byte of `s` from `from` up to `to` may stand in a version number.
pub open spec fn all_version_bytes(s: Seq<u8>, from: int, to: int) -> bool {
    forall|j: int| from <= j < to ==> is_version_byte(#[trigger] s[j])
}

/// The first of the parts of `s` between dashes, looking from `from` on,
/// that is made of digits and dots alone, as its start and end.
pub open spec fn version_part(s: Seq<u8>, from: int) -> Option<(int, int)>
    decreases s.len() - from,
{
    let end = first_at(s, 0x2du8, from);
    if from < 0 || from > s.len() {
        None
    } else if all_version_bytes(s, from, end) {
        Some((from, end))
    } else if end >= s.len() {
        None
    } else {
        version_part(s, end + 1)
    }
}

/// What is known of `first_at`: where it points and that nothing before
/// matches.
pub proof fn lemma_first_at(s: Seq<u8>, b: u8, from: int)
    requires
        0 <= from <= s.len(),
    ensures
        from <= first_at(s, b, from) <= s.len(),
        first_at(s, b, from) < s.len() ==> s[first_at(s, b, from)] == b,
        forall|j: int| from <= j < first_at(s, b, from) ==> s[j] != b,
    decreases s.len() - from,
{
    if from < s.len() && s[from] != b {
        lemma_first_at(s, b, from + 1);
    }
}

/// The first position at or after `from` that holds `b`.
pub fn find_first_at(s: &[u8], b: u8, from: usize) -> (r: usize)
    requires
        from <= s.len(),
    ensures
        r == first_at(s@, b, from as int),
        from <= r <= s.len(),
{
    let mut i = from;
    while i < s.len() && s[i] != b
        invariant
            from <= i <= s.len(),
            first_at(s@, b, from as int) == first_at(s@, b, i as int),
        decreases s.len() - i,
    {
        i += 1;
    }
    i
}

/// What `license_lookup_from` finds lies in the table and carries the name;
/// nothing between `from` and it does.
pub proof fn lemma_license_lookup(name: Seq<u8>, from: usize)
    ensures
        match license_lookup_from(name, from) {
            Some(i) => from <= i < LICENSE_COUNT && license_bytes(i) == name && forall|j: usize|
                from <= j < i ==> license_bytes(j) != name,
            None => forall|j: usize| from <= j < LICENSE_COUNT ==> license_bytes(j) != name,
        },
    decreases LICENSE_COUNT - from,
{
    if from < LICENSE_COUNT && license_bytes(from) != name {
        lemma_license_lookup(name, (from + 1) as usize);
    }
}

/// What `exception_lookup_from` finds lies in the table and carries the
/// name; nothing between `from` and it does.
pub proof fn lemma_exception_lookup(name: Seq<u8>, from: usize)
    ensures
        match exception_lookup_from(name, from) {
            Some(i) => from <= i < EXCEPTION_COUNT && exception_bytes(i) == name && forall|
                j: usize,
            | from <= j < i ==> exception_bytes(j) != name,
            None => forall|j: usize| from <= j < EXCEPTION_COUNT ==> exception_bytes(j) != name,
        },
    decreases EXCEPTION_COUNT - from,
{
    if from < EXCEPTION_COUNT && exception_bytes(from) != name {
        lemma_exception_lookup(name, (from + 1) as usize);
    }
}

impl LicenseId {
    #[verifier::type_invariant]
    spec fn in_table(self) -> bool {
        self.index < LICENSE_COUNT
    }

    /// The position of the license in the table.
    pub closed spec fn position(self) -> usize {
        self.index
    }

    /// The position of the license in the table.
    pub fn index(self) -> (r: usize)
        ensures
            r == self.position(),
            r < LICENSE_COUNT,
    {
        proof {
            use_type_invariant(&self);
        }
        self.index
    }

    /// The short identifier of the license.
    pub fn name(self) -> (r: &'static str)
        ensures
            r == license_name(self.position()),
    {
        license_name_at(self.index)
    }

    /// The full name of the license.
    pub fn full_name(self) -> (r: &'static str)
        ensures
            r == license_full_name(self.position()),
    {
        license_full_name_at(self.index)
    }

    /// The entry of the license table that this identifier names.
    pub fn license(self) -> (r: License)
        ensures
            r.name == license_name(self.position()),
            r.full_name == license_full_name(self.position()),
            r.index == self.position(),
            r.flags == license_flags(self.position()),
    {
        License {
            name: license_name_at(self.index),
            full_name: license_full_name_at(self.index),
            index: self.index,
            flags: license_flags_at(self.index),
        }
    }

    /// Whether the two identifiers name the same license.
    pub fn same(self, other: LicenseId) -> (r: bool)
        ensures
            r == (self.position() == other.position()),
            r == (self == other),
    {
        self.index == other.index
    }

    /// Returns true if the license is considered free by the FSF
    #[must_use]
    pub fn is_fsf_free_libre(self) -> (r: bool)
        ensures
            r == license_has(self.position(), IS_FSF_LIBRE),
    {
        license_flags_at(self.index) & IS_FSF_LIBRE != 0
    }

    /// Returns true if the license is OSI approved
    #[must_use]
    pub fn is_osi_approved(self) -> (r: bool)
        ensures
            r == license_has(self.position(), IS_OSI_APPROVED),
    {
        license_flags_at(self.index) & IS_OSI_APPROVED != 0
    }

    /// Returns true if the license is deprecated
    #[must_use]
    pub fn is_deprecated(self) -> (r: bool)
        ensures
            r == license_has(self.position(), IS_DEPRECATED),
    {
        license_flags_at(self.index) & IS_DEPRECATED != 0
    }

    /// Returns true if the license is copyleft
    #[must_use]
    pub fn is_copyleft(self) -> (r: bool)
        ensures
            r == license_has(self.position(), IS_COPYLEFT),
    {
        license_flags_at(self.index) & IS_COPYLEFT != 0
    }

    /// Returns true if the license is a GNU license, which operate
    /// differently than all other SPDX license identifiers
    #[must_use]
    pub fn is_gnu(self) -> (r: bool)
        ensures
            r == license_has(self.position(), IS_GNU),
    {
        license_flags_at(self.index) & IS_GNU != 0
    }

    /// The version of the license, if its identifier holds one: the first
    /// of the parts between dashes that is made of digits and dots alone.
    pub fn version(self) -> (r: Option<&'static str>)
        ensures
            match version_part(license_bytes(self.position()), 0) {
                Some((from, to)) => r is Some && r->0.spec_bytes() == license_bytes(
                    self.position(),
                ).subrange(from, to),
                None => r is None,
            },
    {
        let name = license_name_at(self.index);
        let bytes = name.as_bytes();
        let ghost s = license_bytes(self.index);
        proof {
            encode_utf8_valid_utf8(name@);
            is_char_boundary_start_end_of_seq(s);
        }
        let mut from: usize = 0;
        loop
            invariant
                bytes@ == s,
                s == name.spec_bytes(),
                s == license_bytes(self.position()),
                valid_utf8(s),
                from <= s.len(),
                is_char_boundary(s, from as int),
                version_part(s, 0) == version_part(s, from as int),
            decreases s.len() - from,
        {
            let end = find_first_at(bytes, 0x2d, from);
            let mut all = true;
            let mut j = from;
            while j < end
                invariant
                    bytes@ == s,
                    from <= j <= end <= s.len(),
                    all == all_version_bytes(s, from as int, j as int),
                decreases end - j,
            {
                let b = bytes[j];
                if !(b == 0x2e || (0x30 <= b && b <= 0x39)) {
                    all = false;
                }
                j += 1;
            }
            proof {
                lemma_first_at(s, 0x2du8, from as int);
                if end < s.len() {
                    is_char_boundary_iff_not_is_continuation_byte(s, end as int);
                    lemma_ascii_run_boundary(s, end as int, end + 1);
                } else {
                    is_char_boundary_start_end_of_seq(s);
                }
            }
            if all {
                return Some(slice_between(name, from, end));
            }
            if end >= bytes.len() {
                return None;
            }
            from = end + 1;
        }
    }

    /// The base name of the license: what stands before its first dash.
    pub fn base(self) -> (r: &'static str)
        ensures
            r.spec_bytes() == license_bytes(self.position()).subrange(
                0,
                first_at(license_bytes(self.position()), 0x2du8, 0),
            ),
    {
        let name = license_name_at(self.index);
        let bytes = name.as_bytes();
        let end = find_first_at(bytes, 0x2d, 0);
        proof {
            let s = name.spec_bytes();
            encode_utf8_valid_utf8(name@);
            is_char_boundary_start_end_of_seq(s);
            lemma_first_at(s, 0x2du8, 0);
            if end < s.len() {
                is_char_boundary_iff_not_is_continuation_byte(s, end as int);
            }
        }
        slice_between(name, 0, end)
    }
}

impl ExceptionId {
    #[verifier::type_invariant]
    spec fn in_table(self) -> bool {
        self.index < EXCEPTION_COUNT
    }

    /// The position of the exception in the table.
    pub closed spec fn position(self) -> usize {
        self.index
    }

    /// The position of the exception in the table.
    pub fn index(self) -> (r: usize)
        ensures
            r == self.position(),
            r < EXCEPTION_COUNT,
    {
        proof {
            use_type_invariant(&self);
        }
        self.index
    }

    /// The short identifier of the exception.
    pub fn name(self) -> (r: &'static str)
        ensures
            r == exception_name(self.position()),
    {
        exception_name_at(self.index)
    }

    /// The entry of the exception table that this identifier names.
    pub fn exception(self) -> (r: Exception)
        ensures
            r.name == exception_name(self.position()),
            r.index == self.position(),
            r.flags == exception_flags(self.position()),
    {
        Exception {
            name: exception_name_at(self.index),
            index: self.index,
            flags: exception_flags_at(self.index),
        }
    }

    /// Whether the two identifiers name the same exception.
    pub fn same(self, other: ExceptionId) -> (r: bool)
        ensures
            r == (self.position() == other.position()),
            r == (self == other),
    {
        self.index == other.index
    }

    /// Returns true if the exception is deprecated
    #[must_use]
    pub fn is_deprecated(self) -> (r: bool)
        ensures
            r == (exception_flags(self.position()) & IS_DEPRECATED != 0),
    {
        exception_flags_at(self.index) & IS_DEPRECATED != 0
    }
}

/// The licenses of the table stand in byte order, each once.
pub proof fn lemma_licenses_increase(i: usize, j: usize)
    requires
        i < j < LICENSE_COUNT,
    ensures
        sorts_before(license_bytes(i), license_bytes(j)),
    decreases j - i,
{
    let before = (j - 1) as usize;
    lemma_license_order(before);
    if i < before {
        lemma_licenses_increase(i, before);
        lemma_sorts_before_transitive(license_bytes(i), license_bytes(before), license_bytes(j));
    }
}

/// The exceptions of the table stand in byte order, each once.
pub proof fn lemma_exceptions_increase(i: usize, j: usize)
    requires
        i < j < EXCEPTION_COUNT,
    ensures
        sorts_before(exception_bytes(i), exception_bytes(j)),
    decreases j - i,
{
    let before = (j - 1) as usize;
    lemma_exception_order(before);
    if i < before {
        lemma_exceptions_increase(i, before);
        lemma_sorts_before_transitive(
            exception_bytes(i),
            exception_bytes(before),
            exception_bytes(j),
        );
    }
}

/// The GNU flag follows the identifier: it is set on exactly the licenses
/// whose identifier begins with `AGPL-`, `GFDL-`, `GPL-` or `LGPL-`.
pub proof fn lemma_gnu_flag_follows_name(index: usize)
    requires
        index < LICENSE_COUNT,
    ensures
        license_has(index, IS_GNU) == gnu_name(license_bytes(index)),
{
    lemma_gnu_flag(index);
}

/// No two licenses of the table have the same short identifier: a lookup
/// finds the one license of that name.
pub proof fn lemma_license_names_differ(i: usize, j: usize)
    requires
        i < LICENSE_COUNT,
        j < LICENSE_COUNT,
        license_bytes(i) == license_bytes(j),
    ensures
        i == j,
        license_lookup(license_bytes(i)) == Some(i),
{
    if i < j {
        lemma_licenses_increase(i, j);
    } else if j < i {
        lemma_licenses_increase(j, i);
    }
    lemma_license_lookup(license_bytes(i), 0);
    match license_lookup(license_bytes(i)) {
        Some(k) => {
            if k != i {
                lemma_licenses_increase(k, i);
            }
        },
        None => {},
    }
}

/// No two exceptions of the table have the same short identifier: a
/// lookup finds the one exception of that name.
pub proof fn lemma_exception_names_differ(i: usize, j: usize)
    requires
        i < EXCEPTION_COUNT,
        j < EXCEPTION_COUNT,
        exception_bytes(i) == exception_bytes(j),
    ensures
        i == j,
        exception_lookup(exception_bytes(i)) == Some(i),
{
    if i < j {
        lemma_exceptions_increase(i, j);
    } else if j < i {
        lemma_exceptions_increase(j, i);
    }
    lemma_exception_lookup(exception_bytes(i), 0);
    match exception_lookup(exception_bytes(i)) {
        Some(k) => {
            if k != i {
                lemma_exceptions_increase(k, i);
            }
        },
        None => {},
    }
}

/// The license whose short identifier is spelled by `name`, by binary
/// search in the table.
pub fn find_license(name: &[u8]) -> (r: Option<LicenseId>)
    ensures
        r is Some <==> license_lookup(name@) is Some,
        r is Some ==> Some(r->0.position()) == license_lookup(name@) && license_bytes(
            r->0.position(),
        ) == name@,
        r is None ==> forall|i: usize| i < LICENSE_COUNT ==> license_bytes(i) != name@,
{
    let mut lo: usize = 0;
    let mut hi: usize = LICENSE_COUNT;
    while lo < hi
        invariant
            lo <= hi <= LICENSE_COUNT,
            forall|i: usize| i < lo ==> sorts_before(#[trigger] license_bytes(i), name@),
            forall|i: usize|
                hi <= i < LICENSE_COUNT ==> sorts_before(name@, #[trigger] license_bytes(i)),
        decreases hi - lo,
    {
        let mid = lo + (hi - lo) / 2;
        match order_of(license_name_at(mid).as_bytes(), name) {
            Order::Same => {
                proof {
                    lemma_license_names_differ(mid, mid);
                }
                return Some(LicenseId { index: mid });
            },
            Order::Before => {
                proof {
                    assert forall|i: usize| i < mid + 1 implies sorts_before(
                        #[trigger] license_bytes(i),
                        name@,
                    ) by {
                        if i < mid {
                            lemma_licenses_increase(i, mid);
                            lemma_sorts_before_transitive(
                                license_bytes(i),
                                license_bytes(mid),
                                name@,
                            );
                        }
                    }
                }
                lo = mid + 1;
            },
            Order::After => {
                proof {
                    assert forall|i: usize| mid <= i < LICENSE_COUNT implies sorts_before(
                        name@,
                        #[trigger] license_bytes(i),
                    ) by {
                        if mid < i {
                            lemma_licenses_increase(mid, i);
                            lemma_sorts_before_transitive(
                                name@,
                                license_bytes(mid),
                                license_bytes(i),
                            );
                        }
                    }
                }
                hi = mid;
            },
        }
    }
    proof {
        assert forall|i: usize| i < LICENSE_COUNT implies license_bytes(i) != name@ by {
            lemma_sorts_before_irreflexive(name@);
            if i < lo {
                assert(sorts_before(license_bytes(i), name@));
            } else {
                assert(sorts_before(name@, license_bytes(i)));
            }
        }
        lemma_license_lookup(name@, 0);
    }
    None
}

/// The exception whose short identifier is spelled by `name`, by binary
/// search in the table.
pub fn find_exception(name: &[u8]) -> (r: Option<ExceptionId>)
    ensures
        r is Some <==> exception_lookup(name@) is Some,
        r is Some ==> Some(r->0.position()) == exception_lookup(name@) && exception_bytes(
            r->0.position(),
        ) == name@,
        r is None ==> forall|i: usize| i < EXCEPTION_COUNT ==> exception_bytes(i) != name@,
{
    let mut lo: usize = 0;
    let mut hi: usize = EXCEPTION_COUNT;
    while lo < hi
        invariant
            lo <= hi <= EXCEPTION_COUNT,
            forall|i: usize| i < lo ==> sorts_before(#[trigger] exception_bytes(i), name@),
            forall|i: usize|
                hi <= i < EXCEPTION_COUNT ==> sorts_before(name@, #[trigger] exception_bytes(i)),
        decreases hi - lo,
    {
        let mid = lo + (hi - lo) / 2;
        match order_of(exception_name_at(mid).as_bytes(), name) {
            Order::Same => {
                proof {
                    lemma_exception_names_differ(mid, mid);
                }
                return Some(ExceptionId { index: mid });
            },
            Order::Before => {
                proof {
                    assert forall|i: usize| i < mid + 1 implies sorts_before(
                        #[trigger] exception_bytes(i),
                        name@,
                    ) by {
                        if i < mid {
                            lemma_exceptions_increase(i, mid);
                            lemma_sorts_before_transitive(
                                exception_bytes(i),
                                exception_bytes(mid),
                                name@,
                            );
                        }
                    }
                }
                lo = mid + 1;
            },
            Order::After => {
                proof {
                    assert forall|i: usize| mid <= i < EXCEPTION_COUNT implies sorts_before(
                        name@,
                        #[trigger] exception_bytes(i),
                    ) by {
                        if mid < i {
                            lemma_exceptions_increase(mid, i);
                            lemma_sorts_before_transitive(
                                name@,
                                exception_bytes(mid),
                                exception_bytes(i),
                            );
                        }
                    }
                }
                hi = mid;
            },
        }
    }
    proof {
        assert forall|i: usize| i < EXCEPTION_COUNT implies exception_bytes(i) != name@ by {
            lemma_sorts_before_irreflexive(name@);
            if i < lo {
                assert(sorts_before(exception_bytes(i), name@));
            } else {
                assert(sorts_before(name@, exception_bytes(i)));
            }
        }
        lemma_exception_lookup(name@, 0);
    }
    None
}

/// The license that a loosely written name at the start of `text`, from
/// `from` on, stands for, with the number of bytes that spell the name.
pub fn find_imprecise(text: &[u8], from: usize) -> (r: Option<(LicenseId, usize)>)
    requires
        from <= text.len(),
    ensures
        match imprecise_lookup(text@.subrange(from as int, text.len() as int)) {
            Some((index, len)) => r matches Some((id, n)) && id.position() == index && n == len,
            None => r is None,
        },
        r matches Some((_, n)) ==> 0 < n && from + n <= text.len() && forall|j: int|
            from <= j < from + n ==> #[trigger] text@[j] < 0x80,
{
    let ghost tail = text@.subrange(from as int, text.len() as int);
    let mut best: Option<usize> = None;
    let mut best_len: usize = 0;
    let mut k: usize = 0;
    while k < IMPRECISE_COUNT
        invariant
            from <= text.len(),
            tail == text@.subrange(from as int, text.len() as int),
            k <= IMPRECISE_COUNT,
            best == imprecise_best(tail, k),
            best is Some ==> best_len == imprecise_name(best->0).spec_bytes().len()
                && imprecise_matches(tail, best->0),
            best is Some ==> 0 < best_len && from + best_len <= text.len() && forall|j: int|
                from <= j < from + best_len ==> #[trigger] text@[j] < 0x80,
        decreases IMPRECISE_COUNT - k,
    {
        let name = imprecise_name_at(k).as_bytes();
        if name.len() > 0 && all_ascii(name) && starts_with_ignoring_case_at(text, from, name) {
            let better = match best {
                Some(_) => best_len < name.len(),
                None => true,
            };
            if better {
                best = Some(k);
                best_len = name.len();
                proof {
                    let head = tail.subrange(0, name@.len() as int);
                    assert forall|j: int| from <= j < from + best_len implies #[trigger] text@[j]
                        < 0x80 by {
                        assert(head[j - from] == text@[j]);
                        assert(lower(head[j - from]) == lower(name@[j - from]));
                        assert(name@[j - from] < 0x80);
                    }
                }
            }
        }
        k += 1;
    }
    match best {
        None => None,
        Some(b) => match find_license(imprecise_target_at(b).as_bytes()) {
            None => None,
            Some(id) => Some((id, best_len)),
        },
    }
}

/// Whether `name` ends in `+`.
fn ends_in_plus(name: &[u8]) -> (r: bool)
    ensures
        r == (name@.len() > 0 && name@.last() == 0x2bu8),
{
    name.len() > 0 && name[name.len() - 1] == 0x2b
}

/// Attempts to find a [`LicenseId`] given a short id.
///
/// One `+` at the end of `name`, if there is one, is left out of the search.
#[must_use]
pub fn license_id(name: &str) -> (r: Option<LicenseId>)
    ensures
        r is Some <==> license_lookup(trim_plus(name.spec_bytes())) is Some,
        r is Some ==> Some(r->0.position()) == license_lookup(trim_plus(name.spec_bytes())),
{
    let bytes = name.as_bytes();
    if ends_in_plus(bytes) {
        let trimmed = slice_subrange(bytes, 0, bytes.len() - 1);
        assert(trimmed@ =~= bytes@.drop_last());
        find_license(trimmed)
    } else {
        find_license(bytes)
    }
}

/// Attempts to find a GNU license from its base name.
///
/// GNU licenses mostly come in three forms: a bare one, which is
/// deprecated, an `-only` one, and an `-or-later` one. A `base` that
/// already ends in `-only` or `-or-later` is looked up as it is; to any
/// other the suffix that `or_later` asks for is added first.
#[must_use]
pub fn gnu_license_id(base: &str, or_later: bool) -> (r: Option<LicenseId>)
    ensures
        r is Some <==> gnu_lookup(base.spec_bytes(), or_later) is Some,
        r is Some ==> Some(r->0.position()) == gnu_lookup(base.spec_bytes(), or_later),
{
    let bytes = base.as_bytes();
    if ends_with(bytes, "-only".as_bytes()) || ends_with(bytes, "-or-later".as_bytes()) {
        license_id(base)
    } else {
        let mut buffer = NameBuffer::new();
        assert(name_bytes(buffer) + bytes@ =~= bytes@);
        buffer.extend_from_slice(bytes);
        if or_later {
            buffer.extend_from_slice("-or-later".as_bytes());
        } else {
            buffer.extend_from_slice("-only".as_bytes());
        }
        let joined = buffer.as_slice();
        proof {
            let suffix = if or_later {
                "-or-later".spec_bytes()
            } else {
                "-only".spec_bytes()
            };
            reveal_strlit("-or-later");
            reveal_strlit("-only");
            lemma_ascii_text("-or-later"@);
            lemma_ascii_text("-only"@);
            assert(suffix.len() > 0 && suffix.last() != 0x2bu8);
            assert(joined@.last() == suffix.last());
        }
        find_license(joined)
    }
}

/// The encoding of ASCII text holds one byte for each character.
pub proof fn lemma_ascii_text(chars: Seq<char>)
    requires
        is_ascii_chars(chars),
    ensures
        encode_utf8(chars).len() == chars.len(),
        forall|i: int| 0 <= i < chars.len() ==> #[trigger] encode_utf8(chars)[i] == chars[i] as u8,
{
    is_ascii_chars_encode_utf8(chars);
}

/// Find the license that a loosely written name stands for, e.g. the
/// `Apache-2.0` license for `apache`.
///
/// Of the names of the table that begin `name`, whatever the case of the
/// letters, the longest one decides. Returns the license and the number of
/// bytes of `name` that spell the loosely written name; what follows them
/// is ignored.
#[must_use]
pub fn imprecise_license_id(name: &str) -> (r: Option<(LicenseId, usize)>)
    ensures
        match imprecise_lookup(name.spec_bytes()) {
            Some((index, len)) => r matches Some((id, n)) && id.position() == index && n == len,
            None => r is None,
        },
{
    let bytes = name.as_bytes();
    assert(bytes@.subrange(0, bytes.len() as int) =~= bytes@);
    find_imprecise(bytes, 0)
}

/// Attempts to find an [`ExceptionId`] for the string
#[must_use]
pub fn exception_id(name: &str) -> (r: Option<ExceptionId>)
    ensures
        r is Some <==> exception_lookup(name.spec_bytes()) is Some,
        r is Some ==> Some(r->0.position()) == exception_lookup(name.spec_bytes()),
{
    find_exception(name.as_bytes())
}

/// Returns the version number of the SPDX list from which the license and
/// exception identifiers are sourced from
#[must_use]
pub fn license_version() -> (r: &'static str)
    ensures
        r == VERSION,
{
    VERSION
}

/// Whether a license with this short identifier is flagged as copyleft.
///
/// No distinction is made between weak and strong copyleft.
pub fn is_copyleft(license: &str) -> (r: bool)
    ensures
        r == copyleft_name(license.spec_bytes()),
{
    let b = license.as_bytes();
    starts_with(b, "AGPL-".as_bytes()) || starts_with(b, "CC-BY-NC-SA-".as_bytes())
        || starts_with(b, "CC-BY-SA-".as_bytes()) || starts_with(b, "CECILL-".as_bytes())
        || starts_with(b, "CPL-".as_bytes()) || starts_with(b, "CDDL-".as_bytes())
        || starts_with(b, "EUPL".as_bytes()) || starts_with(b, "GFDL-".as_bytes())
        || starts_with(b, "GPL-".as_bytes()) || starts_with(b, "LGPL-".as_bytes())
        || starts_with(b, "MPL-".as_bytes()) || starts_with(b, "NPL-".as_bytes())
        || starts_with(b, "OSL-".as_bytes()) || bytes_eq(b, "BSD-Protection".as_bytes())
        || bytes_eq(b, "MS-PL".as_bytes()) || bytes_eq(b, "MS-RL".as_bytes()) || bytes_eq(
        b,
        "Parity-6.0.0".as_bytes(),
    ) || bytes_eq(b, "SISSL".as_bytes()) || bytes_eq(b, "xinetd".as_bytes()) || bytes_eq(
        b,
        "YPL-1.1".as_bytes(),
    )
}

/// Whether a license with this short identifier is flagged as a GNU license.
pub fn is_gnu(license: &str) -> (r: bool)
    ensures
        r == gnu_name(license.spec_bytes()),
{
    let b = license.as_bytes();
    starts_with(b, "AGPL-".as_bytes()) || starts_with(b, "GFDL-".as_bytes()) || starts_with(
        b,
        "GPL-".as_bytes(),
    ) || starts_with(b, "LGPL-".as_bytes())
}

} // verus!
