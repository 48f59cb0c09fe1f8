//! License requirements: what a license holder asks for.

use crate::identifiers::{license_name, exception_name, IS_DEPRECATED, IS_GNU};
use crate::registry::{license_has, ExceptionId, LicenseId};
use crate::text::str_eq;
use vstd::prelude::*;
use vstd::string::*;

verus! {

/// A reference to a license that is not on the SPDX license list.
#[derive(Debug, Clone, PartialEq, Eq, PartialOrd, Ord)]
pub struct LicenseRef {
    /// Purpose: Identify any external SPDX documents referenced within this SPDX document.
    pub doc_ref: Option<String>,
    /// Purpose: Provide a locally unique identifier to refer to licenses that are not found on the SPDX License List.
    pub lic_ref: String,
}

/// A single license term in a license expression, according to the SPDX spec.
///
/// This can be either an SPDX license, which is mapped to a [`LicenseId`] from
/// a valid SPDX short identifier, or else a document and/or license ref
#[derive(Debug, Clone, PartialEq, Eq, PartialOrd, Ord)]
pub enum LicenseItem {
    /// A regular SPDX license id
    Spdx {
        id: LicenseId,
        /// Indicates the license had a `+`, allowing the licensee to license
        /// the software under either the specific version, or any later versions
        or_later: bool,
    },
    Other(Box<LicenseRef>),
}

/// A reference to additional text that is not on the SPDX exception list.
#[derive(Debug, Clone, PartialEq, Eq, PartialOrd, Ord)]
pub struct AdditionRef {
    /// Purpose: Identify any external SPDX documents referenced within this SPDX document.
    pub doc_ref: Option<String>,
    /// Purpose: Provide a locally unique identifier to refer to additional text that are not found on the SPDX License List.
    pub add_ref: String,
}

/// A single addition term, according to the SPDX spec.
///
/// This can be either an SPDX license exception, which is mapped to an
/// [`ExceptionId`] from a valid SPDX short identifier, or else a document
/// and/or addition ref
#[derive(Debug, Clone, PartialEq, Eq, PartialOrd, Ord)]
pub enum AdditionItem {
    /// A regular SPDX license exception id
    Spdx(ExceptionId),
    Other(Box<AdditionRef>),
}

/// Represents a single license requirement.
///
/// The requirement must include a valid [`LicenseItem`], and may allow current
/// and future versions of the license, and may also allow for a specific exception
#[derive(Debug, Clone, PartialEq, Eq, PartialOrd, Ord)]
pub struct LicenseReq {
    /// The license
    pub license: LicenseItem,
    /// The additional text for this license, as specified following
    /// the `WITH` operator
    pub addition: Option<AdditionItem>,
}

/// What a [`LicenseRef`] holds.
pub struct LicenseRefView {
    pub doc_ref: Option<Seq<char>>,
    pub lic_ref: Seq<char>,
}

/// What a [`LicenseItem`] holds; a license of the list stands as its
/// position in the table.
pub enum LicenseItemView {
    Spdx { id: usize, or_later: bool },
    Other(LicenseRefView),
}

/// What an [`AdditionRef`] holds.
pub struct AdditionRefView {
    pub doc_ref: Option<Seq<char>>,
    pub add_ref: Seq<char>,
}

/// What an [`AdditionItem`] holds; an exception of the list stands as its
/// position in the table.
pub enum AdditionItemView {
    Spdx(usize),
    Other(AdditionRefView),
}

/// What a [`LicenseReq`] holds.
pub struct LicenseReqView {
    pub license: LicenseItemView,
    pub addition: Option<AdditionItemView>,
}

/// The text of an optional string.
pub open spec fn text_of(s: Option<String>) -> Option<Seq<char>> {
    match s {
        Some(s) => Some(s@),
        None => None,
    }
}

impl View for LicenseRef {
    type V = LicenseRefView;

    open spec fn view(&self) -> LicenseRefView {
        LicenseRefView { doc_ref: text_of(self.doc_ref), lic_ref: self.lic_ref@ }
    }
}

impl View for LicenseItem {
    type V = LicenseItemView;

    open spec fn view(&self) -> LicenseItemView {
        match *self {
            LicenseItem::Spdx { id, or_later } => LicenseItemView::Spdx {
                id: id.position(),
                or_later,
            },
            LicenseItem::Other(r) => LicenseItemView::Other(r@),
        }
    }
}

impl View for AdditionRef {
    type V = AdditionRefView;

    open spec fn view(&self) -> AdditionRefView {
        AdditionRefView { doc_ref: text_of(self.doc_ref), add_ref: self.add_ref@ }
    }
}

impl View for AdditionItem {
    type V = AdditionItemView;

    open spec fn view(&self) -> AdditionItemView {
        match *self {
            AdditionItem::Spdx(id) => AdditionItemView::Spdx(id.position()),
            AdditionItem::Other(r) => AdditionItemView::Other(r@),
        }
    }
}

/// What an optional addition holds.
pub open spec fn addition_of(a: Option<AdditionItem>) -> Option<AdditionItemView> {
    match a {
        Some(a) => Some(a@),
        None => None,
    }
}

impl View for LicenseReq {
    type V = LicenseReqView;

    open spec fn view(&self) -> LicenseReqView {
        LicenseReqView { license: self.license@, addition: addition_of(self.addition) }
    }
}

/// The text `DocumentRef-<d>:<kind><r>`, or `<kind><r>` without a document.
pub open spec fn render_ref(doc_ref: Option<Seq<char>>, kind: Seq<char>, name: Seq<char>) -> Seq<
    char,
> {
    match doc_ref {
        Some(d) => "DocumentRef-"@ + d + ":"@ + kind + name,
        None => kind + name,
    }
}

/// How a license term is written.
///
/// A license of the list is written as its short identifier. Where later
/// versions are allowed, a `+` follows, but for the GNU licenses: a
/// deprecated one gets `-or-later` in its place, any other nothing.
pub open spec fn render_license(item: LicenseItemView) -> Seq<char> {
    match item {
        LicenseItemView::Spdx { id, or_later } => {
            let name = license_name(id)@;
            if !or_later {
                name
            } else if license_has(id, IS_GNU) {
                if license_has(id, IS_DEPRECATED) {
                    name + "-or-later"@
                } else {
                    name
                }
            } else {
                name + "+"@
            }
        },
        LicenseItemView::Other(r) => render_ref(r.doc_ref, "LicenseRef-"@, r.lic_ref),
    }
}

/// How an addition term is written.
pub open spec fn render_addition(item: AdditionItemView) -> Seq<char> {
    match item {
        AdditionItemView::Spdx(id) => exception_name(id)@,
        AdditionItemView::Other(r) => render_ref(r.doc_ref, "AdditionRef-"@, r.add_ref),
    }
}

/// How a license requirement is written: the license, then `WITH` and the
/// addition where there is one.
pub open spec fn render_req(req: LicenseReqView) -> Seq<char> {
    match req.addition {
        Some(a) => render_license(req.license) + " WITH "@ + render_addition(a),
        None => render_license(req.license),
    }
}

/// Whether two optional strings hold the same text.
pub fn same_text(a: &Option<String>, b: &Option<String>) -> (r: bool)
    ensures
        r == (text_of(*a) == text_of(*b)),
{
    match (a, b) {
        (Some(x), Some(y)) => str_eq(x.as_str(), y.as_str()),
        (None, None) => true,
        _ => false,
    }
}

/// A copy of an optional string.
pub fn copy_text(a: &Option<String>) -> (r: Option<String>)
    ensures
        r == *a,
{
    match a {
        Some(x) => Some(x.clone()),
        None => None,
    }
}

/// Writes `DocumentRef-<d>:<kind><r>`, or `<kind><r>` without a document.
fn write_ref(doc_ref: &Option<String>, kind: &str, name: &String) -> (r: String)
    ensures
        r@ == render_ref(text_of(*doc_ref), kind@, name@),
{
    let mut out = String::new();
    match doc_ref {
        Some(d) => {
            out.append("DocumentRef-");
            out.append(d.as_str());
            out.append(":");
            assert(out@ =~= "DocumentRef-"@ + d@ + ":"@);
        },
        None => {},
    }
    out.append(kind);
    out.append(name.as_str());
    assert(out@ =~= render_ref(text_of(*doc_ref), kind@, name@));
    out
}

impl LicenseRef {
    /// Whether the two references hold the same.
    pub fn same(&self, other: &LicenseRef) -> (r: bool)
        ensures
            r == (self@ == other@),
    {
        same_text(&self.doc_ref, &other.doc_ref) && str_eq(
            self.lic_ref.as_str(),
            other.lic_ref.as_str(),
        )
    }

    /// A copy of the reference.
    pub fn duplicate(&self) -> (r: LicenseRef)
        ensures
            r == *self,
    {
        LicenseRef { doc_ref: copy_text(&self.doc_ref), lic_ref: self.lic_ref.clone() }
    }

    /// The reference as it is written in an expression.
    pub fn to_string(&self) -> (r: String)
        ensures
            r@ == render_ref(self@.doc_ref, "LicenseRef-"@, self@.lic_ref),
    {
        write_ref(&self.doc_ref, "LicenseRef-", &self.lic_ref)
    }
}

impl AdditionRef {
    /// Whether the two references hold the same.
    pub fn same(&self, other: &AdditionRef) -> (r: bool)
        ensures
            r == (self@ == other@),
    {
        same_text(&self.doc_ref, &other.doc_ref) && str_eq(
            self.add_ref.as_str(),
            other.add_ref.as_str(),
        )
    }

    /// A copy of the reference.
    pub fn duplicate(&self) -> (r: AdditionRef)
        ensures
            r == *self,
    {
        AdditionRef { doc_ref: copy_text(&self.doc_ref), add_ref: self.add_ref.clone() }
    }

    /// The reference as it is written in an expression.
    pub fn to_string(&self) -> (r: String)
        ensures
            r@ == render_ref(self@.doc_ref, "AdditionRef-"@, self@.add_ref),
    {
        write_ref(&self.doc_ref, "AdditionRef-", &self.add_ref)
    }
}

impl LicenseItem {
    /// Returns the license identifier, if it is a recognized SPDX license and not
    /// a license referencer
    #[must_use]
    pub fn id(&self) -> (r: Option<LicenseId>)
        ensures
            r == match *self {
                LicenseItem::Spdx { id, .. } => Some(id),
                LicenseItem::Other(_) => None,
            },
    {
        match self {
            LicenseItem::Spdx { id, .. } => Some(*id),
            LicenseItem::Other(_) => None,
        }
    }

    /// Whether the two terms hold the same.
    pub fn same(&self, other: &LicenseItem) -> (r: bool)
        ensures
            r == (self@ == other@),
    {
        match (self, other) {
            (
                LicenseItem::Spdx { id: a, or_later: la },
                LicenseItem::Spdx { id: b, or_later: lb },
            ) => a.same(*b) && *la == *lb,
            (LicenseItem::Other(a), LicenseItem::Other(b)) => a.same(b),
            _ => false,
        }
    }

    /// A copy of the term.
    pub fn duplicate(&self) -> (r: LicenseItem)
        ensures
            r == *self,
    {
        match self {
            LicenseItem::Spdx { id, or_later } => LicenseItem::Spdx { id: *id, or_later: *or_later },
            LicenseItem::Other(r) => LicenseItem::Other(Box::new(r.duplicate())),
        }
    }

    /// The term as it is written in an expression.
    pub fn to_string(&self) -> (r: String)
        ensures
            r@ == render_license(self@),
    {
        match self {
            LicenseItem::Spdx { id, or_later } => {
                let mut out = String::new();
                out.append(id.name());
                assert(out@ =~= license_name(id.position())@);
                if *or_later {
                    if id.is_gnu() {
                        if id.is_deprecated() {
                            out.append("-or-later");
                        }
                    } else {
                        out.append("+");
                    }
                }
                out
            },
            LicenseItem::Other(r) => r.to_string(),
        }
    }
}

impl AdditionItem {
    /// Returns the license exception identifier, if it is a recognized SPDX license exception
    /// and not a license exception referencer
    #[must_use]
    pub fn id(&self) -> (r: Option<ExceptionId>)
        ensures
            r == match *self {
                AdditionItem::Spdx(id) => Some(id),
                AdditionItem::Other(_) => None,
            },
    {
        match self {
            AdditionItem::Spdx(id) => Some(*id),
            AdditionItem::Other(_) => None,
        }
    }

    /// Whether the two terms hold the same.
    pub fn same(&self, other: &AdditionItem) -> (r: bool)
        ensures
            r == (self@ == other@),
    {
        match (self, other) {
            (AdditionItem::Spdx(a), AdditionItem::Spdx(b)) => a.same(*b),
            (AdditionItem::Other(a), AdditionItem::Other(b)) => a.same(b),
            _ => false,
        }
    }

    /// A copy of the term.
    pub fn duplicate(&self) -> (r: AdditionItem)
        ensures
            r == *self,
    {
        match self {
            AdditionItem::Spdx(id) => AdditionItem::Spdx(*id),
            AdditionItem::Other(r) => AdditionItem::Other(Box::new(r.duplicate())),
        }
    }

    /// The term as it is written in an expression.
    pub fn to_string(&self) -> (r: String)
        ensures
            r@ == render_addition(self@),
    {
        match self {
            AdditionItem::Spdx(id) => {
                let mut out = String::new();
                out.append(id.name());
                assert(out@ =~= exception_name(id.position())@);
                out
            },
            AdditionItem::Other(r) => r.to_string(),
        }
    }
}

/// Whether two optional additions hold the same.
pub fn same_addition(a: &Option<AdditionItem>, b: &Option<AdditionItem>) -> (r: bool)
    ensures
        r == (addition_of(*a) == addition_of(*b)),
{
    match (a, b) {
        (Some(x), Some(y)) => x.same(y),
        (None, None) => true,
        _ => false,
    }
}

impl LicenseReq {
    /// Whether the two requirements hold the same.
    pub fn same(&self, other: &LicenseReq) -> (r: bool)
        ensures
            r == (self@ == other@),
    {
        self.license.same(&other.license) && same_addition(&self.addition, &other.addition)
    }

    /// A copy of the requirement.
    pub fn duplicate(&self) -> (r: LicenseReq)
        ensures
            r == *self,
    {
        LicenseReq {
            license: self.license.duplicate(),
            addition: match &self.addition {
                Some(a) => Some(a.duplicate()),
                None => None,
            },
        }
    }

    /// The requirement as it is written in an expression.
    pub fn to_string(&self) -> (r: String)
        ensures
            r@ == render_req(self@),
    {
        let mut out = self.license.to_string();
        match &self.addition {
            Some(a) => {
                out.append(" WITH ");
                let text = a.to_string();
                out.append(text.as_str());
            },
            None => {},
        }
        out
    }
}

impl From<LicenseId> for LicenseReq {
    /// The requirement for exactly this license: no later version, no
    /// addition.
    fn from(id: LicenseId) -> (r: LicenseReq) {
        LicenseReq { license: LicenseItem::Spdx { id, or_later: false }, addition: None }
    }
}

impl vstd::std_specs::convert::FromSpecImpl<LicenseId> for LicenseReq {
    open spec fn obeys_from_spec() -> bool {
        true
    }

    open spec fn from_spec(id: LicenseId) -> LicenseReq {
        LicenseReq { license: LicenseItem::Spdx { id, or_later: false }, addition: None }
    }
}

} // verus!
