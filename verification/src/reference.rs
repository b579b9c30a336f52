//! The kinds of link reference, and the rule that turns one reference into an
//! absolute address.

use vstd::prelude::*;
use crate::text::starts_with;

verus! {

/// The prefixes that mark a reference as already absolute.
pub const HTTP_PREFIX: &'static str = "http://";

pub const HTTPS_PREFIX: &'static str = "https://";

/// The prefix that marks a reference as relative to the root of the host.
pub const ROOT_PREFIX: &'static str = "/";

/// What stands between scheme and host in an address.
pub const SCHEME_SEPARATOR: &'static str = "://";

/// How a reference relates to the address of the document it stands in.
#[derive(Clone, Copy, Debug, PartialEq, Eq, Structural)]
pub enum ReferenceKind {
    /// It names scheme and host itself.
    Absolute,
    /// It names a path from the root of the document's host.
    RootRelative,
    /// Anything else: it is read relative to the document's own address.
    DocumentRelative,
}

/// The kind of `reference`, decided by its first characters alone.
pub open spec fn kind_of(reference: Seq<char>) -> ReferenceKind {
    if HTTP_PREFIX@.is_prefix_of(reference) || HTTPS_PREFIX@.is_prefix_of(reference) {
        ReferenceKind::Absolute
    } else if ROOT_PREFIX@.is_prefix_of(reference) {
        ReferenceKind::RootRelative
    } else {
        ReferenceKind::DocumentRelative
    }
}

/// Classifies a reference.
pub fn classify(reference: &str) -> (kind: ReferenceKind)
    ensures
        kind == kind_of(reference@),
{
    if starts_with(reference, HTTP_PREFIX) || starts_with(reference, HTTPS_PREFIX) {
        ReferenceKind::Absolute
    } else if starts_with(reference, ROOT_PREFIX) {
        ReferenceKind::RootRelative
    } else {
        ReferenceKind::DocumentRelative
    }
}

/// The part of a document's address that root-relative references reuse.
#[derive(Debug, PartialEq, Eq)]
pub struct BaseAddress {
    pub scheme: String,
    pub host: String,
}

/// A `BaseAddress` as plain text values.
pub struct BaseAddressView {
    pub scheme: Seq<char>,
    pub host: Seq<char>,
}

impl View for BaseAddress {
    type V = BaseAddressView;

    open spec fn view(&self) -> BaseAddressView {
        BaseAddressView { scheme: self.scheme@, host: self.host@ }
    }
}

/// Why a text cannot serve as the address of a document.
#[derive(Clone, Copy, Debug, PartialEq, Eq, Structural)]
pub enum BaseError {
    /// It is no absolute address: it has no scheme, or is malformed.
    NotAbsolute,
    /// It is an absolute address without a host.
    NoHost,
}

/// The base address that the parts of a parsed address make: `parts` is
/// `None` where the text was no absolute address, and holds scheme and host,
/// the host only where there is one, otherwise.
pub open spec fn base_of(parts: Option<(Seq<char>, Option<Seq<char>>)>) -> Result<
    BaseAddressView,
    BaseError,
> {
    match parts {
        None => Err(BaseError::NotAbsolute),
        Some((_, None)) => Err(BaseError::NoHost),
        Some((scheme, Some(host))) => Ok(BaseAddressView { scheme, host }),
    }
}

/// Makes a base address of the parts of a parsed address, or says why there
/// is none.
pub fn base_from_parts(parts: Option<(String, Option<String>)>) -> (base: Result<
    BaseAddress,
    BaseError,
>)
    ensures
        match base_of(parts.deep_view()) {
            Ok(view) => base matches Ok(address) && address@ == view,
            Err(reason) => base == Err::<BaseAddress, BaseError>(reason),
        },
{
    match parts {
        None => Err(BaseError::NotAbsolute),
        Some((_, None)) => Err(BaseError::NoHost),
        Some((scheme, Some(host))) => Ok(BaseAddress { scheme, host }),
    }
}

impl BaseAddressView {
    /// Scheme and host as they open an address: `scheme://host`.
    pub open spec fn origin(self) -> Seq<char> {
        self.scheme + SCHEME_SEPARATOR@ + self.host
    }
}

/// The absolute address that `reference` stands for in a document at `base`.
/// `joined` is what relative-reference resolution against the document's
/// address gives for it, `None` where that fails.
///
/// An absolute reference stands for itself. A root-relative one keeps scheme
/// and host of the base and nothing else of it. Any other stands for the
/// joined address, and for itself where there is none.
pub open spec fn resolution(
    base: BaseAddressView,
    reference: Seq<char>,
    joined: Option<Seq<char>>,
) -> Seq<char> {
    match kind_of(reference) {
        ReferenceKind::Absolute => reference,
        ReferenceKind::RootRelative => base.origin() + reference,
        ReferenceKind::DocumentRelative => match joined {
            Some(address) => address,
            None => reference,
        },
    }
}

/// Resolves one reference, given what joining it to the document's address
/// gave.
pub fn resolve_reference(base: &BaseAddress, reference: String, joined: Option<String>) -> (address:
    String)
    ensures
        address@ == resolution(base@, reference@, joined.deep_view()),
{
    match classify(reference.as_str()) {
        ReferenceKind::Absolute => reference,
        ReferenceKind::RootRelative => {
            let mut address = base.scheme.clone();
            address.append(SCHEME_SEPARATOR);
            address.append(base.host.as_str());
            address.append(reference.as_str());
            address
        },
        ReferenceKind::DocumentRelative => match joined {
            Some(address) => address,
            None => reference,
        },
    }
}

} // verus!
