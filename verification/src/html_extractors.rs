//! Extraction of the links of a document, and their resolution against the
//! document's address. Reading markup and reading addresses is left to the
//! `scraper` and `url` crates; what they return enters the contracts by name.

use vstd::prelude::*;
use crate::anchors::{
    lemma_link_targets_push, lemma_no_anchors_no_targets, lemma_targets_belong_to_anchors,
    lemma_targets_count, link_targets, target_positions, Anchor,
};
use crate::reference::{
    base_from_parts, base_of, classify, kind_of, resolution, resolve_reference, BaseAddress,
    BaseAddressView, BaseError, ReferenceKind, HTTPS_PREFIX, HTTP_PREFIX,
};

verus! {

/// The selector that matches the anchor elements of a document.
pub const ANCHOR_SELECTOR: &'static str = "a";

/// The attribute of an anchor element that holds its link target.
pub const TARGET_ATTRIBUTE: &'static str = "href";

/// What a lenient reading of `content` as a document gives for a selector and
/// an attribute: the elements that `selector` matches, in the order in which
/// the reading met them, each as the value of its attribute `attribute`,
/// `None` where it has no such attribute. `None` as a whole where `selector`
/// is no selector.
pub uninterp spec fn selected_attribute(
    content: Seq<char>,
    selector: Seq<char>,
    attribute: Seq<char>,
) -> Option<Seq<Option<Seq<char>>>>;

/// The anchor elements of the document `content`, in the order in which the
/// reading met them, each as its link target where it carries one.
pub open spec fn document_anchors(content: Seq<char>) -> Seq<Anchor> {
    match selected_attribute(content, ANCHOR_SELECTOR@, TARGET_ATTRIBUTE@) {
        Some(anchors) => anchors,
        None => Seq::empty(),
    }
}

/// What reading `text` as an absolute address gives: its scheme, and its host
/// where it has one; `None` where `text` is no absolute address.
pub uninterp spec fn parsed_address(text: Seq<char>) -> Option<(Seq<char>, Option<Seq<char>>)>;

/// The address that `reference` names when read relative to the address
/// `base`, as text; `None` where `base` is no absolute address or `reference`
/// cannot be resolved against it.
pub uninterp spec fn joined_address(base: Seq<char>, reference: Seq<char>) -> Option<Seq<char>>;

/// Reads `content` with `scraper::Html::parse_document` and `selector` with
/// `scraper::Selector::parse`, walks the matches of `Html::select`, and reads
/// `Element::attr` of `attribute` on each.
///
/// Trusted: the result is a function of the three texts alone. It is `None`
/// exactly where the selector is refused; the document is never refused. The
/// matches come in the order in which the parser made the elements, and each
/// attribute value is handed out as it stands in the tree.
#[verifier::external_body]
fn select_attribute(content: &str, selector: &str, attribute: &str) -> (values: Option<
    Vec<Option<String>>,
>)
    ensures
        values.deep_view() == selected_attribute(content@, selector@, attribute@),
{
    let document = scraper::Html::parse_document(content);
    match scraper::Selector::parse(selector) {
        Ok(selector) => {
            let matches = document.select(&selector);
            Some(matches.map(|e| e.value().attr(attribute).map(String::from)).collect())
        },
        Err(_) => None,
    }
}

/// Reads `text` with `url::Url::parse` and hands out `Url::scheme` and
/// `Url::host_str` of the address.
///
/// Trusted: the result is a function of `text` alone, and `None` exactly where
/// `Url::parse` returns an error.
#[verifier::external_body]
fn read_address(text: &str) -> (parts: Option<(String, Option<String>)>)
    ensures
        parts.deep_view() == parsed_address(text@),
{
    match url::Url::parse(text) {
        Ok(address) => Some((address.scheme().to_string(), address.host_str().map(String::from))),
        Err(_) => None,
    }
}

/// Reads `base` with `url::Url::parse`, resolves `reference` against it with
/// `Url::join`, and hands out the joined address as text.
///
/// Trusted: the result is a function of the two texts alone, and `None`
/// exactly where either call returns an error.
#[verifier::external_body]
fn join_address(base: &str, reference: &str) -> (joined: Option<String>)
    ensures
        joined.deep_view() == joined_address(base@, reference@),
{
    match url::Url::parse(base) {
        Ok(address) => match address.join(reference) {
            Ok(joined) => Some(String::from(joined)),
            Err(_) => None,
        },
        Err(_) => None,
    }
}

/// The link targets among `anchors`, in their order and unchanged. Anchors
/// without a link target are passed over.
pub fn collect_targets(anchors: &Vec<Option<String>>) -> (links: Vec<String>)
    ensures
        links.deep_view() == link_targets(anchors.deep_view()),
{
    let mut links: Vec<String> = Vec::new();
    let mut i: usize = 0;
    proof {
        lemma_no_anchors_no_targets();
        assert(anchors.deep_view().take(0) == Seq::<Anchor>::empty());
        assert(links.deep_view() == Seq::<Seq<char>>::empty());
    }
    while i < anchors.len()
        invariant
            0 <= i <= anchors.len(),
            links.deep_view() == link_targets(anchors.deep_view().take(i as int)),
        decreases anchors.len() - i,
    {
        let ghost before = links.deep_view();
        proof {
            let seen = anchors.deep_view().take(i as int);
            let next = anchors.deep_view()[i as int];
            lemma_link_targets_push(seen, next);
            assert(seen.push(next) == anchors.deep_view().take(i + 1));
        }
        match &anchors[i] {
            Some(target) => {
                links.push(target.clone());
                assert(links.deep_view() == before.push(target@));
            },
            None => {},
        }
        i += 1;
    }
    proof {
        assert(anchors.deep_view().take(anchors.len() as int) == anchors.deep_view());
    }
    links
}

/// The links of a document: the link target of every anchor element that
/// carries one, in the order of the anchors, each as it stands in the
/// document. Never fails.
///
/// A document without anchors has no links. Every link is the target of an
/// anchor that carries it, so that an anchor without a target is never among
/// them, and there are as many links as anchors with a target.
pub fn extract_links(content: &str) -> (links: Vec<String>)
    ensures
        links.deep_view() == link_targets(document_anchors(content@)),
        document_anchors(content@).len() == 0 ==> links.len() == 0,
        forall|j: int|
            0 <= j < links.len() ==> document_anchors(content@).contains(
                Some(#[trigger] links[j]@),
            ),
        links.len() == target_positions(document_anchors(content@)).len(),
{
    let links = match select_attribute(content, ANCHOR_SELECTOR, TARGET_ATTRIBUTE) {
        Some(anchors) => collect_targets(&anchors),
        None => Vec::new(),
    };
    proof {
        let anchors = document_anchors(content@);
        lemma_no_anchors_no_targets();
        lemma_targets_belong_to_anchors(anchors);
        lemma_targets_count(anchors);
        assert(links.deep_view().len() == links.len());
        assert forall|j: int| 0 <= j < links.len() implies anchors.contains(
            Some(#[trigger] links[j]@),
        ) by {
            assert(links[j]@ == link_targets(anchors)[j]);
        }
    }
    links
}

/// Whether `base_url` can serve as the address of a document: it reads as an
/// absolute address, and that address has a host.
pub open spec fn valid_base(base_url: Seq<char>) -> bool {
    base_of(parsed_address(base_url)) is Ok
}

/// The absolute address that `reference` stands for in the document at
/// `base_url`.
pub open spec fn resolved(base_url: Seq<char>, reference: Seq<char>) -> Seq<char>
    recommends
        valid_base(base_url),
{
    resolution(
        base_of(parsed_address(base_url)).unwrap(),
        reference,
        joined_address(base_url, reference),
    )
}

/// The absolute addresses that `links` stand for in the document at
/// `base_url`, position by position.
pub open spec fn normalized(base_url: Seq<char>, links: Seq<Seq<char>>) -> Seq<Seq<char>>
    recommends
        valid_base(base_url),
{
    Seq::new(links.len(), |i: int| resolved(base_url, links[i]))
}

/// Reads `base_url` as the address of a document.
pub fn parse_base(base_url: &str) -> (base: Result<BaseAddress, BaseError>)
    ensures
        base is Ok <==> valid_base(base_url@),
        match base_of(parsed_address(base_url@)) {
            Ok(view) => base matches Ok(address) && address@ == view,
            Err(reason) => base == Err::<BaseAddress, BaseError>(reason),
        },
{
    base_from_parts(read_address(base_url))
}

/// Resolves one reference of the document at `base_url`, whose base address
/// is `base`. The reference is joined to the address only where its kind
/// asks for it.
pub fn resolve_against(base: &BaseAddress, base_url: &str, reference: String) -> (address: String)
    ensures
        address@ == resolution(base@, reference@, joined_address(base_url@, reference@)),
{
    let joined = match classify(reference.as_str()) {
        ReferenceKind::DocumentRelative => join_address(base_url, reference.as_str()),
        _ => None,
    };
    resolve_reference(base, reference, joined)
}

/// Resolves the links of the document at `base_url` to absolute addresses:
/// as many as there are links, the address at each position made of the link
/// at that position alone. A link that cannot be joined to the address of the
/// document is kept as it is.
///
/// `base_url` must be valid; `try_normalize_urls` tests that first.
pub fn normalize_urls(base_url: &str, links: Vec<String>) -> (addresses: Vec<String>)
    requires
        valid_base(base_url@),
    ensures
        addresses.deep_view() == normalized(base_url@, links.deep_view()),
        addresses.len() == links.len(),
{
    let base = match parse_base(base_url) {
        Ok(base) => base,
        Err(_) => unreached(),
    };
    let mut addresses: Vec<String> = Vec::new();
    let mut i: usize = 0;
    while i < links.len()
        invariant
            0 <= i <= links.len(),
            addresses.len() == i,
            base_of(parsed_address(base_url@)) == Ok::<BaseAddressView, BaseError>(base@),
            forall|j: int|
                0 <= j < i ==> #[trigger] addresses[j]@ == resolved(base_url@, links[j]@),
        decreases links.len() - i,
    {
        let address = resolve_against(&base, base_url, links[i].clone());
        addresses.push(address);
        i += 1;
    }
    proof {
        assert(addresses.deep_view() =~= normalized(base_url@, links.deep_view()));
    }
    addresses
}

/// Resolves the links of the document at `base_url` where `base_url` is
/// valid, and says why it is not where it is not. The address is judged before
/// any link is looked at.
pub fn try_normalize_urls(base_url: &str, links: Vec<String>) -> (outcome: Result<
    Vec<String>,
    BaseError,
>)
    ensures
        outcome is Ok <==> valid_base(base_url@),
        match outcome {
            Ok(addresses) => addresses.deep_view() == normalized(base_url@, links.deep_view()),
            Err(reason) => base_of(parsed_address(base_url@)) == Err::<BaseAddressView, BaseError>(
                reason,
            ),
        },
{
    match parse_base(base_url) {
        Ok(_) => Ok(normalize_urls(base_url, links)),
        Err(reason) => Err(reason),
    }
}

/// Resolution keeps length and order: there is one address for each link, and
/// the address at a position is that of the link at that position, whatever
/// the other links are.
pub proof fn lemma_normalized_is_positional(base_url: Seq<char>, links: Seq<Seq<char>>, i: int)
    requires
        0 <= i < links.len(),
    ensures
        normalized(base_url, links).len() == links.len(),
        normalized(base_url, links)[i] == resolved(base_url, links[i]),
        normalized(base_url, links)[i] == normalized(base_url, seq![links[i]])[0],
{
}

/// Each link is resolved by itself: the addresses of two runs of links, one
/// after the other, are those of the first run followed by those of the
/// second.
pub proof fn lemma_normalized_concat(
    base_url: Seq<char>,
    first: Seq<Seq<char>>,
    second: Seq<Seq<char>>,
)
    ensures
        normalized(base_url, first + second) == normalized(base_url, first) + normalized(
            base_url,
            second,
        ),
{
    assert(normalized(base_url, first + second) =~= normalized(base_url, first) + normalized(
        base_url,
        second,
    ));
}

/// A link that begins with `http://` or `https://` is its own address,
/// whatever the base: resolving it alone gives it back unchanged.
pub proof fn lemma_absolute_link_is_unchanged(base_url: Seq<char>, link: Seq<char>)
    requires
        HTTP_PREFIX@.is_prefix_of(link) || HTTPS_PREFIX@.is_prefix_of(link),
    ensures
        resolved(base_url, link) == link,
        normalized(base_url, seq![link]) == seq![link],
{
    assert(normalized(base_url, seq![link]) =~= seq![link]);
}

/// Links that all begin with `http://` or `https://` are their own
/// addresses, whatever the base.
pub proof fn lemma_absolute_links_are_unchanged(base_url: Seq<char>, links: Seq<Seq<char>>)
    requires
        forall|i: int|
            0 <= i < links.len() ==> kind_of(#[trigger] links[i]) == ReferenceKind::Absolute,
    ensures
        normalized(base_url, links) == links,
{
    assert(normalized(base_url, links) =~= links);
}

} // verus!
