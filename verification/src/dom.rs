//! The boundary to the HTML parser. Documents, selectors and element
//! references are values of the `scraper` crate; nothing in this file is
//! proved. Each function makes one call into that crate, and its contract
//! says what is taken on trust about the call.
//!
//! Parsing is a function of the text, and matching a function of what the
//! parsed document and the parsed selector hold. Different texts may parse to
//! the same: nothing here leads from a parsed value back to its text. An
//! element is told from the others of its tree by the number of its node.

use crate::text::{option_view, views};
use scraper::{ElementRef, Html, Selector};
use vstd::prelude::*;

verus! {

/// `scraper::Html`, a parsed document.
#[verifier::external_type_specification]
#[verifier::external_body]
pub struct ExHtml(Html);

/// `scraper::Selector`, a parsed group of CSS selectors.
#[verifier::external_type_specification]
#[verifier::external_body]
pub struct ExSelector(Selector);

/// `scraper::ElementRef`, a reference to an element of a parsed document.
#[verifier::external_type_specification]
#[verifier::external_body]
pub struct ExElementRef<'a>(ElementRef<'a>);

/// The most characters that a page may have to be handed to the parser. The
/// parser keeps text in buffers whose length in bytes it counts in 32 bits,
/// and stops the program where a length does not fit. A character takes at
/// most four bytes, so a page within this bound stays well below that.
pub const MAX_PAGE_CHARS: usize = 0x1000_0000;

/// The tree of nodes that a document holds, carried as a sequence of
/// characters. How a tree is written down is left open: documents that hold
/// the same tree have the same.
pub uninterp spec fn document_tree(document: Html) -> Seq<char>;

/// The list of selectors that a `Selector` holds, carried as a sequence of
/// characters in the same way.
pub uninterp spec fn selector_list(selector: Selector) -> Seq<char>;

/// The tree into which the node of an element points.
pub uninterp spec fn element_tree(element: ElementRef<'_>) -> Seq<char>;

/// The number of an element's node in its tree.
pub uninterp spec fn element_node(element: ElementRef<'_>) -> nat;

/// The tree that `Html::parse_fragment` makes of a text.
pub uninterp spec fn fragment_of(text: Seq<char>) -> Seq<char>;

/// The list of selectors that `Selector::parse` makes of a text; `None`
/// where it rejects the text.
pub uninterp spec fn selector_of(text: Seq<char>) -> Option<Seq<char>>;

/// The nodes of the elements that `Html::select` gives, in the order in
/// which it gives them, for a document that holds `tree` and a selector that
/// holds `selectors`.
pub uninterp spec fn document_matches(tree: Seq<char>, selectors: Seq<char>) -> Seq<nat>;

/// The nodes of the elements that `ElementRef::select` gives, in the order
/// in which it gives them, for the element at `node` of `tree` and a
/// selector that holds `selectors`.
pub uninterp spec fn element_matches(tree: Seq<char>, node: nat, selectors: Seq<char>) -> Seq<
    nat,
>;

/// The pieces of text that `ElementRef::text` gives, in the order in which
/// it gives them, for the element at `node` of `tree`.
pub uninterp spec fn element_texts(tree: Seq<char>, node: nat) -> Seq<Seq<char>>;

/// What `ElementRef::attr` gives for the attribute `name` of the element at
/// `node` of `tree`.
pub uninterp spec fn element_attribute(tree: Seq<char>, node: nat, name: Seq<char>) -> Option<
    Seq<char>,
>;

/// Whether `found` are the elements at `nodes` of `tree`, one for one and in
/// that order.
pub open spec fn elements_at(
    found: Seq<ElementRef<'_>>,
    tree: Seq<char>,
    nodes: Seq<nat>,
) -> bool {
    &&& found.len() == nodes.len()
    &&& forall|i: int|
        0 <= i < found.len() ==> element_tree(#[trigger] found[i]) == tree && element_node(
            found[i],
        ) == nodes[i]
}

/// Calls `Html::parse_fragment`. Taken on trust: on a text within the
/// bound the call returns, whatever the text holds, and the tree that the
/// result holds depends on the text alone. Longer texts are left out: the
/// parser stops the program on a text of more than `u32::MAX` bytes.
#[verifier::external_body]
pub(crate) fn parse_fragment(text: &str) -> (document: Html)
    requires
        text@.len() <= MAX_PAGE_CHARS,
    ensures
        document_tree(document) == fragment_of(text@),
{
    Html::parse_fragment(text)
}

/// Calls `Selector::parse`. Taken on trust: whether the text is accepted,
/// and the list of selectors that the result then holds, depend on the text
/// alone.
#[verifier::external_body]
pub(crate) fn parse_selector(text: &str) -> (selector: Option<Selector>)
    ensures
        match selector {
            Some(parsed) => selector_of(text@) == Some(selector_list(parsed)),
            None => selector_of(text@).is_none(),
        },
{
    Selector::parse(text).ok()
}

/// Calls `Html::select` and gathers what it gives. Taken on trust: the
/// elements found are nodes of the document's tree, and which they are, and
/// in which order they come, depends on that tree and on the selectors
/// alone.
#[verifier::external_body]
pub(crate) fn select_in_document<'a>(document: &'a Html, selector: &Selector) -> (found: Vec<
    ElementRef<'a>,
>)
    ensures
        elements_at(
            found@,
            document_tree(*document),
            document_matches(document_tree(*document), selector_list(*selector)),
        ),
{
    document.select(selector).collect()
}

/// Calls `ElementRef::select` and gathers what it gives. Taken on trust:
/// the elements found are nodes of the tree of `element`, and which they
/// are, and in which order they come, depends on that tree, on the
/// element's node and on the selectors alone.
#[verifier::external_body]
pub(crate) fn select_in_element<'a>(element: &ElementRef<'a>, selector: &Selector) -> (found: Vec<
    ElementRef<'a>,
>)
    ensures
        elements_at(
            found@,
            element_tree(*element),
            element_matches(
                element_tree(*element),
                element_node(*element),
                selector_list(*selector),
            ),
        ),
{
    element.select(selector).collect()
}

/// Calls `ElementRef::text` and gathers the pieces it gives. Taken on
/// trust: the pieces depend on the element's tree and node alone.
#[verifier::external_body]
pub(crate) fn element_text(element: &ElementRef<'_>) -> (pieces: Vec<String>)
    ensures
        views(pieces@) == element_texts(element_tree(*element), element_node(*element)),
{
    element.text().map(str::to_owned).collect()
}

/// Calls `ElementRef::attr`. Taken on trust: the value, and whether there
/// is one, depends on the element's tree and node and on the attribute's
/// name alone.
#[verifier::external_body]
pub(crate) fn element_attr(element: &ElementRef<'_>, name: &str) -> (value: Option<String>)
    ensures
        option_view(value) == element_attribute(
            element_tree(*element),
            element_node(*element),
            name@,
        ),
{
    element.attr(name).map(str::to_owned)
}

} // verus!
