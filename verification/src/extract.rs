//! Finds the entries of a playlist in a saved page: one per content block,
//! with absent parts resolved to defaults, and without the entries that
//! have no video identifier.

use crate::dom::{
    document_matches, document_tree, element_attr, element_attribute, element_matches,
    element_node, element_text, element_texts, element_tree, elements_at, fragment_of,
    parse_fragment, parse_selector, select_in_document, select_in_element, selector_list,
    selector_of, MAX_PAGE_CHARS,
};
use crate::records::{SimplePlaylistItem, SimplePlaylistItemView};
use crate::text::{get_text, join, joined, option_view, trim, trimmed};
use crate::video_id::{find_video_id, has_id_markers, video_id};
use scraper::{ElementRef, Html, Selector};
use vstd::prelude::*;

verus! {

/// The selector of a content block.
pub open spec fn item_selector() -> Seq<char> {
    "#content"@
}

/// The selector of the element in a block that holds the title.
pub open spec fn title_selector() -> Seq<char> {
    "#video-title"@
}

/// The selector of the element in a block that holds the channel's name.
pub open spec fn channel_selector() -> Seq<char> {
    "#text"@
}

/// The selector of the link in a block.
pub open spec fn link_selector() -> Seq<char> {
    "#content > a"@
}

/// The attribute of a link that holds its target.
pub open spec fn link_attribute() -> Seq<char> {
    "href"@
}

/// Whether the selector parser accepts the four selectors.
pub open spec fn selectors_accepted() -> bool {
    &&& selector_of(item_selector()).is_some()
    &&& selector_of(title_selector()).is_some()
    &&& selector_of(channel_selector()).is_some()
    &&& selector_of(link_selector()).is_some()
}

/// What the selector parser makes of a selector that it accepts.
pub open spec fn parsed(selector: Seq<char>) -> Seq<char> {
    selector_of(selector).unwrap()
}

/// What was found in one content block. A part of the block that is not
/// there is `None`.
#[derive(Debug, Clone, PartialEq, Eq)]
pub struct BlockFields {
    /// The trimmed text of the title element.
    pub title: Option<String>,
    /// The trimmed text of the channel element.
    pub channel_name: Option<String>,
    /// The target of the link.
    pub link: Option<String>,
}

/// What a `BlockFields` holds.
pub struct BlockFieldsView {
    pub title: Option<Seq<char>>,
    pub channel_name: Option<Seq<char>>,
    pub link: Option<Seq<char>>,
}

impl View for BlockFields {
    type V = BlockFieldsView;

    open spec fn view(&self) -> BlockFieldsView {
        BlockFieldsView {
            title: option_view(self.title),
            channel_name: option_view(self.channel_name),
            link: option_view(self.link),
        }
    }
}

/// What each block of a sequence holds.
pub open spec fn block_views(blocks: Seq<BlockFields>) -> Seq<BlockFieldsView> {
    blocks.map_values(|block: BlockFields| block@)
}

/// What each entry of a sequence holds.
pub open spec fn simple_views(items: Seq<SimplePlaylistItem>) -> Seq<SimplePlaylistItemView> {
    items.map_values(|item: SimplePlaylistItem| item@)
}

/// The trimmed text of the first element under `node` of `tree` that
/// matches the parsed `selectors`: its pieces of text, one after another,
/// without the white space at both ends.
pub open spec fn first_text(tree: Seq<char>, node: nat, selectors: Seq<char>) -> Option<
    Seq<char>,
> {
    let found = element_matches(tree, node, selectors);
    if found.len() > 0 {
        Some(trim(joined(element_texts(tree, found[0]), Seq::empty())))
    } else {
        None
    }
}

/// The target of the first link under `node` of `tree`, where there is a
/// link and it has a target.
pub open spec fn first_link(tree: Seq<char>, node: nat) -> Option<Seq<char>> {
    let found = element_matches(tree, node, parsed(link_selector()));
    if found.len() > 0 {
        element_attribute(tree, found[0], link_attribute())
    } else {
        None
    }
}

/// What the content block at `node` of `tree` holds.
pub open spec fn block_fields(tree: Seq<char>, node: nat) -> BlockFieldsView {
    BlockFieldsView {
        title: first_text(tree, node, parsed(title_selector())),
        channel_name: first_text(tree, node, parsed(channel_selector())),
        link: first_link(tree, node),
    }
}

/// What the content blocks of a parsed document hold, in the order of the
/// document.
pub open spec fn tree_blocks(tree: Seq<char>) -> Seq<BlockFieldsView> {
    document_matches(tree, parsed(item_selector())).map_values(
        |node: nat| block_fields(tree, node),
    )
}

/// What the content blocks of a page hold, in the order of the page: those
/// of the document that the parser makes of its text.
pub open spec fn page_blocks(source: Seq<char>) -> Seq<BlockFieldsView> {
    tree_blocks(fragment_of(source))
}

/// An optional text, or the empty text where it is absent.
pub open spec fn or_empty(text: Option<Seq<char>>) -> Seq<char> {
    match text {
        Some(text) => text,
        None => Seq::empty(),
    }
}

/// The identifier derived from a link: that of the video where the link
/// holds both markers in their order, else empty.
pub open spec fn link_id(link: Seq<char>) -> Seq<char> {
    if has_id_markers(link) {
        video_id(link)
    } else {
        Seq::empty()
    }
}

/// The entry made of a content block: each absent part is empty, and the
/// identifier is derived from the link.
pub open spec fn block_item(fields: BlockFieldsView) -> SimplePlaylistItemView {
    SimplePlaylistItemView {
        title: or_empty(fields.title),
        channel_name: or_empty(fields.channel_name),
        link: or_empty(fields.link),
        id: link_id(or_empty(fields.link)),
    }
}

/// The entries made of a sequence of content blocks.
pub open spec fn block_items(blocks: Seq<BlockFieldsView>) -> Seq<SimplePlaylistItemView> {
    blocks.map_values(|fields: BlockFieldsView| block_item(fields))
}

/// Whether an entry has an identifier.
pub open spec fn has_id() -> spec_fn(SimplePlaylistItemView) -> bool {
    |item: SimplePlaylistItemView| item.id.len() > 0
}

/// The entries that have an identifier, in their order.
pub open spec fn identified(items: Seq<SimplePlaylistItemView>) -> Seq<SimplePlaylistItemView> {
    items.filter(has_id())
}

/// What is kept has an identifier, and is no more than there was.
pub proof fn lemma_identified_have_ids(items: Seq<SimplePlaylistItemView>)
    ensures
        identified(items).len() <= items.len(),
        forall|i: int|
            0 <= i < identified(items).len() ==> (#[trigger] identified(items)[i]).id.len() > 0,
{
    items.lemma_filter_len(has_id());
    assert forall|i: int| 0 <= i < identified(items).len() implies (#[trigger] identified(
        items,
    )[i]).id.len() > 0 by {
        items.lemma_filter_pred(has_id(), i);
    }
}

/// The entries of a page: those of its content blocks that have an
/// identifier, in the order of the page.
pub open spec fn extracted(source: Seq<char>) -> Seq<SimplePlaylistItemView> {
    identified(block_items(page_blocks(source)))
}

/// A part that a content block lacks.
#[derive(Debug, Clone, Copy, PartialEq, Eq, Structural)]
pub enum MissingField {
    Title,
    ChannelName,
    Link,
}

impl MissingField {
    /// The words that report the missing part.
    pub open spec fn words(self) -> Seq<char> {
        match self {
            MissingField::Title => "No title?"@,
            MissingField::ChannelName => "No channel title?"@,
            MissingField::Link => "No video_link?"@,
        }
    }

    /// The words that report the missing part.
    pub fn message(&self) -> (message: &'static str)
        ensures
            message@ == self.words(),
    {
        match self {
            MissingField::Title => "No title?",
            MissingField::ChannelName => "No channel title?",
            MissingField::Link => "No video_link?",
        }
    }
}

/// The parts that a block lacks: title, channel name and link, in this
/// order, each listed where it is absent.
pub open spec fn missing_parts(fields: BlockFieldsView) -> Seq<MissingField> {
    (if fields.title.is_none() {
        seq![MissingField::Title]
    } else {
        Seq::empty()
    }) + (if fields.channel_name.is_none() {
        seq![MissingField::ChannelName]
    } else {
        Seq::empty()
    }) + (if fields.link.is_none() {
        seq![MissingField::Link]
    } else {
        Seq::empty()
    })
}

/// Why a page could not be searched.
#[derive(Debug, Clone, Copy, PartialEq, Eq, Structural)]
pub enum ExtractError {
    /// The page has more than `MAX_PAGE_CHARS` characters.
    PageTooLarge,
    /// The selector parser rejected one of the four selectors.
    SelectorRejected,
}

impl ExtractError {
    /// The words that report the error.
    pub open spec fn words(self) -> Seq<char> {
        match self {
            ExtractError::PageTooLarge => "The page is too large"@,
            ExtractError::SelectorRejected => "A selector was rejected"@,
        }
    }

    /// The words that report the error.
    pub fn message(&self) -> (message: &'static str)
        ensures
            message@ == self.words(),
    {
        match self {
            ExtractError::PageTooLarge => "The page is too large",
            ExtractError::SelectorRejected => "A selector was rejected",
        }
    }
}

/// The error that searching a page ends in, if any: the page is looked at
/// first, then the selectors.
pub open spec fn search_error(source: Seq<char>) -> Option<ExtractError> {
    if source.len() > MAX_PAGE_CHARS {
        Some(ExtractError::PageTooLarge)
    } else if !selectors_accepted() {
        Some(ExtractError::SelectorRejected)
    } else {
        None
    }
}

/// The four selectors, parsed.
struct BlockSelectors {
    item: Selector,
    title: Selector,
    channel: Selector,
    link: Selector,
}

impl BlockSelectors {
    /// Whether each selector holds what the parser makes of its text.
    spec fn well_formed(&self) -> bool {
        &&& selector_of(item_selector()) == Some(selector_list(self.item))
        &&& selector_of(title_selector()) == Some(selector_list(self.title))
        &&& selector_of(channel_selector()) == Some(selector_list(self.channel))
        &&& selector_of(link_selector()) == Some(selector_list(self.link))
    }

    /// Parses the four selectors.
    fn parse() -> (selectors: Option<BlockSelectors>)
        ensures
            selectors.is_some() == selectors_accepted(),
            selectors matches Some(parsed) ==> parsed.well_formed(),
    {
        let item = parse_selector("#content");
        let title = parse_selector("#video-title");
        let channel = parse_selector("#text");
        let link = parse_selector("#content > a");
        match (item, title, channel, link) {
            (Some(item), Some(title), Some(channel), Some(link)) => Some(
                BlockSelectors { item, title, channel, link },
            ),
            _ => None,
        }
    }
}

/// The trimmed text of the first element in `block` that matches
/// `selector`.
fn scan_text(block: &ElementRef<'_>, selector: &Selector) -> (text: Option<String>)
    ensures
        option_view(text) == first_text(
            element_tree(*block),
            element_node(*block),
            selector_list(*selector),
        ),
{
    let found = select_in_element(block, selector);
    if found.len() > 0 {
        let pieces = element_text(&found[0]);
        let whole = join(&pieces, "");
        proof {
            reveal_strlit("");
            assert(""@ == Seq::<char>::empty());
        }
        Some(trimmed(whole.as_str()))
    } else {
        None
    }
}

/// The target of the first link in `block`.
fn scan_link(block: &ElementRef<'_>, selector: &Selector) -> (link: Option<String>)
    requires
        selector_of(link_selector()) == Some(selector_list(*selector)),
    ensures
        option_view(link) == first_link(element_tree(*block), element_node(*block)),
{
    let found = select_in_element(block, selector);
    if found.len() > 0 {
        element_attr(&found[0], "href")
    } else {
        None
    }
}

/// What one content block holds.
fn scan_block(block: &ElementRef<'_>, selectors: &BlockSelectors) -> (fields: BlockFields)
    requires
        selectors.well_formed(),
    ensures
        fields@ == block_fields(element_tree(*block), element_node(*block)),
{
    BlockFields {
        title: scan_text(block, &selectors.title),
        channel_name: scan_text(block, &selectors.channel),
        link: scan_link(block, &selectors.link),
    }
}

/// What the content blocks of a parsed page hold.
fn scan_document(document: &Html, selectors: &BlockSelectors) -> (blocks: Vec<BlockFields>)
    requires
        selectors.well_formed(),
    ensures
        block_views(blocks@) == tree_blocks(document_tree(*document)),
{
    let ghost tree = document_tree(*document);
    let ghost nodes = document_matches(tree, parsed(item_selector()));
    let found = select_in_document(document, &selectors.item);
    let mut blocks: Vec<BlockFields> = Vec::new();
    let mut i: usize = 0;
    while i < found.len()
        invariant
            i <= found.len(),
            selectors.well_formed(),
            elements_at(found@, tree, nodes),
            block_views(blocks@) == nodes.take(i as int).map_values(
                |node: nat| block_fields(tree, node),
            ),
        decreases found.len() - i,
    {
        let fields = scan_block(&found[i], selectors);
        let ghost before = blocks@;
        blocks.push(fields);
        proof {
            let done = nodes.take(i as int);
            assert(nodes.take(i + 1) == done.push(nodes[i as int]));
            assert(block_views(blocks@) =~= block_views(before).push(fields@));
            assert(done.push(nodes[i as int]).map_values(|node: nat| block_fields(tree, node))
                =~= done.map_values(|node: nat| block_fields(tree, node)).push(
                block_fields(tree, nodes[i as int]),
            ));
        }
        i += 1;
    }
    assert(nodes.take(found.len() as int) == nodes);
    blocks
}

/// Parses a saved page and reads its content blocks, in the order of the
/// page. What the page holds never makes this fail, however malformed. It
/// fails on a page of more than `MAX_PAGE_CHARS` characters, which the
/// parser cannot take, and where the selector parser rejects one of the
/// four selectors.
pub fn scan_page(html_text: &str) -> (result: Result<Vec<BlockFields>, ExtractError>)
    ensures
        match result {
            Ok(blocks) => {
                &&& search_error(html_text@).is_none()
                &&& block_views(blocks@) == page_blocks(html_text@)
            },
            Err(error) => search_error(html_text@) == Some(error),
        },
{
    if html_text.unicode_len() > MAX_PAGE_CHARS {
        return Err(ExtractError::PageTooLarge);
    }
    match BlockSelectors::parse() {
        Some(selectors) => {
            let document = parse_fragment(html_text);
            Ok(scan_document(&document, &selectors))
        },
        None => Err(ExtractError::SelectorRejected),
    }
}

/// Makes the entry of one content block.
pub fn normalize_block(fields: &BlockFields) -> (item: SimplePlaylistItem)
    ensures
        item@ == block_item(fields@),
{
    proof {
        reveal_strlit("");
        assert(""@ == Seq::<char>::empty());
    }
    let link = get_text(&fields.link, "");
    let id = get_text(&find_video_id(link.as_str()), "");
    SimplePlaylistItem {
        title: get_text(&fields.title, ""),
        channel_name: get_text(&fields.channel_name, ""),
        link,
        id,
    }
}

/// Lists the parts that a content block lacks.
pub fn missing_fields(fields: &BlockFields) -> (missing: Vec<MissingField>)
    ensures
        missing@ == missing_parts(fields@),
{
    let mut missing: Vec<MissingField> = Vec::new();
    if fields.title.is_none() {
        missing.push(MissingField::Title);
    }
    if fields.channel_name.is_none() {
        missing.push(MissingField::ChannelName);
    }
    if fields.link.is_none() {
        missing.push(MissingField::Link);
    }
    missing
}

/// Drops the entries without an identifier, and keeps the others in their
/// order.
pub fn retain_identified(items: Vec<SimplePlaylistItem>) -> (kept: Vec<SimplePlaylistItem>)
    ensures
        simple_views(kept@) == identified(simple_views(items@)),
        forall|i: int| 0 <= i < kept.len() ==> (#[trigger] kept[i]).id@.len() > 0,
{
    broadcast use vstd::std_specs::vec::axiom_spec_into_iter;

    let mut kept: Vec<SimplePlaylistItem> = Vec::new();
    proof {
        reveal(Seq::filter);
        assert(simple_views(items@.take(0)) =~= Seq::<SimplePlaylistItemView>::empty());
    }
    for item in it: items
        invariant
            it.seq() == items@,
            simple_views(kept@) == identified(simple_views(items@.take(it.index()))),
    {
        let ghost before = kept@;
        let ghost done = simple_views(items@.take(it.index()));
        proof {
            reveal(Seq::filter);
            let next = simple_views(items@.take(it.index() + 1));
            assert(next.drop_last() =~= done);
            assert(next.last() == item@);
        }
        if !item.id.as_str().is_empty() {
            kept.push(item);
            assert(simple_views(kept@) =~= simple_views(before).push(item@));
        }
    }
    proof {
        assert(items@.take(items@.len() as int) == items@);
        lemma_identified_have_ids(simple_views(items@));
        assert forall|i: int| 0 <= i < kept.len() implies (#[trigger] kept[i]).id@.len() > 0 by {
            assert(simple_views(kept@)[i] == kept[i]@);
        }
    }
    kept
}

/// Makes the entries of a sequence of content blocks, and keeps those that
/// have an identifier.
pub fn collect_items(blocks: &Vec<BlockFields>) -> (items: Vec<SimplePlaylistItem>)
    ensures
        simple_views(items@) == identified(block_items(block_views(blocks@))),
        forall|i: int| 0 <= i < items.len() ==> (#[trigger] items[i]).id@.len() > 0,
{
    let mut all: Vec<SimplePlaylistItem> = Vec::new();
    let mut i: usize = 0;
    while i < blocks.len()
        invariant
            i <= blocks.len(),
            simple_views(all@) == block_items(block_views(blocks@.take(i as int))),
        decreases blocks.len() - i,
    {
        let item = normalize_block(&blocks[i]);
        let ghost before = all@;
        all.push(item);
        proof {
            let done = blocks@.take(i as int);
            assert(blocks@.take(i + 1) == done.push(blocks@[i as int]));
            assert(simple_views(all@) =~= simple_views(before).push(item@));
            assert(block_items(block_views(done.push(blocks@[i as int]))) =~= block_items(
                block_views(done),
            ).push(block_item(blocks@[i as int]@)));
        }
        i += 1;
    }
    assert(blocks@.take(blocks.len() as int) == blocks@);
    retain_identified(all)
}

/// Extracts the entries of a saved playlist page: one for each content
/// block that yields a video identifier, in the order of the page. What the
/// page holds never makes this fail, however malformed. It fails on a page
/// of more than `MAX_PAGE_CHARS` characters, which the parser cannot take,
/// and where the selector parser rejects one of the four selectors.
pub fn extract(html_text: &str) -> (result: Result<Vec<SimplePlaylistItem>, ExtractError>)
    ensures
        match result {
            Ok(items) => {
                &&& search_error(html_text@).is_none()
                &&& simple_views(items@) == extracted(html_text@)
                &&& forall|i: int| 0 <= i < items.len() ==> (#[trigger] items[i]).id@.len() > 0
            },
            Err(error) => search_error(html_text@) == Some(error),
        },
{
    match scan_page(html_text) {
        Ok(blocks) => Ok(collect_items(&blocks)),
        Err(error) => Err(error),
    }
}

} // verus!
