//! Include comments: `<!--#include "file"-->` in a page stands for what `file` holds.

use vstd::prelude::*;
use vstd::utf8::{decode_utf8, encode_utf8, valid_utf8};

use crate::response::{
    build_response, bytes_from_static, message_response, Response, INTERNAL_SERVER_ERROR,
};
use crate::search::{matches_at, occurs_at, u8_index_of};

verus! {

/// A comment in a page that asks for a file to be put in its place.
#[derive(Debug)]
pub struct HtmlIncludeComment {
    /// Where the comment starts in the page.
    pub start_index: usize,
    /// How many bytes of the page the comment takes.
    pub length: usize,
    /// The file's path, below the root of the web content.
    pub include_file: String,
}

/// An include comment as numbers and characters.
pub struct IncludeView {
    pub start: int,
    pub length: int,
    pub file: Seq<char>,
}

impl View for HtmlIncludeComment {
    type V = IncludeView;

    open spec fn view(&self) -> IncludeView {
        IncludeView {
            start: self.start_index as int,
            length: self.length as int,
            file: self.include_file@,
        }
    }
}

/// The views of a list of include comments.
pub open spec fn include_views(comments: Seq<HtmlIncludeComment>) -> Seq<IncludeView> {
    comments.map_values(|comment: HtmlIncludeComment| comment@)
}

/// How an include comment begins; the file's path follows.
pub open spec fn include_prefix() -> Seq<u8> {
    encode_utf8("<!--#include \""@)
}

/// The double quote, which ends the file's path.
pub const QUOTE: u8 = 0x22;

/// The bytes of a quote and `-->` behind the file's path, which the comment's length counts
/// in.
pub const CLOSING_LENGTH: usize = 4;

/// An include comment begins at `at`.
pub open spec fn opens_at(page: Seq<u8>, at: int) -> bool {
    occurs_at(page, include_prefix(), at)
}

/// The first position from `from` on that holds a quote; the page's length where there is
/// none.
pub open spec fn next_quote(page: Seq<u8>, from: int) -> int
    decreases page.len() - from,
{
    if from >= page.len() {
        page.len() as int
    } else if page[from] == QUOTE {
        from
    } else {
        next_quote(page, from + 1)
    }
}

/// Where the path of the comment that begins at `at` ends.
pub open spec fn path_end(page: Seq<u8>, at: int) -> int {
    next_quote(page, at + include_prefix().len())
}

/// The bytes of the path of the comment that begins at `at`.
pub open spec fn path_bytes(page: Seq<u8>, at: int) -> Seq<u8> {
    page.subrange(at + include_prefix().len(), path_end(page, at))
}

/// Each include comment's path is ended by a quote.
pub open spec fn all_closed(page: Seq<u8>) -> bool {
    forall|at: int| #[trigger] opens_at(page, at) ==> path_end(page, at) < page.len()
}

/// Each include comment's path is text.
pub open spec fn all_text(page: Seq<u8>) -> bool {
    forall|at: int| #[trigger] opens_at(page, at) ==> valid_utf8(path_bytes(page, at))
}

/// The include comment that begins at `at`.
pub open spec fn include_at(page: Seq<u8>, at: int) -> IncludeView {
    IncludeView {
        start: at,
        length: include_prefix().len() + path_bytes(page, at).len() + CLOSING_LENGTH,
        file: decode_utf8(path_bytes(page, at)),
    }
}

/// The include comments that begin before `end`, the last one first.
pub open spec fn includes_before(page: Seq<u8>, end: int) -> Seq<IncludeView>
    decreases end,
{
    if end <= 0 {
        Seq::empty()
    } else if opens_at(page, end - 1) {
        seq![include_at(page, end - 1)] + includes_before(page, end - 1)
    } else {
        includes_before(page, end - 1)
    }
}

/// All include comments of a page, the last one first.
pub open spec fn page_includes(page: Seq<u8>) -> Seq<IncludeView> {
    includes_before(page, page.len() as int)
}

/// The beginning of an include comment has fourteen bytes.
pub(crate) proof fn lemma_prefix_length()
    ensures
        include_prefix().len() == 14,
{
    reveal_strlit("<!--#include \"");
    vstd::utf8::is_ascii_chars_encode_utf8("<!--#include \""@);
}

/// `next_quote` is the first quote from `from` on, as a search finds it.
pub(crate) proof fn lemma_next_quote(page: Seq<u8>, from: int, at: int)
    requires
        0 <= from <= at <= page.len(),
        forall|i: int| from <= i < at ==> page[i] != QUOTE,
        at < page.len() ==> page[at] == QUOTE,
    ensures
        next_quote(page, from) == at,
    decreases at - from,
{
    if from < at {
        lemma_next_quote(page, from + 1, at);
    }
}

/// `std::str::from_utf8`: the bytes as text where they are UTF-8, and nothing where they
/// are not.
#[verifier::external_body]
fn text_from_utf8(bytes: &[u8]) -> (text: Option<&str>)
    ensures
        match text {
            Some(text) => valid_utf8(bytes@) && text@ == decode_utf8(bytes@),
            None => !valid_utf8(bytes@),
        },
{
    std::str::from_utf8(bytes).ok()
}

/// Whether an include comment begins at `at`.
fn include_opens(page: &[u8], prefix: &[u8], at: usize) -> (opens: bool)
    requires
        at <= page@.len(),
        prefix@ == include_prefix(),
    ensures
        opens == opens_at(page@, at as int),
{
    prefix.len() <= page.len() - at && matches_at(page, prefix, at)
}

/// Where the path of the include comment at `at` ends, if a quote ends it.
fn find_path_end(page: &[u8], prefix: &[u8], at: usize) -> (end: Option<usize>)
    requires
        prefix@ == include_prefix(),
        opens_at(page@, at as int),
    ensures
        match end {
            Some(end) => {
                &&& at + prefix@.len() <= end < page@.len()
                &&& end == path_end(page@, at as int)
            },
            None => path_end(page@, at as int) >= page@.len(),
        },
{
    let total: usize = page.len();
    let from: usize = at + prefix.len();
    let end = u8_index_of(page, QUOTE, from, total);
    proof {
        match end {
            Some(end) => lemma_next_quote(page@, from as int, end as int),
            None => lemma_next_quote(page@, from as int, page@.len() as int),
        }
    }
    end
}

/// An answer that tells of a fault in the server's own pages.
fn page_fault(message: &'static str) -> (response: Response)
    ensures
        response@ == message_response(INTERNAL_SERVER_ERROR, message@),
{
    build_response(INTERNAL_SERVER_ERROR, bytes_from_static(message)).unwrap()
}

/// The include comments of a page, sorted from the largest start to the smallest. Going
/// through them in this order and putting each file in its comment's place leaves the
/// places of the comments still to come as they were.
///
/// A page with a comment whose path no quote ends is refused, and so is one with a path
/// that is no text.
pub fn get_html_includes(page: &[u8]) -> (found: Result<Vec<HtmlIncludeComment>, Response>)
    requires
        page@.len() <= isize::MAX,
    ensures
        found is Ok <==> all_closed(page@) && all_text(page@),
        found matches Ok(comments) ==> include_views(comments@) == page_includes(page@),
        found matches Err(response) ==> response@ == message_response(
            INTERNAL_SERVER_ERROR,
            if all_closed(page@) {
                "Invalid utf-8 in HTML include comment"@
            } else {
                "Somebody didn't format the HTML include comment correctly"@
            },
        ),
{
    let prefix = "<!--#include \"".as_bytes();
    let mut next: usize = 0;
    while next < page.len()
        invariant
            next <= page@.len(),
            prefix@ == include_prefix(),
            forall|at: int|
                #[trigger] opens_at(page@, at) && at < next ==> path_end(page@, at) < page@.len(),
        decreases page@.len() - next,
    {
        if include_opens(page, prefix, next) && find_path_end(page, prefix, next).is_none() {
            return Err(page_fault("Somebody didn't format the HTML include comment correctly"));
        }
        next = next + 1;
    }
    proof {
        lemma_prefix_length();
        assert(all_closed(page@));
    }
    let mut comments: Vec<HtmlIncludeComment> = Vec::new();
    let mut at: usize = page.len();
    while at > 0
        invariant
            at <= page@.len(),
            page@.len() <= isize::MAX,
            prefix@ == include_prefix(),
            include_prefix().len() == 14,
            all_closed(page@),
            forall|later: int|
                #[trigger] opens_at(page@, later) && at <= later ==> valid_utf8(
                    path_bytes(page@, later),
                ),
            include_views(comments@) + includes_before(page@, at as int) == page_includes(page@),
        decreases at,
    {
        at = at - 1;
        if include_opens(page, prefix, at) {
            if let Some(end) = find_path_end(page, prefix, at) {
                let path = vstd::slice::slice_subrange(page, at + prefix.len(), end);
                match text_from_utf8(path) {
                    Some(filepath) => {
                        let ghost before = comments@;
                        comments.push(
                            HtmlIncludeComment {
                                start_index: at,
                                length: path.len() + prefix.len() + CLOSING_LENGTH,
                                include_file: filepath.to_owned(),
                            },
                        );
                        assert(include_views(comments@) =~= include_views(before).push(
                            include_at(page@, at as int),
                        ));
                        assert(include_views(comments@) + includes_before(page@, at as int)
                            =~= include_views(before) + (seq![include_at(page@, at as int)]
                            + includes_before(page@, at as int)));
                    },
                    None => {
                        return Err(page_fault("Invalid utf-8 in HTML include comment"));
                    },
                }
            }
        }
    }
    assert(include_views(comments@) + includes_before(page@, 0) =~= include_views(comments@));
    assert(all_text(page@));
    Ok(comments)
}

/// `html` with `content` in the place of `comment`.
pub open spec fn put_in_place(html: Seq<u8>, comment: IncludeView, content: Seq<u8>) -> Seq<u8> {
    html.take(comment.start) + content + html.skip(comment.start + comment.length)
}

/// The place of `comment` lies in `html`.
pub open spec fn fits(html: Seq<u8>, comment: IncludeView) -> bool {
    0 <= comment.start && 0 <= comment.length && comment.start + comment.length <= html.len()
}

/// Whether the place of `comment` lies in `html`.
pub fn include_fits(html: &[u8], comment: &HtmlIncludeComment) -> (inside: bool)
    ensures
        inside == fits(html@, comment@),
{
    comment.length <= html.len() && comment.start_index <= html.len() - comment.length
}

/// `html` with `content` in the place of `comment`.
pub fn put_include(html: &[u8], comment: &HtmlIncludeComment, content: &[u8]) -> (page: Vec<u8>)
    requires
        fits(html@, comment@),
    ensures
        page@ == put_in_place(html@, comment@, content@),
{
    let total: usize = html.len();
    let end: usize = comment.start_index + comment.length;
    let mut page: Vec<u8> = Vec::new();
    page.extend_from_slice(vstd::slice::slice_subrange(html, 0, comment.start_index));
    page.extend_from_slice(content);
    page.extend_from_slice(vstd::slice::slice_subrange(html, end, total));
    assert(page@ =~= put_in_place(html@, comment@, content@));
    page
}

} // verus!
