//! What is found in a page, and what a page becomes, stated over its bytes.

use vstd::prelude::*;
use vstd::utf8::{decode_utf8_encode_utf8, encode_utf8, valid_utf8};

use crate::expansion::{answer, lemma_includes_before, lemma_next_quote_in_page, page_wanted};
use crate::includes::{
    all_closed, all_text, get_html_includes, include_at, include_fits, include_views,
    includes_before, lemma_next_quote, lemma_prefix_length, opens_at, page_includes, path_bytes,
    path_end, put_in_place, put_include, HtmlIncludeComment, IncludeView,
};
use crate::requests::{
    answer_request, fetch_content, get_login, insertion_step, FileView, Pending, Request, Step,
};
use crate::response::{bytes_content, Response, ResponseView};
use crate::text::lemma_last_part_is_name;

verus! {

// The comments of a page.

/// A comment opens where the fourteen bytes of its beginning stand, and nowhere else.
proof fn lemma_opens_where_written(page: Seq<u8>, at: int)
    ensures
        opens_at(page, at) <==> 0 <= at && at + 14 <= page.len() && page.subrange(at, at + 14)
            == encode_utf8("<!--#include \""@),
{
    lemma_prefix_length();
}

/// Where the path of a comment ends, the first quote behind its beginning stands.
proof fn lemma_path_ends_at_quote(page: Seq<u8>, at: int)
    requires
        opens_at(page, at),
    ensures
        at + 14 <= path_end(page, at) <= page.len(),
        path_end(page, at) < page.len() ==> page[path_end(page, at)] == 0x22,
        forall|i: int| at + 14 <= i < path_end(page, at) ==> page[i] != 0x22,
        path_bytes(page, at) == page.subrange(at + 14, path_end(page, at)),
{
    lemma_prefix_length();
    lemma_next_quote_in_page(page, at + 14);
}

/// At every position at which the fourteen bytes of the beginning of a comment stand, a
/// comment is found, and at no other position.
pub proof fn law_every_opening_is_found(
    page: &[u8],
    comments: Vec<HtmlIncludeComment>,
    at: int,
)
    requires
        call_ensures(get_html_includes, (page,), Ok(comments)),
    ensures
        (0 <= at && at + 14 <= page@.len() && page@.subrange(at, at + 14) == encode_utf8(
            "<!--#include \""@,
        )) <==> exists|i: int|
            0 <= i < comments@.len() && (#[trigger] comments@[i]).start_index == at,
{
    let views = include_views(comments@);
    lemma_opens_where_written(page@, at);
    lemma_includes_before(page@, page@.len() as int);
    if opens_at(page@, at) {
        assert(views.contains(include_at(page@, at)));
        let i = choose|i: int| 0 <= i < views.len() && views[i] == include_at(page@, at);
        assert(comments@[i]@ == views[i]);
        assert(comments@[i].start_index == at);
    }
    if exists|i: int| 0 <= i < comments@.len() && (#[trigger] comments@[i]).start_index == at {
        let i = choose|i: int|
            0 <= i < comments@.len() && (#[trigger] comments@[i]).start_index == at;
        assert(views[i] == comments@[i]@);
        assert(opens_at(page@, views[i].start));
    }
}

/// The comments that are found come from the last to the first, and none comes twice.
pub proof fn law_found_comments_go_backwards(
    page: &[u8],
    comments: Vec<HtmlIncludeComment>,
    i: int,
    j: int,
)
    requires
        call_ensures(get_html_includes, (page,), Ok(comments)),
        0 <= i < j < comments@.len(),
    ensures
        comments@[j].start_index < comments@[i].start_index,
{
    let views = include_views(comments@);
    lemma_includes_before(page@, page@.len() as int);
    assert(views[i] == comments@[i]@ && views[j] == comments@[j]@);
}

/// The path of a comment that is found is what stands between its beginning and the next
/// quote, as text. Its length counts its beginning, its path, and four bytes from the quote
/// on.
pub proof fn law_found_comment_is_what_is_written(
    page: &[u8],
    comments: Vec<HtmlIncludeComment>,
    i: int,
    at: int,
    end: int,
)
    requires
        call_ensures(get_html_includes, (page,), Ok(comments)),
        0 <= i < comments@.len(),
        comments@[i].start_index == at,
        at + 14 <= end < page@.len(),
        page@[end] == 0x22,
        forall|k: int| at + 14 <= k < end ==> page@[k] != 0x22,
    ensures
        comments@[i].length == end + 4 - at,
        encode_utf8(comments@[i].include_file@) == page@.subrange(at + 14, end),
{
    let views = include_views(comments@);
    lemma_includes_before(page@, page@.len() as int);
    assert(views[i] == comments@[i]@);
    assert(opens_at(page@, at));
    lemma_prefix_length();
    lemma_next_quote(page@, at + 14, end);
    decode_utf8_encode_utf8(path_bytes(page@, at));
}

/// Where the comments of a page are found, each has a quote behind its path, and a path
/// that is text.
pub proof fn law_found_comments_are_sound(
    page: &[u8],
    comments: Vec<HtmlIncludeComment>,
    i: int,
) -> (end: int)
    requires
        call_ensures(get_html_includes, (page,), Ok(comments)),
        0 <= i < comments@.len(),
    ensures
        comments@[i].start_index + 14 <= end < page@.len(),
        page@[end] == 0x22,
        forall|k: int| comments@[i].start_index + 14 <= k < end ==> page@[k] != 0x22,
        valid_utf8(page@.subrange(comments@[i].start_index + 14, end)),
{
    let views = include_views(comments@);
    let at = comments@[i].start_index as int;
    lemma_includes_before(page@, page@.len() as int);
    assert(views[i] == comments@[i]@);
    assert(opens_at(page@, at));
    lemma_path_ends_at_quote(page@, at);
    path_end(page@, at)
}

/// A page with a comment that no quote ends is refused.
pub proof fn law_unended_comment_is_refused(
    page: &[u8],
    found: Result<Vec<HtmlIncludeComment>, Response>,
    at: int,
)
    requires
        call_ensures(get_html_includes, (page,), found),
        0 <= at,
        at + 14 <= page@.len(),
        page@.subrange(at, at + 14) == encode_utf8("<!--#include \""@),
        forall|i: int| at + 14 <= i < page@.len() ==> page@[i] != 0x22,
    ensures
        found matches Err(response) && response.status == 500 && bytes_content(response.body)
            == encode_utf8("Somebody didn't format the HTML include comment correctly"@),
{
    lemma_opens_where_written(page@, at);
    lemma_path_ends_at_quote(page@, at);
    assert(!all_closed(page@));
}

/// A page with a comment whose path is no text is refused.
pub proof fn law_comment_that_is_no_text_is_refused(
    page: &[u8],
    found: Result<Vec<HtmlIncludeComment>, Response>,
    at: int,
    end: int,
)
    requires
        call_ensures(get_html_includes, (page,), found),
        0 <= at,
        at + 14 <= end < page@.len(),
        page@.subrange(at, at + 14) == encode_utf8("<!--#include \""@),
        page@[end] == 0x22,
        forall|i: int| at + 14 <= i < end ==> page@[i] != 0x22,
        !valid_utf8(page@.subrange(at + 14, end)),
    ensures
        found is Err,
{
    lemma_opens_where_written(page@, at);
    lemma_prefix_length();
    lemma_next_quote(page@, at + 14, end);
    assert(!all_text(page@));
}

/// A page is refused only for a comment in it that no quote ends or whose path is no text.
/// Where some comment is not ended the answer says that it is not formatted correctly, and
/// else that it is no text.
pub proof fn law_refused_page_has_a_bad_comment(page: &[u8], response: Response) -> (bad: int)
    requires
        call_ensures(get_html_includes, (page,), Err(response)),
    ensures
        response.status == 500,
        0 <= bad,
        bad + 14 <= page@.len(),
        page@.subrange(bad, bad + 14) == encode_utf8("<!--#include \""@),
        ({
            &&& bytes_content(response.body) == encode_utf8(
                "Somebody didn't format the HTML include comment correctly"@,
            )
            &&& forall|i: int| bad + 14 <= i < page@.len() ==> page@[i] != 0x22
        }) || ({
            &&& bytes_content(response.body) == encode_utf8(
                "Invalid utf-8 in HTML include comment"@,
            )
            &&& exists|end: int|
                bad + 14 <= end < page@.len() && #[trigger] page@[end] == 0x22 && !valid_utf8(
                    page@.subrange(bad + 14, end),
                ) && forall|i: int| bad + 14 <= i < end ==> page@[i] != 0x22
        }),
{
    let bad = if !all_closed(page@) {
        choose|at: int| #[trigger] opens_at(page@, at) && path_end(page@, at) >= page@.len()
    } else {
        choose|at: int| #[trigger] opens_at(page@, at) && !valid_utf8(path_bytes(page@, at))
    };
    assert(opens_at(page@, bad));
    lemma_opens_where_written(page@, bad);
    lemma_path_ends_at_quote(page@, bad);
    if all_closed(page@) {
        assert(page@[path_end(page@, bad)] == 0x22);
    }
    bad
}

/// What is put in the place of a comment stands between what was in front of the comment
/// and what was behind it.
pub proof fn law_content_goes_between(
    html: &[u8],
    comment: &HtmlIncludeComment,
    content: &[u8],
    page: Vec<u8>,
    before: Seq<u8>,
    place: Seq<u8>,
    after: Seq<u8>,
)
    requires
        call_ensures(put_include, (html, comment, content), page),
        html@ == before + place + after,
        comment.start_index == before.len(),
        comment.length == place.len(),
    ensures
        page@ == before + content@ + after,
{
    assert(put_in_place(html@, comment@, content@) =~= before + content@ + after);
}

/// The place of a comment lies in a page exactly where it ends before the page does, and it
/// can then be filled.
pub proof fn law_place_in_page(
    html: &[u8],
    comment: &HtmlIncludeComment,
    content: &[u8],
    inside: bool,
)
    requires
        call_ensures(include_fits, (html, comment), inside),
    ensures
        inside <==> comment.start_index + comment.length <= html@.len(),
        inside ==> call_requires(put_include, (html, comment, content)),
{
}

// What a page becomes.

/// A part of a page: some bytes, and behind them a comment. `content` is what the comment's
/// file holds.
pub struct Part {
    pub before: Seq<u8>,
    pub file: Seq<char>,
    pub content: Seq<u8>,
}

/// A comment as it is written in a page.
pub open spec fn comment_for(file: Seq<char>) -> Seq<u8> {
    encode_utf8("<!--#include \""@) + encode_utf8(file) + encode_utf8("\"-->"@)
}

/// The first `count` parts as they are written, one behind the other.
pub open spec fn written(parts: Seq<Part>, count: nat) -> Seq<u8>
    decreases count,
{
    if count == 0 {
        Seq::empty()
    } else {
        written(parts, (count - 1) as nat) + parts[count - 1].before + comment_for(
            parts[count - 1].file,
        )
    }
}

/// The first `count` parts with what each file holds in the place of its comment.
pub open spec fn replaced(parts: Seq<Part>, count: nat) -> Seq<u8>
    decreases count,
{
    if count == 0 {
        Seq::empty()
    } else {
        replaced(parts, (count - 1) as nat) + parts[count - 1].before + parts[count - 1].content
    }
}

/// Where the comment of a part begins.
pub open spec fn comment_start(parts: Seq<Part>, index: int) -> int {
    (written(parts, index as nat).len() + parts[index].before.len()) as int
}

/// More parts take more room.
proof fn lemma_written_grows(parts: Seq<Part>, fewer: nat, more: nat)
    requires
        fewer <= more,
    ensures
        written(parts, fewer).len() <= written(parts, more).len(),
        written(parts, fewer) == written(parts, more).take(written(parts, fewer).len() as int),
    decreases more,
{
    if fewer < more {
        lemma_written_grows(parts, fewer, (more - 1) as nat);
        assert(written(parts, more).take(written(parts, fewer).len() as int) =~= written(
            parts,
            (more - 1) as nat,
        ).take(written(parts, fewer).len() as int));
    } else {
        assert(written(parts, more).take(written(parts, more).len() as int) =~= written(
            parts,
            more,
        ));
    }
}

/// Where nothing opens between two places, the same comments are found before either.
proof fn lemma_nothing_opens_between(page: Seq<u8>, from: int, to: int)
    requires
        0 <= from <= to,
        forall|at: int| from <= at < to ==> !#[trigger] opens_at(page, at),
    ensures
        includes_before(page, to) == includes_before(page, from),
    decreases to - from,
{
    if from < to {
        assert(!opens_at(page, to - 1));
        lemma_nothing_opens_between(page, from, to - 1);
    }
}

/// A comment that is written at some place of a page, and whose path has no quote, is found
/// there as it is written.
proof fn lemma_written_comment_found(page: Seq<u8>, at: int, file: Seq<char>)
    requires
        0 <= at,
        at + comment_for(file).len() <= page.len(),
        page.subrange(at, at + comment_for(file).len()) == comment_for(file),
        !encode_utf8(file).contains(0x22),
    ensures
        opens_at(page, at),
        path_end(page, at) < page.len(),
        path_bytes(page, at) == encode_utf8(file),
        include_at(page, at) == (IncludeView {
            start: at,
            length: comment_for(file).len() as int,
            file,
        }),
{
    let comment = comment_for(file);
    let bytes = encode_utf8(file);
    let name = at + 14;
    let behind = name + bytes.len();
    lemma_prefix_length();
    reveal_strlit("\"-->");
    vstd::utf8::is_ascii_chars_encode_utf8("\"-->"@);
    vstd::utf8::encode_utf8_decode_utf8(file);
    assert forall|i: int| at <= i < at + comment.len() implies #[trigger] page[i] == comment[i
        - at] by {
        assert(page.subrange(at, at + comment.len())[i - at] == page[i]);
    }
    assert(page.subrange(at, name) =~= encode_utf8("<!--#include \""@));
    assert(page.subrange(name, behind) =~= bytes);
    assert forall|i: int| name <= i < behind implies page[i] != 0x22 by {
        assert(page[i] == bytes[i - name]);
    }
    assert(page[behind] == encode_utf8("\"-->"@)[0]);
    lemma_next_quote(page, name, behind);
}

/// Replacing the comments of the first `count` parts, which are all that are found up to
/// where these parts end, gives the parts with what the files hold.
proof fn lemma_parts_replaced(
    page: Seq<u8>,
    parts: Seq<Part>,
    count: nat,
    behind: Seq<u8>,
    root: Seq<char>,
    files: spec_fn(Seq<char>) -> FileView,
)
    requires
        count <= parts.len(),
        written(parts, parts.len()).is_prefix_of(page),
        forall|i: int|
            0 <= i < parts.len() ==> !encode_utf8((#[trigger] parts[i]).file).contains(0x22)
                && files(root + parts[i].file) == FileView::Contents(parts[i].content),
        forall|at: int| #[trigger]
            opens_at(page, at) ==> exists|i: int|
                0 <= i < parts.len() && at == #[trigger] comment_start(parts, i),
    ensures
        answer(
            insertion_step(
                root,
                written(parts, count) + behind,
                includes_before(page, written(parts, count).len() as int),
            ),
            root,
            files,
        ) == (ResponseView { status: 200, body: replaced(parts, count) + behind }),
    decreases count,
{
    let end = written(parts, count).len() as int;
    let html = written(parts, count) + behind;
    if count == 0 {
        assert(html =~= behind);
        assert(replaced(parts, 0) + behind =~= behind);
    } else {
        let earlier = (count - 1) as nat;
        let part = parts[count - 1];
        let from = written(parts, earlier).len() as int;
        let at = comment_start(parts, count - 1);
        let comment = comment_for(part.file);
        lemma_written_grows(parts, count, parts.len());
        lemma_prefix_length();
        let all = written(parts, parts.len());
        assert(page.take(all.len() as int) =~= all);
        assert forall|i: int| 0 <= i < end implies #[trigger] page[i] == written(
            parts,
            count,
        )[i] by {
            assert(page.take(all.len() as int)[i] == page[i]);
            assert(all.take(end)[i] == all[i]);
        }
        assert(page.subrange(at, end) =~= comment);
        lemma_written_comment_found(page, at, part.file);
        let found = include_at(page, at);
        assert forall|other: int| from <= other < end && other != at implies !#[trigger] opens_at(
            page,
            other,
        ) by {
            if opens_at(page, other) {
                let i = choose|i: int|
                    0 <= i < parts.len() && other == #[trigger] comment_start(parts, i);
                if i < count - 1 {
                    lemma_written_grows(parts, (i + 1) as nat, earlier);
                } else if i > count - 1 {
                    lemma_written_grows(parts, count, i as nat);
                }
            }
        }
        lemma_nothing_opens_between(page, at + 1, end);
        lemma_nothing_opens_between(page, from, at);
        let comments = includes_before(page, end);
        let rest = includes_before(page, from);
        assert(comments =~= seq![found] + rest);
        assert(comments[0] == found);
        assert(comments.drop_first() =~= rest);
        let next_behind = part.before + part.content + behind;
        let next_html = written(parts, earlier) + next_behind;
        assert(put_in_place(html, found, part.content) =~= next_html);
        lemma_parts_replaced(page, parts, earlier, next_behind, root, files);
        assert(replaced(parts, earlier) + next_behind =~= replaced(parts, count) + behind);
        reveal_with_fuel(answer, 2);
        assert(files(root + found.file) == FileView::Contents(part.content));
    }
}

/// A page with any number of comments, and with nothing else in it that looks like the
/// beginning of one, is answered with what each file holds in the place of its comment, and
/// with all that stands in front of the comments, between them and behind them, whatever its
/// length.
pub proof fn law_every_comment_is_replaced(
    path: Seq<char>,
    page: Seq<u8>,
    parts: Seq<Part>,
    after: Seq<u8>,
    root: Seq<char>,
    files: spec_fn(Seq<char>) -> FileView,
)
    requires
        page == written(parts, parts.len()) + after,
        files(path) == FileView::Contents(page),
        forall|i: int|
            0 <= i < parts.len() ==> !encode_utf8((#[trigger] parts[i]).file).contains(0x22)
                && files(root + parts[i].file) == FileView::Contents(parts[i].content),
        forall|at: int, name: int|
            0 <= at && name == at + 14 && name <= page.len() && #[trigger] page.subrange(at, name)
                == encode_utf8("<!--#include \""@) ==> exists|i: int|
                0 <= i < parts.len() && at == #[trigger] comment_start(parts, i),
    ensures
        answer(page_wanted(path), root, files).status == 200,
        answer(page_wanted(path), root, files).body == replaced(parts, parts.len()) + after,
{
    let count = parts.len();
    let all = written(parts, count);
    let end = all.len() as int;
    assert(page.take(end) =~= all);
    assert(all.is_prefix_of(page));
    assert forall|at: int| #[trigger] opens_at(page, at) implies exists|i: int|
        0 <= i < parts.len() && at == #[trigger] comment_start(parts, i) by {
        lemma_opens_where_written(page, at);
        assert(page.subrange(at, at + 14) == encode_utf8("<!--#include \""@));
    }
    assert forall|at: int| #[trigger] opens_at(page, at) implies path_end(page, at) < page.len()
        && valid_utf8(path_bytes(page, at)) && at < end by {
        let i = choose|i: int| 0 <= i < parts.len() && at == #[trigger] comment_start(parts, i);
        let next = (i + 1) as nat;
        let comment = comment_for(parts[i].file);
        lemma_written_grows(parts, next, count);
        assert forall|k: int| 0 <= k < written(parts, next).len() implies #[trigger] page[k]
            == written(parts, next)[k] by {
            assert(all.take(written(parts, next).len() as int)[k] == all[k]);
        }
        assert(page.subrange(at, at + comment.len()) =~= comment);
        lemma_prefix_length();
        lemma_written_comment_found(page, at, parts[i].file);
        vstd::utf8::encode_utf8_valid_utf8(parts[i].file);
    }
    assert(all_closed(page));
    assert(all_text(page));
    lemma_nothing_opens_between(page, end, page.len() as int);
    lemma_parts_replaced(page, parts, count, after, root, files);
    reveal_with_fuel(answer, 2);
}

/// A page with two comments, and with nothing else in it that looks like the beginning of
/// one, is answered with what each of the two files holds in the place of its comment,
/// however much stands in front of them, between them and behind them.
pub proof fn law_two_comments_are_replaced(
    path: Seq<char>,
    page: Seq<u8>,
    start: Seq<u8>,
    first_file: Seq<char>,
    first_content: Seq<u8>,
    middle: Seq<u8>,
    second_file: Seq<char>,
    second_content: Seq<u8>,
    end: Seq<u8>,
    root: Seq<char>,
    files: spec_fn(Seq<char>) -> FileView,
)
    requires
        page == start + (encode_utf8("<!--#include \""@) + encode_utf8(first_file)
            + encode_utf8("\"-->"@)) + middle + (encode_utf8("<!--#include \""@) + encode_utf8(
            second_file,
        ) + encode_utf8("\"-->"@)) + end,
        !encode_utf8(first_file).contains(0x22),
        !encode_utf8(second_file).contains(0x22),
        forall|at: int, name: int|
            0 <= at && name == at + 14 && name <= page.len() && #[trigger] page.subrange(at, name)
                == encode_utf8("<!--#include \""@) ==> at == start.len() || at == start.len() + 14
                + encode_utf8(first_file).len() + 4 + middle.len(),
        files(path) == FileView::Contents(page),
        files(root + first_file) == FileView::Contents(first_content),
        files(root + second_file) == FileView::Contents(second_content),
    ensures
        answer(page_wanted(path), root, files).status == 200,
        answer(page_wanted(path), root, files).body == start + first_content + middle
            + second_content + end,
{
    let parts = seq![
        Part { before: start, file: first_file, content: first_content },
        Part { before: middle, file: second_file, content: second_content },
    ];
    reveal_with_fuel(written, 3);
    reveal_with_fuel(replaced, 3);
    assert(page =~= written(parts, 2) + end);
    assert(replaced(parts, 2) + end =~= start + first_content + middle + second_content + end);
    lemma_prefix_length();
    reveal_strlit("\"-->");
    vstd::utf8::is_ascii_chars_encode_utf8("\"-->"@);
    assert(comment_start(parts, 0) == start.len());
    assert(comment_start(parts, 1) == start.len() + 14 + encode_utf8(first_file).len() + 4
        + middle.len());
    law_every_comment_is_replaced(path, page, parts, end, root, files);
}

/// A page whose comments are being replaced is answered with success only where each of the
/// files that are left is read.
proof fn lemma_success_needs_every_include(
    html: Seq<u8>,
    comments: Seq<IncludeView>,
    index: int,
    root: Seq<char>,
    files: spec_fn(Seq<char>) -> FileView,
)
    requires
        answer(insertion_step(root, html, comments), root, files).status == 200,
        0 <= index < comments.len(),
    ensures
        files(root + comments[index].file) is Contents,
    decreases comments.len(),
{
    reveal_with_fuel(answer, 2);
    if let FileView::Contents(content) = files(root + comments[0].file) {
        if index > 0 {
            lemma_success_needs_every_include(
                put_in_place(html, comments[0], content),
                comments.drop_first(),
                index - 1,
                root,
                files,
            );
        }
    }
}

/// Success is answered for a page only where its own file is read, and with it the file of
/// every comment that is written in it.
pub proof fn law_success_needs_every_file(
    path: Seq<char>,
    page: Seq<u8>,
    at: int,
    file: Seq<char>,
    end: int,
    root: Seq<char>,
    files: spec_fn(Seq<char>) -> FileView,
)
    requires
        answer(page_wanted(path), root, files).status == 200,
    ensures
        files(path) is Contents,
        files(path) == FileView::Contents(page) && 0 <= at && at + 14 <= end < page.len()
            && page.subrange(at, at + 14) == encode_utf8("<!--#include \""@) && page.subrange(
            at + 14,
            end,
        ) == encode_utf8(file) && !encode_utf8(file).contains(0x22) && page[end] == 0x22
            ==> files(root + file) is Contents,
{
    reveal_with_fuel(answer, 2);
    if files(path) == FileView::Contents(page) && 0 <= at && at + 14 <= end < page.len()
        && page.subrange(at, at + 14) == encode_utf8("<!--#include \""@) && page.subrange(
        at + 14,
        end,
    ) == encode_utf8(file) && !encode_utf8(file).contains(0x22) && page[end] == 0x22 {
        lemma_opens_where_written(page, at);
        lemma_prefix_length();
        assert forall|i: int| at + 14 <= i < end implies page[i] != 0x22 by {
            assert(page.subrange(at + 14, end)[i - at - 14] == page[i]);
        }
        lemma_next_quote(page, at + 14, end);
        vstd::utf8::encode_utf8_decode_utf8(file);
        lemma_includes_before(page, page.len() as int);
        let comments = page_includes(page);
        assert(comments.contains(include_at(page, at)));
        let index = choose|i: int| 0 <= i < comments.len() && comments[i] == include_at(page, at);
        lemma_success_needs_every_include(page, comments, index, root, files);
    }
}

/// What is answered with success for a page without a comment is all that its file holds.
pub proof fn law_page_without_comments_is_sent_whole(
    path: Seq<char>,
    page: Seq<u8>,
    root: Seq<char>,
    files: spec_fn(Seq<char>) -> FileView,
)
    requires
        files(path) == FileView::Contents(page),
        forall|at: int, name: int|
            0 <= at && name == at + 14 && name <= page.len() ==> #[trigger] page.subrange(at, name)
                != encode_utf8("<!--#include \""@),
    ensures
        answer(page_wanted(path), root, files).status == 200,
        answer(page_wanted(path), root, files).body == page,
{
    let parts = Seq::<Part>::empty();
    assert(page =~= written(parts, 0) + page);
    assert(page =~= replaced(parts, 0) + page);
    law_every_comment_is_replaced(path, page, parts, page, root, files);
}

/// A request whose own file cannot be opened is answered 404, whatever its path: with what
/// follows the last slash of the file's path, and that it could not be found.
pub proof fn law_missing_page_is_not_found(
    request: &Request,
    root: &str,
    full_server: bool,
    asked: Pending,
    first: Step,
    directory: Seq<char>,
    name: Seq<char>,
    files: spec_fn(Seq<char>) -> FileView,
)
    requires
        call_ensures(answer_request, (request, Ok(()), root, full_server), first),
        call_ensures(get_login, (root,), asked) && request.path@ == "/login"@ || call_ensures(
            fetch_content,
            (request, root),
            asked,
        ) && request.path@ != "/login"@ && full_server,
        request.method@ == "GET"@,
        asked.path@ == directory + seq!['/'] + name || asked.path@ == name,
        !name.contains('/'),
        files(asked.path@) is NotOpened,
    ensures
        answer(first@, root@, files).status == 404,
        answer(first@, root@, files).body == encode_utf8(name + " could not be found"@),
{
    reveal_with_fuel(answer, 2);
    lemma_last_part_is_name(asked.path@, '/', directory, name);
}

/// A request is answered with success only where the file that it asks for is read.
pub proof fn law_success_needs_the_page(
    request: &Request,
    authorization: Result<(), ()>,
    root: &str,
    full_server: bool,
    first: Step,
    files: spec_fn(Seq<char>) -> FileView,
)
    requires
        call_ensures(answer_request, (request, authorization, root, full_server), first),
        answer(first@, root@, files).status == 200,
    ensures
        authorization is Ok,
        request.method@ == "GET"@,
        first matches Step::Read(asked) && files(asked.path@) is Contents,
{
    reveal_with_fuel(answer, 2);
}

/// The comments of any page that fits in memory may be searched for.
pub proof fn law_any_page_may_be_searched(page: &[u8])
    requires
        page@.len() <= isize::MAX,
    ensures
        call_requires(get_html_includes, (page,)),
{
}

} // verus!
