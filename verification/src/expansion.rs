//! What a page becomes when its include comments are replaced, and what a request is
//! answered once every file it asks for is known.

use vstd::prelude::*;
use vstd::utf8::{decode_utf8, encode_utf8, valid_utf8};

use crate::auth::{authorization_for, flags_for};
use crate::includes::{
    all_closed, all_text, fits, include_at, include_prefix, includes_before, lemma_next_quote,
    lemma_prefix_length, next_quote, opens_at, page_includes, path_bytes, path_end, put_in_place, IncludeView,
    CLOSING_LENGTH, QUOTE,
};
use crate::requests::{
    first_step, insertion_step, next_step, unread_response, FileView, PendingView,
    PurposeView, StepView,
};
use crate::response::{
    message_response, missing_file_response, ResponseView, FORBIDDEN, INTERNAL_SERVER_ERROR,
    NOT_FOUND, OK,
};

verus! {

/// How many files at most a step can still ask for, apart from the files of include
/// comments.
pub open spec fn pages_left(step: StepView) -> int {
    match step {
        StepView::Respond(_) => 0,
        StepView::Read(pending) => match pending.purpose {
            PurposeView::Include { .. } => 1,
            _ => 2,
        },
    }
}

/// How many include comments a step has left to replace.
pub open spec fn includes_left(step: StepView) -> nat {
    match step {
        StepView::Read(
            PendingView { path: _, purpose: PurposeView::Include { html: _, left } },
        ) => left.len(),
        _ => 0,
    }
}

/// Where a step asks for the file of an include comment, there is a comment left.
pub open spec fn well_formed(step: StepView) -> bool {
    step matches StepView::Read(pending) ==> pending.purpose matches PurposeView::Include {
        html,
        left,
    } ==> left.len() > 0
}

/// The response that a request ends with from `step` on, where `files` says of each path
/// what comes of reading it.
pub open spec fn answer(
    step: StepView,
    root: Seq<char>,
    files: spec_fn(Seq<char>) -> FileView,
) -> ResponseView
    decreases pages_left(step), includes_left(step),
    when well_formed(step)
{
    match step {
        StepView::Respond(response) => response,
        StepView::Read(pending) => answer(
            next_step(pending, root, files(pending.path)),
            root,
            files,
        ),
    }
}

/// From `step` on, each file that goes in the place of an include comment finds that place
/// in the page.
pub open spec fn all_places_found(
    step: StepView,
    root: Seq<char>,
    files: spec_fn(Seq<char>) -> FileView,
) -> bool
    decreases pages_left(step), includes_left(step),
    when well_formed(step)
{
    match step {
        StepView::Respond(response) => true,
        StepView::Read(pending) => {
            &&& pending.purpose matches PurposeView::Include { html, left } ==> files(
                pending.path,
            ) is Contents ==> fits(html, left[0])
            &&& all_places_found(next_step(pending, root, files(pending.path)), root, files)
        },
    }
}

/// The comments lie before `end`, and each ends before the one in front of it in the list
/// begins.
pub open spec fn apart(comments: Seq<IncludeView>, end: int) -> bool {
    &&& forall|i: int|
        0 <= i < comments.len() ==> 0 <= (#[trigger] comments[i]).start && 0 <= comments[i].length
            && comments[i].start + comments[i].length <= end
    &&& forall|i: int, j: int|
        0 <= i < j < comments.len() ==> (#[trigger] comments[j]).start + comments[j].length <= (
        #[trigger] comments[i]).start
}

/// What the file of an include comment holds.
pub open spec fn content_of(
    comment: IncludeView,
    root: Seq<char>,
    files: spec_fn(Seq<char>) -> FileView,
) -> Seq<u8> {
    files(root + comment.file)->Contents_0
}

/// The file of an include comment can be read.
pub open spec fn readable(
    comment: IncludeView,
    root: Seq<char>,
    files: spec_fn(Seq<char>) -> FileView,
) -> bool {
    files(root + comment.file) is Contents
}

/// The first `end` bytes of `page`, with each of `comments` replaced by what its file holds
/// and all else as it was.
pub open spec fn expanded(
    page: Seq<u8>,
    end: int,
    comments: Seq<IncludeView>,
    root: Seq<char>,
    files: spec_fn(Seq<char>) -> FileView,
) -> Seq<u8>
    decreases comments.len(),
{
    if comments.len() == 0 {
        page.take(end)
    } else {
        let last = comments[0];
        expanded(page, last.start, comments.drop_first(), root, files) + content_of(
            last,
            root,
            files,
        ) + page.subrange(last.start + last.length, end)
    }
}

/// Replacing comments from the last to the first gives the page with all of them replaced.
proof fn lemma_insertion(
    page: Seq<u8>,
    end: int,
    tail: Seq<u8>,
    comments: Seq<IncludeView>,
    root: Seq<char>,
    files: spec_fn(Seq<char>) -> FileView,
)
    requires
        0 <= end <= page.len(),
        apart(comments, end),
        forall|i: int| 0 <= i < comments.len() ==> readable(#[trigger] comments[i], root, files),
    ensures
        answer(insertion_step(root, page.take(end) + tail, comments), root, files) == (
        ResponseView { status: OK, body: expanded(page, end, comments, root, files) + tail }),
        all_places_found(insertion_step(root, page.take(end) + tail, comments), root, files),
    decreases comments.len(),
{
    if comments.len() > 0 {
        let last = comments[0];
        let html = page.take(end) + tail;
        let content = content_of(last, root, files);
        let rest = page.subrange(last.start + last.length, end);
        let new_tail = content + rest + tail;
        assert(readable(last, root, files));
        assert(put_in_place(html, last, content) =~= page.take(last.start) + new_tail);
        assert forall|i: int| 0 <= i < comments.drop_first().len() implies readable(
            #[trigger] comments.drop_first()[i],
            root,
            files,
        ) by {
            assert(readable(comments[i + 1], root, files));
        }
        lemma_insertion(page, last.start, new_tail, comments.drop_first(), root, files);
        assert(expanded(page, last.start, comments.drop_first(), root, files) + new_tail
            =~= expanded(page, end, comments, root, files) + tail);
    }
}

/// The comments found before `end` begin before `end`, each where an include comment opens,
/// from the largest start to the smallest.
pub(crate) proof fn lemma_includes_before(page: Seq<u8>, end: int)
    ensures
        forall|i: int|
            0 <= i < includes_before(page, end).len() ==> {
                &&& 0 <= (#[trigger] includes_before(page, end)[i]).start < end
                &&& opens_at(page, includes_before(page, end)[i].start)
                &&& includes_before(page, end)[i] == include_at(
                    page,
                    includes_before(page, end)[i].start,
                )
            },
        forall|i: int, j: int|
            0 <= i < j < includes_before(page, end).len() ==> (#[trigger] includes_before(
                page,
                end,
            )[j]).start < (#[trigger] includes_before(page, end)[i]).start,
        forall|at: int|
            0 <= at < end && #[trigger] opens_at(page, at) ==> includes_before(page, end).contains(
                include_at(page, at),
            ),
    decreases end,
{
    if end > 0 {
        lemma_includes_before(page, end - 1);
        let earlier = includes_before(page, end - 1);
        let all = includes_before(page, end);
        if opens_at(page, end - 1) {
            assert(all =~= seq![include_at(page, end - 1)] + earlier);
            assert(forall|i: int| 0 < i < all.len() ==> #[trigger] all[i] == earlier[i - 1]);
            assert forall|at: int| 0 <= at < end && #[trigger] opens_at(page, at) implies all.contains(
                include_at(page, at),
            ) by {
                if at == end - 1 {
                    assert(all[0] == include_at(page, at));
                } else {
                    let i = choose|i: int|
                        0 <= i < earlier.len() && earlier[i] == include_at(page, at);
                    assert(all[i + 1] == include_at(page, at));
                }
            }
        }
    }
}

/// The include comments of a page come from the largest start to the smallest, and no two
/// start at one place.
pub proof fn law_includes_sorted(page: Seq<u8>)
    ensures
        forall|i: int, j: int|
            0 <= i < j < page_includes(page).len() ==> (#[trigger] page_includes(page)[j]).start < (
            #[trigger] page_includes(page)[i]).start,
{
    lemma_includes_before(page, page.len() as int);
}

/// The include comments of a page are those that open in it: every one of them, and
/// nothing else.
pub proof fn law_includes_complete(page: Seq<u8>, comment: IncludeView)
    ensures
        page_includes(page).contains(comment) <==> opens_at(page, comment.start) && comment
            == include_at(page, comment.start),
{
    lemma_includes_before(page, page.len() as int);
    if page_includes(page).contains(comment) {
        let i = choose|i: int| 0 <= i < page_includes(page).len() && page_includes(page)[i] == comment;
        assert(opens_at(page, page_includes(page)[i].start));
    }
    if opens_at(page, comment.start) {
        lemma_prefix_length();
        assert(0 <= comment.start < page.len());
    }
}

/// Putting a file in the place of a comment changes nothing in front of that place and
/// nothing behind it, so the places of the comments in front of it stay as they were.
pub proof fn law_earlier_places_kept(
    html: Seq<u8>,
    comment: IncludeView,
    content: Seq<u8>,
    earlier: IncludeView,
)
    requires
        fits(html, comment),
        0 <= earlier.start,
        0 <= earlier.length,
        earlier.start + earlier.length <= comment.start,
    ensures
        fits(put_in_place(html, comment, content), earlier),
        put_in_place(html, comment, content).take(comment.start) == html.take(comment.start),
        put_in_place(html, comment, content).skip(comment.start + content.len()) == html.skip(
            comment.start + comment.length,
        ),
        put_in_place(html, comment, content).subrange(
            earlier.start,
            earlier.start + earlier.length,
        ) == html.subrange(earlier.start, earlier.start + earlier.length),
{
    let after = put_in_place(html, comment, content);
    assert(after.take(comment.start) =~= html.take(comment.start));
    assert(after.skip(comment.start + content.len()) =~= html.skip(comment.start + comment.length));
    assert(after.subrange(earlier.start, earlier.start + earlier.length) =~= html.subrange(
        earlier.start,
        earlier.start + earlier.length,
    ));
}

/// The step that waits for the page at `path`.
pub open spec fn page_wanted(path: Seq<char>) -> StepView {
    StepView::Read(PendingView { path, purpose: PurposeView::Page })
}

/// A page whose include comments lie apart, and whose files can all be read, is answered
/// with each comment replaced by what its file holds and all else as it was. Each file finds
/// its place in the page.
pub proof fn law_page_expanded(
    path: Seq<char>,
    page: Seq<u8>,
    root: Seq<char>,
    files: spec_fn(Seq<char>) -> FileView,
)
    requires
        files(path) == FileView::Contents(page),
        all_closed(page),
        all_text(page),
        apart(page_includes(page), page.len() as int),
        forall|i: int|
            0 <= i < page_includes(page).len() ==> readable(
                #[trigger] page_includes(page)[i],
                root,
                files,
            ),
    ensures
        answer(page_wanted(path), root, files) == (ResponseView {
            status: OK,
            body: expanded(page, page.len() as int, page_includes(page), root, files),
        }),
        all_places_found(page_wanted(path), root, files),
{
    let comments = page_includes(page);
    let none = Seq::<u8>::empty();
    assert(page.take(page.len() as int) + none =~= page);
    lemma_insertion(page, page.len() as int, none, comments, root, files);
    assert(expanded(page, page.len() as int, comments, root, files) + none =~= expanded(
        page,
        page.len() as int,
        comments,
        root,
        files,
    ));
    reveal_with_fuel(answer, 2);
    reveal_with_fuel(all_places_found, 2);
}

/// A page in which no include comment opens is answered as it is.
pub proof fn law_plain_page_unchanged(
    path: Seq<char>,
    page: Seq<u8>,
    root: Seq<char>,
    files: spec_fn(Seq<char>) -> FileView,
)
    requires
        files(path) == FileView::Contents(page),
        forall|at: int| !#[trigger] opens_at(page, at),
    ensures
        answer(page_wanted(path), root, files) == (ResponseView { status: OK, body: page }),
{
    lemma_includes_before(page, page.len() as int);
    if page_includes(page).len() > 0 {
        assert(opens_at(page, page_includes(page)[0].start));
    }
    assert(page.take(page.len() as int) =~= page);
    law_page_expanded(path, page, root, files);
}

/// From an insertion on, the first comment whose file cannot be read decides the answer.
proof fn lemma_unreadable_include(
    html: Seq<u8>,
    comments: Seq<IncludeView>,
    k: int,
    root: Seq<char>,
    files: spec_fn(Seq<char>) -> FileView,
)
    requires
        0 <= k < comments.len(),
        forall|i: int| 0 <= i < k ==> readable(#[trigger] comments[i], root, files),
        !readable(comments[k], root, files),
    ensures
        answer(insertion_step(root, html, comments), root, files) == match files(
            root + comments[k].file,
        ) {
            FileView::NotOpened => missing_file_response(root + comments[k].file),
            _ => unread_response(
                PurposeView::Include { html, left: comments },
                Seq::empty(),
            ),
        },
    decreases k,
{
    reveal_with_fuel(answer, 2);
    if k > 0 {
        assert(readable(comments[0], root, files));
        let content = content_of(comments[0], root, files);
        let rest = comments.drop_first();
        assert forall|i: int| 0 <= i < k - 1 implies readable(#[trigger] rest[i], root, files) by {
            assert(readable(comments[i + 1], root, files));
        }
        assert(rest[k - 1] == comments[k]);
        lemma_unreadable_include(put_in_place(html, comments[0], content), rest, k - 1, root, files);
    }
}

/// A page with an include comment whose file cannot be read is not sent: the answer names
/// the file of the last such comment where it could not be opened, and tells of an error
/// where it was opened and could not be read.
pub proof fn law_unreadable_include_reported(
    path: Seq<char>,
    page: Seq<u8>,
    k: int,
    root: Seq<char>,
    files: spec_fn(Seq<char>) -> FileView,
)
    requires
        files(path) == FileView::Contents(page),
        all_closed(page),
        all_text(page),
        all_places_found(page_wanted(path), root, files),
        0 <= k < page_includes(page).len(),
        forall|i: int|
            0 <= i < k ==> readable(#[trigger] page_includes(page)[i], root, files),
        !readable(page_includes(page)[k], root, files),
    ensures
        answer(page_wanted(path), root, files) == match files(root + page_includes(page)[k].file) {
            FileView::NotOpened => missing_file_response(root + page_includes(page)[k].file),
            _ => message_response(
                INTERNAL_SERVER_ERROR,
                "Error when reading contents of external file."@,
            ),
        },
{
    reveal_with_fuel(answer, 2);
    lemma_unreadable_include(page, page_includes(page), k, root, files);
}

/// A request whose sender is not allowed to make it is refused, whatever it asks for, and
/// no file is read for it.
pub proof fn law_refused_request(
    method: Seq<char>,
    path: Seq<char>,
    uri: Seq<char>,
    root: Seq<char>,
    full_server: bool,
    files: spec_fn(Seq<char>) -> FileView,
)
    ensures
        first_step(method, path, uri, false, root, full_server) == StepView::Respond(
            message_response(FORBIDDEN, "Not authorized"@),
        ),
        answer(first_step(method, path, uri, false, root, full_server), root, files)
            == message_response(FORBIDDEN, "Not authorized"@),
{
}

/// A request that is not refused at once is not refused later.
proof fn lemma_not_refused_later(
    step: StepView,
    root: Seq<char>,
    files: spec_fn(Seq<char>) -> FileView,
)
    requires
        well_formed(step),
        step matches StepView::Respond(response) ==> response.status != FORBIDDEN,
    ensures
        answer(step, root, files).status != FORBIDDEN,
    decreases pages_left(step), includes_left(step),
{
    if let StepView::Read(pending) = step {
        lemma_not_refused_later(next_step(pending, root, files(pending.path)), root, files);
    }
}

/// A request is refused exactly where its path needs flags and the check of its sender's
/// flags failed. So a path that needs none is never refused, whatever the check says.
pub proof fn law_only_the_check_refuses(
    method: Seq<char>,
    path: Seq<char>,
    uri: Seq<char>,
    checked: Result<(), ()>,
    root: Seq<char>,
    full_server: bool,
    files: spec_fn(Seq<char>) -> FileView,
)
    ensures
        answer(
            first_step(method, path, uri, authorization_for(path, checked) is Ok, root, full_server),
            root,
            files,
        ).status == FORBIDDEN <==> flags_for(path) is Some && checked is Err,
{
    let allowed = authorization_for(path, checked) is Ok;
    if allowed {
        lemma_not_refused_later(
            first_step(method, path, uri, allowed, root, full_server),
            root,
            files,
        );
    }
}

/// Asking for the login page gives what its file holds, on every server, include comments
/// and all.
pub proof fn law_login_page_served(
    uri: Seq<char>,
    root: Seq<char>,
    full_server: bool,
    files: spec_fn(Seq<char>) -> FileView,
    page: Seq<u8>,
)
    requires
        files(root + "/login.html"@) == FileView::Contents(page),
    ensures
        answer(first_step("GET"@, "/login"@, uri, true, root, full_server), root, files) == (
        ResponseView { status: OK, body: page }),
{
    reveal_with_fuel(answer, 2);
}

/// A request by any method but GET is answered that there is no such page, whatever it asks
/// for, and no file is read for it.
pub proof fn law_only_get_is_served(
    method: Seq<char>,
    path: Seq<char>,
    uri: Seq<char>,
    root: Seq<char>,
    full_server: bool,
)
    requires
        method != "GET"@,
    ensures
        first_step(method, path, uri, true, root, full_server) == StepView::Respond(
            message_response(
                NOT_FOUND,
                "404\nThis URL was not found on this server"@,
            ),
        ),
{
}

/// An include comment as it is written in a page.
pub open spec fn written_include(file: Seq<u8>) -> Seq<u8> {
    include_prefix() + file + encode_utf8("\"-->"@)
}

/// A page with one include comment comes back with what the comment's file holds exactly
/// where the comment was written, between what stood in front of it and what stood behind.
pub proof fn law_comment_replaced(
    path: Seq<char>,
    before: Seq<u8>,
    file: Seq<u8>,
    after: Seq<u8>,
    content: Seq<u8>,
    root: Seq<char>,
    files: spec_fn(Seq<char>) -> FileView,
)
    requires
        valid_utf8(file),
        !file.contains(QUOTE),
        forall|at: int|
            #[trigger] opens_at(before + written_include(file) + after, at) ==> at == before.len(),
        files(path) == FileView::Contents(before + written_include(file) + after),
        files(root + decode_utf8(file)) == FileView::Contents(content),
    ensures
        answer(page_wanted(path), root, files) == (ResponseView {
            status: OK,
            body: before + content + after,
        }),
{
    let page = before + written_include(file) + after;
    let at = before.len() as int;
    let name = at + include_prefix().len();
    let behind = name + file.len();
    reveal_strlit("\"-->");
    vstd::utf8::is_ascii_chars_encode_utf8("\"-->"@);
    assert(encode_utf8("\"-->"@).len() == CLOSING_LENGTH);
    assert(encode_utf8("\"-->"@)[0] == QUOTE);
    lemma_prefix_length();
    assert(page.subrange(at, name) =~= include_prefix());
    assert(opens_at(page, at));
    assert(page.subrange(name, behind) =~= file);
    assert forall|i: int| name <= i < behind implies page[i] != QUOTE by {
        assert(page[i] == file[i - name]);
    }
    lemma_next_quote(page, name, behind);
    assert(path_end(page, at) == behind);
    assert(path_bytes(page, at) == file);
    let comments = page_includes(page);
    let comment = include_at(page, at);
    lemma_includes_before(page, page.len() as int);
    assert(comments.contains(comment));
    assert(comments.len() == 1 && comments[0] == comment) by {
        let i = choose|i: int| 0 <= i < comments.len() && comments[i] == comment;
        assert(opens_at(page, comments[0].start));
        if comments.len() > 1 {
            assert(opens_at(page, comments[1].start));
            assert(comments[1].start < comments[0].start);
        }
    }
    law_page_expanded(path, page, root, files);
    reveal_with_fuel(expanded, 2);
    assert(page.take(at) =~= before);
    assert(page.subrange(at + comment.length, page.len() as int) =~= after);
}

/// The comment that opens at `at` is written out whole, from its beginning to its `-->`, and
/// its path does not end with the beginning of a comment up to the quote. Where a path ends
/// so, the quote behind it would open another comment.
pub open spec fn whole_at(page: Seq<u8>, at: int) -> bool {
    let comment = include_at(page, at);
    &&& at + comment.length <= page.len()
    &&& page.subrange(at, at + comment.length) == written_include(path_bytes(page, at))
    &&& !include_prefix().drop_last().is_suffix_of(path_bytes(page, at))
}

/// Every include comment of the page is written out whole.
pub open spec fn all_whole(page: Seq<u8>) -> bool {
    forall|at: int| #[trigger] opens_at(page, at) ==> whole_at(page, at)
}

/// The beginning of a comment has its first byte nowhere else and its only quote at its end,
/// and the closing has its only quote at its start and that first byte nowhere.
proof fn lemma_beginning_and_closing()
    ensures
        include_prefix().len() == 14,
        encode_utf8("\"-->"@).len() == CLOSING_LENGTH,
        include_prefix()[13] == QUOTE,
        encode_utf8("\"-->"@)[0] == QUOTE,
        forall|i: int| 0 < i < 14 ==> #[trigger] include_prefix()[i] != include_prefix()[0],
        forall|i: int| 0 <= i < 13 ==> #[trigger] include_prefix()[i] != QUOTE,
        forall|i: int|
            0 <= i < CLOSING_LENGTH ==> #[trigger] encode_utf8("\"-->"@)[i] != include_prefix()[0],
{
    reveal_strlit("<!--#include \"");
    reveal_strlit("\"-->");
    vstd::utf8::is_ascii_chars_encode_utf8("<!--#include \""@);
    vstd::utf8::is_ascii_chars_encode_utf8("\"-->"@);
}

/// `next_quote` neither goes back nor leaves the page, stops at a quote unless it is at the
/// page's end, and passes over no quote.
pub(crate) proof fn lemma_next_quote_in_page(page: Seq<u8>, from: int)
    requires
        0 <= from <= page.len(),
    ensures
        from <= next_quote(page, from) <= page.len(),
        next_quote(page, from) < page.len() ==> page[next_quote(page, from)] == QUOTE,
        forall|i: int| from <= i < next_quote(page, from) ==> page[i] != QUOTE,
    decreases page.len() - from,
{
    if from < page.len() && page[from] != QUOTE {
        lemma_next_quote_in_page(page, from + 1);
    }
}

/// A comment that is written out whole has its bytes in the page one by one: its beginning,
/// its path, and its closing from the quote on.
proof fn lemma_bytes_of_whole_comment(page: Seq<u8>, at: int, i: int)
    requires
        opens_at(page, at),
        whole_at(page, at),
        at <= i < at + include_at(page, at).length,
    ensures
        i < at + 14 ==> page[i] == include_prefix()[i - at],
        at + 14 <= i < path_end(page, at) ==> page[i] != QUOTE,
        path_end(page, at) <= i ==> page[i] == encode_utf8("\"-->"@)[i - path_end(page, at)],
        path_end(page, at) == at + 14 + path_bytes(page, at).len(),
        at + include_at(page, at).length == path_end(page, at) + 4,
{
    let written = written_include(path_bytes(page, at));
    let end = at + include_at(page, at).length;
    lemma_beginning_and_closing();
    lemma_next_quote_in_page(page, at + 14);
    assert(page.subrange(at, end)[i - at] == page[i]);
    assert(page[i] == written[i - at]);
}

/// No include comment opens inside another that is written out whole.
proof fn lemma_none_opens_inside(page: Seq<u8>, at: int, later: int)
    requires
        opens_at(page, at),
        whole_at(page, at),
        at < later,
        opens_at(page, later),
    ensures
        at + include_at(page, at).length <= later,
{
    let prefix = include_prefix();
    let file = path_bytes(page, at);
    let end = at + include_at(page, at).length;
    let behind = path_end(page, at);
    let last = later + 13;
    lemma_beginning_and_closing();
    lemma_next_quote_in_page(page, at + 14);
    let opening = page.subrange(later, later + 14);
    assert(opening[0] == page[later] && opening[13] == page[last]);
    if later < end {
        lemma_bytes_of_whole_comment(page, at, later);
        lemma_bytes_of_whole_comment(page, at, behind);
        if later < at + 14 {
            assert(page[later] == prefix[later - at]);
        } else if later >= behind {
            assert(page[later] == encode_utf8("\"-->"@)[later - behind]);
        } else if last > behind {
            assert(opening[behind - later] == page[behind]);
        } else if last < behind {
            lemma_bytes_of_whole_comment(page, at, last);
        } else {
            assert(opening.drop_last() =~= file.subrange(file.len() - 13, file.len() as int));
            assert(prefix.drop_last().is_suffix_of(file));
        }
    }
}

/// Include comments that are written out whole, and whose paths do not end with the beginning
/// of a comment, are closed and lie apart.
pub proof fn law_whole_comments_lie_apart(page: Seq<u8>)
    requires
        all_whole(page),
    ensures
        all_closed(page),
        apart(page_includes(page), page.len() as int),
{
    let comments = page_includes(page);
    assert forall|at: int| #[trigger] opens_at(page, at) implies path_end(page, at)
        < page.len() by {
        assert(whole_at(page, at));
        lemma_next_quote_in_page(page, at + include_prefix().len());
    }
    lemma_includes_before(page, page.len() as int);
    assert forall|i: int| 0 <= i < comments.len() implies 0 <= (#[trigger] comments[i]).start && 0
        <= comments[i].length && comments[i].start + comments[i].length <= page.len() by {
        assert(opens_at(page, comments[i].start));
        assert(whole_at(page, comments[i].start));
    }
    assert forall|i: int, j: int| 0 <= i < j < comments.len() implies (
    #[trigger] comments[j]).start + comments[j].length <= (#[trigger] comments[i]).start by {
        assert(opens_at(page, comments[i].start));
        assert(opens_at(page, comments[j].start));
        lemma_none_opens_inside(page, comments[j].start, comments[i].start);
    }
}

/// A page whose include comments are all written out whole, with no path that ends with the
/// beginning of a comment, and whose files can all be read, is answered with each comment
/// replaced by what its file holds and all else as it was.
pub proof fn law_whole_comments_replaced(
    path: Seq<char>,
    page: Seq<u8>,
    root: Seq<char>,
    files: spec_fn(Seq<char>) -> FileView,
)
    requires
        files(path) == FileView::Contents(page),
        all_whole(page),
        all_text(page),
        forall|i: int|
            0 <= i < page_includes(page).len() ==> readable(
                #[trigger] page_includes(page)[i],
                root,
                files,
            ),
    ensures
        answer(page_wanted(path), root, files) == (ResponseView {
            status: OK,
            body: expanded(page, page.len() as int, page_includes(page), root, files),
        }),
        all_places_found(page_wanted(path), root, files),
{
    law_whole_comments_lie_apart(page);
    law_page_expanded(path, page, root, files);
}

/// Every file that is read for a request has a path that begins with the root.
pub proof fn law_paths_begin_with_root(
    method: Seq<char>,
    path: Seq<char>,
    uri: Seq<char>,
    allowed: bool,
    root: Seq<char>,
    full_server: bool,
    pending: PendingView,
    outcome: FileView,
)
    ensures
        first_step(method, path, uri, allowed, root, full_server) matches StepView::Read(first)
            ==> root.is_prefix_of(first.path),
        next_step(pending, root, outcome) matches StepView::Read(next) ==> root.is_prefix_of(
            next.path,
        ),
{
    if let StepView::Read(first) = first_step(method, path, uri, allowed, root, full_server) {
        assert(first.path.take(root.len() as int) =~= root);
    }
    if let StepView::Read(next) = next_step(pending, root, outcome) {
        assert(next.path.take(root.len() as int) =~= root);
    }
}

/// How many files are read from `step` on.
pub open spec fn reads(
    step: StepView,
    root: Seq<char>,
    files: spec_fn(Seq<char>) -> FileView,
) -> nat
    decreases pages_left(step), includes_left(step),
    when well_formed(step)
{
    match step {
        StepView::Respond(_) => 0,
        StepView::Read(pending) => 1 + reads(
            next_step(pending, root, files(pending.path)),
            root,
            files,
        ),
    }
}

/// An insertion reads no more files than there are comments left.
proof fn lemma_reads_of_insertion(
    html: Seq<u8>,
    comments: Seq<IncludeView>,
    root: Seq<char>,
    files: spec_fn(Seq<char>) -> FileView,
)
    ensures
        reads(insertion_step(root, html, comments), root, files) <= comments.len(),
    decreases comments.len(),
{
    reveal_with_fuel(reads, 2);
    if comments.len() > 0 {
        if let FileView::Contents(content) = files(root + comments[0].file) {
            lemma_reads_of_insertion(
                put_in_place(html, comments[0], content),
                comments.drop_first(),
                root,
                files,
            );
        }
    }
}

/// For a page, one file is read, and at most one more for each of its include comments:
/// what an included file holds is never searched for comments.
pub proof fn law_reads_bounded(
    path: Seq<char>,
    page: Seq<u8>,
    root: Seq<char>,
    files: spec_fn(Seq<char>) -> FileView,
)
    requires
        files(path) == FileView::Contents(page),
    ensures
        1 <= reads(page_wanted(path), root, files) <= 1 + page_includes(page).len(),
{
    reveal_with_fuel(reads, 2);
    lemma_reads_of_insertion(page, page_includes(page), root, files);
}

} // verus!
