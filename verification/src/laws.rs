//! What callers can rely on, stated over bytes, characters and numbers.
//!
//! Each law speaks of what a function of the library gave back, or of how what two calls gave
//! back goes together: `call_ensures(f, arguments, result)` stands for a call of `f` that gave
//! `result`.

use bytes::Bytes;
use vstd::prelude::*;
use vstd::utf8::encode_utf8;

use crate::includes::{get_html_includes, include_views, put_in_place, HtmlIncludeComment};
use crate::requests::{
    answer_request, fetch_content, get_login, handle_request, insert_html_includes,
    page_response, Insertion, Pending, Purpose, Request, Step,
};
use crate::response::{bytes_content, file_open, gen_response, FileOutcome, Response};
use crate::text::lemma_last_part_is_name;

verus! {

// From a URL to a file.

/// The file for a path with a dot is the root followed by the whole URI: it begins with the
/// root, ends with the URI, and holds nothing else.
pub proof fn law_dotted_path_keeps_uri(request: &Request, root: &str, asked: Pending)
    requires
        call_ensures(fetch_content, (request, root), asked),
        request.path@ != "/"@,
        request.path@.contains('.'),
    ensures
        asked.path@.len() == root@.len() + request.uri@.len(),
        root@.is_prefix_of(asked.path@),
        request.uri@.is_suffix_of(asked.path@),
        asked.path@ == root@ + request.uri@,
        asked.purpose is Page,
{
    assert(asked.path@.take(root@.len() as int) =~= root@);
    assert(asked.path@.subrange(root@.len() as int, asked.path@.len() as int) =~= request.uri@);
}

/// Two requests with different URIs whose paths have a dot never ask for the same file.
pub proof fn law_different_uris_different_files(
    first: &Request,
    second: &Request,
    root: &str,
    asked_first: Pending,
    asked_second: Pending,
)
    requires
        call_ensures(fetch_content, (first, root), asked_first),
        call_ensures(fetch_content, (second, root), asked_second),
        first.path@ != "/"@,
        first.path@.contains('.'),
        second.path@ != "/"@,
        second.path@.contains('.'),
        first.uri@ != second.uri@,
    ensures
        asked_first.path@ != asked_second.path@,
{
    law_dotted_path_keeps_uri(first, root, asked_first);
    law_dotted_path_keeps_uri(second, root, asked_second);
    if asked_first.path@ == asked_second.path@ {
        assert(first.uri@ =~= asked_first.path@.skip(root@.len() as int));
        assert(second.uri@ =~= asked_second.path@.skip(root@.len() as int));
    }
}

/// The file for a path without a dot is the page of a directory: the root and the whole URI
/// stand in front, and exactly one slash is between the path and `index.html`.
pub proof fn law_directory_path_reads_its_page(request: &Request, root: &str, asked: Pending)
    requires
        call_ensures(fetch_content, (request, root), asked),
        request.path@ != "/"@,
        !request.path@.contains('.'),
    ensures
        (root@ + request.uri@).is_prefix_of(asked.path@),
        request.path@.len() > 0 && request.path@.last() == '/' ==> asked.path@ == root@
            + request.uri@ + "index.html"@,
        !(request.path@.len() > 0 && request.path@.last() == '/') ==> asked.path@ == root@
            + request.uri@ + "/index.html"@,
        asked.purpose is Page,
{
    reveal_strlit("/");
    let located = root@ + request.uri@;
    assert(asked.path@.take(located.len() as int) =~= located);
    let path = request.path@;
    if path.len() > 0 {
        assert(path.subrange(path.len() - 1, path.len() as int) =~= seq![path.last()]);
        assert("/"@ =~= seq!['/']);
        if "/"@.is_suffix_of(path) {
            assert(seq![path.last()][0] == seq!['/'][0]);
        }
    }
}

/// The file for the path `/` is the root's own page, whatever stands behind the path in the
/// URI.
pub proof fn law_root_path_reads_root_page(request: &Request, root: &str, asked: Pending)
    requires
        call_ensures(fetch_content, (request, root), asked),
        request.path@ == "/"@,
    ensures
        asked.path@ == root@ + "/index.html"@,
        asked.purpose is Page,
{
}

// From a request to its first step.

/// On a full server every allowed GET that is not for the login page reads a file for the
/// page that was asked for, the one that its URL maps to, whatever its path and its URI.
pub proof fn law_full_server_serves_every_get(
    request: &Request,
    root: &str,
    step: Step,
    asked: Pending,
)
    requires
        call_ensures(answer_request, (request, Ok(()), root, true), step),
        call_ensures(fetch_content, (request, root), asked),
        request.method@ == "GET"@,
        request.path@ != "/login"@,
    ensures
        step matches Step::Read(pending) && pending.path@ == asked.path@ && pending.purpose is Page,
{
}

/// On every server an allowed GET for the login page reads the file of the login page.
pub proof fn law_every_server_has_a_login_page(
    request: &Request,
    root: &str,
    full_server: bool,
    step: Step,
    asked: Pending,
)
    requires
        call_ensures(answer_request, (request, Ok(()), root, full_server), step),
        call_ensures(get_login, (root,), asked),
        request.method@ == "GET"@,
        request.path@ == "/login"@,
    ensures
        step matches Step::Read(pending) && pending.path@ == asked.path@ && pending.path@ == root@
            + "/login.html"@ && pending.purpose is Login,
        asked.purpose is Login,
{
    reveal_strlit("/login");
}

/// That there is no such URL is answered to an allowed request exactly where its method is
/// not GET, or the server is not a full one and the path is not that of the login page. Such
/// an answer is given at once.
pub proof fn law_no_such_url(request: &Request, root: &str, full_server: bool, step: Step)
    requires
        call_ensures(answer_request, (request, Ok(()), root, full_server), step),
    ensures
        step is Respond <==> request.method@ != "GET"@ || (!full_server && request.path@
            != "/login"@),
        step matches Step::Respond(response) ==> response.status == 404 && bytes_content(
            response.body,
        ) == encode_utf8("404\nThis URL was not found on this server"@),
{
}

/// A request that is not allowed is refused at once, whatever it asks for.
pub proof fn law_not_allowed_is_refused(
    request: &Request,
    root: &str,
    full_server: bool,
    step: Step,
)
    requires
        call_ensures(answer_request, (request, Err(()), root, full_server), step),
    ensures
        step matches Step::Respond(response) && response.status == 403 && bytes_content(
            response.body,
        ) == encode_utf8("Not authorized"@),
{
}

/// A request is handled as one that is allowed: it asks for the same file, for the same
/// purpose, or gets the same answer.
pub proof fn law_requests_are_handled_as_allowed(
    request: &Request,
    root: &str,
    full_server: bool,
    handled: Step,
    allowed: Step,
)
    requires
        call_ensures(handle_request, (request, root, full_server), handled),
        call_ensures(answer_request, (request, Ok(()), root, full_server), allowed),
    ensures
        handled matches Step::Read(pending) ==> allowed matches Step::Read(other) && pending.path@
            == other.path@ && (pending.purpose is Login <==> other.purpose is Login) && (
        pending.purpose is Page <==> other.purpose is Page),
        handled matches Step::Respond(response) ==> allowed matches Step::Respond(other)
            && response.status == other.status && bytes_content(response.body) == bytes_content(
            other.body,
        ),
{
}

// From a file to the next step.

/// A file that cannot be opened is answered 404, whatever it was wanted for and wherever it
/// lies: the answer is what follows the last slash of its path, and that it could not be
/// found.
pub proof fn law_unopened_file_is_not_found(
    pending: Pending,
    root: &str,
    step: Step,
    directory: Seq<char>,
    name: Seq<char>,
)
    requires
        call_ensures(Pending::resume, (pending, root, FileOutcome::NotOpened), step),
        !name.contains('/'),
        pending.path@ == directory + seq!['/'] + name || pending.path@ == name,
    ensures
        step matches Step::Respond(response) && response.status == 404 && bytes_content(
            response.body,
        ) == encode_utf8(name + " could not be found"@),
{
    lemma_last_part_is_name(pending.path@, '/', directory, name);
}

/// A file that was opened and could not be read is an error of the server, told by what the
/// file was wanted for. Of the login page the reason is told, to its end.
pub proof fn law_unread_file_is_an_error(
    pending: Pending,
    root: &str,
    reason: String,
    step: Step,
)
    requires
        call_ensures(Pending::resume, (pending, root, FileOutcome::NotRead(reason)), step),
    ensures
        step matches Step::Respond(response) && response.status == 500 && bytes_content(
            response.body,
        ) == encode_utf8(
            match pending.purpose {
                Purpose::Login => "Could not read file. Reason: "@ + reason@,
                Purpose::Page => "COul"@,
                Purpose::Include(_) => "Error when reading contents of external file."@,
            },
        ),
{
}

/// Success is answered only where the file that was waited for was read.
pub proof fn law_success_needs_the_file(
    pending: Pending,
    root: &str,
    outcome: FileOutcome,
    step: Step,
)
    requires
        call_ensures(Pending::resume, (pending, root, outcome), step),
        step matches Step::Respond(response) && response.status == 200,
    ensures
        outcome is Contents,
{
}

/// The login page is answered with all that its file holds and nothing else.
pub proof fn law_login_file_is_sent_whole(
    pending: Pending,
    root: &str,
    content: Vec<u8>,
    step: Step,
)
    requires
        call_ensures(Pending::resume, (pending, root, FileOutcome::Contents(content)), step),
        pending.purpose is Login,
    ensures
        step matches Step::Respond(response) && response.status == 200 && bytes_content(
            response.body,
        ) == content@,
{
}

/// `insertion` has the page `html` and the comments of `comments` from `from` on left.
pub open spec fn holds_the_rest(
    insertion: Insertion,
    html: Seq<u8>,
    comments: Seq<HtmlIncludeComment>,
    from: int,
) -> bool {
    &&& insertion.html@ == html
    &&& insertion.next <= insertion.include_files@.len()
    &&& insertion.include_files@.len() - insertion.next == comments.len() - from
    &&& forall|i: int|
        from <= i < comments.len() ==> {
            let kept = insertion.include_files@[insertion.next + i - from];
            &&& kept.start_index == (#[trigger] comments[i]).start_index
            &&& kept.length == comments[i].length
            &&& kept.include_file@ == comments[i].include_file@
        }
}

/// Comments with the same views from some place on are the same comments.
proof fn lemma_same_views(
    insertion: Insertion,
    html: Seq<u8>,
    comments: Seq<HtmlIncludeComment>,
    from: int,
)
    requires
        0 <= from <= comments.len(),
        insertion.wf(),
        insertion.html@ == html,
        insertion.left() == include_views(comments).skip(from),
    ensures
        holds_the_rest(insertion, html, comments, from),
{
    let left = insertion.left();
    let next = insertion.next as int;
    assert(left.len() == insertion.include_files@.len() - next);
    assert forall|i: int| from <= i < comments.len() implies {
        let kept = insertion.include_files@[next + i - from];
        &&& kept.start_index == (#[trigger] comments[i]).start_index
        &&& kept.length == comments[i].length
        &&& kept.include_file@ == comments[i].include_file@
    } by {
        assert(left[i - from] == insertion.include_files@[next + i - from]@);
        assert(left[i - from] == comments[i]@);
    }
}

/// A page is answered as the search for its include comments goes: with the search's answer
/// where it refuses the page; with the page as it is where it finds no comment; and else the
/// file of the first comment found is read, with the page unchanged and all comments left.
pub proof fn law_page_goes_as_its_comments(
    pending: Pending,
    root: &str,
    content: Vec<u8>,
    step: Step,
    page: &[u8],
    found: Result<Vec<HtmlIncludeComment>, Response>,
)
    requires
        call_ensures(Pending::resume, (pending, root, FileOutcome::Contents(content)), step),
        call_ensures(get_html_includes, (page,), found),
        pending.purpose is Page,
        page@ == content@,
    ensures
        match found {
            Err(refusal) => step matches Step::Respond(response) && response.status
                == refusal.status && bytes_content(response.body) == bytes_content(refusal.body),
            Ok(comments) => if comments@.len() == 0 {
                step matches Step::Respond(response) && response.status == 200 && bytes_content(
                    response.body,
                ) == content@
            } else {
                step matches Step::Read(next) && next.path@ == root@ + comments@[0].include_file@
                    && (next.purpose matches Purpose::Include(insertion) && holds_the_rest(
                    insertion,
                    content@,
                    comments@,
                    0,
                ))
            },
        },
{
    if let Ok(comments) = found {
        let views = include_views(comments@);
        assert(views.skip(0) =~= views);
        if comments@.len() > 0 {
            assert(views[0] == comments@[0]@);
            if let Step::Read(next) = step {
                if let Purpose::Include(insertion) = next.purpose {
                    lemma_same_views(insertion, content@, comments@, 0);
                }
            }
        }
    }
}

/// The file of an include comment goes where the comment stood, between what was in front of
/// it and what was behind. Then the file of the next comment is read, with the comments
/// behind that one left, and where there is none the page is answered.
pub proof fn law_included_file_takes_its_place(
    pending: Pending,
    insertion: Insertion,
    root: &str,
    content: Vec<u8>,
    step: Step,
    before: Seq<u8>,
    place: Seq<u8>,
    after: Seq<u8>,
)
    requires
        call_ensures(Pending::resume, (pending, root, FileOutcome::Contents(content)), step),
        pending.purpose == Purpose::Include(insertion),
        insertion.next < insertion.include_files@.len(),
        insertion.html@ == before + place + after,
        insertion.include_files@[insertion.next as int].start_index == before.len(),
        insertion.include_files@[insertion.next as int].length == place.len(),
    ensures
        if insertion.next + 1 == insertion.include_files@.len() {
            step matches Step::Respond(response) && response.status == 200 && bytes_content(
                response.body,
            ) == before + content@ + after
        } else {
            step matches Step::Read(next) && next.path@ == root@
                + insertion.include_files@[insertion.next + 1].include_file@ && (
            next.purpose matches Purpose::Include(later) && holds_the_rest(
                later,
                before + content@ + after,
                insertion.include_files@,
                insertion.next + 1,
            ))
        },
{
    let comments = insertion.include_files@;
    let views = include_views(comments);
    let left = insertion.left();
    let html = before + content@ + after;
    assert(left[0] == comments[insertion.next as int]@);
    assert(put_in_place(insertion.html@, left[0], content@) =~= html);
    assert(left.drop_first() =~= views.skip(insertion.next + 1));
    if insertion.next + 1 < comments.len() {
        assert(views.skip(insertion.next + 1)[0] == comments[insertion.next + 1]@);
        if let Step::Read(next) = step {
            if let Purpose::Include(later) = next.purpose {
                lemma_same_views(later, html, comments, insertion.next + 1);
            }
        }
    }
}

/// Where comments are left, the file of the next one is read and the page stays as it is;
/// where none is left, the page is answered.
pub proof fn law_next_comment_is_asked_for(
    root: &str,
    html: Vec<u8>,
    include_files: Vec<HtmlIncludeComment>,
    next: usize,
    step: Step,
)
    requires
        call_ensures(insert_html_includes, (root, html, include_files, next), step),
        next <= include_files@.len(),
    ensures
        if next == include_files@.len() {
            step matches Step::Respond(response) && response.status == 200 && bytes_content(
                response.body,
            ) == html@
        } else {
            step matches Step::Read(pending) && pending.path@ == root@
                + include_files@[next as int].include_file@ && (
            pending.purpose matches Purpose::Include(insertion) && holds_the_rest(
                insertion,
                html@,
                include_files@,
                next as int,
            ))
        },
{
    let left = include_views(include_files@).skip(next as int);
    if next < include_files@.len() {
        assert(left[0] == include_files@[next as int]@);
        if let Step::Read(pending) = step {
            if let Purpose::Include(insertion) = pending.purpose {
                lemma_same_views(insertion, html@, include_files@, next as int);
            }
        }
    }
}

/// A request that waits for a file can always go on where the file was not read. Where it
/// was read, the file has to fit in memory, and a comment that it is to replace has to lie in
/// the page; nothing else is asked.
pub proof fn law_when_a_request_can_go_on(pending: &Pending, outcome: &FileOutcome, able: bool)
    requires
        call_ensures(Pending::can_resume, (pending, outcome), able),
        pending.purpose matches Purpose::Include(insertion) ==> insertion.next
            < insertion.include_files@.len(),
    ensures
        able <==> match outcome {
            FileOutcome::Contents(content) => content@.len() <= isize::MAX && (
            pending.purpose matches Purpose::Include(insertion) ==> {
                let comment = insertion.include_files@[insertion.next as int];
                comment.start_index + comment.length <= insertion.html@.len()
            }),
            _ => true,
        },
{
    if let Purpose::Include(insertion) = pending.purpose {
        assert(insertion.left()[0] == insertion.include_files@[insertion.next as int]@);
    }
}

/// A request that says that it can go on may go on.
pub proof fn law_a_request_that_can_go_on_may(
    pending: Pending,
    root: &str,
    outcome: FileOutcome,
    able: bool,
)
    requires
        call_ensures(Pending::can_resume, (&pending, &outcome), able),
        pending.purpose matches Purpose::Include(insertion) ==> insertion.next
            < insertion.include_files@.len(),
        able,
    ensures
        call_requires(Pending::resume, (pending, root, outcome)),
{
}

/// Every step that waits for the file of an include comment has a comment left, so that it
/// may be asked whether it can go on.
pub proof fn law_waiting_requests_may_be_asked(
    request: &Request,
    root: &str,
    full_server: bool,
    first: Step,
    pending: Pending,
    outcome: FileOutcome,
    later: Step,
    any: FileOutcome,
)
    requires
        call_ensures(handle_request, (request, root, full_server), first),
        call_ensures(Pending::resume, (pending, root, outcome), later),
    ensures
        first matches Step::Read(waiting) ==> call_requires(
            Pending::can_resume,
            (&waiting, &any),
        ),
        later matches Step::Read(waiting) ==> call_requires(
            Pending::can_resume,
            (&waiting, &any),
        ),
{
}

/// A generated page is sent as it is, and the reason why there is none is told to its end.
pub proof fn law_generated_page_or_reason(built: Result<Response, String>, response: Response)
    requires
        call_ensures(page_response, (built,), response),
    ensures
        built matches Ok(page) ==> response == page,
        built matches Err(reason) ==> response.status == 500 && bytes_content(response.body)
            == encode_utf8("Could not generate response. Reason: "@ + reason@),
{
}

/// An opened file is handed on, and one that was not opened is answered 404 with the name
/// behind the last slash of its path.
pub proof fn law_opened_file_or_not_found<F>(
    filepath: &str,
    opened: Option<F>,
    file: Result<F, Response>,
    directory: Seq<char>,
    name: Seq<char>,
)
    requires
        call_ensures(file_open::<F>, (filepath, opened), file),
        !name.contains('/'),
        filepath@ == directory + seq!['/'] + name || filepath@ == name,
    ensures
        opened matches Some(handle) ==> file == Ok::<F, Response>(handle),
        opened is None ==> (file matches Err(response) && response.status == 404
            && bytes_content(response.body) == encode_utf8(name + " could not be found"@)),
{
    lemma_last_part_is_name(filepath@, '/', directory, name);
}

/// A simple response has the status and the bytes that it was made with.
pub proof fn law_simple_response(status_code: u16, message: Bytes, response: Response)
    requires
        call_ensures(gen_response, (status_code, message), response),
    ensures
        response.status == status_code,
        bytes_content(response.body) == bytes_content(message),
{
}

} // verus!
