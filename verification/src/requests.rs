//! Answering a request, one file at a time.

use vstd::prelude::*;

use crate::auth::{authorize, check_authorization, permitted, required_flags};
use crate::includes::{
    all_closed, all_text, fits, get_html_includes, include_fits, include_views, page_includes,
    put_in_place, put_include, HtmlIncludeComment, IncludeView,
};
use crate::response::{
    build_response, bytes_from_static, bytes_from_string, bytes_from_vec, file_open,
    gen_response, message_response, missing_file_response, new_response, FileOutcome, Response,
    ResponseView, FORBIDDEN, INTERNAL_SERVER_ERROR, NOT_FOUND, OK,
};
use crate::text::{contains_char, ends_with, equals, join};

verus! {

/// What a request asks for.
#[derive(Debug)]
pub struct Request {
    /// The method's name.
    pub method: String,
    /// The path of the URI, without the query.
    pub path: String,
    /// The whole URI as it is written.
    pub uri: String,
}

/// A page whose include comments are being replaced, the last one first.
#[derive(Debug)]
pub struct Insertion {
    /// The page as it is so far.
    pub html: Vec<u8>,
    /// The page's include comments, the last one first.
    pub include_files: Vec<HtmlIncludeComment>,
    /// How many of the comments have been replaced.
    pub next: usize,
}

impl Insertion {
    /// There is a comment left to replace.
    pub open spec fn wf(&self) -> bool {
        self.next < self.include_files@.len()
    }

    /// The comments that are left to replace.
    pub open spec fn left(&self) -> Seq<IncludeView> {
        include_views(self.include_files@).skip(self.next as int)
    }
}

/// What a file is wanted for.
#[derive(Debug)]
pub enum Purpose {
    /// It is the login page.
    Login,
    /// It is the page that was asked for.
    Page,
    /// It goes in the place of the next include comment.
    Include(Insertion),
}

/// A request that waits for a file.
#[derive(Debug)]
pub struct Pending {
    /// The file's path.
    pub path: String,
    /// What the file is wanted for.
    pub purpose: Purpose,
}

/// What to do next for a request.
#[derive(Debug)]
pub enum Step {
    /// Read a file, and go on with what came of it.
    Read(Pending),
    /// Send the response.
    Respond(Response),
}

/// What became of reading a file, with characters and bytes as sequences.
pub enum FileView {
    NotOpened,
    NotRead(Seq<char>),
    Contents(Seq<u8>),
}

impl View for FileOutcome {
    type V = FileView;

    open spec fn view(&self) -> FileView {
        match *self {
            FileOutcome::NotOpened => FileView::NotOpened,
            FileOutcome::NotRead(reason) => FileView::NotRead(reason@),
            FileOutcome::Contents(content) => FileView::Contents(content@),
        }
    }
}

/// What a file is wanted for, with the page so far and the comments that are left.
pub enum PurposeView {
    Login,
    Page,
    Include { html: Seq<u8>, left: Seq<IncludeView> },
}

/// A request that waits for a file.
pub struct PendingView {
    pub path: Seq<char>,
    pub purpose: PurposeView,
}

/// What to do next for a request.
pub enum StepView {
    Read(PendingView),
    Respond(ResponseView),
}

impl View for Purpose {
    type V = PurposeView;

    open spec fn view(&self) -> PurposeView {
        match *self {
            Purpose::Login => PurposeView::Login,
            Purpose::Page => PurposeView::Page,
            Purpose::Include(insertion) => PurposeView::Include {
                html: insertion.html@,
                left: insertion.left(),
            },
        }
    }
}

impl View for Pending {
    type V = PendingView;

    open spec fn view(&self) -> PendingView {
        PendingView { path: self.path@, purpose: self.purpose@ }
    }
}

impl View for Step {
    type V = StepView;

    open spec fn view(&self) -> StepView {
        match *self {
            Step::Read(pending) => StepView::Read(pending@),
            Step::Respond(response) => StepView::Respond(response@),
        }
    }
}

impl Pending {
    /// Where include comments are being replaced, one is left.
    pub open spec fn wf(&self) -> bool {
        self.purpose matches Purpose::Include(insertion) ==> insertion.wf()
    }
}

impl Step {
    /// Where a file is to be read, the request that waits for it is well formed.
    pub open spec fn wf(&self) -> bool {
        self matches Step::Read(pending) ==> pending.wf()
    }
}

/// The file that answers a request for `path`, written `uri`: the root's own page for `/`,
/// the file itself where the path has a dot, and else the page of the directory.
pub open spec fn content_path(root: Seq<char>, path: Seq<char>, uri: Seq<char>) -> Seq<char> {
    if path == "/"@ {
        root + "/index.html"@
    } else if path.contains('.') {
        root + uri
    } else if "/"@.is_suffix_of(path) {
        root + uri + "index.html"@
    } else {
        root + uri + "/index.html"@
    }
}

/// The next step for a page with the comments `left` to replace: the next comment's file,
/// and where no comment is left, the page itself.
pub open spec fn insertion_step(root: Seq<char>, html: Seq<u8>, left: Seq<IncludeView>) -> StepView {
    if left.len() == 0 {
        StepView::Respond(ResponseView { status: OK, body: html })
    } else {
        StepView::Read(
            PendingView {
                path: root + left[0].file,
                purpose: PurposeView::Include { html, left },
            },
        )
    }
}

/// The next step once the page that was asked for is there.
pub open spec fn page_step(root: Seq<char>, page: Seq<u8>) -> StepView {
    if !all_closed(page) {
        StepView::Respond(
            message_response(
                INTERNAL_SERVER_ERROR,
                "Somebody didn't format the HTML include comment correctly"@,
            ),
        )
    } else if !all_text(page) {
        StepView::Respond(
            message_response(INTERNAL_SERVER_ERROR, "Invalid utf-8 in HTML include comment"@),
        )
    } else {
        insertion_step(root, page, page_includes(page))
    }
}

/// What is answered where a file was opened and could not be read.
pub open spec fn unread_response(purpose: PurposeView, reason: Seq<char>) -> ResponseView {
    message_response(
        INTERNAL_SERVER_ERROR,
        match purpose {
            PurposeView::Login => "Could not read file. Reason: "@ + reason,
            PurposeView::Page => "COul"@,
            PurposeView::Include { .. } => "Error when reading contents of external file."@,
        },
    )
}

/// The next step once it is known what became of reading the file that `pending` waits for.
pub open spec fn next_step(pending: PendingView, root: Seq<char>, outcome: FileView) -> StepView {
    match outcome {
        FileView::NotOpened => StepView::Respond(missing_file_response(pending.path)),
        FileView::NotRead(reason) => StepView::Respond(unread_response(pending.purpose, reason)),
        FileView::Contents(content) => match pending.purpose {
            PurposeView::Login => StepView::Respond(ResponseView { status: OK, body: content }),
            PurposeView::Page => page_step(root, content),
            PurposeView::Include { html, left } => insertion_step(
                root,
                put_in_place(html, left[0], content),
                left.drop_first(),
            ),
        },
    }
}

/// The first step for a request, whether or not its sender is allowed to make it.
pub open spec fn first_step(
    method: Seq<char>,
    path: Seq<char>,
    uri: Seq<char>,
    allowed: bool,
    root: Seq<char>,
    full_server: bool,
) -> StepView {
    if !allowed {
        StepView::Respond(message_response(FORBIDDEN, "Not authorized"@))
    } else if method == "GET"@ && path == "/login"@ {
        StepView::Read(PendingView { path: root + "/login.html"@, purpose: PurposeView::Login })
    } else if method == "GET"@ && full_server {
        StepView::Read(
            PendingView { path: content_path(root, path, uri), purpose: PurposeView::Page },
        )
    } else {
        StepView::Respond(
            message_response(NOT_FOUND, "404\nThis URL was not found on this server"@),
        )
    }
}

/// Asks for the login page.
pub fn get_login(root_dir: &str) -> (pending: Pending)
    ensures
        pending@ == (PendingView { path: root_dir@ + "/login.html"@, purpose: PurposeView::Login }),
        pending.wf(),
{
    Pending { path: join(root_dir, "/login.html"), purpose: Purpose::Login }
}

/// Asks for the page that a request is for.
pub fn fetch_content(request: &Request, root: &str) -> (pending: Pending)
    ensures
        pending@ == (PendingView {
            path: content_path(root@, request.path@, request.uri@),
            purpose: PurposeView::Page,
        }),
        pending.wf(),
{
    let path = request.path.as_str();
    let located = join(root, request.uri.as_str());
    let file = if equals(path, "/") {
        join(root, "/index.html")
    } else if contains_char(path, '.') {
        located
    } else if ends_with(path, "/") {
        join(located.as_str(), "index.html")
    } else {
        join(located.as_str(), "/index.html")
    };
    Pending { path: file, purpose: Purpose::Page }
}

/// The response that carries a generated page, or tells why it could not be generated.
pub fn page_response(built: Result<Response, String>) -> (response: Response)
    ensures
        match built {
            Ok(page) => response == page,
            Err(reason) => response@ == message_response(
                INTERNAL_SERVER_ERROR,
                "Could not generate response. Reason: "@ + reason@,
            ),
        },
{
    match built {
        Ok(page) => page,
        Err(reason) => {
            let message = join("Could not generate response. Reason: ", reason.as_str());
            gen_response(INTERNAL_SERVER_ERROR, bytes_from_string(message))
        },
    }
}

/// Asks for the file of the next include comment, and answers with the page where every
/// comment has been replaced.
pub fn insert_html_includes(
    root: &str,
    html: Vec<u8>,
    include_files: Vec<HtmlIncludeComment>,
    next: usize,
) -> (step: Step)
    requires
        next <= include_files@.len(),
    ensures
        step@ == insertion_step(root@, html@, include_views(include_files@).skip(next as int)),
        step.wf(),
{
    let ghost left = include_views(include_files@).skip(next as int);
    if next < include_files.len() {
        let path = join(root, include_files[next].include_file.as_str());
        assert(left[0] == include_files@[next as int]@);
        Step::Read(
            Pending { path, purpose: Purpose::Include(Insertion { html, include_files, next }) },
        )
    } else {
        Step::Respond(page_response(build_response(OK, bytes_from_vec(html))))
    }
}

impl Pending {
    /// The request can go on from `outcome`: where a file goes in the place of an include
    /// comment, that place lies in the page.
    pub open spec fn accepts(&self, outcome: &FileOutcome) -> bool {
        &&& outcome matches FileOutcome::Contents(content) ==> content@.len() <= isize::MAX
        &&& self.purpose matches Purpose::Include(insertion) ==> outcome is Contents ==> fits(
            insertion.html@,
            insertion.left()[0],
        )
    }

    /// Whether the request can go on from `outcome`.
    pub fn can_resume(&self, outcome: &FileOutcome) -> (able: bool)
        requires
            self.wf(),
        ensures
            able == self.accepts(outcome),
    {
        match outcome {
            FileOutcome::Contents(content) => content.len() <= isize::MAX as usize
                && match &self.purpose {
                Purpose::Include(insertion) => include_fits(
                    insertion.html.as_slice(),
                    &insertion.include_files[insertion.next],
                ),
                _ => true,
            },
            _ => true,
        }
    }

    /// Goes on with what became of reading the file.
    pub fn resume(self, root: &str, outcome: FileOutcome) -> (step: Step)
        requires
            self.wf(),
            self.accepts(&outcome),
        ensures
            step@ == next_step(self@, root@, outcome@),
            step.wf(),
    {
        let opened: Option<Result<Vec<u8>, String>> = match outcome {
            FileOutcome::NotOpened => None,
            FileOutcome::NotRead(reason) => Some(Err(reason)),
            FileOutcome::Contents(content) => Some(Ok(content)),
        };
        match file_open(self.path.as_str(), opened) {
            Err(response) => Step::Respond(response),
            Ok(Err(reason)) => Step::Respond(unread(&self.purpose, reason.as_str())),
            Ok(Ok(content)) => match self.purpose {
                Purpose::Login => Step::Respond(new_response(bytes_from_vec(content))),
                Purpose::Page => {
                    match get_html_includes(content.as_slice()) {
                        Ok(include_files) => {
                            assert(include_views(include_files@).skip(0) =~= include_views(
                                include_files@,
                            ));
                            insert_html_includes(root, content, include_files, 0)
                        },
                        Err(response) => Step::Respond(response),
                    }
                },
                Purpose::Include(insertion) => {
                    let total: usize = insertion.include_files.len();
                    assert(insertion.next < total);
                    let html = put_include(
                        insertion.html.as_slice(),
                        &insertion.include_files[insertion.next],
                        content.as_slice(),
                    );
                    assert(insertion.left().drop_first() =~= include_views(
                        insertion.include_files@,
                    ).skip(insertion.next + 1));
                    insert_html_includes(
                        root,
                        html,
                        insertion.include_files,
                        insertion.next + 1,
                    )
                },
            },
        }
    }
}

/// The answer where a file was opened and could not be read.
fn unread(purpose: &Purpose, reason: &str) -> (response: Response)
    ensures
        response@ == unread_response(purpose@, reason@),
{
    match purpose {
        Purpose::Login => {
            let message = join("Could not read file. Reason: ", reason);
            gen_response(INTERNAL_SERVER_ERROR, bytes_from_string(message))
        },
        Purpose::Page => gen_response(INTERNAL_SERVER_ERROR, bytes_from_static("COul")),
        Purpose::Include(_) => build_response(
            INTERNAL_SERVER_ERROR,
            bytes_from_static("Error when reading contents of external file."),
        ).unwrap(),
    }
}

/// The first step for a request, given whether its sender is allowed to make it.
pub fn answer_request(
    request: &Request,
    authorization: Result<(), ()>,
    root: &str,
    full_server: bool,
) -> (step: Step)
    ensures
        step@ == first_step(
            request.method@,
            request.path@,
            request.uri@,
            authorization is Ok,
            root@,
            full_server,
        ),
        step.wf(),
{
    if authorization.is_err() {
        return Step::Respond(
            build_response(FORBIDDEN, bytes_from_static("Not authorized")).unwrap(),
        );
    }
    let get = equals(request.method.as_str(), "GET");
    if get && equals(request.path.as_str(), "/login") {
        Step::Read(get_login(root))
    } else if get && full_server {
        Step::Read(fetch_content(request, root))
    } else {
        Step::Respond(
            gen_response(
                NOT_FOUND,
                bytes_from_static("404\nThis URL was not found on this server"),
            ),
        )
    }
}

/// The first step for a request. Its sender has to hold the flags that its path needs, which
/// every sender does for now. A server that is not a full one has no pages but the login
/// page.
pub fn handle_request(request: &Request, root: &str, full_server: bool) -> (step: Step)
    ensures
        step@ == first_step(
            request.method@,
            request.path@,
            request.uri@,
            permitted(*request),
            root@,
            full_server,
        ),
        step@ == first_step(
            request.method@,
            request.path@,
            request.uri@,
            true,
            root@,
            full_server,
        ),
        step.wf(),
{
    let path = request.path.as_str();
    let checked = match required_flags(path) {
        Some(flags) => check_authorization(request, flags),
        None => Ok(()),
    };
    answer_request(request, authorize(path, checked), root, full_server)
}

} // verus!
