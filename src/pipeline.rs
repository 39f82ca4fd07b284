use vstd::prelude::*;
use crate::answer::{connection_message, settle, settled, AnswerState, AnswerView, Reply, ReplyView};
use crate::form::{fresh_form, Backend, FormState, FormView, QueryDraft};
use crate::text::{all_space, lemma_trimmed_empty_iff_all_space, trim_text, trimmed};

verus! {

/// The longest query, in characters after trimming, that is sent.
pub const MAX_QUERY_CHARS: usize = 500;

/// Why a submission was refused before anything was sent.
#[derive(Clone, Copy, Debug, PartialEq, Eq, Structural)]
pub enum ValidationError {
    /// The query is empty once trimmed.
    EmptyQuery,
    /// The trimmed query has more than `MAX_QUERY_CHARS` characters.
    QueryTooLong,
}

impl ValidationError {
    /// The text shown under the form.
    pub open spec fn message_spec(self) -> Seq<char> {
        match self {
            ValidationError::EmptyQuery => "Please enter a query."@,
            ValidationError::QueryTooLong => "Query is too long (max 500 characters)."@,
        }
    }

    /// The text shown under the form, as `message_spec` gives it.
    pub fn message(&self) -> (r: String)
        ensures
            r@ == self.message_spec(),
    {
        match self {
            ValidationError::EmptyQuery => String::from_str("Please enter a query."),
            ValidationError::QueryTooLong => String::from_str(
                "Query is too long (max 500 characters).",
            ),
        }
    }
}

/// What a query text is refused for, if anything.
pub open spec fn validation(text: Seq<char>) -> Option<ValidationError> {
    if trimmed(text).len() == 0 {
        Some(ValidationError::EmptyQuery)
    } else if trimmed(text).len() > MAX_QUERY_CHARS {
        Some(ValidationError::QueryTooLong)
    } else {
        None
    }
}

/// The payload of one request to the answer service.
#[derive(Debug, PartialEq, Eq)]
pub struct OutboundRequest {
    pub query: String,
    pub top_k: u32,
    pub use_openai: bool,
}

/// `req` is the request built from a form in state `f`.
pub open spec fn request_for(f: FormView, req: &OutboundRequest) -> bool {
    &&& req.query@ == trimmed(f.text)
    &&& req.top_k == f.depth
    &&& req.use_openai == (f.backend == Backend::Remote)
}

/// Checks a query text and returns it trimmed.
pub fn validate(text: &str) -> (r: Result<String, ValidationError>)
    ensures
        match validation(text@) {
            Some(e) => r == Err::<String, ValidationError>(e),
            None => r is Ok && r->Ok_0@ == trimmed(text@),
        },
{
    let t = trim_text(text);
    let n = t.as_str().unicode_len();
    if n == 0 {
        Err(ValidationError::EmptyQuery)
    } else if n > MAX_QUERY_CHARS {
        Err(ValidationError::QueryTooLong)
    } else {
        Ok(t)
    }
}

/// Builds the request for a draft and a backend, or says why none is sent.
pub fn prepare(draft: &QueryDraft, backend: Backend) -> (r: Result<OutboundRequest, ValidationError>)
    ensures
        match validation(draft.text@) {
            Some(e) => r == Err::<OutboundRequest, ValidationError>(e),
            None => r is Ok && r->Ok_0.query@ == trimmed(draft.text@) && r->Ok_0.top_k
                == draft.retrieval_depth && r->Ok_0.use_openai == (backend == Backend::Remote),
        },
{
    match validate(draft.text.as_str()) {
        Ok(query) => Ok(
            OutboundRequest {
                query,
                top_k: draft.retrieval_depth,
                use_openai: backend.is_remote(),
            },
        ),
        Err(e) => Err(e),
    }
}

/// The whole page: the form and the answer area.
#[derive(Debug)]
pub struct Page {
    form: FormState,
    answer: AnswerState,
}

/// `Page` with its texts as character sequences.
pub struct PageView {
    pub form: FormView,
    pub answer: AnswerView,
}

impl View for Page {
    type V = PageView;

    closed spec fn view(&self) -> PageView {
        PageView { form: self.form@, answer: self.answer@ }
    }
}

/// What the answer area says before the first submission.
pub open spec fn placeholder() -> Seq<char> {
    "Your answer will appear here."@
}

impl PageView {
    /// The form is well formed.
    pub open spec fn wf(self) -> bool {
        self.form.wf()
    }

    /// The page after a submit action: a refused query shows its error and
    /// leaves the answer area alone; an accepted one clears the error and
    /// shows the loading state.
    pub open spec fn after_submit(self) -> PageView {
        match validation(self.form.text) {
            Some(e) => PageView { form: self.form.with_notice(Some(e)), answer: self.answer },
            None => PageView { form: self.form.with_notice(None), answer: AnswerView::Loading },
        }
    }

    /// The page once the reply `r` to some request has come back. The last
    /// reply to arrive decides what the answer area shows.
    pub open spec fn after_reply(self, r: ReplyView) -> PageView {
        PageView { form: self.form, answer: settled(r) }
    }

    /// The form replaced, the answer area kept.
    pub open spec fn with_form(self, f: FormView) -> PageView {
        PageView { form: f, answer: self.answer }
    }
}

impl Page {
    /// A fresh form and the placeholder in the answer area.
    pub fn new() -> (r: Page)
        ensures
            r@.wf(),
            r@.form == fresh_form(),
            r@.answer == AnswerView::Idle(placeholder()),
    {
        Page { form: FormState::new(), answer: AnswerState::Idle(String::from_str("Your answer will appear here.")) }
    }

    /// The form.
    pub fn form(&self) -> (r: &FormState)
        ensures
            r@ == self@.form,
    {
        &self.form
    }

    /// What the answer area shows.
    pub fn answer(&self) -> (r: &AnswerState)
        ensures
            r@ == self@.answer,
    {
        &self.answer
    }

    /// Replaces the query text and clears a shown validation error.
    pub fn set_query_text(&mut self, s: String)
        requires
            old(self)@.wf(),
        ensures
            final(self)@ == old(self)@.with_form(old(self)@.form.with_text(s@)),
            final(self)@.wf(),
    {
        self.form.set_query_text(s);
    }

    /// Takes `n` as the retrieval depth when it lies in range; ignores it
    /// otherwise.
    pub fn set_retrieval_depth(&mut self, n: u32)
        requires
            old(self)@.wf(),
        ensures
            final(self)@ == old(self)@.with_form(old(self)@.form.with_depth(n)),
            final(self)@.wf(),
    {
        self.form.set_retrieval_depth(n);
    }

    /// Selects the backend for the next submission; one in flight keeps its own.
    pub fn set_backend(&mut self, is_remote: bool)
        requires
            old(self)@.wf(),
        ensures
            final(self)@ == old(self)@.with_form(
                old(self)@.form.with_backend(
                    if is_remote {
                        Backend::Remote
                    } else {
                        Backend::Local
                    },
                ),
            ),
            final(self)@.wf(),
    {
        self.form.set_backend(is_remote);
    }

    /// Toggles the about panel; opening it closes contacts.
    pub fn toggle_about(&mut self)
        requires
            old(self)@.wf(),
        ensures
            final(self)@ == old(self)@.with_form(old(self)@.form.with_about_toggled()),
            final(self)@.wf(),
    {
        self.form.toggle_about();
    }

    /// Toggles the contacts panel; opening it closes about.
    pub fn toggle_contacts(&mut self)
        requires
            old(self)@.wf(),
        ensures
            final(self)@ == old(self)@.with_form(old(self)@.form.with_contacts_toggled()),
            final(self)@.wf(),
    {
        self.form.toggle_contacts();
    }

    /// Validates the current draft. On success the answer area shows the
    /// loading state and the request to send is returned; otherwise the
    /// validation error is shown and nothing is to be sent.
    pub fn submit(&mut self) -> (r: Result<OutboundRequest, ValidationError>)
        requires
            old(self)@.wf(),
        ensures
            final(self)@ == old(self)@.after_submit(),
            final(self)@.wf(),
            match validation(old(self)@.form.text) {
                Some(e) => r == Err::<OutboundRequest, ValidationError>(e),
                None => r is Ok && request_for(old(self)@.form, &r->Ok_0),
            },
    {
        let r = prepare(self.form.draft(), self.form.backend());
        match r {
            Ok(req) => {
                self.form.set_notice(None);
                self.answer = AnswerState::Loading;
                Ok(req)
            },
            Err(e) => {
                self.form.set_notice(Some(e));
                Err(e)
            },
        }
    }

    /// Shows the outcome of a dispatched request.
    pub fn receive(&mut self, reply: Reply)
        requires
            old(self)@.wf(),
        ensures
            final(self)@ == old(self)@.after_reply(reply@),
            final(self)@.wf(),
    {
        self.answer = settle(reply);
    }
}

/// A query that is empty or all white space is refused as empty: the
/// error is shown, the answer area keeps its state, and no request is built.
pub proof fn blank_query_is_refused(p: PageView)
    requires
        all_space(p.form.text),
    ensures
        validation(p.form.text) == Some(ValidationError::EmptyQuery),
        p.after_submit().form.notice == Some(ValidationError::EmptyQuery),
        p.after_submit().answer == p.answer,
{
    lemma_trimmed_empty_iff_all_space(p.form.text);
}

/// A query with more than `MAX_QUERY_CHARS` characters once trimmed is
/// refused as too long: the error is shown, the answer area keeps its
/// state, and no request is built.
pub proof fn long_query_is_refused(p: PageView)
    requires
        trimmed(p.form.text).len() > MAX_QUERY_CHARS,
    ensures
        validation(p.form.text) == Some(ValidationError::QueryTooLong),
        p.after_submit().form.notice == Some(ValidationError::QueryTooLong),
        p.after_submit().answer == p.answer,
{
}

/// An accepted submission shows the loading state, and whatever reply
/// comes back replaces it with a success or a failure.
pub proof fn submission_passes_through_loading(p: PageView, r: ReplyView)
    requires
        p.wf(),
        validation(p.form.text) is None,
    ensures
        p.after_submit().answer == AnswerView::Loading,
        p.after_submit().wf(),
        p.after_submit().after_reply(r).answer.is_terminal(),
        !(p.after_submit().after_reply(r).answer is Loading),
{
}

/// A transport failure shows the same connection error, which begins with
/// "Connection error", whatever the form holds.
pub proof fn transport_failure_is_a_connection_error(p: PageView, q: PageView, cause: Seq<char>)
    ensures
        p.after_reply(ReplyView::TransportFailed(cause)).answer == AnswerView::Failed(
            connection_message(cause),
        ),
        p.after_reply(ReplyView::TransportFailed(cause)).answer == q.after_reply(
            ReplyView::TransportFailed(cause),
        ).answer,
        connection_message(cause).subrange(0, 16) == "Connection error"@,
{
    reveal_strlit("Connection error: ");
    reveal_strlit("Connection error");
    assert(connection_message(cause).subrange(0, 16) =~= "Connection error"@);
}

} // verus!
