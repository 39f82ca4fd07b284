use vstd::prelude::*;
use crate::pipeline::ValidationError;

verus! {

/// The smallest retrieval depth the depth control offers.
pub const MIN_DEPTH: u32 = 1;

/// The largest retrieval depth the depth control offers.
pub const MAX_DEPTH: u32 = 20;

/// The retrieval depth of a fresh form.
pub const DEFAULT_DEPTH: u32 = 5;

/// Which answer-generation service a submission targets.
#[derive(Clone, Copy, Debug, PartialEq, Eq, Structural)]
pub enum Backend {
    /// Inference on the local machine.
    Local,
    /// The hosted model.
    Remote,
}

impl Backend {
    /// Whether the request asks for the hosted model.
    pub fn is_remote(&self) -> (r: bool)
        ensures
            r == (*self == Backend::Remote),
    {
        match self {
            Backend::Local => false,
            Backend::Remote => true,
        }
    }
}

/// The query being typed and how many documents it should draw on.
#[derive(Debug)]
pub struct QueryDraft {
    pub text: String,
    pub retrieval_depth: u32,
}

/// A retrieval depth the depth control can offer.
pub open spec fn depth_in_range(n: int) -> bool {
    MIN_DEPTH <= n <= MAX_DEPTH
}

/// Which informational panels are open.
#[derive(Clone, Copy, Debug, PartialEq, Eq, Structural)]
pub struct Panels {
    pub about: bool,
    pub contacts: bool,
}

impl Panels {
    /// The two panels are never open together.
    pub open spec fn wf(self) -> bool {
        !(self.about && self.contacts)
    }

    /// Flips `about`; opening it closes `contacts`.
    pub open spec fn toggled_about(self) -> Panels {
        Panels { about: !self.about, contacts: if !self.about { false } else { self.contacts } }
    }

    /// Flips `contacts`; opening it closes `about`.
    pub open spec fn toggled_contacts(self) -> Panels {
        Panels { about: if !self.contacts { false } else { self.about }, contacts: !self.contacts }
    }
}

/// Everything the user edits: the draft, the backend, the panels, and
/// the validation error shown under the form, if any.
#[derive(Debug)]
pub struct FormState {
    draft: QueryDraft,
    backend: Backend,
    panels: Panels,
    notice: Option<ValidationError>,
}

/// `FormState` with the query text as a character sequence.
pub struct FormView {
    pub text: Seq<char>,
    pub depth: u32,
    pub backend: Backend,
    pub panels: Panels,
    pub notice: Option<ValidationError>,
}

impl View for FormState {
    type V = FormView;

    closed spec fn view(&self) -> FormView {
        FormView {
            text: self.draft.text@,
            depth: self.draft.retrieval_depth,
            backend: self.backend,
            panels: self.panels,
            notice: self.notice,
        }
    }
}

impl FormView {
    /// The depth lies in its range and at most one panel is open.
    pub open spec fn wf(self) -> bool {
        depth_in_range(self.depth as int) && self.panels.wf()
    }

    /// The query text replaced; a shown validation error goes away.
    pub open spec fn with_text(self, s: Seq<char>) -> FormView {
        FormView { text: s, notice: None, ..self }
    }

    /// The depth set to `n` when it lies in range, else nothing changed.
    pub open spec fn with_depth(self, n: u32) -> FormView {
        if depth_in_range(n as int) {
            FormView { depth: n, ..self }
        } else {
            self
        }
    }

    /// The backend replaced.
    pub open spec fn with_backend(self, b: Backend) -> FormView {
        FormView { backend: b, ..self }
    }

    /// The about panel toggled.
    pub open spec fn with_about_toggled(self) -> FormView {
        FormView { panels: self.panels.toggled_about(), ..self }
    }

    /// The contacts panel toggled.
    pub open spec fn with_contacts_toggled(self) -> FormView {
        FormView { panels: self.panels.toggled_contacts(), ..self }
    }

    /// The shown validation error replaced.
    pub open spec fn with_notice(self, n: Option<ValidationError>) -> FormView {
        FormView { notice: n, ..self }
    }
}

/// An empty query, the default depth, the local backend, both panels
/// closed and no validation error.
pub open spec fn fresh_form() -> FormView {
    FormView {
        text: Seq::empty(),
        depth: DEFAULT_DEPTH,
        backend: Backend::Local,
        panels: Panels { about: false, contacts: false },
        notice: None,
    }
}

impl FormState {
    /// A form in the state `fresh_form` describes.
    pub fn new() -> (r: FormState)
        ensures
            r@ == fresh_form(),
            r@.wf(),
    {
        FormState {
            draft: QueryDraft { text: String::new(), retrieval_depth: DEFAULT_DEPTH },
            backend: Backend::Local,
            panels: Panels { about: false, contacts: false },
            notice: None,
        }
    }

    /// The query text and the retrieval depth.
    pub fn draft(&self) -> (r: &QueryDraft)
        ensures
            r.text@ == self@.text,
            r.retrieval_depth == self@.depth,
    {
        &self.draft
    }

    /// The backend the next submission targets.
    pub fn backend(&self) -> (r: Backend)
        ensures
            r == self@.backend,
    {
        self.backend
    }

    /// Which panels are open.
    pub fn panels(&self) -> (r: Panels)
        ensures
            r == self@.panels,
    {
        self.panels
    }

    /// The validation error shown under the form, if any.
    pub fn notice(&self) -> (r: Option<ValidationError>)
        ensures
            r == self@.notice,
    {
        self.notice
    }

    /// Replaces the query text and clears a shown validation error.
    pub fn set_query_text(&mut self, s: String)
        requires
            old(self)@.wf(),
        ensures
            final(self)@ == old(self)@.with_text(s@),
            final(self)@.wf(),
    {
        self.draft.text = s;
        self.notice = None;
    }

    /// Takes `n` as the retrieval depth when it lies in range; ignores it
    /// otherwise.
    pub fn set_retrieval_depth(&mut self, n: u32)
        requires
            old(self)@.wf(),
        ensures
            final(self)@ == old(self)@.with_depth(n),
            final(self)@.wf(),
    {
        if MIN_DEPTH <= n && n <= MAX_DEPTH {
            self.draft.retrieval_depth = n;
        }
    }

    /// Selects the hosted backend when `is_remote` holds, else the local one.
    pub fn set_backend(&mut self, is_remote: bool)
        requires
            old(self)@.wf(),
        ensures
            final(self)@ == old(self)@.with_backend(
                if is_remote {
                    Backend::Remote
                } else {
                    Backend::Local
                },
            ),
            final(self)@.wf(),
    {
        self.backend = if is_remote {
            Backend::Remote
        } else {
            Backend::Local
        };
    }

    /// Opens the about panel when closed (closing contacts), else closes it.
    pub fn toggle_about(&mut self)
        requires
            old(self)@.wf(),
        ensures
            final(self)@ == old(self)@.with_about_toggled(),
            final(self)@.wf(),
    {
        let open = !self.panels.about;
        self.panels.about = open;
        if open {
            self.panels.contacts = false;
        }
    }

    /// Opens the contacts panel when closed (closing about), else closes it.
    pub fn toggle_contacts(&mut self)
        requires
            old(self)@.wf(),
        ensures
            final(self)@ == old(self)@.with_contacts_toggled(),
            final(self)@.wf(),
    {
        let open = !self.panels.contacts;
        self.panels.contacts = open;
        if open {
            self.panels.about = false;
        }
    }

    /// Shows `n` under the form, or nothing.
    pub(crate) fn set_notice(&mut self, n: Option<ValidationError>)
        requires
            old(self)@.wf(),
        ensures
            final(self)@ == old(self)@.with_notice(n),
            final(self)@.wf(),
    {
        self.notice = n;
    }
}

/// Whatever value the depth control hands over, a well-formed form keeps
/// its retrieval depth between `MIN_DEPTH` and `MAX_DEPTH`.
pub proof fn depth_stays_in_range(f: FormView, n: u32)
    requires
        f.wf(),
    ensures
        depth_in_range(f.with_depth(n).depth as int),
        f.with_depth(n).wf(),
{
}

/// Opening one panel while the other is open closes the other; toggling
/// one while the other is closed changes the toggled panel alone. Either
/// way at most one panel is open afterwards.
pub proof fn panels_exclude_each_other(p: Panels)
    requires
        p.wf(),
    ensures
        p.contacts ==> p.toggled_about() == (Panels { about: true, contacts: false }),
        p.about ==> p.toggled_contacts() == (Panels { about: false, contacts: true }),
        !p.contacts ==> p.toggled_about() == (Panels { about: !p.about, contacts: p.contacts }),
        !p.about ==> p.toggled_contacts() == (Panels { about: p.about, contacts: !p.contacts }),
        p.toggled_about().wf(),
        p.toggled_contacts().wf(),
{
}

} // verus!
