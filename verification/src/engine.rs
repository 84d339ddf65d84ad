//! The input engine: what the candidate window and the commands see of the
//! RIME engine, and the sequence of engine-library calls behind each command.
//!
//! The engine library itself is reached by the program through its C
//! interface; here each command is a machine that, fed with the replies of
//! those calls, decides the next call and the command's result.
use vstd::prelude::*;
use vstd::string::StrSliceExecFns;
use crate::text::{utf8_text, utf8_text_lossy, lossy_utf8, signed_decimal, push_signed_decimal, push_str, push_char};

verus! {

/// One candidate: its text and its comment.
pub struct CandidateData {
    pub text: String,
    pub comment: String,
}

impl View for CandidateData {
    type V = (Seq<char>, Seq<char>);

    open spec fn view(&self) -> Self::V {
        (self.text@, self.comment@)
    }
}

/// The composition and candidate menu after a key or a selection.
pub struct ContextData {
    pub preedit: String,
    pub candidates: Vec<CandidateData>,
    pub page_no: i32,
    pub is_last_page: bool,
    pub highlighted_index: i32,
    pub commit_text: String,
}

/// The value of a `ContextData`.
pub struct ContextView {
    pub preedit: Seq<char>,
    pub candidates: Seq<(Seq<char>, Seq<char>)>,
    pub page_no: i32,
    pub is_last_page: bool,
    pub highlighted_index: i32,
    pub commit_text: Seq<char>,
}

impl View for ContextData {
    type V = ContextView;

    open spec fn view(&self) -> ContextView {
        ContextView {
            preedit: self.preedit@,
            candidates: self.candidates@.map_values(|c: CandidateData| c@),
            page_no: self.page_no,
            is_last_page: self.is_last_page,
            highlighted_index: self.highlighted_index,
            commit_text: self.commit_text@,
        }
    }
}

/// Whether the engine is composing and whether it is in ASCII mode.
#[derive(PartialEq, Eq, Structural, Clone, Copy, Debug)]
pub struct StatusData {
    pub is_composing: bool,
    pub is_ascii_mode: bool,
}

/// What a key did: consumed by the engine, with the resulting context, or
/// left to the application.
pub enum KeyResult {
    Handled(ContextData),
    NotHandled,
}

impl View for KeyResult {
    type V = Option<ContextView>;

    open spec fn view(&self) -> Option<ContextView> {
        match self {
            KeyResult::Handled(c) => Some(c@),
            KeyResult::NotHandled => None,
        }
    }
}

/// A candidate as the engine library reports it: text and comment bytes,
/// `None` for a null pointer.
pub struct RimeCandidate {
    pub text: Option<Vec<u8>>,
    pub comment: Option<Vec<u8>>,
}

/// A context as the engine library reports it. `candidates` is `None` for a
/// null candidate array; otherwise it holds the entries read from the array
/// (the first `num_candidates`, none when that count is not positive).
/// `is_last_page` is a C boolean (1 is true).
pub struct RimeContext {
    pub preedit: Option<Vec<u8>>,
    pub candidates: Option<Vec<RimeCandidate>>,
    pub num_candidates: i32,
    pub page_no: i32,
    pub is_last_page: i32,
    pub highlighted_index: i32,
}

/// A commit as the engine library reports it: the text's bytes, `None` for
/// a null pointer.
pub struct RimeCommit {
    pub text: Option<Vec<u8>>,
}

/// A status as the engine library reports it, with C booleans.
#[derive(PartialEq, Eq, Structural, Clone, Copy, Debug)]
pub struct RimeStatus {
    pub is_composing: i32,
    pub is_ascii_mode: i32,
}

/// The text of a C string: empty for a null pointer or for bytes that are not
/// valid UTF-8.
pub open spec fn text_or_empty(raw: Option<Seq<u8>>) -> Seq<char> {
    match raw {
        None => Seq::empty(),
        Some(b) => if vstd::utf8::valid_utf8(b) {
            vstd::utf8::decode_utf8(b)
        } else {
            Seq::empty()
        },
    }
}

/// The bytes of an optional byte vector.
pub open spec fn opt_bytes(v: Option<Vec<u8>>) -> Option<Seq<u8>> {
    match v {
        None => None,
        Some(b) => Some(b@),
    }
}

/// The candidate list of a context: entries with a null text are skipped; a
/// null comment reads as empty.
pub open spec fn candidate_list(cs: Seq<RimeCandidate>) -> Seq<(Seq<char>, Seq<char>)>
    decreases cs.len(),
{
    if cs.len() == 0 {
        Seq::empty()
    } else {
        let c = cs.last();
        candidate_list(cs.drop_last()) + if c.text is Some {
            seq![(text_or_empty(opt_bytes(c.text)), text_or_empty(opt_bytes(c.comment)))]
        } else {
            Seq::empty()
        }
    }
}

/// How many entries of a candidate array of `len` entries a menu counting
/// `num` candidates holds: none when the count is not positive, at most the
/// array.
pub open spec fn menu_count(num: i32, len: nat) -> nat {
    if num <= 0 {
        0
    } else if num as nat > len {
        len
    } else {
        num as nat
    }
}

/// The candidates of a context's menu: the first `num_candidates` entries of
/// its array (see `menu_count`), as `candidate_list` reads them; none for a
/// null array.
pub open spec fn menu_candidates(raw: RimeContext) -> Seq<(Seq<char>, Seq<char>)> {
    match raw.candidates {
        None => Seq::empty(),
        Some(cs) => candidate_list(cs@.take(menu_count(raw.num_candidates, cs@.len()) as int)),
    }
}

/// The committed text: empty when nothing was committed or the text pointer
/// is null, otherwise the bytes decoded with replacement characters.
pub open spec fn commit_text_of(commit: Option<RimeCommit>) -> Seq<char> {
    match commit {
        Some(c) => match c.text {
            Some(b) => lossy_utf8(b@),
            None => Seq::empty(),
        },
        None => Seq::empty(),
    }
}

/// The context built from the library's context and its commit reply.
pub open spec fn context_of(raw: RimeContext, commit: Option<RimeCommit>) -> ContextView {
    ContextView {
        preedit: text_or_empty(opt_bytes(raw.preedit)),
        candidates: menu_candidates(raw),
        page_no: raw.page_no,
        is_last_page: raw.is_last_page == 1,
        highlighted_index: raw.highlighted_index,
        commit_text: commit_text_of(commit),
    }
}

/// The context reported for a handled key when the engine has no context.
pub open spec fn empty_context() -> ContextView {
    ContextView {
        preedit: Seq::empty(),
        candidates: Seq::empty(),
        page_no: 0,
        is_last_page: true,
        highlighted_index: 0,
        commit_text: Seq::empty(),
    }
}

/// The status built from the library's status.
pub open spec fn status_of(raw: RimeStatus) -> StatusData {
    StatusData { is_composing: raw.is_composing != 0, is_ascii_mode: raw.is_ascii_mode != 0 }
}

/// The text of a C string (see `text_or_empty`).
pub fn text_from_raw(raw: &Option<Vec<u8>>) -> (r: String)
    ensures
        r@ == text_or_empty(opt_bytes(*raw)),
{
    match raw {
        None => String::new(),
        Some(b) => match utf8_text(b.as_slice()) {
            Some(s) => s,
            None => String::new(),
        },
    }
}

/// The candidates of a menu whose array is `raw` and whose count is `num`
/// (see `menu_candidates`).
pub fn candidates_from_raw(raw: &Option<Vec<RimeCandidate>>, num: i32) -> (r: Vec<CandidateData>)
    ensures
        r@.map_values(|c: CandidateData| c@) == match *raw {
            None => Seq::empty(),
            Some(cs) => candidate_list(cs@.take(menu_count(num, cs@.len()) as int)),
        },
{
    let mut out: Vec<CandidateData> = Vec::new();
    match raw {
        None => {
            assert(out@.map_values(|c: CandidateData| c@) =~= Seq::empty());
        },
        Some(cs) => {
            let n: usize = if num <= 0 {
                0
            } else if num as usize > cs.len() {
                cs.len()
            } else {
                num as usize
            };
            assert(n == menu_count(num, cs@.len()));
            let mut i: usize = 0;
            while i < n
                invariant
                    n <= cs@.len(),
                    i <= n,
                    out@.map_values(|c: CandidateData| c@) == candidate_list(cs@.take(i as int)),
                decreases n - i,
            {
                let c = &cs[i];
                if c.text.is_some() {
                    let text = text_from_raw(&c.text);
                    let comment = text_from_raw(&c.comment);
                    out.push(CandidateData { text, comment });
                }
                proof {
                    let t = cs@.take(i + 1);
                    assert(t.drop_last() =~= cs@.take(i as int));
                    assert(t.last() == cs@[i as int]);
                    assert(out@.map_values(|c: CandidateData| c@) =~= candidate_list(t));
                }
                i = i + 1;
            }
        },
    }
    out
}

impl RimeCommit {
    /// The committed text: empty for a null pointer or invalid UTF-8.
    pub fn text(&self) -> (r: String)
        ensures
            r@ == text_or_empty(opt_bytes(self.text)),
    {
        text_from_raw(&self.text)
    }
}

impl RimeContext {
    /// The preedit text: empty for a null pointer or invalid UTF-8.
    pub fn preedit(&self) -> (r: String)
        ensures
            r@ == text_or_empty(opt_bytes(self.preedit)),
    {
        text_from_raw(&self.preedit)
    }

    /// The candidates as (text, comment) pairs: the first `num_candidates`
    /// entries, none when that count is not positive (see `menu_candidates`).
    pub fn candidates(&self) -> (r: Vec<(String, String)>)
        ensures
            r@.map_values(|p: (String, String)| (p.0@, p.1@)) == menu_candidates(*self),
    {
        let list = candidates_from_raw(&self.candidates, self.num_candidates);
        let mut out: Vec<(String, String)> = Vec::new();
        let mut i: usize = 0;
        while i < list.len()
            invariant
                i <= list@.len(),
                out@.len() == i,
                out@.map_values(|p: (String, String)| (p.0@, p.1@)) == list@.take(
                    i as int,
                ).map_values(|c: CandidateData| c@),
            decreases list.len() - i,
        {
            let ghost before = out@;
            out.push((list[i].text.clone(), list[i].comment.clone()));
            proof {
                let f = |p: (String, String)| (p.0@, p.1@);
                let g = |c: CandidateData| c@;
                let t = list@.take(i + 1);
                assert forall|k: int| 0 <= k < i + 1 implies out@.map_values(f)[k] == t.map_values(
                    g,
                )[k] by {
                    if k < i {
                        assert(out@[k] == before[k]);
                        assert(before.map_values(f)[k] == list@.take(i as int).map_values(g)[k]);
                    }
                }
                assert(out@.map_values(f) =~= t.map_values(g));
            }
            i = i + 1;
        }
        assert(list@.take(list@.len() as int) =~= list@);
        out
    }

    /// The page shown.
    pub fn page_no(&self) -> (r: i32)
        ensures
            r == self.page_no,
    {
        self.page_no
    }

    /// Whether the page shown is the last (the C boolean is 1).
    pub fn is_last_page(&self) -> (r: bool)
        ensures
            r == (self.is_last_page == 1),
    {
        self.is_last_page == 1
    }

    /// The highlighted candidate's index on the page.
    pub fn highlighted_index(&self) -> (r: i32)
        ensures
            r == self.highlighted_index,
    {
        self.highlighted_index
    }
}

/// The context built from the library's context and its commit reply (see
/// `context_of`).
pub fn context_from_raw(raw: &RimeContext, commit: &Option<RimeCommit>) -> (r: ContextData)
    ensures
        r@ == context_of(*raw, *commit),
{
    let preedit = text_from_raw(&raw.preedit);
    let candidates = candidates_from_raw(&raw.candidates, raw.num_candidates);
    let commit_text = match commit {
        Some(c) => match &c.text {
            Some(b) => utf8_text_lossy(b.as_slice()),
            None => String::new(),
        },
        None => String::new(),
    };
    ContextData {
        preedit,
        candidates,
        page_no: raw.page_no,
        is_last_page: raw.is_last_page == 1,
        highlighted_index: raw.highlighted_index,
        commit_text,
    }
}

/// The context reported for a handled key when the engine has no context.
pub fn empty_context_data() -> (r: ContextData)
    ensures
        r@ == empty_context(),
{
    let r = ContextData {
        preedit: String::new(),
        candidates: Vec::new(),
        page_no: 0,
        is_last_page: true,
        highlighted_index: 0,
        commit_text: String::new(),
    };
    assert(r@.candidates =~= Seq::<(Seq<char>, Seq<char>)>::empty());
    r
}

/// The status built from the library's status.
pub fn status_from_raw(raw: RimeStatus) -> (r: StatusData)
    ensures
        r == status_of(raw),
{
    StatusData { is_composing: raw.is_composing != 0, is_ascii_mode: raw.is_ascii_mode != 0 }
}

/// Which engine-library functions the loaded library provides.
#[derive(Clone, Copy, Debug)]
pub struct RimeApi {
    pub setup: bool,
    pub initialize: bool,
    pub finalize: bool,
    pub create_session: bool,
    pub destroy_session: bool,
    pub process_key: bool,
    pub clear_composition: bool,
    pub get_commit: bool,
    pub free_commit: bool,
    pub get_context: bool,
    pub free_context: bool,
    pub select_candidate: bool,
    pub get_status: bool,
    pub free_status: bool,
}

/// A loaded engine library: its function table, `None` when the library
/// gave none.
#[derive(Clone, Copy, Debug)]
pub struct RimeLibrary {
    pub api: Option<RimeApi>,
}

impl RimeLibrary {
    /// The library's function table.
    pub fn api(&self) -> (r: Option<RimeApi>)
        ensures
            r == self.api,
    {
        self.api
    }
}

/// A command that needs an engine session.
#[derive(Clone, Copy, Debug)]
pub enum Command {
    ProcessKey { keycode: i32, modifiers: i32 },
    SelectCandidate { index: i32 },
    ClearComposition,
    GetStatus,
}

/// A request to the engine.
#[derive(Clone, Copy, Debug)]
pub enum Request {
    /// Load the engine library and start the engine (once).
    Initialize,
    /// Run a command in the engine's session, creating the session first if
    /// there is none.
    Session(Command),
    /// Destroy the session, stop the engine and unload the library.
    Shutdown,
}

/// A call the program makes into the engine library (or, while starting,
/// into the environment and the file system) on the machine's behalf.
#[derive(PartialEq, Eq, Clone, Debug)]
pub enum Call {
    /// Load the engine library; reply `Library`.
    LoadLibrary,
    /// Find the application's resource directory and `%LOCALAPPDATA%`;
    /// reply `Dirs`.
    ResolveDirs,
    /// Create this directory and its parents; reply `DataDirs`.
    CreateDir(String),
    /// Call the library's setup (if `setup`) and initialize (if `initialize`)
    /// functions with these data directories and application name; reply
    /// `Done`.
    Start { setup: bool, initialize: bool, shared_data_dir: String, user_data_dir: String, app_name: String },
    /// Create a session; reply `Session`.
    CreateSession,
    /// Pass a key to the session; reply `Flag` (whether it was processed).
    ProcessKey { session: i32, keycode: i32, modifiers: i32 },
    /// Read the session's context; reply `Context`.
    GetContext { session: i32 },
    /// Read (and free) the session's committed text; reply `Commit`.
    GetCommit { session: i32 },
    /// Free the context last read; reply `Done`.
    FreeContext,
    /// Select a candidate on the current page; reply `Flag`.
    SelectCandidate { session: i32, index: i32 },
    /// Clear the composition; reply `Done`.
    ClearComposition { session: i32 },
    /// Read the session's status; reply `Status`.
    GetStatus { session: i32 },
    /// Free the status last read; reply `Done`.
    FreeStatus,
    /// Destroy the session; reply `Done`.
    DestroySession { session: i32 },
    /// Stop the engine; reply `Done`.
    Finalize,
}

/// The value of a `Call`.
pub enum CallView {
    LoadLibrary,
    ResolveDirs,
    CreateDir(Seq<char>),
    Start { setup: bool, initialize: bool, shared_data_dir: Seq<char>, user_data_dir: Seq<char>, app_name: Seq<char> },
    CreateSession,
    ProcessKey { session: i32, keycode: i32, modifiers: i32 },
    GetContext { session: i32 },
    GetCommit { session: i32 },
    FreeContext,
    SelectCandidate { session: i32, index: i32 },
    ClearComposition { session: i32 },
    GetStatus { session: i32 },
    FreeStatus,
    DestroySession { session: i32 },
    Finalize,
}

impl View for Call {
    type V = CallView;

    open spec fn view(&self) -> CallView {
        match self {
            Call::LoadLibrary => CallView::LoadLibrary,
            Call::ResolveDirs => CallView::ResolveDirs,
            Call::CreateDir(d) => CallView::CreateDir(d@),
            Call::Start { setup, initialize, shared_data_dir, user_data_dir, app_name } => CallView::Start {
                setup: *setup,
                initialize: *initialize,
                shared_data_dir: shared_data_dir@,
                user_data_dir: user_data_dir@,
                app_name: app_name@,
            },
            Call::CreateSession => CallView::CreateSession,
            Call::ProcessKey { session, keycode, modifiers } => CallView::ProcessKey {
                session: *session,
                keycode: *keycode,
                modifiers: *modifiers,
            },
            Call::GetContext { session } => CallView::GetContext { session: *session },
            Call::GetCommit { session } => CallView::GetCommit { session: *session },
            Call::FreeContext => CallView::FreeContext,
            Call::SelectCandidate { session, index } => CallView::SelectCandidate {
                session: *session,
                index: *index,
            },
            Call::ClearComposition { session } => CallView::ClearComposition { session: *session },
            Call::GetStatus { session } => CallView::GetStatus { session: *session },
            Call::FreeStatus => CallView::FreeStatus,
            Call::DestroySession { session } => CallView::DestroySession { session: *session },
            Call::Finalize => CallView::Finalize,
        }
    }
}

/// A directory inside `parent`: `parent`, a backslash unless `parent` is
/// empty or already ends with a separator, and `name`.
pub open spec fn dir_in(parent: Seq<char>, name: Seq<char>) -> Seq<char> {
    if parent.len() == 0 {
        name
    } else if parent.last() == '\\' || parent.last() == '/' {
        parent + name
    } else {
        parent + seq!['\\'] + name
    }
}

/// The engine's shared (read-only) data: `rime` in the application's
/// resource directory.
pub open spec fn shared_data_dir_of(resource_dir: Seq<char>) -> Seq<char> {
    dir_in(resource_dir, "rime"@)
}

/// The engine's user data: `Lexi\rime` in `%LOCALAPPDATA%`.
pub open spec fn user_data_dir_of(local_app_data: Seq<char>) -> Seq<char> {
    dir_in(dir_in(local_app_data, "Lexi"@), "rime"@)
}

/// A directory inside `parent` (see `dir_in`).
pub fn join_dir(parent: &str, name: &str) -> (r: String)
    ensures
        r@ == dir_in(parent@, name@),
{
    let n = parent.unicode_len();
    let mut r = parent.to_owned();
    if n > 0 {
        let last = parent.get_char(n - 1);
        if last != '\\' && last != '/' {
            push_char(&mut r, '\\');
        }
    }
    push_str(&mut r, name);
    proof {
        if parent@.len() == 0 {
            assert(r@ =~= name@);
        }
    }
    r
}

/// The engine's shared data directory (see `shared_data_dir_of`).
pub fn shared_data_dir(resource_dir: &str) -> (r: String)
    ensures
        r@ == shared_data_dir_of(resource_dir@),
{
    join_dir(resource_dir, "rime")
}

/// The engine's user data directory (see `user_data_dir_of`).
pub fn user_data_dir(local_app_data: &str) -> (r: String)
    ensures
        r@ == user_data_dir_of(local_app_data@),
{
    let lexi = join_dir(local_app_data, "Lexi");
    join_dir(lexi.as_str(), "rime")
}

/// The program's report of a call.
pub enum Reply {
    /// The loaded library, `None` when it could not be loaded.
    Library(Option<RimeLibrary>),
    /// The application's resource directory and `%LOCALAPPDATA%`, or the
    /// error message when one could not be found.
    Dirs(Result<(String, String), String>),
    /// Whether the directory was created, with the error message if not.
    DataDirs(Result<(), String>),
    /// The new session's identifier (0 when creation failed).
    Session(i32),
    /// The boolean result of the call.
    Flag(bool),
    /// The context, `None` when the library reported none.
    Context(Option<RimeContext>),
    /// The commit, `None` when nothing was committed.
    Commit(Option<RimeCommit>),
    /// The status, `None` when the library could not report it.
    Status(Option<RimeStatus>),
    /// The call returned nothing.
    Done,
}

/// Why a context is being read.
#[derive(PartialEq, Eq, Structural, Clone, Copy, Debug)]
pub enum Purpose {
    Key,
    Selection,
}

/// Where the machine stands: which reply it awaits, with what it keeps
/// until then.
pub enum Phase {
    Idle,
    Loading,
    PreparingDirs(RimeLibrary),
    /// Creating the user data directory, with the resource directory and
    /// `%LOCALAPPDATA%`.
    CreatingUserDir(RimeLibrary, String, String),
    Starting(RimeLibrary),
    CreatingSession(Command),
    ProcessingKey(i32),
    ReadingContext(Purpose, i32),
    ReadingCommit(Purpose, i32, RimeContext),
    FreeingContext(Purpose, RimeContext, Option<RimeCommit>),
    CheckingCandidates(i32, i32),
    ReleasingChecked(i32, i32, i32),
    Selecting(i32),
    Clearing,
    GettingStatus,
    FreeingStatus(RimeStatus),
    DestroyingSession,
    Finalizing,
}

/// The result of a request.
pub enum Outcome {
    Initialized,
    Key(KeyResult),
    Selection(Option<ContextData>),
    Cleared,
    Status(StatusData),
    ShutDown,
}

/// The value of an `Outcome`.
pub enum OutcomeView {
    Initialized,
    Key(Option<ContextView>),
    Selection(Option<ContextView>),
    Cleared,
    Status(StatusData),
    ShutDown,
}

impl View for Outcome {
    type V = OutcomeView;

    open spec fn view(&self) -> OutcomeView {
        match self {
            Outcome::Initialized => OutcomeView::Initialized,
            Outcome::Key(k) => OutcomeView::Key(k@),
            Outcome::Selection(None) => OutcomeView::Selection(None),
            Outcome::Selection(Some(c)) => OutcomeView::Selection(Some(c@)),
            Outcome::Cleared => OutcomeView::Cleared,
            Outcome::Status(st) => OutcomeView::Status(*st),
            Outcome::ShutDown => OutcomeView::ShutDown,
        }
    }
}

/// What the machine asks for next: a call, or the request's result.
pub enum Step {
    Call(Call),
    Finish(Result<Outcome, String>),
}

/// The value of a `Step`.
pub enum StepView {
    Call(CallView),
    Finish(Result<OutcomeView, Seq<char>>),
}

impl View for Step {
    type V = StepView;

    open spec fn view(&self) -> StepView {
        match self {
            Step::Call(c) => StepView::Call(c@),
            Step::Finish(Ok(o)) => StepView::Finish(Ok(o@)),
            Step::Finish(Err(e)) => StepView::Finish(Err(e@)),
        }
    }
}

/// The state of the engine: the loaded library, the session, whether the
/// engine was started, and the request in progress.
pub struct EngineState {
    pub library: Option<RimeLibrary>,
    pub session_id: Option<i32>,
    pub initialized: bool,
    pub phase: Phase,
}

/// No library function.
pub open spec fn no_fns() -> RimeApi {
    RimeApi {
        setup: false,
        initialize: false,
        finalize: false,
        create_session: false,
        destroy_session: false,
        process_key: false,
        clear_composition: false,
        get_commit: false,
        free_commit: false,
        get_context: false,
        free_context: false,
        select_candidate: false,
        get_status: false,
        free_status: false,
    }
}

/// The function table of a library, or the reason there is none.
pub open spec fn api_fns(lib: Option<RimeLibrary>) -> Result<RimeApi, Seq<char>> {
    match lib {
        None => Err("RIME not initialized"@),
        Some(l) => match l.api {
            None => Err("API not available"@),
            Some(f) => Ok(f),
        },
    }
}

/// The functions a library provides (none without a table).
pub open spec fn fns_of(lib: Option<RimeLibrary>) -> RimeApi {
    match api_fns(lib) {
        Ok(f) => f,
        Err(_) => no_fns(),
    }
}

/// Ends the request with result `r`.
pub open spec fn finish(s: EngineState, r: Result<OutcomeView, Seq<char>>) -> (EngineState, StepView) {
    (EngineState { phase: Phase::Idle, ..s }, StepView::Finish(r))
}

/// Makes call `c` and waits in phase `p`.
pub open spec fn call(s: EngineState, p: Phase, c: CallView) -> (EngineState, StepView) {
    (EngineState { phase: p, ..s }, StepView::Call(c))
}

/// Ends the request with an error message.
pub open spec fn fail(s: EngineState, msg: Seq<char>) -> (EngineState, StepView) {
    finish(s, Err(msg))
}

/// The message for a candidate index outside the current page.
pub open spec fn invalid_index_message(index: i32, num: i32) -> Seq<char> {
    "Invalid candidate index: "@ + signed_decimal(index as int) + " (max: "@ + signed_decimal(
        num - 1,
    ) + ")"@
}

/// The result of reading a context for `p`.
pub open spec fn read_result(p: Purpose, ctx: Option<ContextView>) -> OutcomeView {
    match p {
        Purpose::Key => OutcomeView::Key(
            Some(
                match ctx {
                    Some(c) => c,
                    None => empty_context(),
                },
            ),
        ),
        Purpose::Selection => OutcomeView::Selection(ctx),
    }
}

/// Runs a command in session `sid`.
pub open spec fn proceed(s: EngineState, cmd: Command, sid: i32) -> (EngineState, StepView) {
    match api_fns(s.library) {
        Err(e) => fail(s, e),
        Ok(f) => match cmd {
            Command::ProcessKey { keycode, modifiers } => if !f.process_key {
                fail(s, "process_key not available"@)
            } else {
                call(s, Phase::ProcessingKey(sid), CallView::ProcessKey { session: sid, keycode, modifiers })
            },
            Command::SelectCandidate { index } => if !f.get_context {
                fail(s, "get_context not available"@)
            } else {
                call(s, Phase::CheckingCandidates(sid, index), CallView::GetContext { session: sid })
            },
            Command::ClearComposition => if !f.clear_composition {
                fail(s, "clear_composition not available"@)
            } else {
                call(s, Phase::Clearing, CallView::ClearComposition { session: sid })
            },
            Command::GetStatus => if !f.get_status {
                fail(s, "get_status not available"@)
            } else {
                call(s, Phase::GettingStatus, CallView::GetStatus { session: sid })
            },
        },
    }
}

/// Starts reading the context of session `sid` for `p`.
pub open spec fn read_context(s: EngineState, p: Purpose, sid: i32) -> (EngineState, StepView) {
    if !fns_of(s.library).get_context {
        fail(s, "get_context not available"@)
    } else {
        call(s, Phase::ReadingContext(p, sid), CallView::GetContext { session: sid })
    }
}

/// The end of a shutdown: stop the engine if it was started, then forget the
/// library.
pub open spec fn finalize_step(s: EngineState) -> (EngineState, StepView) {
    if s.initialized && api_fns(s.library) is Ok {
        call(s, Phase::Finalizing, CallView::Finalize)
    } else {
        finish(EngineState { library: None, initialized: false, ..s }, Ok(OutcomeView::ShutDown))
    }
}

/// What the engine does when a request begins.
pub open spec fn begin_spec(s: EngineState, req: Request) -> (EngineState, StepView) {
    match req {
        Request::Initialize => if s.initialized {
            finish(s, Ok(OutcomeView::Initialized))
        } else {
            call(s, Phase::Loading, CallView::LoadLibrary)
        },
        Request::Shutdown => {
            let t = EngineState { session_id: None, ..s };
            match s.session_id {
                Some(sid) => if api_fns(s.library) is Ok {
                    call(t, Phase::DestroyingSession, CallView::DestroySession { session: sid })
                } else {
                    finalize_step(t)
                },
                None => finalize_step(t),
            }
        },
        Request::Session(cmd) => match s.session_id {
            Some(sid) => proceed(s, cmd, sid),
            None => match api_fns(s.library) {
                Err(e) => fail(s, e),
                Ok(f) => if !f.create_session {
                    fail(s, "create_session not available"@)
                } else {
                    call(s, Phase::CreatingSession(cmd), CallView::CreateSession)
                },
            },
        },
    }
}

/// Whether `r` is the kind of reply that phase `p` waits for.
pub open spec fn expects(p: Phase, r: Reply) -> bool {
    match p {
        Phase::Idle => false,
        Phase::Loading => r is Library,
        Phase::PreparingDirs(_) => r is Dirs,
        Phase::CreatingUserDir(_, _, _) => r is DataDirs,
        Phase::CreatingSession(_) => r is Session,
        Phase::ProcessingKey(_) | Phase::Selecting(_) => r is Flag,
        Phase::ReadingContext(_, _) | Phase::CheckingCandidates(_, _) => r is Context,
        Phase::ReadingCommit(_, _, _) => r is Commit,
        Phase::GettingStatus => r is Status,
        _ => r is Done,
    }
}

/// What the engine does with the reply to its last call.
pub open spec fn resume_spec(s: EngineState, r: Reply) -> (EngineState, StepView) {
    let f = fns_of(s.library);
    match s.phase {
        Phase::Loading => match r {
            Reply::Library(None) => fail(s, "Failed to load librime.dll"@),
            Reply::Library(Some(lib)) => if lib.api is None {
                fail(s, "RIME API not available"@)
            } else {
                call(s, Phase::PreparingDirs(lib), CallView::ResolveDirs)
            },
            _ => fail(s, Seq::empty()),
        },
        Phase::PreparingDirs(lib) => match r {
            Reply::Dirs(Ok((res, local))) => call(
                s,
                Phase::CreatingUserDir(lib, res, local),
                CallView::CreateDir(user_data_dir_of(local@)),
            ),
            Reply::Dirs(Err(e)) => fail(s, e@),
            _ => fail(s, Seq::empty()),
        },
        Phase::CreatingUserDir(lib, res, local) => match r {
            Reply::DataDirs(Err(e)) => fail(s, e@),
            _ => {
                let g = fns_of(Some(lib));
                call(
                    s,
                    Phase::Starting(lib),
                    CallView::Start {
                        setup: g.setup,
                        initialize: g.initialize,
                        shared_data_dir: shared_data_dir_of(res@),
                        user_data_dir: user_data_dir_of(local@),
                        app_name: "Lexi"@,
                    },
                )
            },
        },
        Phase::Starting(lib) => finish(
            EngineState { library: Some(lib), initialized: true, ..s },
            Ok(OutcomeView::Initialized),
        ),
        Phase::CreatingSession(cmd) => match r {
            Reply::Session(sid) => if sid == 0 {
                fail(s, "Failed to create RIME session"@)
            } else {
                proceed(EngineState { session_id: Some(sid), ..s }, cmd, sid)
            },
            _ => fail(s, Seq::empty()),
        },
        Phase::ProcessingKey(sid) => match r {
            Reply::Flag(true) => read_context(s, Purpose::Key, sid),
            _ => finish(s, Ok(OutcomeView::Key(None))),
        },
        Phase::ReadingContext(p, sid) => match r {
            Reply::Context(Some(raw)) => if !f.get_commit {
                fail(s, "get_commit not available"@)
            } else {
                call(s, Phase::ReadingCommit(p, sid, raw), CallView::GetCommit { session: sid })
            },
            _ => finish(s, Ok(read_result(p, None))),
        },
        Phase::ReadingCommit(p, sid, raw) => match r {
            Reply::Commit(c) => if !f.free_context {
                fail(s, "free_context not available"@)
            } else {
                call(s, Phase::FreeingContext(p, raw, c), CallView::FreeContext)
            },
            _ => fail(s, Seq::empty()),
        },
        Phase::FreeingContext(p, raw, c) => finish(s, Ok(read_result(p, Some(context_of(raw, c))))),
        Phase::CheckingCandidates(sid, index) => match r {
            Reply::Context(Some(raw)) => if !f.free_context {
                fail(s, "free_context not available"@)
            } else {
                call(
                    s,
                    Phase::ReleasingChecked(sid, index, raw.num_candidates),
                    CallView::FreeContext,
                )
            },
            _ => fail(s, "No context available"@),
        },
        Phase::ReleasingChecked(sid, index, num) => if index < 0 || index >= num {
            fail(s, invalid_index_message(index, num))
        } else if !f.select_candidate {
            fail(s, "select_candidate not available"@)
        } else {
            call(s, Phase::Selecting(sid), CallView::SelectCandidate { session: sid, index })
        },
        Phase::Selecting(sid) => match r {
            Reply::Flag(true) => read_context(s, Purpose::Selection, sid),
            _ => fail(s, "RIME select_candidate failed"@),
        },
        Phase::Clearing => finish(s, Ok(OutcomeView::Cleared)),
        Phase::GettingStatus => match r {
            Reply::Status(Some(st)) => if !f.free_status {
                fail(s, "free_status not available"@)
            } else {
                call(s, Phase::FreeingStatus(st), CallView::FreeStatus)
            },
            _ => fail(s, "Failed to get RIME status"@),
        },
        Phase::FreeingStatus(st) => finish(s, Ok(OutcomeView::Status(status_of(st)))),
        Phase::DestroyingSession => finalize_step(s),
        Phase::Finalizing => finish(
            EngineState { library: None, initialized: false, ..s },
            Ok(OutcomeView::ShutDown),
        ),
        Phase::Idle => fail(s, Seq::empty()),
    }
}

/// The engine: the library it loaded, its session, whether it was started,
/// and the request in progress.
pub struct RimeEngine {
    library: Option<RimeLibrary>,
    session_id: Option<i32>,
    initialized: bool,
    phase: Phase,
}

fn message(s: &str) -> (r: String)
    ensures
        r@ == s@,
{
    s.to_owned()
}

impl RimeEngine {
    /// The engine's state.
    pub closed spec fn state(&self) -> EngineState {
        EngineState {
            library: self.library,
            session_id: self.session_id,
            initialized: self.initialized,
            phase: self.phase,
        }
    }

    /// Whether no request is in progress.
    pub open spec fn is_idle(&self) -> bool {
        self.state().phase is Idle
    }

    /// A fresh engine: no library, no session, not started.
    pub fn new() -> (e: RimeEngine)
        ensures
            e.state().library is None,
            e.state().session_id is None,
            !e.state().initialized,
            e.is_idle(),
    {
        RimeEngine { library: None, session_id: None, initialized: false, phase: Phase::Idle }
    }

    /// The session the engine holds, if any.
    pub fn session(&self) -> (r: Option<i32>)
        ensures
            r == self.state().session_id,
    {
        self.session_id
    }

    /// Whether the engine was started.
    pub fn is_initialized(&self) -> (r: bool)
        ensures
            r == self.state().initialized,
    {
        self.initialized
    }

    fn fns(&self) -> (f: RimeApi)
        ensures
            f == fns_of(self.library),
    {
        match self.library {
            Some(l) => match l.api {
                Some(f) => f,
                None => no_fns_value(),
            },
            None => no_fns_value(),
        }
    }

    fn api(&self) -> (r: Result<RimeApi, String>)
        ensures
            match r {
                Ok(f) => api_fns(self.library) == Ok::<RimeApi, Seq<char>>(f),
                Err(e) => api_fns(self.library) == Err::<RimeApi, Seq<char>>(e@),
            },
    {
        match self.library {
            None => Err(message("RIME not initialized")),
            Some(l) => match l.api {
                None => Err(message("API not available")),
                Some(f) => Ok(f),
            },
        }
    }

    fn finish(&mut self, r: Result<Outcome, String>) -> (step: Step)
        ensures
            final(self).state() == (EngineState { phase: Phase::Idle, ..old(self).state() }),
            step == Step::Finish(r),
    {
        self.phase = Phase::Idle;
        Step::Finish(r)
    }

    fn fail(&mut self, msg: &str) -> (step: Step)
        ensures
            (final(self).state(), step@) == fail(old(self).state(), msg@),
    {
        self.phase = Phase::Idle;
        Step::Finish(Err(message(msg)))
    }

    fn call(&mut self, p: Phase, c: Call) -> (step: Step)
        ensures
            (final(self).state(), step@) == call(old(self).state(), p, c@),
    {
        self.phase = p;
        Step::Call(c)
    }

    fn proceed(&mut self, cmd: Command, sid: i32) -> (step: Step)
        ensures
            (final(self).state(), step@) == proceed(old(self).state(), cmd, sid),
    {
        match self.api() {
            Err(e) => {
                self.phase = Phase::Idle;
                Step::Finish(Err(e))
            },
            Ok(f) => match cmd {
                Command::ProcessKey { keycode, modifiers } => if !f.process_key {
                    self.fail("process_key not available")
                } else {
                    self.call(
                        Phase::ProcessingKey(sid),
                        Call::ProcessKey { session: sid, keycode, modifiers },
                    )
                },
                Command::SelectCandidate { index } => if !f.get_context {
                    self.fail("get_context not available")
                } else {
                    self.call(Phase::CheckingCandidates(sid, index), Call::GetContext { session: sid })
                },
                Command::ClearComposition => if !f.clear_composition {
                    self.fail("clear_composition not available")
                } else {
                    self.call(Phase::Clearing, Call::ClearComposition { session: sid })
                },
                Command::GetStatus => if !f.get_status {
                    self.fail("get_status not available")
                } else {
                    self.call(Phase::GettingStatus, Call::GetStatus { session: sid })
                },
            },
        }
    }

    fn read_context(&mut self, p: Purpose, sid: i32) -> (step: Step)
        ensures
            (final(self).state(), step@) == read_context(old(self).state(), p, sid),
    {
        if !self.fns().get_context {
            self.fail("get_context not available")
        } else {
            self.call(Phase::ReadingContext(p, sid), Call::GetContext { session: sid })
        }
    }

    fn finalize_step(&mut self) -> (step: Step)
        ensures
            (final(self).state(), step@) == finalize_step(old(self).state()),
    {
        if self.initialized && self.api().is_ok() {
            self.call(Phase::Finalizing, Call::Finalize)
        } else {
            self.library = None;
            self.initialized = false;
            self.finish(Ok(Outcome::ShutDown))
        }
    }

    /// Begins a request. Requests run one at a time: the engine must be idle.
    pub fn begin(&mut self, req: Request) -> (step: Step)
        requires
            old(self).is_idle(),
        ensures
            (final(self).state(), step@) == begin_spec(old(self).state(), req),
    {
        match req {
            Request::Initialize => if self.initialized {
                self.finish(Ok(Outcome::Initialized))
            } else {
                self.call(Phase::Loading, Call::LoadLibrary)
            },
            Request::Shutdown => {
                let sid = self.session_id;
                self.session_id = None;
                match sid {
                    Some(sid) => if self.api().is_ok() {
                        self.call(Phase::DestroyingSession, Call::DestroySession { session: sid })
                    } else {
                        self.finalize_step()
                    },
                    None => self.finalize_step(),
                }
            },
            Request::Session(cmd) => match self.session_id {
                Some(sid) => self.proceed(cmd, sid),
                None => match self.api() {
                    Err(e) => {
                        self.phase = Phase::Idle;
                        Step::Finish(Err(e))
                    },
                    Ok(f) => if !f.create_session {
                        self.fail("create_session not available")
                    } else {
                        self.call(Phase::CreatingSession(cmd), Call::CreateSession)
                    },
                },
            },
        }
    }

    /// Begins starting the engine (`Request::Initialize`).
    pub fn initialize(&mut self) -> (step: Step)
        requires
            old(self).is_idle(),
        ensures
            (final(self).state(), step@) == begin_spec(old(self).state(), Request::Initialize),
    {
        self.begin(Request::Initialize)
    }

    /// Begins passing a key to the engine.
    pub fn process_key(&mut self, keycode: i32, modifiers: i32) -> (step: Step)
        requires
            old(self).is_idle(),
        ensures
            (final(self).state(), step@) == begin_spec(
                old(self).state(),
                Request::Session(Command::ProcessKey { keycode, modifiers }),
            ),
    {
        self.begin(Request::Session(Command::ProcessKey { keycode, modifiers }))
    }

    /// Begins selecting candidate `index` of the current page.
    pub fn select_candidate(&mut self, index: i32) -> (step: Step)
        requires
            old(self).is_idle(),
        ensures
            (final(self).state(), step@) == begin_spec(
                old(self).state(),
                Request::Session(Command::SelectCandidate { index }),
            ),
    {
        self.begin(Request::Session(Command::SelectCandidate { index }))
    }

    /// Begins clearing the composition.
    pub fn clear_composition(&mut self) -> (step: Step)
        requires
            old(self).is_idle(),
        ensures
            (final(self).state(), step@) == begin_spec(
                old(self).state(),
                Request::Session(Command::ClearComposition),
            ),
    {
        self.begin(Request::Session(Command::ClearComposition))
    }

    /// Begins reading the engine's status.
    pub fn get_status(&mut self) -> (step: Step)
        requires
            old(self).is_idle(),
        ensures
            (final(self).state(), step@) == begin_spec(
                old(self).state(),
                Request::Session(Command::GetStatus),
            ),
    {
        self.begin(Request::Session(Command::GetStatus))
    }

    /// Begins shutting the engine down (`Request::Shutdown`).
    pub fn shutdown(&mut self) -> (step: Step)
        requires
            old(self).is_idle(),
        ensures
            (final(self).state(), step@) == begin_spec(old(self).state(), Request::Shutdown),
    {
        self.begin(Request::Shutdown)
    }

    /// Continues the request in progress with the reply to its last call.
    /// The reply must be of the kind the call asks for.
    #[verifier::rlimit(60)]
    pub fn resume(&mut self, reply: Reply) -> (step: Step)
        requires
            expects(old(self).state().phase, reply),
        ensures
            (final(self).state(), step@) == resume_spec(old(self).state(), reply),
    {
        let f = self.fns();
        let mut phase = Phase::Idle;
        std::mem::swap(&mut phase, &mut self.phase);
        proof {
            assert(self.state() == (EngineState { phase: Phase::Idle, ..old(self).state() }));
        }
        match phase {
            Phase::Loading => match reply {
                Reply::Library(None) => self.fail("Failed to load librime.dll"),
                Reply::Library(Some(lib)) => if lib.api.is_none() {
                    self.fail("RIME API not available")
                } else {
                    self.call(Phase::PreparingDirs(lib), Call::ResolveDirs)
                },
                _ => self.fail(""),
            },
            Phase::PreparingDirs(lib) => match reply {
                Reply::Dirs(Ok((res, local))) => {
                    let user = user_data_dir(local.as_str());
                    self.call(Phase::CreatingUserDir(lib, res, local), Call::CreateDir(user))
                },
                Reply::Dirs(Err(e)) => self.finish(Err(e)),
                _ => self.fail(""),
            },
            Phase::CreatingUserDir(lib, res, local) => match reply {
                Reply::DataDirs(Err(e)) => self.finish(Err(e)),
                _ => {
                    let g = match lib.api {
                        Some(g) => g,
                        None => no_fns_value(),
                    };
                    let shared = shared_data_dir(res.as_str());
                    let user = user_data_dir(local.as_str());
                    self.call(
                        Phase::Starting(lib),
                        Call::Start {
                            setup: g.setup,
                            initialize: g.initialize,
                            shared_data_dir: shared,
                            user_data_dir: user,
                            app_name: message("Lexi"),
                        },
                    )
                },
            },
            Phase::Starting(lib) => {
                self.library = Some(lib);
                self.initialized = true;
                self.finish(Ok(Outcome::Initialized))
            },
            Phase::CreatingSession(cmd) => match reply {
                Reply::Session(sid) => if sid == 0 {
                    self.fail("Failed to create RIME session")
                } else {
                    self.session_id = Some(sid);
                    self.proceed(cmd, sid)
                },
                _ => self.fail(""),
            },
            Phase::ProcessingKey(sid) => match reply {
                Reply::Flag(true) => self.read_context(Purpose::Key, sid),
                _ => self.finish(Ok(Outcome::Key(KeyResult::NotHandled))),
            },
            Phase::ReadingContext(p, sid) => match reply {
                Reply::Context(Some(raw)) => if !f.get_commit {
                    self.fail("get_commit not available")
                } else {
                    self.call(Phase::ReadingCommit(p, sid, raw), Call::GetCommit { session: sid })
                },
                _ => match p {
                    Purpose::Key => self.finish(
                        Ok(Outcome::Key(KeyResult::Handled(empty_context_data()))),
                    ),
                    Purpose::Selection => self.finish(Ok(Outcome::Selection(None))),
                },
            },
            Phase::ReadingCommit(p, sid, raw) => match reply {
                Reply::Commit(c) => if !f.free_context {
                    self.fail("free_context not available")
                } else {
                    self.call(Phase::FreeingContext(p, raw, c), Call::FreeContext)
                },
                _ => self.fail(""),
            },
            Phase::FreeingContext(p, raw, c) => {
                let ctx = context_from_raw(&raw, &c);
                match p {
                    Purpose::Key => self.finish(Ok(Outcome::Key(KeyResult::Handled(ctx)))),
                    Purpose::Selection => self.finish(Ok(Outcome::Selection(Some(ctx)))),
                }
            },
            Phase::CheckingCandidates(sid, index) => match reply {
                Reply::Context(Some(raw)) => if !f.free_context {
                    self.fail("free_context not available")
                } else {
                    self.call(Phase::ReleasingChecked(sid, index, raw.num_candidates), Call::FreeContext)
                },
                _ => self.fail("No context available"),
            },
            Phase::ReleasingChecked(sid, index, num) => if index < 0 || index >= num {
                let mut msg = message("Invalid candidate index: ");
                push_signed_decimal(&mut msg, index as i64);
                push_str(&mut msg, " (max: ");
                push_signed_decimal(&mut msg, num as i64 - 1);
                push_str(&mut msg, ")");
                assert(msg@ =~= invalid_index_message(index, num));
                self.finish(Err(msg))
            } else if !f.select_candidate {
                self.fail("select_candidate not available")
            } else {
                self.call(Phase::Selecting(sid), Call::SelectCandidate { session: sid, index })
            },
            Phase::Selecting(sid) => match reply {
                Reply::Flag(true) => self.read_context(Purpose::Selection, sid),
                _ => self.fail("RIME select_candidate failed"),
            },
            Phase::Clearing => self.finish(Ok(Outcome::Cleared)),
            Phase::GettingStatus => match reply {
                Reply::Status(Some(st)) => if !f.free_status {
                    self.fail("free_status not available")
                } else {
                    self.call(Phase::FreeingStatus(st), Call::FreeStatus)
                },
                _ => self.fail("Failed to get RIME status"),
            },
            Phase::FreeingStatus(st) => self.finish(Ok(Outcome::Status(status_from_raw(st)))),
            Phase::DestroyingSession => self.finalize_step(),
            Phase::Finalizing => {
                self.library = None;
                self.initialized = false;
                self.finish(Ok(Outcome::ShutDown))
            },
            Phase::Idle => self.fail(""),
        }
    }
}

fn no_fns_value() -> (f: RimeApi)
    ensures
        f == no_fns(),
{
    RimeApi {
        setup: false,
        initialize: false,
        finalize: false,
        create_session: false,
        destroy_session: false,
        process_key: false,
        clear_composition: false,
        get_commit: false,
        free_commit: false,
        get_context: false,
        free_context: false,
        select_candidate: false,
        get_status: false,
        free_status: false,
    }
}

impl KeyResult {
    /// The context of a handled key, `None` for a key left to the
    /// application.
    pub fn into_context(self) -> (r: Option<ContextData>)
        ensures
            match r {
                Some(c) => self@ == Some(c@),
                None => self@ is None,
            },
    {
        match self {
            KeyResult::Handled(c) => Some(c),
            KeyResult::NotHandled => None,
        }
    }
}

/// How many more replies a request can need in a phase, at most.
pub open spec fn phase_rank(p: Phase) -> nat {
    match p {
        Phase::Idle => 0,
        Phase::Loading => 4,
        Phase::PreparingDirs(_) => 3,
        Phase::CreatingUserDir(_, _, _) => 2,
        Phase::Starting(_) => 1,
        Phase::CreatingSession(_) => 7,
        Phase::ProcessingKey(_) => 4,
        Phase::ReadingContext(_, _) => 3,
        Phase::ReadingCommit(_, _, _) => 2,
        Phase::FreeingContext(_, _, _) => 1,
        Phase::CheckingCandidates(_, _) => 6,
        Phase::ReleasingChecked(_, _, _) => 5,
        Phase::Selecting(_) => 4,
        Phase::Clearing => 1,
        Phase::GettingStatus => 2,
        Phase::FreeingStatus(_) => 1,
        Phase::DestroyingSession => 2,
        Phase::Finalizing => 1,
    }
}

/// No request runs forever: a request begun needs at most seven replies
/// (with `lemma_replies_progress`), and it is finished exactly when the
/// engine is idle again.
pub proof fn lemma_requests_terminate(s: EngineState, req: Request)
    requires
        s.phase is Idle,
    ensures
        phase_rank(begin_spec(s, req).0.phase) <= 7,
        (begin_spec(s, req).1 is Finish) == (begin_spec(s, req).0.phase is Idle),
{
}

/// Every reply moves the engine closer to the end of its request, and the
/// request ends exactly when the engine is idle again.
pub proof fn lemma_replies_progress(s: EngineState, r: Reply)
    requires
        !(s.phase is Idle),
    ensures
        phase_rank(resume_spec(s, r).0.phase) < phase_rank(s.phase),
        (resume_spec(s, r).1 is Finish) == (resume_spec(s, r).0.phase is Idle),
{
}

/// Starting the engine is idempotent: once started, an `Initialize` request
/// ends at once, successfully, with no call and nothing changed.
pub proof fn lemma_initialize_idempotent(s: EngineState)
    requires
        s.phase is Idle,
        s.initialized,
    ensures
        begin_spec(s, Request::Initialize) == finish(s, Ok(OutcomeView::Initialized)),
{
}

/// One session serves all commands: a command begun while a session exists
/// runs in it and does not create another; no reply but the one to a
/// session creation or a shutdown's destruction changes the session.
pub proof fn lemma_session_reused(s: EngineState, cmd: Command, r: Reply)
    requires
        s.session_id is Some,
    ensures
        s.phase is Idle ==> begin_spec(s, Request::Session(cmd)).1 != StepView::Call(
            CallView::CreateSession,
        ),
        s.phase is Idle ==> begin_spec(s, Request::Session(cmd)).0.session_id == s.session_id,
        !(s.phase is Idle) && !(s.phase is CreatingSession) ==> resume_spec(s, r).0.session_id
            == s.session_id,
{
}

/// A candidate is selected only by an index on the current page: the engine
/// asks for a selection only after the context it read counted more than
/// `index` candidates, and `index` is not negative.
pub proof fn lemma_selection_in_range(s: EngineState, r: Reply)
    ensures
        resume_spec(s, r).1 matches StepView::Call(CallView::SelectCandidate { session, index }) ==> (
        s.phase matches Phase::ReleasingChecked(sid, i, num) && sid == session && i == index && 0
            <= index < num),
{
}

/// Whether every session the engine keeps is a real one (not 0).
pub open spec fn session_valid(s: EngineState) -> bool {
    s.session_id matches Some(sid) ==> sid != 0
}

/// Only starting and shutting down change the library and whether the engine
/// is started: a session command never does. The engine never keeps session
/// 0, the value the library returns when it cannot create one.
pub proof fn lemma_library_changes_only_on_start_and_shutdown(s: EngineState, cmd: Command, r: Reply)
    requires
        session_valid(s),
    ensures
        s.phase is Idle ==> {
            let t = begin_spec(s, Request::Session(cmd)).0;
            t.library == s.library && t.initialized == s.initialized && session_valid(t)
        },
        s.phase is Idle ==> session_valid(begin_spec(s, Request::Initialize).0) && session_valid(
            begin_spec(s, Request::Shutdown).0,
        ),
        !(s.phase is Idle || s.phase is Starting || s.phase is DestroyingSession
            || s.phase is Finalizing) ==> {
            let t = resume_spec(s, r).0;
            t.library == s.library && t.initialized == s.initialized
        },
        session_valid(resume_spec(s, r).0),
{
}

/// The engine is started with the documented data layout: the shared data
/// `rime` in the resource directory, the user data `Lexi\rime` in
/// `%LOCALAPPDATA%` (the directory created just before), and the
/// application name "Lexi".
pub proof fn lemma_start_uses_data_dirs(s: EngineState, r: Reply)
    ensures
        resume_spec(s, r).1 matches StepView::Call(CallView::Start { shared_data_dir, user_data_dir, app_name, .. })
            ==> (s.phase matches Phase::CreatingUserDir(_, res, local) && shared_data_dir
            == shared_data_dir_of(res@) && user_data_dir == user_data_dir_of(local@) && app_name
            == "Lexi"@),
        resume_spec(s, r).1 matches StepView::Call(CallView::CreateDir(d)) ==> (r matches Reply::Dirs(
            Ok((_, local)),
        ) && d == user_data_dir_of(local@)),
{
}

/// Whether the engine holds nothing: no library, no session, not started.
pub open spec fn is_fresh(s: EngineState) -> bool {
    &&& s.library is None
    &&& s.session_id is None
    &&& !s.initialized
}

/// A shutdown leaves the engine fresh, whatever the library reports: it
/// destroys the session (if the library can), stops the engine (if it was
/// started and the library can), and ends with `ShutDown`, after at most two
/// calls.
pub proof fn lemma_shutdown_resets(s: EngineState)
    requires
        s.phase is Idle,
    ensures
        ({
            let (s1, st1) = begin_spec(s, Request::Shutdown);
            let (s2, st2) = resume_spec(s1, Reply::Done);
            let (s3, st3) = resume_spec(s2, Reply::Done);
            ||| st1 == StepView::Finish(Ok(OutcomeView::ShutDown)) && is_fresh(s1)
            ||| st2 == StepView::Finish(Ok(OutcomeView::ShutDown)) && is_fresh(s2)
            ||| st3 == StepView::Finish(Ok(OutcomeView::ShutDown)) && is_fresh(s3)
        }),
{
}


/// The text of a C string as the engine reports it: the decoded bytes when
/// they are valid UTF-8, empty for a null pointer or invalid bytes.
pub open spec fn c_string_text(b: Option<Vec<u8>>) -> Seq<char> {
    match b {
        Some(v) => if vstd::utf8::valid_utf8(v@) {
            vstd::utf8::decode_utf8(v@)
        } else {
            Seq::empty()
        },
        None => Seq::empty(),
    }
}

/// The text committed by a commit reply: the bytes decoded with
/// replacement characters, empty when nothing or a null text was committed.
pub open spec fn committed_text(c: Option<RimeCommit>) -> Seq<char> {
    match c {
        Some(cm) => match cm.text {
            Some(b) => lossy_utf8(b@),
            None => Seq::empty(),
        },
        None => Seq::empty(),
    }
}

/// The context that ends a key or a selection is the one the library
/// reported, field by field: after the context reply the commit is read,
/// after the commit reply the context is freed, and the result then carries
/// the context's preedit, its menu's candidates, page, last-page flag
/// (the C boolean 1) and highlight, and exactly the text of the commit reply
/// (for a selection as for a key).
pub proof fn lemma_context_reported(s: EngineState, p: Purpose, sid: i32, raw: RimeContext, c: Option<RimeCommit>)
    requires
        s.phase == Phase::ReadingContext(p, sid),
        fns_of(s.library).get_commit,
        fns_of(s.library).free_context,
    ensures
        ({
            let (s1, st1) = resume_spec(s, Reply::Context(Some(raw)));
            let (s2, st2) = resume_spec(s1, Reply::Commit(c));
            let (s3, st3) = resume_spec(s2, Reply::Done);
            &&& st1 == StepView::Call(CallView::GetCommit { session: sid })
            &&& st2 == StepView::Call(CallView::FreeContext)
            &&& s3.phase is Idle
            &&& s3.session_id == s.session_id
            &&& st3 matches StepView::Finish(Ok(o)) && match o {
                OutcomeView::Key(Some(v)) | OutcomeView::Selection(Some(v)) => {
                    &&& (o is Key <==> p == Purpose::Key)
                    &&& v.preedit == c_string_text(raw.preedit)
                    &&& v.candidates == menu_candidates(raw)
                    &&& v.page_no == raw.page_no
                    &&& v.is_last_page == (raw.is_last_page == 1)
                    &&& v.highlighted_index == raw.highlighted_index
                    &&& v.commit_text == committed_text(c)
                },
                _ => false,
            }
        }),
{
}

proof fn lemma_candidate_list(cs: Seq<RimeCandidate>)
    ensures
        candidate_list(cs).len() <= cs.len(),
        (forall|i: int| 0 <= i < cs.len() ==> (#[trigger] cs[i]).text is Some) ==> {
            &&& candidate_list(cs).len() == cs.len()
            &&& forall|i: int|
                0 <= i < cs.len() ==> #[trigger] candidate_list(cs)[i] == (
                    c_string_text(cs[i].text),
                    c_string_text(cs[i].comment),
                )
        },
    decreases cs.len(),
{
    if cs.len() > 0 {
        let d = cs.drop_last();
        lemma_candidate_list(d);
        if forall|i: int| 0 <= i < cs.len() ==> (#[trigger] cs[i]).text is Some {
            assert forall|i: int| 0 <= i < d.len() implies (#[trigger] d[i]).text is Some by {
                assert(d[i] == cs[i]);
            }
            assert(cs[cs.len() - 1].text is Some);
            assert forall|i: int| 0 <= i < cs.len() implies #[trigger] candidate_list(cs)[i] == (
                c_string_text(cs[i].text),
                c_string_text(cs[i].comment),
            ) by {
                if i < d.len() {
                    assert(d[i] == cs[i]);
                    assert(candidate_list(cs)[i] == candidate_list(d)[i]);
                }
            }
        }
    }
}

/// The candidates of a menu are those of the first `num_candidates` entries
/// of its array: none for a null array or a count that is not positive,
/// never more than the count or the array, and, when every entry has a
/// text, exactly one per counted entry, in order, each the decoded text and
/// comment of its entry.
pub proof fn lemma_menu_candidates(raw: RimeContext)
    ensures
        raw.candidates is None || raw.num_candidates <= 0 ==> menu_candidates(raw).len() == 0,
        raw.candidates matches Some(cs) ==> menu_candidates(raw).len() <= cs@.len(),
        raw.num_candidates > 0 ==> menu_candidates(raw).len() <= raw.num_candidates,
        raw.candidates matches Some(cs) ==> (0 < raw.num_candidates <= cs@.len() && forall|i: int|
            0 <= i < raw.num_candidates ==> (#[trigger] cs@[i]).text is Some) ==> {
            &&& menu_candidates(raw).len() == raw.num_candidates
            &&& forall|i: int|
                0 <= i < raw.num_candidates ==> #[trigger] menu_candidates(raw)[i] == (
                    c_string_text(cs@[i].text),
                    c_string_text(cs@[i].comment),
                )
        },
{
    match raw.candidates {
        None => {},
        Some(cs) => {
            let n = menu_count(raw.num_candidates, cs@.len());
            let t = cs@.take(n as int);
            lemma_candidate_list(t);
            if raw.num_candidates <= 0 {
                assert(t.len() == 0);
            }
            if 0 < raw.num_candidates <= cs@.len() && forall|i: int|
                0 <= i < raw.num_candidates ==> (#[trigger] cs@[i]).text is Some {
                assert forall|i: int| 0 <= i < t.len() implies (#[trigger] t[i]).text is Some by {
                    assert(t[i] == cs@[i]);
                }
                assert forall|i: int| 0 <= i < raw.num_candidates implies #[trigger] menu_candidates(raw)[i]
                    == (c_string_text(cs@[i].text), c_string_text(cs@[i].comment)) by {
                    assert(t[i] == cs@[i]);
                }
            }
        },
    }
}

/// A selection of a candidate on the current page goes through: when the
/// context read for the check counts more than `index` candidates (and
/// `index` is not negative), the context is freed, the candidate is
/// selected in the session, and once the library confirms, the new context
/// is read for the selection (see `lemma_context_reported`).
pub proof fn lemma_selection_proceeds(s: EngineState, sid: i32, index: i32, raw: RimeContext)
    requires
        s.phase == Phase::CheckingCandidates(sid, index),
        fns_of(s.library).free_context,
        fns_of(s.library).select_candidate,
        fns_of(s.library).get_context,
        0 <= index < raw.num_candidates,
    ensures
        ({
            let (s1, st1) = resume_spec(s, Reply::Context(Some(raw)));
            let (s2, st2) = resume_spec(s1, Reply::Done);
            let (s3, st3) = resume_spec(s2, Reply::Flag(true));
            &&& st1 == StepView::Call(CallView::FreeContext)
            &&& st2 == StepView::Call(CallView::SelectCandidate { session: sid, index })
            &&& st3 == StepView::Call(CallView::GetContext { session: sid })
            &&& s3.phase == Phase::ReadingContext(Purpose::Selection, sid)
            &&& s3.library == s.library
        }),
{
}

/// The status reported is the library's, each flag from its own C boolean
/// (any non-zero value is true): after the status reply the status is freed
/// and the request ends with that status; without a status it fails.
pub proof fn lemma_status_reported(s: EngineState, st: RimeStatus)
    requires
        s.phase is GettingStatus,
        fns_of(s.library).free_status,
    ensures
        ({
            let (s1, st1) = resume_spec(s, Reply::Status(Some(st)));
            let (s2, st2) = resume_spec(s1, Reply::Done);
            &&& st1 == StepView::Call(CallView::FreeStatus)
            &&& st2 matches StepView::Finish(Ok(OutcomeView::Status(d))) && d.is_composing == (
            st.is_composing != 0) && d.is_ascii_mode == (st.is_ascii_mode != 0)
        }),
        resume_spec(s, Reply::Status(None)).1 == StepView::Finish(Err("Failed to get RIME status"@)),
{
}

/// A shutdown of a started engine stops the library, whether or not a
/// session exists: the session (if any) is destroyed first, then the
/// library is finalized, and only after that does the shutdown end, leaving
/// the engine fresh. An engine that was never started is not finalized.
pub proof fn lemma_shutdown_finalizes(s: EngineState)
    requires
        s.phase is Idle,
    ensures
        s.initialized && api_fns(s.library) is Ok ==> ({
            let (s1, st1) = begin_spec(s, Request::Shutdown);
            match s.session_id {
                None => {
                    &&& st1 == StepView::Call(CallView::Finalize)
                    &&& resume_spec(s1, Reply::Done).1 == StepView::Finish(Ok(OutcomeView::ShutDown))
                    &&& is_fresh(resume_spec(s1, Reply::Done).0)
                },
                Some(sid) => {
                    let (s2, st2) = resume_spec(s1, Reply::Done);
                    &&& st1 == StepView::Call(CallView::DestroySession { session: sid })
                    &&& st2 == StepView::Call(CallView::Finalize)
                    &&& resume_spec(s2, Reply::Done).1 == StepView::Finish(Ok(OutcomeView::ShutDown))
                    &&& is_fresh(resume_spec(s2, Reply::Done).0)
                },
            }
        }),
        !s.initialized ==> ({
            let (s1, st1) = begin_spec(s, Request::Shutdown);
            &&& st1 != StepView::Call(CallView::Finalize)
            &&& resume_spec(s1, Reply::Done).1 != StepView::Call(CallView::Finalize)
        }),
{
}


/// A key the library did not process ends the request as not handled, with
/// no further call; a processed key has its context read from the same
/// session. When the library then reports no context, the key still counts
/// as handled, with an empty context on a single last page.
pub proof fn lemma_key_outcomes(s: EngineState, sid: i32)
    ensures
        s.phase == Phase::ProcessingKey(sid) ==> resume_spec(s, Reply::Flag(false)).1
            == StepView::Finish(Ok(OutcomeView::Key(None))),
        s.phase == Phase::ProcessingKey(sid) && fns_of(s.library).get_context ==> resume_spec(
            s,
            Reply::Flag(true),
        ).1 == StepView::Call(CallView::GetContext { session: sid }),
        s.phase == Phase::ReadingContext(Purpose::Key, sid) ==> (resume_spec(s, Reply::Context(None)).1 matches StepView::Finish(
            Ok(OutcomeView::Key(Some(v))),
        ) && v.preedit.len() == 0 && v.candidates.len() == 0 && v.commit_text.len() == 0
            && v.page_no == 0 && v.is_last_page && v.highlighted_index == 0),
        s.phase == Phase::ReadingContext(Purpose::Selection, sid) ==> resume_spec(s, Reply::Context(None)).1
            == StepView::Finish(Ok(OutcomeView::Selection(None))),
{
}

} // verus!
