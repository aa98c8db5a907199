//! Failures and the recovery from them.
//!
//! A failure is handled or unhandled. A handled failure is one that the user
//! can mend: it says what it is, what would be skipped, and what mends it. An
//! unhandled failure ends the run. A step that may fail is run by a small
//! state machine: the caller runs the step, asks the user and performs the
//! remedy, and tells the machine what came of each.

use crate::cli::{
    picks_action, skip_dialog, skip_question, success, success_label, error_label, is_labelled,
    texts, Invocation, InvocationView, SkipDialog,
};
use crate::theme::spicetify::error::SpicetifyNotInstalledError;
use crate::theme::spicetify::{
    Spicetify, SpicetifyThemeNotFoundError, SpicetifyView, ThemeSpicetify, ThemeSpicetifyView,
};
use crate::theme::wallpaper_engine::error::{InstallationNotFoundError, WallpaperNotFoundError};
use crate::vdf::VdfError;
use reqwest::Error as HttpError;
use serde_json::Error as JsonError;
use std::io::Error as IoError;
use vstd::prelude::*;
use zip::result::ZipError;

verus! {

#[verifier::external_type_specification]
#[verifier::external_body]
pub struct ExIoError(IoError);

#[verifier::external_type_specification]
#[verifier::external_body]
pub struct ExJsonError(JsonError);

#[verifier::external_type_specification]
#[verifier::external_body]
pub struct ExHttpError(HttpError);

#[verifier::external_type_specification]
#[verifier::external_body]
pub struct ExZipError(ZipError);

/// A failure that nothing mends: it ends the run.
#[derive(Debug)]
pub enum UnhandledError {
    /// A document is no valid JSON, or not of the expected shape.
    SerdeJSON(JsonError),
    /// A library manifest lacks what it is expected to hold.
    VdfError(VdfError),
    /// The system refused to read, write or start something.
    IOError(IoError),
    /// An archive could not be fetched.
    Reqwest(HttpError),
    /// An archive could not be read.
    Zip(ZipError),
    /// A skin is missing and the theme gives no address to get it from.
    FailedToDownloadTheme,
}

/// What mends a handled failure.
#[derive(Debug)]
pub enum Remedy {
    /// Nothing is known that mends it.
    Unavailable,
    /// Run a command, then show a prompt and wait until the user confirms.
    OpenAndWait { command: Invocation, prompt: String },
    /// Fetch the archive of a skin and unpack it into an installation of the
    /// skinning tool, saying `notice` before and `done` after.
    DownloadTheme { spicetify: Spicetify, theme: ThemeSpicetify, notice: String, done: String },
}

/// The mathematical content of a [`Remedy`].
pub enum RemedyView {
    Unavailable,
    OpenAndWait { command: InvocationView, prompt: Seq<char> },
    DownloadTheme {
        spicetify: SpicetifyView,
        theme: ThemeSpicetifyView,
        notice: Seq<char>,
        done: Seq<char>,
    },
}

impl View for Remedy {
    type V = RemedyView;

    open spec fn view(&self) -> RemedyView {
        match self {
            Remedy::Unavailable => RemedyView::Unavailable,
            Remedy::OpenAndWait { command, prompt } => RemedyView::OpenAndWait {
                command: command@,
                prompt: prompt@,
            },
            Remedy::DownloadTheme { spicetify, theme, notice, done } => RemedyView::DownloadTheme {
                spicetify: spicetify@,
                theme: theme@,
                notice: notice@,
                done: done@,
            },
        }
    }
}

/// A failure that the user can mend.
pub trait HandledError {
    /// What has failed, in a sentence.
    spec fn spec_to_string(&self) -> Seq<char>;

    /// What is skipped where the user does not mend the failure.
    spec fn spec_item(&self) -> Seq<char>;

    /// What the user does to mend the failure.
    spec fn spec_action(&self) -> Seq<char>;

    /// What mends the failure.
    spec fn spec_handle(&self) -> RemedyView;

    /// What has failed, in a sentence.
    fn to_string(&self) -> (r: String)
        ensures
            r@ == self.spec_to_string(),
    ;

    /// What is skipped where the user does not mend the failure.
    fn item(&self) -> (r: &'static str)
        ensures
            r@ == self.spec_item(),
    ;

    /// What the user does to mend the failure.
    fn action(&self) -> (r: &'static str)
        ensures
            r@ == self.spec_action(),
    ;

    /// What mends the failure.
    fn handle(&self) -> (r: Remedy)
        ensures
            r@ == self.spec_handle(),
    ;
}

/// The handled failures, each with what it needs to be mended.
#[derive(Debug)]
pub enum HandledErrorKind {
    InstallationNotFound(InstallationNotFoundError),
    WallpaperNotFound(WallpaperNotFoundError),
    SpicetifyNotInstalled(SpicetifyNotInstalledError),
    SpicetifyThemeNotFound(SpicetifyThemeNotFoundError),
}

impl HandledError for HandledErrorKind {
    open spec fn spec_to_string(&self) -> Seq<char> {
        match self {
            HandledErrorKind::InstallationNotFound(e) => e.spec_to_string(),
            HandledErrorKind::WallpaperNotFound(e) => e.spec_to_string(),
            HandledErrorKind::SpicetifyNotInstalled(e) => e.spec_to_string(),
            HandledErrorKind::SpicetifyThemeNotFound(e) => e.spec_to_string(),
        }
    }

    open spec fn spec_item(&self) -> Seq<char> {
        match self {
            HandledErrorKind::InstallationNotFound(e) => e.spec_item(),
            HandledErrorKind::WallpaperNotFound(e) => e.spec_item(),
            HandledErrorKind::SpicetifyNotInstalled(e) => e.spec_item(),
            HandledErrorKind::SpicetifyThemeNotFound(e) => e.spec_item(),
        }
    }

    open spec fn spec_action(&self) -> Seq<char> {
        match self {
            HandledErrorKind::InstallationNotFound(e) => e.spec_action(),
            HandledErrorKind::WallpaperNotFound(e) => e.spec_action(),
            HandledErrorKind::SpicetifyNotInstalled(e) => e.spec_action(),
            HandledErrorKind::SpicetifyThemeNotFound(e) => e.spec_action(),
        }
    }

    open spec fn spec_handle(&self) -> RemedyView {
        match self {
            HandledErrorKind::InstallationNotFound(e) => e.spec_handle(),
            HandledErrorKind::WallpaperNotFound(e) => e.spec_handle(),
            HandledErrorKind::SpicetifyNotInstalled(e) => e.spec_handle(),
            HandledErrorKind::SpicetifyThemeNotFound(e) => e.spec_handle(),
        }
    }

    fn to_string(&self) -> (r: String) {
        match self {
            HandledErrorKind::InstallationNotFound(e) => e.to_string(),
            HandledErrorKind::WallpaperNotFound(e) => e.to_string(),
            HandledErrorKind::SpicetifyNotInstalled(e) => e.to_string(),
            HandledErrorKind::SpicetifyThemeNotFound(e) => e.to_string(),
        }
    }

    fn item(&self) -> (r: &'static str) {
        match self {
            HandledErrorKind::InstallationNotFound(e) => e.item(),
            HandledErrorKind::WallpaperNotFound(e) => e.item(),
            HandledErrorKind::SpicetifyNotInstalled(e) => e.item(),
            HandledErrorKind::SpicetifyThemeNotFound(e) => e.item(),
        }
    }

    fn action(&self) -> (r: &'static str) {
        match self {
            HandledErrorKind::InstallationNotFound(e) => e.action(),
            HandledErrorKind::WallpaperNotFound(e) => e.action(),
            HandledErrorKind::SpicetifyNotInstalled(e) => e.action(),
            HandledErrorKind::SpicetifyThemeNotFound(e) => e.action(),
        }
    }

    fn handle(&self) -> (r: Remedy) {
        match self {
            HandledErrorKind::InstallationNotFound(e) => e.handle(),
            HandledErrorKind::WallpaperNotFound(e) => e.handle(),
            HandledErrorKind::SpicetifyNotInstalled(e) => e.handle(),
            HandledErrorKind::SpicetifyThemeNotFound(e) => e.handle(),
        }
    }
}

/// A failure of a step: one that the user can mend, or one that ends the run.
#[derive(Debug)]
pub enum Error {
    HandledError(HandledErrorKind),
    UnhandledError(UnhandledError),
}

/// A failure that nothing mends, as the failure of a step.
impl From<UnhandledError> for Error {
    fn from(value: UnhandledError) -> (r: Error) {
        Error::UnhandledError(value)
    }
}

impl vstd::std_specs::convert::FromSpecImpl<UnhandledError> for Error {
    open spec fn obeys_from_spec() -> bool {
        true
    }

    open spec fn from_spec(value: UnhandledError) -> Error {
        Error::UnhandledError(value)
    }
}

/// A failure that the user can mend, as the failure of a step.
impl From<HandledErrorKind> for Error {
    fn from(value: HandledErrorKind) -> (r: Error) {
        Error::HandledError(value)
    }
}

impl vstd::std_specs::convert::FromSpecImpl<HandledErrorKind> for Error {
    open spec fn obeys_from_spec() -> bool {
        true
    }

    open spec fn from_spec(value: HandledErrorKind) -> Error {
        Error::HandledError(value)
    }
}

/// A refusal of the system ends the run.
impl From<IoError> for Error {
    fn from(value: IoError) -> (r: Error) {
        Error::UnhandledError(UnhandledError::IOError(value))
    }
}

impl vstd::std_specs::convert::FromSpecImpl<IoError> for Error {
    open spec fn obeys_from_spec() -> bool {
        true
    }

    open spec fn from_spec(value: IoError) -> Error {
        Error::UnhandledError(UnhandledError::IOError(value))
    }
}

/// A document that cannot be read ends the run.
impl From<JsonError> for Error {
    fn from(value: JsonError) -> (r: Error) {
        Error::UnhandledError(UnhandledError::SerdeJSON(value))
    }
}

impl vstd::std_specs::convert::FromSpecImpl<JsonError> for Error {
    open spec fn obeys_from_spec() -> bool {
        true
    }

    open spec fn from_spec(value: JsonError) -> Error {
        Error::UnhandledError(UnhandledError::SerdeJSON(value))
    }
}

/// A manifest that lacks what is expected ends the run.
impl From<VdfError> for Error {
    fn from(value: VdfError) -> (r: Error) {
        Error::UnhandledError(UnhandledError::VdfError(value))
    }
}

impl vstd::std_specs::convert::FromSpecImpl<VdfError> for Error {
    open spec fn obeys_from_spec() -> bool {
        true
    }

    open spec fn from_spec(value: VdfError) -> Error {
        Error::UnhandledError(UnhandledError::VdfError(value))
    }
}

/// An archive that cannot be fetched ends the run.
impl From<HttpError> for Error {
    fn from(value: HttpError) -> (r: Error) {
        Error::UnhandledError(UnhandledError::Reqwest(value))
    }
}

impl vstd::std_specs::convert::FromSpecImpl<HttpError> for Error {
    open spec fn obeys_from_spec() -> bool {
        true
    }

    open spec fn from_spec(value: HttpError) -> Error {
        Error::UnhandledError(UnhandledError::Reqwest(value))
    }
}

/// An archive that cannot be read ends the run.
impl From<ZipError> for Error {
    fn from(value: ZipError) -> (r: Error) {
        Error::UnhandledError(UnhandledError::Zip(value))
    }
}

impl vstd::std_specs::convert::FromSpecImpl<ZipError> for Error {
    open spec fn obeys_from_spec() -> bool {
        true
    }

    open spec fn from_spec(value: ZipError) -> Error {
        Error::UnhandledError(UnhandledError::Zip(value))
    }
}

/// A missing wallpaper manager can be mended.
impl From<InstallationNotFoundError> for Error {
    fn from(value: InstallationNotFoundError) -> (r: Error) {
        Error::HandledError(HandledErrorKind::InstallationNotFound(value))
    }
}

impl vstd::std_specs::convert::FromSpecImpl<InstallationNotFoundError> for Error {
    open spec fn obeys_from_spec() -> bool {
        true
    }

    open spec fn from_spec(value: InstallationNotFoundError) -> Error {
        Error::HandledError(HandledErrorKind::InstallationNotFound(value))
    }
}

/// A missing wallpaper can be mended.
impl From<WallpaperNotFoundError> for Error {
    fn from(value: WallpaperNotFoundError) -> (r: Error) {
        Error::HandledError(HandledErrorKind::WallpaperNotFound(value))
    }
}

impl vstd::std_specs::convert::FromSpecImpl<WallpaperNotFoundError> for Error {
    open spec fn obeys_from_spec() -> bool {
        true
    }

    open spec fn from_spec(value: WallpaperNotFoundError) -> Error {
        Error::HandledError(HandledErrorKind::WallpaperNotFound(value))
    }
}

/// A missing skinning tool can be mended.
impl From<SpicetifyNotInstalledError> for Error {
    fn from(value: SpicetifyNotInstalledError) -> (r: Error) {
        Error::HandledError(HandledErrorKind::SpicetifyNotInstalled(value))
    }
}

impl vstd::std_specs::convert::FromSpecImpl<SpicetifyNotInstalledError> for Error {
    open spec fn obeys_from_spec() -> bool {
        true
    }

    open spec fn from_spec(value: SpicetifyNotInstalledError) -> Error {
        Error::HandledError(HandledErrorKind::SpicetifyNotInstalled(value))
    }
}

/// A missing skin can be mended.
impl From<SpicetifyThemeNotFoundError> for Error {
    fn from(value: SpicetifyThemeNotFoundError) -> (r: Error) {
        Error::HandledError(HandledErrorKind::SpicetifyThemeNotFound(value))
    }
}

impl vstd::std_specs::convert::FromSpecImpl<SpicetifyThemeNotFoundError> for Error {
    open spec fn obeys_from_spec() -> bool {
        true
    }

    open spec fn from_spec(value: SpicetifyThemeNotFoundError) -> Error {
        Error::HandledError(HandledErrorKind::SpicetifyThemeNotFound(value))
    }
}

/// Where a step stands. The state says what the caller does next: in
/// `Pending` it runs the step, in `Offered` it asks the user, in `Remedying`
/// it performs the remedy and reports whether the remedy failed; `Success`
/// and `Abandoned` hand control back, the first with the step's result;
/// `Fatal` ends the run.
#[derive(Debug)]
pub enum StepState<R> {
    /// The step is to be run.
    Pending,
    /// The step failed in a way that can be mended; the user is asked whether
    /// to skip or to mend.
    Offered(HandledErrorKind),
    /// The user chose to mend; the remedy is under way.
    Remedying(HandledErrorKind),
    /// The step returned a result.
    Success(R),
    /// The user chose to skip.
    Abandoned,
    /// The step, or the remedy of its failure, failed beyond mending.
    Fatal(UnhandledError),
}

/// What the caller reports to the machine.
#[derive(Debug)]
pub enum StepEvent<R> {
    /// The step was run and returned.
    Returned(Result<R, Error>),
    /// The user picked an entry of the dialog, or left it without picking.
    Picked(Option<usize>),
    /// The remedy was performed.
    Remedied,
    /// The remedy failed.
    RemedyFailed(Error),
}

impl<R> StepState<R> {
    /// The state after `event`. An event that the state does not wait for
    /// changes nothing.
    pub open spec fn spec_advance(self, event: StepEvent<R>) -> StepState<R> {
        match (self, event) {
            (StepState::Pending, StepEvent::Returned(Ok(value))) => StepState::Success(value),
            (StepState::Pending, StepEvent::Returned(Err(Error::HandledError(error)))) => {
                StepState::Offered(error)
            },
            (StepState::Pending, StepEvent::Returned(Err(Error::UnhandledError(error)))) => {
                StepState::Fatal(error)
            },
            (StepState::Offered(error), StepEvent::Picked(picked)) => {
                if picks_action(picked) {
                    StepState::Remedying(error)
                } else {
                    StepState::Abandoned
                }
            },
            (StepState::Remedying(_), StepEvent::Remedied) => StepState::Pending,
            (StepState::Remedying(_), StepEvent::RemedyFailed(Error::UnhandledError(failure))) => {
                StepState::Fatal(failure)
            },
            (StepState::Remedying(_), StepEvent::RemedyFailed(Error::HandledError(failure))) => {
                StepState::Offered(failure)
            },
            (state, _) => state,
        }
    }

    /// The state after a sequence of events, one after the other.
    pub open spec fn spec_run(self, events: Seq<StepEvent<R>>) -> StepState<R>
        decreases events.len(),
    {
        if events.len() == 0 {
            self
        } else {
            self.spec_advance(events.first()).spec_run(events.drop_first())
        }
    }

    /// Whether the step is over: nothing that is reported changes the state.
    pub open spec fn is_terminal(self) -> bool {
        self is Success || self is Abandoned || self is Fatal
    }

    /// Whether the step is over.
    pub fn is_over(&self) -> (r: bool)
        ensures
            r == self.is_terminal(),
    {
        match self {
            StepState::Success(_) => true,
            StepState::Abandoned => true,
            StepState::Fatal(_) => true,
            _ => false,
        }
    }

    /// The dialog to put before the user, where the state waits for a choice:
    /// the failure's description as the prompt, its item to skip and its
    /// action to take.
    pub fn dialog(&self) -> (r: Option<SkipDialog>)
        ensures
            r is Some <==> self is Offered,
            r matches Some(dialog) ==> {
                &&& is_labelled(
                    dialog.prompt@,
                    error_label(),
                    skip_question(self->Offered_0.spec_to_string()),
                )
                &&& texts(dialog.items@) == seq![
                    "Skip "@ + self->Offered_0.spec_item(),
                    self->Offered_0.spec_action(),
                ]
                &&& dialog.default == 0
            },
    {
        match self {
            StepState::Offered(error) => {
                let description = error.to_string();
                Some(skip_dialog(description.as_str(), error.item(), error.action()))
            },
            _ => None,
        }
    }

    /// The remedy to perform, where the state waits for one.
    pub fn remedy(&self) -> (r: Option<Remedy>)
        ensures
            r is Some <==> self is Remedying,
            r matches Some(remedy) ==> remedy@ == self->Remedying_0.spec_handle(),
    {
        match self {
            StepState::Remedying(error) => Some(error.handle()),
            _ => None,
        }
    }

    /// The line that announces the success of the step: there is one where
    /// the step has succeeded and a message was given for that.
    pub fn banner(&self, success_msg: Option<&str>) -> (r: Option<String>)
        ensures
            r is Some <==> self is Success && success_msg is Some,
            r matches Some(line) ==> is_labelled(line@, success_label(), success_msg->0@),
    {
        match (self, success_msg) {
            (StepState::Success(_), Some(message)) => Some(success(message)),
            _ => None,
        }
    }

    /// What a step that is over and has not failed beyond mending hands back:
    /// its result, or nothing where it was skipped. A step that is not over,
    /// or has failed beyond mending, hands the state back.
    pub fn finish(self) -> (r: Result<Option<R>, StepState<R>>)
        ensures
            r == match self {
                StepState::Success(value) => Ok::<Option<R>, StepState<R>>(Some(value)),
                StepState::Abandoned => Ok(None),
                other => Err(other),
            },
    {
        match self {
            StepState::Success(value) => Ok(Some(value)),
            StepState::Abandoned => Ok(None),
            other => Err(other),
        }
    }
}

impl Error {
    /// The first state of a step: it is to be run.
    pub fn start_step<R>() -> (r: StepState<R>)
        ensures
            r is Pending,
    {
        StepState::Pending
    }

    /// One move of a step that may fail: the state after `event`.
    ///
    /// A step that returns a result has succeeded. One that fails in a way
    /// that can be mended is offered to the user: skipping abandons the
    /// step, taking the action leads to the remedy and, once that is
    /// performed, to the step being run again, as often as that happens. One
    /// that fails beyond mending is fatal, and so is one whose remedy fails
    /// beyond mending. A remedy that fails in a way that can be mended is
    /// offered to the user in its turn.
    pub fn error_prone_step<R>(state: StepState<R>, event: StepEvent<R>) -> (next: StepState<R>)
        ensures
            next == state.spec_advance(event),
    {
        match state {
            StepState::Pending => match event {
                StepEvent::Returned(Ok(value)) => StepState::Success(value),
                StepEvent::Returned(Err(Error::HandledError(error))) => StepState::Offered(error),
                StepEvent::Returned(Err(Error::UnhandledError(error))) => StepState::Fatal(error),
                StepEvent::Picked(_) => StepState::Pending,
                StepEvent::Remedied => StepState::Pending,
                StepEvent::RemedyFailed(_) => StepState::Pending,
            },
            StepState::Offered(error) => match event {
                StepEvent::Picked(picked) => {
                    if crate::cli::action_picked(picked) {
                        StepState::Remedying(error)
                    } else {
                        StepState::Abandoned
                    }
                },
                StepEvent::Returned(_) => StepState::Offered(error),
                StepEvent::Remedied => StepState::Offered(error),
                StepEvent::RemedyFailed(_) => StepState::Offered(error),
            },
            StepState::Remedying(error) => match event {
                StepEvent::Remedied => StepState::Pending,
                StepEvent::RemedyFailed(Error::UnhandledError(failure)) => StepState::Fatal(failure),
                StepEvent::RemedyFailed(Error::HandledError(failure)) => StepState::Offered(failure),
                StepEvent::Returned(_) => StepState::Remedying(error),
                StepEvent::Picked(_) => StepState::Remedying(error),
            },
            StepState::Success(value) => StepState::Success(value),
            StepState::Abandoned => StepState::Abandoned,
            StepState::Fatal(error) => StepState::Fatal(error),
        }
    }
}

/// The events of one round of mending: the step fails with `error`, the user
/// takes the action, the remedy is performed.
pub open spec fn mended<R>(error: HandledErrorKind) -> Seq<StepEvent<R>> {
    seq![
        StepEvent::Returned(Err(Error::HandledError(error))),
        StepEvent::Picked(Some(crate::cli::ACTION_ENTRY)),
        StepEvent::Remedied,
    ]
}

/// The events of several rounds of mending, one for each of `errors`.
pub open spec fn mended_all<R>(errors: Seq<HandledErrorKind>) -> Seq<StepEvent<R>>
    decreases errors.len(),
{
    if errors.len() == 0 {
        Seq::empty()
    } else {
        mended::<R>(errors.first()) + mended_all::<R>(errors.drop_first())
    }
}

/// Running a sequence of events and then another is running the two in a row.
pub proof fn lemma_run_in_turn<R>(
    state: StepState<R>,
    first: Seq<StepEvent<R>>,
    second: Seq<StepEvent<R>>,
)
    ensures
        state.spec_run(first + second) == state.spec_run(first).spec_run(second),
    decreases first.len(),
{
    if first.len() == 0 {
        assert(first + second =~= second);
    } else {
        assert((first + second).first() == first.first());
        assert((first + second).drop_first() =~= first.drop_first() + second);
        lemma_run_in_turn(state.spec_advance(first.first()), first.drop_first(), second);
    }
}

/// A step that is over stays as it is, whatever is reported.
pub proof fn lemma_terminal_is_final<R>(state: StepState<R>, events: Seq<StepEvent<R>>)
    requires
        state.is_terminal(),
    ensures
        state.spec_run(events) == state,
    decreases events.len(),
{
    if events.len() > 0 {
        lemma_terminal_is_final(state, events.drop_first());
    }
}

/// After a round of mending the step is to be run again.
pub proof fn lemma_mended_is_pending<R>(error: HandledErrorKind)
    ensures
        StepState::<R>::Pending.spec_run(mended::<R>(error)) == StepState::<R>::Pending,
{
    let events = mended::<R>(error);
    let offered = StepState::<R>::Pending.spec_advance(events[0]);
    assert(offered == StepState::<R>::Offered(error));
    let rest = events.drop_first();
    assert(rest[0] == StepEvent::<R>::Picked(Some(crate::cli::ACTION_ENTRY)));
    let remedying = offered.spec_advance(rest[0]);
    assert(remedying == StepState::<R>::Remedying(error));
    let last = rest.drop_first();
    assert(last[0] == StepEvent::<R>::Remedied);
    let pending = remedying.spec_advance(last[0]);
    assert(pending == StepState::<R>::Pending);
    assert(last.drop_first().len() == 0);
    assert(pending.spec_run(last.drop_first()) == pending);
    assert(remedying.spec_run(last) == pending);
    assert(offered.spec_run(rest) == pending);
}

/// A step that fails in a way that can be mended, is mended, and then
/// returns a result has succeeded with that result: the run after the
/// remedy decides, not the failure before it.
pub proof fn lemma_retry_after_remedy_succeeds<R>(error: HandledErrorKind, value: R)
    ensures
        StepState::<R>::Pending.spec_run(
            mended::<R>(error) + seq![StepEvent::Returned(Ok(value))],
        ) == StepState::Success(value),
{
    lemma_retries_are_unbounded::<R>(seq![error], value);
    assert(seq![error].drop_first() =~= Seq::<HandledErrorKind>::empty());
    assert(mended_all::<R>(Seq::<HandledErrorKind>::empty()) =~= Seq::<StepEvent<R>>::empty());
    assert(mended_all::<R>(seq![error]) =~= mended::<R>(error));
}

/// However many rounds of mending a step goes through, it is run again after
/// each, and succeeds with the result that it returns in the end.
pub proof fn lemma_retries_are_unbounded<R>(errors: Seq<HandledErrorKind>, value: R)
    ensures
        StepState::<R>::Pending.spec_run(
            mended_all::<R>(errors) + seq![StepEvent::Returned(Ok(value))],
        ) == StepState::Success(value),
    decreases errors.len(),
{
    let last = seq![StepEvent::<R>::Returned(Ok(value))];
    if errors.len() == 0 {
        assert(mended_all::<R>(errors) + last =~= last);
        assert(last.drop_first().len() == 0);
        let done = StepState::<R>::Pending.spec_advance(last[0]);
        assert(done.spec_run(last.drop_first()) == done);
    } else {
        let round = mended::<R>(errors.first());
        let rest = mended_all::<R>(errors.drop_first());
        assert(mended_all::<R>(errors) + last =~= round + (rest + last));
        lemma_run_in_turn(StepState::<R>::Pending, round, rest + last);
        lemma_mended_is_pending::<R>(errors.first());
        lemma_retries_are_unbounded::<R>(errors.drop_first(), value);
    }
}

/// A step that fails in a way that can be mended is abandoned where the user
/// skips it or leaves the dialog: nothing is mended and nothing is run again.
pub proof fn lemma_skip_abandons<R>(error: HandledErrorKind, picked: Option<usize>)
    requires
        !picks_action(picked),
    ensures
        StepState::<R>::Pending.spec_advance(
            StepEvent::Returned(Err(Error::HandledError(error))),
        ).spec_advance(StepEvent::Picked(picked)) == StepState::<R>::Abandoned,
{
}

/// A remedy that fails beyond mending is fatal with its failure: the step is
/// not run again, and nothing that is reported afterwards changes that.
pub proof fn lemma_failed_remedy_is_fatal<R>(
    error: HandledErrorKind,
    failure: UnhandledError,
    later: Seq<StepEvent<R>>,
)
    ensures
        StepState::<R>::Pending.spec_advance(
            StepEvent::Returned(Err(Error::HandledError(error))),
        ).spec_advance(StepEvent::Picked(Some(crate::cli::ACTION_ENTRY))).spec_advance(
            StepEvent::RemedyFailed(Error::UnhandledError(failure)),
        ).spec_run(later) == StepState::<R>::Fatal(failure),
{
    lemma_terminal_is_final(StepState::<R>::Fatal(failure), later);
}

/// A step that fails beyond mending is fatal at once: the user is not asked.
pub proof fn lemma_unhandled_is_fatal<R>(error: UnhandledError)
    ensures
        StepState::<R>::Pending.spec_advance(
            StepEvent::Returned(Err(Error::UnhandledError(error))),
        ) == StepState::<R>::Fatal(error),
{
}

} // verus!
