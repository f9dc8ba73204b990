//! The upload workflow: which screen is live, what each event does to it, and
//! what the shell has to do next.

use vstd::prelude::*;
use crate::disk::{probe_paths, PathProbe};
use crate::error::WorkshopError;
use crate::id_text::{
    classify_id_text, decimal_text, invalid_id_message, item_id_text, spec_classify,
    spec_invalid_id_message, IdText,
};
use crate::item_info::{
    blank_fields, spec_browse, spec_update, spec_validate, ItemFields, ItemInfo, ItemInfoMessage,
    ItemInfoMessageView, ItemInfoState, PathKind,
};

verus! {

/// The one live state of the workflow.
#[derive(Debug, Clone, PartialEq, Eq)]
pub enum WorkflowState<E> {
    /// The user enters the identifier of an existing item, or nothing.
    Entry(String),
    /// A lookup of this item is in flight, or has failed with this error.
    Searching(u64, Option<WorkshopError<E>>),
    /// The user edits the draft, for this existing item or for a new one.
    Editing(Option<u64>, ItemInfoState),
    /// The creation of a new item is in flight.
    Creating(ItemInfo),
    /// The creation of a new item has failed.
    CreateFailed(ItemInfo, WorkshopError<E>),
    /// The submission of the content of this item is in flight.
    Submitting(u64, ItemInfo),
    /// The submission of the content of this item has failed.
    SubmitFailed(u64, ItemInfo, WorkshopError<E>),
    /// The content of this item has been uploaded.
    Done(u64),
}

/// A workflow state with its texts as sequences of characters.
pub enum WorkflowStateView<E> {
    Entry(Seq<char>),
    Searching(u64, Option<WorkshopError<E>>),
    Editing(Option<u64>, ItemFields),
    Creating(ItemFields),
    CreateFailed(ItemFields, WorkshopError<E>),
    Submitting(u64, ItemFields),
    SubmitFailed(u64, ItemFields, WorkshopError<E>),
    Done(u64),
}

impl<E> View for WorkflowState<E> {
    type V = WorkflowStateView<E>;

    open spec fn view(&self) -> WorkflowStateView<E> {
        match self {
            WorkflowState::Entry(text) => WorkflowStateView::Entry(text@),
            WorkflowState::Searching(id, error) => WorkflowStateView::Searching(*id, *error),
            WorkflowState::Editing(id, draft) => WorkflowStateView::Editing(*id, draft@),
            WorkflowState::Creating(info) => WorkflowStateView::Creating(info@),
            WorkflowState::CreateFailed(info, error) => WorkflowStateView::CreateFailed(
                info@,
                *error,
            ),
            WorkflowState::Submitting(id, info) => WorkflowStateView::Submitting(*id, info@),
            WorkflowState::SubmitFailed(id, info, error) => WorkflowStateView::SubmitFailed(
                *id,
                info@,
                *error,
            ),
            WorkflowState::Done(id) => WorkflowStateView::Done(*id),
        }
    }
}

/// An event of the workflow: an action of the user, or the delivered result
/// of the operation in flight.
#[derive(Debug, Clone, PartialEq, Eq)]
pub enum Message<E> {
    SetExistingId(String),
    EditItemData(ItemInfoMessage),
    ReceiveFoundItemInfo(ItemInfo),
    ReceiveItemId(u64),
    ReceiveSteamError(WorkshopError<E>),
    Proceed,
    GoBack,
    TermsLinkPressed,
}

/// An event with its texts as sequences of characters.
pub enum MessageView<E> {
    SetExistingId(Seq<char>),
    EditItemData(ItemInfoMessageView),
    ReceiveFoundItemInfo(ItemFields),
    ReceiveItemId(u64),
    ReceiveSteamError(WorkshopError<E>),
    Proceed,
    GoBack,
    TermsLinkPressed,
}

impl<E> View for Message<E> {
    type V = MessageView<E>;

    open spec fn view(&self) -> MessageView<E> {
        match self {
            Message::SetExistingId(text) => MessageView::SetExistingId(text@),
            Message::EditItemData(edit) => MessageView::EditItemData(edit@),
            Message::ReceiveFoundItemInfo(info) => MessageView::ReceiveFoundItemInfo(info@),
            Message::ReceiveItemId(id) => MessageView::ReceiveItemId(*id),
            Message::ReceiveSteamError(error) => MessageView::ReceiveSteamError(*error),
            Message::Proceed => MessageView::Proceed,
            Message::GoBack => MessageView::GoBack,
            Message::TermsLinkPressed => MessageView::TermsLinkPressed,
        }
    }
}

/// What the shell has to do after an event.
#[derive(Debug, Clone, PartialEq, Eq)]
pub enum Effect {
    /// Nothing.
    Nothing,
    /// Start the lookup of this item.
    Lookup(u64),
    /// Start the creation of a new item.
    Create,
    /// Start the submission of this payload as the content of this item.
    Submit(u64, ItemInfo),
    /// Open this address outside the application.
    OpenUrl(String),
    /// Show a file picker for this path of the draft.
    Browse(PathKind),
    /// Tell the user why the workflow does not proceed.
    Refuse(String),
    /// Record that a submission was answered for another item than the one
    /// submitted.
    IdMismatch { expected: u64, received: u64 },
}

/// An effect with its texts as sequences of characters.
pub enum EffectView {
    Nothing,
    Lookup(u64),
    Create,
    Submit(u64, ItemFields),
    OpenUrl(Seq<char>),
    Browse(PathKind),
    Refuse(Seq<char>),
    IdMismatch { expected: u64, received: u64 },
}

impl View for Effect {
    type V = EffectView;

    open spec fn view(&self) -> EffectView {
        match self {
            Effect::Nothing => EffectView::Nothing,
            Effect::Lookup(id) => EffectView::Lookup(*id),
            Effect::Create => EffectView::Create,
            Effect::Submit(id, info) => EffectView::Submit(*id, info@),
            Effect::OpenUrl(url) => EffectView::OpenUrl(url@),
            Effect::Browse(kind) => EffectView::Browse(*kind),
            Effect::Refuse(message) => EffectView::Refuse(message@),
            Effect::IdMismatch { expected, received } => EffectView::IdMismatch {
                expected: *expected,
                received: *received,
            },
        }
    }
}

/// The address of the platform's terms for workshop uploads.
pub open spec fn terms_url() -> Seq<char> {
    "https://steamcommunity.com/sharedfiles/workshoplegalagreement"@
}

/// The address of the page of an item.
pub open spec fn item_page_url(id: u64) -> Seq<char> {
    "steam://url/CommunityFilePage/"@ + decimal_text(id as nat)
}

/// The text that leads back to an item in the identifier field: its numeral,
/// or nothing for a new item.
pub open spec fn entry_text(id: Option<u64>) -> Seq<char> {
    match id {
        Some(id) => decimal_text(id as nat),
        None => Seq::empty(),
    }
}

/// From the identifier field.
pub open spec fn from_entry<E>(text: Seq<char>, message: MessageView<E>) -> (
    WorkflowStateView<E>,
    EffectView,
) {
    match message {
        MessageView::SetExistingId(new_text) => (
            WorkflowStateView::Entry(new_text),
            EffectView::Nothing,
        ),
        MessageView::Proceed => match spec_classify(text) {
            IdText::Valid(id) => (WorkflowStateView::Searching(id, None), EffectView::Lookup(id)),
            IdText::Empty => (
                WorkflowStateView::Editing(None, blank_fields()),
                EffectView::Nothing,
            ),
            IdText::Invalid(why) => (
                WorkflowStateView::Entry(text),
                EffectView::Refuse(spec_invalid_id_message(why)),
            ),
        },
        _ => (WorkflowStateView::Entry(text), EffectView::Nothing),
    }
}

/// While the lookup of `id` is in flight, or after it has failed with `last`.
pub open spec fn from_searching<E>(
    id: u64,
    last: Option<WorkshopError<E>>,
    message: MessageView<E>,
) -> (WorkflowStateView<E>, EffectView) {
    match message {
        MessageView::GoBack => (
            WorkflowStateView::Entry(decimal_text(id as nat)),
            EffectView::Nothing,
        ),
        MessageView::ReceiveFoundItemInfo(info) => (
            WorkflowStateView::Editing(Some(id), info),
            EffectView::Nothing,
        ),
        MessageView::ReceiveSteamError(error) => (
            WorkflowStateView::Searching(id, Some(error)),
            EffectView::Nothing,
        ),
        _ => (WorkflowStateView::Searching(id, last), EffectView::Nothing),
    }
}

/// After a failed creation or submission: going back reopens the form with
/// the payload that could not be uploaded, for the item `id` if there is one.
pub open spec fn from_failed<E>(
    id: Option<u64>,
    info: ItemFields,
    error: WorkshopError<E>,
    message: MessageView<E>,
) -> (WorkflowStateView<E>, EffectView) {
    match message {
        MessageView::GoBack => (WorkflowStateView::Editing(id, info), EffectView::Nothing),
        _ => (
            match id {
                Some(id) => WorkflowStateView::SubmitFailed(id, info, error),
                None => WorkflowStateView::CreateFailed(info, error),
            },
            EffectView::Nothing,
        ),
    }
}

/// From the form.
pub open spec fn from_editing<E>(
    id: Option<u64>,
    draft: ItemFields,
    message: MessageView<E>,
    probe: PathProbe,
) -> (WorkflowStateView<E>, EffectView) {
    match message {
        MessageView::EditItemData(edit) => (
            WorkflowStateView::Editing(id, spec_update(draft, edit)),
            match spec_browse(edit) {
                Some(kind) => EffectView::Browse(kind),
                None => EffectView::Nothing,
            },
        ),
        MessageView::Proceed => match spec_validate(draft, probe) {
            Ok(info) => match id {
                Some(id) => (WorkflowStateView::Submitting(id, info), EffectView::Submit(id, info)),
                None => (WorkflowStateView::Creating(info), EffectView::Create),
            },
            Err(message) => (WorkflowStateView::Editing(id, draft), EffectView::Refuse(message)),
        },
        MessageView::GoBack => (WorkflowStateView::Entry(entry_text(id)), EffectView::Nothing),
        _ => (WorkflowStateView::Editing(id, draft), EffectView::Nothing),
    }
}

/// While the creation of a new item for `info` is in flight.
pub open spec fn from_creating<E>(info: ItemFields, message: MessageView<E>) -> (
    WorkflowStateView<E>,
    EffectView,
) {
    match message {
        MessageView::ReceiveItemId(id) => (
            WorkflowStateView::Submitting(id, info),
            EffectView::Submit(id, info),
        ),
        MessageView::ReceiveSteamError(error) => (
            WorkflowStateView::CreateFailed(info, error),
            EffectView::Nothing,
        ),
        _ => (WorkflowStateView::Creating(info), EffectView::Nothing),
    }
}

/// While the submission of `info` for `id` is in flight. An answer for
/// another item changes nothing and is only recorded.
pub open spec fn from_submitting<E>(id: u64, info: ItemFields, message: MessageView<E>) -> (
    WorkflowStateView<E>,
    EffectView,
) {
    match message {
        MessageView::ReceiveItemId(received) => if received == id {
            (WorkflowStateView::Done(id), EffectView::Nothing)
        } else {
            (
                WorkflowStateView::Submitting(id, info),
                EffectView::IdMismatch { expected: id, received },
            )
        },
        MessageView::ReceiveSteamError(error) => (
            WorkflowStateView::SubmitFailed(id, info, error),
            EffectView::Nothing,
        ),
        _ => (WorkflowStateView::Submitting(id, info), EffectView::Nothing),
    }
}

/// After a finished upload of `id`.
pub open spec fn from_done<E>(id: u64, message: MessageView<E>) -> (
    WorkflowStateView<E>,
    EffectView,
) {
    match message {
        MessageView::Proceed => (WorkflowStateView::Done(id), EffectView::OpenUrl(item_page_url(id))),
        MessageView::GoBack => (WorkflowStateView::Entry(Seq::empty()), EffectView::Nothing),
        _ => (WorkflowStateView::Done(id), EffectView::Nothing),
    }
}

/// The whole transition table: the state after `message` and what the shell
/// has to do. The terms link opens the terms in every state and changes
/// nothing. `probe` is what the disk says about the paths of the draft; it is
/// consulted only when the form is submitted.
pub open spec fn spec_transition<E>(
    state: WorkflowStateView<E>,
    message: MessageView<E>,
    probe: PathProbe,
) -> (WorkflowStateView<E>, EffectView) {
    if message is TermsLinkPressed {
        (state, EffectView::OpenUrl(terms_url()))
    } else {
        match state {
            WorkflowStateView::Entry(text) => from_entry(text, message),
            WorkflowStateView::Searching(id, last) => from_searching(id, last, message),
            WorkflowStateView::Editing(id, draft) => from_editing(id, draft, message, probe),
            WorkflowStateView::Creating(info) => from_creating(info, message),
            WorkflowStateView::CreateFailed(info, error) => from_failed(
                None,
                info,
                error,
                message,
            ),
            WorkflowStateView::Submitting(id, info) => from_submitting(id, info, message),
            WorkflowStateView::SubmitFailed(id, info, error) => from_failed(
                Some(id),
                info,
                error,
                message,
            ),
            WorkflowStateView::Done(id) => from_done(id, message),
        }
    }
}

/// The views of a state and an effect, as a pair.
pub open spec fn step_view<E>(step: (WorkflowState<E>, Effect)) -> (
    WorkflowStateView<E>,
    EffectView,
) {
    (step.0@, step.1@)
}

/// The text that leads back to an item in the identifier field.
fn entry_text_of(id: Option<u64>) -> (text: String)
    ensures
        text@ == entry_text(id),
{
    match id {
        Some(id) => item_id_text(id),
        None => String::new(),
    }
}

fn step_from_entry<E>(text: String, message: Message<E>) -> (step: (WorkflowState<E>, Effect))
    ensures
        step_view(step) == from_entry(text@, message@),
{
    match message {
        Message::SetExistingId(new_text) => (WorkflowState::Entry(new_text), Effect::Nothing),
        Message::Proceed => match classify_id_text(text.as_str()) {
            IdText::Valid(id) => (WorkflowState::Searching(id, None), Effect::Lookup(id)),
            IdText::Empty => (
                WorkflowState::Editing(None, ItemInfoState::default()),
                Effect::Nothing,
            ),
            IdText::Invalid(why) => (
                WorkflowState::Entry(text),
                Effect::Refuse(invalid_id_message(why)),
            ),
        },
        _ => (WorkflowState::Entry(text), Effect::Nothing),
    }
}

fn step_from_searching<E>(id: u64, last: Option<WorkshopError<E>>, message: Message<E>) -> (step: (
    WorkflowState<E>,
    Effect,
))
    ensures
        step_view(step) == from_searching(id, last, message@),
{
    match message {
        Message::GoBack => (WorkflowState::Entry(item_id_text(id)), Effect::Nothing),
        Message::ReceiveFoundItemInfo(info) => (
            WorkflowState::Editing(Some(id), ItemInfoState::from(info)),
            Effect::Nothing,
        ),
        Message::ReceiveSteamError(error) => (
            WorkflowState::Searching(id, Some(error)),
            Effect::Nothing,
        ),
        _ => (WorkflowState::Searching(id, last), Effect::Nothing),
    }
}

fn step_from_failed<E>(
    id: Option<u64>,
    info: ItemInfo,
    error: WorkshopError<E>,
    message: Message<E>,
) -> (step: (WorkflowState<E>, Effect))
    ensures
        step_view(step) == from_failed(id, info@, error, message@),
{
    match message {
        Message::GoBack => (WorkflowState::Editing(id, ItemInfoState::from(info)), Effect::Nothing),
        _ => (
            match id {
                Some(id) => WorkflowState::SubmitFailed(id, info, error),
                None => WorkflowState::CreateFailed(info, error),
            },
            Effect::Nothing,
        ),
    }
}

fn step_from_editing<E>(
    id: Option<u64>,
    draft: ItemInfoState,
    message: Message<E>,
    probe: PathProbe,
) -> (step: (WorkflowState<E>, Effect))
    ensures
        step_view(step) == from_editing(id, draft@, message@, probe),
{
    match message {
        Message::EditItemData(edit) => {
            let mut draft = draft;
            let effect = match draft.update(edit) {
                Some(kind) => Effect::Browse(kind),
                None => Effect::Nothing,
            };
            (WorkflowState::Editing(id, draft), effect)
        },
        Message::Proceed => match ItemInfo::validate(&draft, probe) {
            Ok(info) => match id {
                Some(id) => {
                    let kept = info.duplicate();
                    (WorkflowState::Submitting(id, kept), Effect::Submit(id, info))
                },
                None => (WorkflowState::Creating(info), Effect::Create),
            },
            Err(message) => (WorkflowState::Editing(id, draft), Effect::Refuse(message)),
        },
        Message::GoBack => (WorkflowState::Entry(entry_text_of(id)), Effect::Nothing),
        _ => (WorkflowState::Editing(id, draft), Effect::Nothing),
    }
}

fn step_from_creating<E>(info: ItemInfo, message: Message<E>) -> (step: (
    WorkflowState<E>,
    Effect,
))
    ensures
        step_view(step) == from_creating(info@, message@),
{
    match message {
        Message::ReceiveItemId(id) => {
            let kept = info.duplicate();
            (WorkflowState::Submitting(id, kept), Effect::Submit(id, info))
        },
        Message::ReceiveSteamError(error) => (
            WorkflowState::CreateFailed(info, error),
            Effect::Nothing,
        ),
        _ => (WorkflowState::Creating(info), Effect::Nothing),
    }
}

fn step_from_submitting<E>(id: u64, info: ItemInfo, message: Message<E>) -> (step: (
    WorkflowState<E>,
    Effect,
))
    ensures
        step_view(step) == from_submitting(id, info@, message@),
{
    match message {
        Message::ReceiveItemId(received) => if received == id {
            (WorkflowState::Done(id), Effect::Nothing)
        } else {
            (WorkflowState::Submitting(id, info), Effect::IdMismatch { expected: id, received })
        },
        Message::ReceiveSteamError(error) => (
            WorkflowState::SubmitFailed(id, info, error),
            Effect::Nothing,
        ),
        _ => (WorkflowState::Submitting(id, info), Effect::Nothing),
    }
}

fn step_from_done<E>(id: u64, message: Message<E>) -> (step: (WorkflowState<E>, Effect))
    ensures
        step_view(step) == from_done(id, message@),
{
    match message {
        Message::Proceed => {
            let mut url = String::from_str("steam://url/CommunityFilePage/");
            url.append(item_id_text(id).as_str());
            (WorkflowState::Done(id), Effect::OpenUrl(url))
        },
        Message::GoBack => (WorkflowState::Entry(String::new()), Effect::Nothing),
        _ => (WorkflowState::Done(id), Effect::Nothing),
    }
}

impl<E> WorkflowState<E> {
    /// The state in which the workflow starts: the identifier field, empty.
    pub fn initial() -> (state: Self)
        ensures
            state@ == WorkflowStateView::<E>::Entry(Seq::empty()),
    {
        WorkflowState::Entry(String::new())
    }
}

/// Takes one step of the workflow, given what the disk says about the paths
/// of the draft.
pub fn transition<E>(state: WorkflowState<E>, message: Message<E>, probe: PathProbe) -> (step: (
    WorkflowState<E>,
    Effect,
))
    ensures
        step_view(step) == spec_transition(state@, message@, probe),
{
    if let Message::TermsLinkPressed = message {
        let url = String::from_str("https://steamcommunity.com/sharedfiles/workshoplegalagreement");
        return (state, Effect::OpenUrl(url));
    }
    match state {
        WorkflowState::Entry(text) => step_from_entry(text, message),
        WorkflowState::Searching(id, last) => step_from_searching(id, last, message),
        WorkflowState::Editing(id, draft) => step_from_editing(id, draft, message, probe),
        WorkflowState::Creating(info) => step_from_creating(info, message),
        WorkflowState::CreateFailed(info, error) => step_from_failed(None, info, error, message),
        WorkflowState::Submitting(id, info) => step_from_submitting(id, info, message),
        WorkflowState::SubmitFailed(id, info, error) => step_from_failed(
            Some(id),
            info,
            error,
            message,
        ),
        WorkflowState::Done(id) => step_from_done(id, message),
    }
}

/// Takes one step of the workflow. The disk is asked about the paths of the
/// draft when, and only when, the form is submitted; whatever it answers, the
/// step is the one that `transition` takes for that answer.
pub fn advance<E>(state: WorkflowState<E>, message: Message<E>) -> (step: (
    WorkflowState<E>,
    Effect,
))
    ensures
        exists|probe: PathProbe| step_view(step) == spec_transition(state@, message@, probe),
{
    let probe = match &state {
        WorkflowState::Editing(_, draft) => if let Message::Proceed = message {
            probe_paths(draft.preview_image().path.as_str(), draft.target_folder().path.as_str())
        } else {
            PathProbe { preview_exists: false, preview_is_file: false, target_is_dir: false }
        },
        _ => PathProbe { preview_exists: false, preview_is_file: false, target_is_dir: false },
    };
    let step = transition(state, message, probe);
    assert(step_view(step) == spec_transition(state@, message@, probe));
    step
}

/// The event that reports how a creation or a submission ended. The flag
/// that comes with the identifier says whether the user still has to accept
/// the platform's terms; the workflow does not act on it.
pub open spec fn spec_receive_item_id<E>(outcome: Result<(u64, bool), WorkshopError<E>>)
    -> MessageView<E> {
    match outcome {
        Ok((id, _)) => MessageView::ReceiveItemId(id),
        Err(error) => MessageView::ReceiveSteamError(error),
    }
}

/// The event that reports how a lookup ended.
pub open spec fn spec_receive_item_info<E>(outcome: Result<ItemFields, WorkshopError<E>>)
    -> MessageView<E> {
    match outcome {
        Ok(info) => MessageView::ReceiveFoundItemInfo(info),
        Err(error) => MessageView::ReceiveSteamError(error),
    }
}

/// The view of the outcome of a lookup.
pub open spec fn lookup_outcome_view<E>(outcome: Result<ItemInfo, WorkshopError<E>>) -> Result<
    ItemFields,
    WorkshopError<E>,
> {
    match outcome {
        Ok(info) => Ok(info@),
        Err(error) => Err(error),
    }
}

impl<E> Message<E> {
    /// Turns the outcome of a creation or a submission into an event.
    pub fn receive_item_id(outcome: Result<(u64, bool), WorkshopError<E>>) -> (message: Self)
        ensures
            message@ == spec_receive_item_id(outcome),
    {
        match outcome {
            Ok((id, _)) => Message::ReceiveItemId(id),
            Err(error) => Message::ReceiveSteamError(error),
        }
    }

    /// Turns the outcome of a lookup into an event.
    pub fn receive_item_info(outcome: Result<ItemInfo, WorkshopError<E>>) -> (message: Self)
        ensures
            message@ == spec_receive_item_info(lookup_outcome_view(outcome)),
    {
        match outcome {
            Ok(info) => Message::ReceiveFoundItemInfo(info),
            Err(error) => Message::ReceiveSteamError(error),
        }
    }
}

/// The next state and the effect are decided by the state and the event
/// alone, but for one case: submitting the form, where the disk is asked
/// about the paths of the draft.
pub proof fn disk_matters_only_when_the_form_is_submitted<E>(
    state: WorkflowStateView<E>,
    message: MessageView<E>,
    first: PathProbe,
    second: PathProbe,
)
    requires
        !(state is Editing && message is Proceed),
    ensures
        spec_transition(state, message, first) == spec_transition(state, message, second),
{
}

/// How a lookup that is in flight ends depends on its outcome alone: not on
/// the disk, and not on how an earlier attempt failed.
pub proof fn lookup_follow_up_depends_on_outcome_alone<E>(
    id: u64,
    last: Option<WorkshopError<E>>,
    outcome: Result<ItemFields, WorkshopError<E>>,
    probe: PathProbe,
)
    ensures
        spec_transition(
            WorkflowStateView::Searching(id, last),
            spec_receive_item_info(outcome),
            probe,
        ) == (
            match outcome {
                Ok(info) => WorkflowStateView::Editing(Some(id), info),
                Err(error) => WorkflowStateView::Searching(id, Some(error)),
            },
            EffectView::Nothing,
        ),
{
}

/// How a creation that is in flight ends depends on its outcome alone: a new
/// identifier starts the submission of the very payload that waited for it.
pub proof fn creation_follow_up_depends_on_outcome_alone<E>(
    info: ItemFields,
    outcome: Result<(u64, bool), WorkshopError<E>>,
    probe: PathProbe,
)
    ensures
        spec_transition(WorkflowStateView::Creating(info), spec_receive_item_id(outcome), probe)
            == (match outcome {
            Ok((id, _)) => (WorkflowStateView::Submitting(id, info), EffectView::Submit(id, info)),
            Err(error) => (WorkflowStateView::CreateFailed(info, error), EffectView::Nothing),
        }),
{
}

/// How a submission that is in flight ends depends on its outcome alone: the
/// upload is done when the answer names the submitted item, an answer for
/// another item is recorded and changes nothing, and an error is kept with
/// the payload.
pub proof fn submission_follow_up_depends_on_outcome_alone<E>(
    id: u64,
    info: ItemFields,
    outcome: Result<(u64, bool), WorkshopError<E>>,
    probe: PathProbe,
)
    ensures
        spec_transition(
            WorkflowStateView::Submitting(id, info),
            spec_receive_item_id(outcome),
            probe,
        ) == (match outcome {
            Ok((received, _)) => if received == id {
                (WorkflowStateView::Done(id), EffectView::Nothing)
            } else {
                (
                    WorkflowStateView::Submitting(id, info),
                    EffectView::IdMismatch { expected: id, received },
                )
            },
            Err(error) => (WorkflowStateView::SubmitFailed(id, info, error), EffectView::Nothing),
        }),
{
}

/// Updating an existing item runs full circle: a valid form for the item
/// `id` starts the submission of exactly its fields; the answer for `id`
/// finishes the upload; and going back from there returns to the empty
/// identifier field.
pub proof fn update_round_trip<E>(id: u64, draft: ItemFields, probe: PathProbe)
    requires
        spec_validate(draft, probe) is Ok,
    ensures
        spec_transition(
            WorkflowStateView::<E>::Editing(Some(id), draft),
            MessageView::Proceed,
            probe,
        ) == (WorkflowStateView::<E>::Submitting(id, draft), EffectView::Submit(id, draft)),
        spec_transition(
            WorkflowStateView::<E>::Submitting(id, draft),
            MessageView::ReceiveItemId(id),
            probe,
        ) == (WorkflowStateView::<E>::Done(id), EffectView::Nothing),
        spec_transition(WorkflowStateView::<E>::Done(id), MessageView::GoBack, probe) == (
            WorkflowStateView::<E>::Entry(Seq::empty()),
            EffectView::Nothing,
        ),
{
}

/// An operation is started exactly on entering the state that waits for its
/// result, and with what that state holds: no state is left waiting for an
/// operation that was never started, and none is started twice.
pub proof fn operations_start_on_entering_their_state<E>(
    state: WorkflowStateView<E>,
    message: MessageView<E>,
    probe: PathProbe,
)
    ensures
        ({
            let (next, effect) = spec_transition(state, message, probe);
            &&& effect is Lookup <==> next != state && next is Searching && next->Searching_1 is None
            &&& effect is Lookup ==> next->Searching_0 == effect->Lookup_0
            &&& effect is Create <==> next != state && next is Creating
            &&& effect is Submit <==> next != state && next is Submitting
            &&& effect is Submit ==> next == WorkflowStateView::<E>::Submitting(
                effect->Submit_0,
                effect->Submit_1,
            )
        }),
{
}

/// No failure is a dead end: going back from a failed lookup returns to the
/// identifier field with the identifier in it, and going back from a failed
/// creation or submission reopens the form with every field as it was sent.
pub proof fn failures_lead_back_to_editing<E>(
    id: u64,
    info: ItemFields,
    error: WorkshopError<E>,
    probe: PathProbe,
)
    ensures
        spec_transition(
            WorkflowStateView::Searching(id, Some(error)),
            MessageView::GoBack,
            probe,
        ).0 == WorkflowStateView::<E>::Entry(decimal_text(id as nat)),
        spec_transition(WorkflowStateView::CreateFailed(info, error), MessageView::GoBack, probe).0
            == WorkflowStateView::<E>::Editing(None, info),
        spec_transition(
            WorkflowStateView::SubmitFailed(id, info, error),
            MessageView::GoBack,
            probe,
        ).0 == WorkflowStateView::<E>::Editing(Some(id), info),
{
}

} // verus!
