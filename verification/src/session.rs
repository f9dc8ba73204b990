//! The workshop session: what each of its three operations asks of the
//! platform, and what it makes of the answer.
//!
//! The calls themselves belong to the shell. It builds each request here,
//! hands the platform's answer back, and gets the outcome that the workflow
//! is told.

use vstd::prelude::*;
use crate::channel::Delivery;
use crate::disk::path_exists;
use crate::error::WorkshopError;
use crate::item_info::{ItemFields, ItemInfo};
use crate::text::join3;

verus! {

/// The kind of a workshop file, as far as the uploader tells kinds apart.
#[derive(Debug, Clone, Copy, PartialEq, Eq)]
pub enum FileKind {
    /// An ordinary community item, the only kind the uploader works on.
    Community,
    /// Anything else.
    Other,
}

/// What a lookup reads of an item.
#[derive(Debug, Clone, PartialEq, Eq)]
pub struct ItemSummary {
    pub title: String,
    pub file_kind: FileKind,
    /// The application that the item is for, if the platform names one.
    pub consumer_app: Option<u32>,
}

/// An item summary with its title as a sequence of characters.
pub struct ItemSummaryView {
    pub title: Seq<char>,
    pub file_kind: FileKind,
    pub consumer_app: Option<u32>,
}

impl View for ItemSummary {
    type V = ItemSummaryView;

    open spec fn view(&self) -> ItemSummaryView {
        ItemSummaryView {
            title: self.title@,
            file_kind: self.file_kind,
            consumer_app: self.consumer_app,
        }
    }
}

/// The form fields that a found item starts with: its title as the name and
/// nothing else.
pub open spec fn fields_of(summary: ItemSummaryView) -> ItemFields {
    ItemFields {
        name: summary.title,
        preview_image: Seq::empty(),
        target_folder: Seq::empty(),
        change_notes: Seq::empty(),
    }
}

impl ItemSummary {
    /// The payload that a found item starts with.
    pub fn into_item_info(self) -> (info: ItemInfo)
        ensures
            info@ == fields_of(self@),
    {
        ItemInfo {
            name: self.title,
            preview_image: String::new(),
            target_folder: String::new(),
            change_notes: String::new(),
        }
    }
}

/// What a lookup asks of the platform.
#[derive(Debug, Clone, Copy, PartialEq, Eq)]
pub struct LookupRequest {
    pub item: u64,
    /// A cached answer is good enough if it is at most this old, in seconds.
    pub max_cache_age_seconds: u32,
    pub long_description: bool,
    pub children: bool,
    pub metadata: bool,
    pub additional_previews: bool,
}

/// What the creation of a new item asks of the platform.
#[derive(Debug, Clone, Copy, PartialEq, Eq)]
pub struct CreateRequest {
    pub app: u32,
    pub file_kind: FileKind,
}

/// What a submission asks of the platform.
#[derive(Debug, Clone, PartialEq, Eq)]
pub struct SubmitRequest {
    pub app: u32,
    pub item: u64,
    pub title: String,
    pub content_path: String,
    /// The preview image to set, if any.
    pub preview_path: Option<String>,
    /// The change notes to set, if any.
    pub change_notes: Option<String>,
}

/// A submission request with its texts as sequences of characters.
pub struct SubmitRequestView {
    pub app: u32,
    pub item: u64,
    pub title: Seq<char>,
    pub content_path: Seq<char>,
    pub preview_path: Option<Seq<char>>,
    pub change_notes: Option<Seq<char>>,
}

impl View for SubmitRequest {
    type V = SubmitRequestView;

    open spec fn view(&self) -> SubmitRequestView {
        SubmitRequestView {
            app: self.app,
            item: self.item,
            title: self.title@,
            content_path: self.content_path@,
            preview_path: match self.preview_path {
                Some(path) => Some(path@),
                None => None,
            },
            change_notes: match self.change_notes {
                Some(notes) => Some(notes@),
                None => None,
            },
        }
    }
}

/// The submission of `info` as the content of `item`: title and content path
/// always; the preview image only if something exists at its path; the
/// change notes only if there are any.
pub open spec fn spec_submit_request(app: u32, item: u64, info: ItemFields, preview_exists: bool)
    -> SubmitRequestView {
    SubmitRequestView {
        app,
        item,
        title: info.name,
        content_path: info.target_folder,
        preview_path: if preview_exists {
            Some(info.preview_image)
        } else {
            None
        },
        change_notes: if info.change_notes.len() == 0 {
            None
        } else {
            Some(info.change_notes)
        },
    }
}

/// What the session makes of a lookup that came back.
#[derive(Debug, Clone, PartialEq, Eq)]
pub enum LookupVerdict<E> {
    /// The item can be updated: the form starts with this payload.
    Accept(ItemInfo),
    /// The lookup has failed with this error.
    Reject(WorkshopError<E>),
    /// The item is for another application: the user has to be asked this
    /// question before the item is used.
    Confirm(ItemSummary, String),
}

/// A lookup verdict with its texts as sequences of characters.
pub enum LookupVerdictView<E> {
    Accept(ItemFields),
    Reject(WorkshopError<E>),
    Confirm(ItemSummaryView, Seq<char>),
}

impl<E> View for LookupVerdict<E> {
    type V = LookupVerdictView<E>;

    open spec fn view(&self) -> LookupVerdictView<E> {
        match self {
            LookupVerdict::Accept(info) => LookupVerdictView::Accept(info@),
            LookupVerdict::Reject(error) => LookupVerdictView::Reject(*error),
            LookupVerdict::Confirm(summary, question) => LookupVerdictView::Confirm(
                summary@,
                question@,
            ),
        }
    }
}

/// The question put to the user about an item of another application.
pub open spec fn confirmation_question(title: Seq<char>) -> Seq<char> {
    "Found item\n\t\""@ + title
        + "\"\nappears to be for a different app than this uploader works with.\nYou may be blocked from uploading. Continue?"@
}

/// The verdict on a lookup. An error stays what it is. Anything but a
/// community item counts as not found. An item of this session's application
/// is accepted; for any other the user is asked.
pub open spec fn spec_judge<E>(outcome: Result<ItemSummaryView, WorkshopError<E>>, app: u32)
    -> LookupVerdictView<E> {
    match outcome {
        Err(error) => LookupVerdictView::Reject(error),
        Ok(summary) => if !(summary.file_kind is Community) {
            LookupVerdictView::Reject(WorkshopError::NoMatch)
        } else if summary.consumer_app != Some(app) {
            LookupVerdictView::Confirm(summary, confirmation_question(summary.title))
        } else {
            LookupVerdictView::Accept(fields_of(summary))
        },
    }
}

/// The outcome of a lookup once the user was asked about an item of another
/// application: the item is used only on a plain yes. A no, or a question
/// that could not be asked, cancels the lookup.
pub open spec fn spec_confirmed<E>(summary: ItemSummaryView, answer: Option<bool>) -> Result<
    ItemFields,
    WorkshopError<E>,
> {
    if answer == Some(true) {
        Ok(fields_of(summary))
    } else {
        Err(WorkshopError::Cancelled)
    }
}

/// The view of the outcome of a lookup before it is judged.
pub open spec fn summary_outcome_view<E>(outcome: Result<ItemSummary, WorkshopError<E>>) -> Result<
    ItemSummaryView,
    WorkshopError<E>,
> {
    match outcome {
        Ok(summary) => Ok(summary@),
        Err(error) => Err(error),
    }
}

/// The view of the outcome of a lookup after it is judged.
pub open spec fn info_outcome_view<E>(outcome: Result<ItemInfo, WorkshopError<E>>) -> Result<
    ItemFields,
    WorkshopError<E>,
> {
    match outcome {
        Ok(info) => Ok(info@),
        Err(error) => Err(error),
    }
}

/// What the platform's answer means for the caller: its error is carried as
/// it is.
pub open spec fn spec_native<T, E>(answer: Result<T, E>) -> Result<T, WorkshopError<E>> {
    match answer {
        Ok(value) => Ok(value),
        Err(error) => Err(WorkshopError::Native(error)),
    }
}

/// The first item of a lookup's answer; an answer without items means that
/// nothing matched.
pub open spec fn spec_first_match<T, E>(answer: Result<Option<T>, E>) -> Result<
    T,
    WorkshopError<E>,
> {
    match answer {
        Ok(Some(first)) => Ok(first),
        Ok(None) => Err(WorkshopError::NoMatch),
        Err(error) => Err(WorkshopError::Native(error)),
    }
}

/// What a waiting caller is told: nothing while the result is pending; the
/// result once it is there; and a cancellation when it will never come.
pub open spec fn spec_settle<T, E>(delivery: Delivery<Result<T, WorkshopError<E>>>) -> Option<
    Result<T, WorkshopError<E>>,
> {
    match delivery {
        Delivery::Pending => None,
        Delivery::Ready(result) => Some(result),
        Delivery::Cancelled => Some(Err(WorkshopError::Cancelled)),
        Delivery::Closed => Some(Err(WorkshopError::Cancelled)),
    }
}

/// Carries the platform's error as it is.
pub fn native<T, E>(answer: Result<T, E>) -> (outcome: Result<T, WorkshopError<E>>)
    ensures
        outcome == spec_native(answer),
{
    match answer {
        Ok(value) => Ok(value),
        Err(error) => Err(WorkshopError::Native(error)),
    }
}

/// Picks the first item of a lookup's answer, as the callback of the lookup
/// does before it sends the result.
pub fn first_match<T, E>(answer: Result<Option<T>, E>) -> (outcome: Result<T, WorkshopError<E>>)
    ensures
        outcome == spec_first_match(answer),
{
    match answer {
        Ok(Some(first)) => Ok(first),
        Ok(None) => Err(WorkshopError::NoMatch),
        Err(error) => Err(WorkshopError::Native(error)),
    }
}

/// Turns what the result channel delivered into what the waiting caller is
/// told, if anything yet.
pub fn settle<T, E>(delivery: Delivery<Result<T, WorkshopError<E>>>) -> (outcome: Option<
    Result<T, WorkshopError<E>>,
>)
    ensures
        outcome == spec_settle(delivery),
{
    match delivery {
        Delivery::Pending => None,
        Delivery::Ready(result) => Some(result),
        Delivery::Cancelled => Some(Err(WorkshopError::Cancelled)),
        Delivery::Closed => Some(Err(WorkshopError::Cancelled)),
    }
}

/// Settles a lookup after the user was asked about an item of another
/// application. `answer` is `None` when the question could not be asked.
pub fn confirmed<E>(summary: ItemSummary, answer: Option<bool>) -> (outcome: Result<
    ItemInfo,
    WorkshopError<E>,
>)
    ensures
        info_outcome_view(outcome) == spec_confirmed::<E>(summary@, answer),
{
    match answer {
        Some(true) => Ok(summary.into_item_info()),
        _ => Err(WorkshopError::Cancelled),
    }
}

/// A session with the platform, for one application.
#[derive(Debug, Clone, Copy, PartialEq, Eq)]
pub struct Session {
    pub app: u32,
}

impl Session {
    /// The request that looks an item up: a cached answer of up to 360
    /// seconds is accepted, and nothing is fetched beyond the basic data.
    pub fn lookup_request(&self, item: u64) -> (request: LookupRequest)
        ensures
            request == (LookupRequest {
                item,
                max_cache_age_seconds: 360,
                long_description: false,
                children: false,
                metadata: false,
                additional_previews: false,
            }),
    {
        LookupRequest {
            item,
            max_cache_age_seconds: 360,
            long_description: false,
            children: false,
            metadata: false,
            additional_previews: false,
        }
    }

    /// The request that creates a new community item for this application.
    pub fn create_request(&self) -> (request: CreateRequest)
        ensures
            request == (CreateRequest { app: self.app, file_kind: FileKind::Community }),
    {
        CreateRequest { app: self.app, file_kind: FileKind::Community }
    }

    /// The request that submits `info` as the content of `item`, given
    /// whether anything exists at the path of the preview image.
    pub fn plan_submission(&self, item: u64, info: ItemInfo, preview_exists: bool) -> (request:
        SubmitRequest)
        ensures
            request@ == spec_submit_request(self.app, item, info@, preview_exists),
    {
        let change_notes = if info.change_notes.as_str().is_empty() {
            None
        } else {
            Some(info.change_notes)
        };
        let preview_path = if preview_exists {
            Some(info.preview_image)
        } else {
            None
        };
        SubmitRequest {
            app: self.app,
            item,
            title: info.name,
            content_path: info.target_folder,
            preview_path,
            change_notes,
        }
    }

    /// The request that submits `info` as the content of `item`. The disk is
    /// asked whether the preview image is there; whatever it answers, the
    /// request is the one that `plan_submission` gives for that answer.
    pub fn submit_request(&self, item: u64, info: ItemInfo) -> (request: SubmitRequest)
        ensures
            exists|preview_exists: bool|
                request@ == spec_submit_request(self.app, item, info@, preview_exists),
    {
        let preview_exists = path_exists(info.preview_image.as_str());
        let request = self.plan_submission(item, info, preview_exists);
        assert(request@ == spec_submit_request(self.app, item, info@, preview_exists));
        request
    }

    /// Judges a lookup that came back.
    pub fn judge_lookup<E>(&self, outcome: Result<ItemSummary, WorkshopError<E>>) -> (verdict:
        LookupVerdict<E>)
        ensures
            verdict@ == spec_judge(summary_outcome_view(outcome), self.app),
    {
        match outcome {
            Err(error) => LookupVerdict::Reject(error),
            Ok(summary) => {
                let for_this_app = match summary.consumer_app {
                    Some(app) => app == self.app,
                    None => false,
                };
                match summary.file_kind {
                    FileKind::Other => LookupVerdict::Reject(WorkshopError::NoMatch),
                    FileKind::Community => if for_this_app {
                        LookupVerdict::Accept(summary.into_item_info())
                    } else {
                        let question = join3(
                            "Found item\n\t\"",
                            summary.title.as_str(),
                            "\"\nappears to be for a different app than this uploader works with.\nYou may be blocked from uploading. Continue?",
                        );
                        LookupVerdict::Confirm(summary, question)
                    },
                }
            },
        }
    }
}

/// Whatever a lookup brings, its verdict accepts only a community item of
/// this session's application, and then with the item's title as the name
/// and every other field empty.
pub proof fn lookup_accepts_only_own_community_items<E>(
    outcome: Result<ItemSummaryView, WorkshopError<E>>,
    app: u32,
)
    ensures
        spec_judge(outcome, app) is Accept <==> (outcome matches Ok(summary)
            && summary.file_kind is Community && summary.consumer_app == Some(app)),
        spec_judge(outcome, app) matches LookupVerdictView::Accept(info) ==> info == fields_of(
            outcome->Ok_0,
        ),
{
}

/// Declining the question about an item of another application cancels the
/// lookup; it is never reported as an item that was not found.
pub proof fn declining_cancels_the_lookup<E>(summary: ItemSummaryView, answer: Option<bool>)
    requires
        answer != Some(true),
    ensures
        spec_confirmed::<E>(summary, answer) == Err::<ItemFields, WorkshopError<E>>(
            WorkshopError::Cancelled,
        ),
{
}

} // verus!
