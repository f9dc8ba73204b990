use workshop_uploader::disk::PathProbe;
use workshop_uploader::item_info::{ItemInfo, ItemInfoMessage, ItemInfoState, PathKind};
use workshop_uploader::workflow::{advance, transition, Effect, Message, WorkflowState};
use workshop_uploader::WorkshopError;

type State = WorkflowState<&'static str>;
type Event = Message<&'static str>;

const TERMS: &str = "https://steamcommunity.com/sharedfiles/workshoplegalagreement";

fn disk(preview_exists: bool, preview_is_file: bool, target_is_dir: bool) -> PathProbe {
    PathProbe { preview_exists, preview_is_file, target_is_dir }
}

fn info() -> ItemInfo {
    ItemInfo {
        name: "Castle".to_string(),
        preview_image: "p.jpg".to_string(),
        target_folder: "mods".to_string(),
        change_notes: "v2".to_string(),
    }
}

fn draft() -> ItemInfoState {
    ItemInfoState::from(info())
}

fn all_states() -> Vec<State> {
    vec![
        State::Entry("12".to_string()),
        State::Searching(5, None),
        State::Searching(5, Some(WorkshopError::Native("timeout"))),
        State::Editing(None, draft()),
        State::Editing(Some(5), draft()),
        State::Creating(info()),
        State::CreateFailed(info(), WorkshopError::Cancelled),
        State::Submitting(5, info()),
        State::SubmitFailed(5, info(), WorkshopError::NoMatch),
        State::Done(5),
    ]
}

#[test]
fn the_workflow_starts_at_an_empty_identifier_field() {
    assert_eq!(State::initial(), State::Entry(String::new()));
}

#[test]
fn the_terms_link_opens_the_terms_in_every_state() {
    for state in all_states() {
        let (next, effect) = transition(state.clone(), Event::TermsLinkPressed, disk(true, true, true));
        assert_eq!(next, state);
        assert_eq!(effect, Effect::OpenUrl(TERMS.to_string()));
    }
}

#[test]
fn editing_the_identifier_replaces_the_text() {
    let (next, effect) = transition(
        State::Entry("12".to_string()),
        Event::SetExistingId("123".to_string()),
        disk(false, false, false),
    );
    assert_eq!(next, State::Entry("123".to_string()));
    assert_eq!(effect, Effect::Nothing);
}

#[test]
fn an_invalid_identifier_is_refused_without_a_transition() {
    let (next, effect) =
        transition(State::Entry("12x".to_string()), Event::Proceed, disk(false, false, false));
    assert_eq!(next, State::Entry("12x".to_string()));
    assert_eq!(
        effect,
        Effect::Refuse("Invalid item ID: invalid digit found in string.".to_string())
    );
    let (next, effect) = transition(
        State::Entry("18446744073709551616".to_string()),
        Event::Proceed,
        disk(false, false, false),
    );
    assert_eq!(next, State::Entry("18446744073709551616".to_string()));
    assert_eq!(
        effect,
        Effect::Refuse("Invalid item ID: number too large to fit in target type.".to_string())
    );
}

#[test]
fn a_found_item_opens_the_form_for_it() {
    let (next, effect) = transition(
        State::Searching(5, None),
        Event::ReceiveFoundItemInfo(info()),
        disk(false, false, false),
    );
    assert_eq!(next, State::Editing(Some(5), draft()));
    assert_eq!(effect, Effect::Nothing);
}

#[test]
fn a_later_error_replaces_an_earlier_one() {
    let (next, _) = transition(
        State::Searching(5, Some(WorkshopError::Native("timeout"))),
        Event::ReceiveSteamError(WorkshopError::NoMatch),
        disk(false, false, false),
    );
    assert_eq!(next, State::Searching(5, Some(WorkshopError::NoMatch)));
}

#[test]
fn going_back_from_a_search_keeps_the_identifier() {
    let (next, effect) =
        transition(State::Searching(12345, None), Event::GoBack, disk(false, false, false));
    assert_eq!(next, State::Entry("12345".to_string()));
    assert_eq!(effect, Effect::Nothing);
}

#[test]
fn a_field_edit_changes_the_draft() {
    let (next, effect) = transition(
        State::Editing(Some(5), draft()),
        Event::EditItemData(ItemInfoMessage::EditName("Tower".to_string())),
        disk(false, false, false),
    );
    let mut expected = draft();
    expected.update(ItemInfoMessage::EditName("Tower".to_string()));
    assert_eq!(next, State::Editing(Some(5), expected));
    assert_eq!(effect, Effect::Nothing);
}

#[test]
fn a_browse_request_asks_the_shell_for_a_picker() {
    let (next, effect) = transition(
        State::Editing(None, draft()),
        Event::EditItemData(ItemInfoMessage::BrowsePreviewImage),
        disk(false, false, false),
    );
    assert_eq!(next, State::Editing(None, draft()));
    assert_eq!(effect, Effect::Browse(PathKind::PreviewImage));
    let (_, effect) = transition(
        State::Editing(None, draft()),
        Event::EditItemData(ItemInfoMessage::BrowseTargetFolder),
        disk(false, false, false),
    );
    assert_eq!(effect, Effect::Browse(PathKind::TargetFolder));
}

#[test]
fn a_valid_form_for_an_existing_item_starts_its_submission() {
    let (next, effect) =
        transition(State::Editing(Some(5), draft()), Event::Proceed, disk(true, true, true));
    assert_eq!(next, State::Submitting(5, info()));
    assert_eq!(effect, Effect::Submit(5, info()));
}

#[test]
fn a_valid_form_for_a_new_item_starts_its_creation() {
    let (next, effect) =
        transition(State::Editing(None, draft()), Event::Proceed, disk(true, true, true));
    assert_eq!(next, State::Creating(info()));
    assert_eq!(effect, Effect::Create);
}

#[test]
fn an_invalid_form_is_refused_with_the_first_broken_rule() {
    let (next, effect) =
        transition(State::Editing(Some(5), draft()), Event::Proceed, disk(false, false, false));
    assert_eq!(next, State::Editing(Some(5), draft()));
    assert_eq!(effect, Effect::Refuse("Preview image \"p.jpg\" does not exist.".to_string()));
}

#[test]
fn going_back_from_the_form_returns_to_the_identifier() {
    let (next, _) = transition(State::Editing(Some(77), draft()), Event::GoBack, disk(true, true, true));
    assert_eq!(next, State::Entry("77".to_string()));
    let (next, _) = transition(State::Editing(None, draft()), Event::GoBack, disk(true, true, true));
    assert_eq!(next, State::Entry(String::new()));
}

#[test]
fn a_created_item_is_submitted_at_once() {
    let (next, effect) =
        transition(State::Creating(info()), Event::ReceiveItemId(9), disk(false, false, false));
    assert_eq!(next, State::Submitting(9, info()));
    assert_eq!(effect, Effect::Submit(9, info()));
}

#[test]
fn a_failed_creation_keeps_the_payload_and_the_error() {
    let (next, effect) = transition(
        State::Creating(info()),
        Event::ReceiveSteamError(WorkshopError::Native("denied")),
        disk(false, false, false),
    );
    assert_eq!(next, State::CreateFailed(info(), WorkshopError::Native("denied")));
    assert_eq!(effect, Effect::Nothing);
}

#[test]
fn going_back_from_a_failed_creation_reopens_the_form() {
    let (next, effect) = transition(
        State::CreateFailed(info(), WorkshopError::Native("denied")),
        Event::GoBack,
        disk(false, false, false),
    );
    assert_eq!(next, State::Editing(None, draft()));
    assert_eq!(effect, Effect::Nothing);
}

#[test]
fn a_failed_submission_keeps_the_item_the_payload_and_the_error() {
    let (next, _) = transition(
        State::Submitting(5, info()),
        Event::ReceiveSteamError(WorkshopError::Cancelled),
        disk(false, false, false),
    );
    assert_eq!(next, State::SubmitFailed(5, info(), WorkshopError::Cancelled));
}

#[test]
fn going_back_from_a_failed_submission_reopens_the_form_for_the_item() {
    let (next, effect) = transition(
        State::SubmitFailed(5, info(), WorkshopError::Cancelled),
        Event::GoBack,
        disk(false, false, false),
    );
    assert_eq!(next, State::Editing(Some(5), draft()));
    assert_eq!(effect, Effect::Nothing);
}

#[test]
fn proceeding_from_a_finished_upload_opens_the_item_page() {
    let (next, effect) = transition(State::Done(12345), Event::Proceed, disk(false, false, false));
    assert_eq!(next, State::Done(12345));
    assert_eq!(effect, Effect::OpenUrl("steam://url/CommunityFilePage/12345".to_string()));
}

#[test]
fn going_back_from_a_finished_upload_restarts() {
    let (next, effect) = transition(State::Done(5), Event::GoBack, disk(false, false, false));
    assert_eq!(next, State::Entry(String::new()));
    assert_eq!(effect, Effect::Nothing);
}

#[test]
fn updating_an_existing_item_runs_full_circle() {
    let start = State::Editing(Some(42), draft());
    let (submitting, effect) = transition(start, Event::Proceed, disk(true, true, true));
    assert_eq!(effect, Effect::Submit(42, info()));
    let (done, _) = transition(submitting, Event::ReceiveItemId(42), disk(true, true, true));
    assert_eq!(done, State::Done(42));
    let (entry, _) = transition(done, Event::GoBack, disk(true, true, true));
    assert_eq!(entry, State::Entry(String::new()));
}

#[test]
fn events_that_a_state_does_not_know_change_nothing() {
    let cases: Vec<(State, Event)> = vec![
        (State::Entry("12".to_string()), Event::GoBack),
        (State::Entry("12".to_string()), Event::ReceiveItemId(3)),
        (State::Searching(5, None), Event::Proceed),
        (State::Searching(5, None), Event::ReceiveItemId(3)),
        (State::Editing(None, draft()), Event::ReceiveItemId(3)),
        (State::Creating(info()), Event::GoBack),
        (State::Creating(info()), Event::Proceed),
        (State::CreateFailed(info(), WorkshopError::NoMatch), Event::Proceed),
        (State::Submitting(5, info()), Event::GoBack),
        (State::SubmitFailed(5, info(), WorkshopError::NoMatch), Event::ReceiveItemId(5)),
        (State::Done(5), Event::ReceiveItemId(5)),
        (State::Done(5), Event::SetExistingId("1".to_string())),
    ];
    for (state, event) in cases {
        let (next, effect) = transition(state.clone(), event, disk(true, true, true));
        assert_eq!(next, state);
        assert_eq!(effect, Effect::Nothing);
    }
}

#[test]
fn the_disk_matters_only_when_the_form_is_submitted() {
    let events: Vec<Event> = vec![
        Event::SetExistingId("7".to_string()),
        Event::EditItemData(ItemInfoMessage::EditName("Tower".to_string())),
        Event::ReceiveFoundItemInfo(info()),
        Event::ReceiveItemId(5),
        Event::ReceiveSteamError(WorkshopError::NoMatch),
        Event::Proceed,
        Event::GoBack,
        Event::TermsLinkPressed,
    ];
    for state in all_states() {
        for event in events.clone() {
            let submits = matches!(state, State::Editing(_, _)) && matches!(event, Event::Proceed);
            if !submits {
                assert_eq!(
                    transition(state.clone(), event.clone(), disk(true, true, true)),
                    transition(state.clone(), event, disk(false, false, false))
                );
            }
        }
    }
}

#[test]
fn a_step_on_the_real_disk_is_a_step_of_the_table() {
    let missing = "/nonexistent-workshop-uploader-test-dir/none".to_string();
    let mut form = ItemInfoState::default();
    form.update(ItemInfoMessage::EditName("Castle".to_string()));
    form.update(ItemInfoMessage::EditTargetFolder(missing.clone()));
    let (next, effect) = advance(State::Editing(None, form.clone()), Event::Proceed);
    assert_eq!(next, State::Editing(None, form));
    assert_eq!(effect, Effect::Refuse(format!("Target folder \"{}\" does not exist.", missing)));

    let mut form = ItemInfoState::default();
    form.update(ItemInfoMessage::EditName("Castle".to_string()));
    form.update(ItemInfoMessage::EditTargetFolder(".".to_string()));
    let (next, effect) = advance(State::Editing(Some(8), form), Event::Proceed);
    let sent = ItemInfo {
        name: "Castle".to_string(),
        preview_image: String::new(),
        target_folder: ".".to_string(),
        change_notes: String::new(),
    };
    assert_eq!(next, State::Submitting(8, sent.clone()));
    assert_eq!(effect, Effect::Submit(8, sent));

    let (next, effect) = advance(State::Entry("12345".to_string()), Event::Proceed);
    assert_eq!(next, State::Searching(12345, None));
    assert_eq!(effect, Effect::Lookup(12345));
}

#[test]
fn outcomes_become_events() {
    assert_eq!(Event::receive_item_id(Ok((7, true))), Event::ReceiveItemId(7));
    assert_eq!(Event::receive_item_id(Ok((7, false))), Event::ReceiveItemId(7));
    assert_eq!(
        Event::receive_item_id(Err(WorkshopError::Native("busy"))),
        Event::ReceiveSteamError(WorkshopError::Native("busy"))
    );
    assert_eq!(Event::receive_item_info(Ok(info())), Event::ReceiveFoundItemInfo(info()));
    assert_eq!(
        Event::receive_item_info(Err(WorkshopError::Cancelled)),
        Event::ReceiveSteamError(WorkshopError::Cancelled)
    );
}
