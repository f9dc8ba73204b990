use workshop_uploader::disk::PathProbe;
use workshop_uploader::item_info::{ItemInfo, ItemInfoMessage, ItemInfoState, PathKind};
use workshop_uploader::FileField;

fn probe(preview_exists: bool, preview_is_file: bool, target_is_dir: bool) -> PathProbe {
    PathProbe { preview_exists, preview_is_file, target_is_dir }
}

fn draft(name: &str, preview: &str, target: &str, notes: &str) -> ItemInfoState {
    let mut draft = ItemInfoState::default();
    draft.update(ItemInfoMessage::EditName(name.to_string()));
    draft.update(ItemInfoMessage::EditPreviewImage(preview.to_string()));
    draft.update(ItemInfoMessage::EditTargetFolder(target.to_string()));
    draft.update(ItemInfoMessage::EditChangeNotes(notes.to_string()));
    draft
}

#[test]
fn a_new_field_is_empty() {
    assert_eq!(FileField::new().path, "");
    assert_eq!(FileField::from("a/b.jpg".to_string()).path, "a/b.jpg");
    let field = FileField::from("x".to_string());
    assert_eq!(field.duplicate(), field);
}

#[test]
fn a_default_draft_is_blank() {
    let blank = ItemInfoState::default();
    assert_eq!(blank.name(), "");
    assert_eq!(blank.preview_image().path, "");
    assert_eq!(blank.target_folder().path, "");
    assert_eq!(blank.change_notes(), "");
}

#[test]
fn each_edit_changes_its_own_field_only() {
    let mut state = ItemInfoState::default();
    assert_eq!(state.update(ItemInfoMessage::EditName("Castle".to_string())), None);
    assert_eq!(state, draft("Castle", "", "", ""));
    assert_eq!(state.update(ItemInfoMessage::EditPreviewImage("p.jpg".to_string())), None);
    assert_eq!(state, draft("Castle", "p.jpg", "", ""));
    assert_eq!(state.update(ItemInfoMessage::EditTargetFolder("mods".to_string())), None);
    assert_eq!(state, draft("Castle", "p.jpg", "mods", ""));
    assert_eq!(state.update(ItemInfoMessage::EditChangeNotes("v2".to_string())), None);
    assert_eq!(state, draft("Castle", "p.jpg", "mods", "v2"));
    assert_eq!(state.name(), "Castle");
    assert_eq!(state.preview_image().path, "p.jpg");
    assert_eq!(state.target_folder().path, "mods");
    assert_eq!(state.change_notes(), "v2");
}

#[test]
fn browsing_asks_for_a_picker_and_leaves_the_draft() {
    let mut state = draft("Castle", "p.jpg", "mods", "v2");
    assert_eq!(state.update(ItemInfoMessage::BrowsePreviewImage), Some(PathKind::PreviewImage));
    assert_eq!(state.update(ItemInfoMessage::BrowseTargetFolder), Some(PathKind::TargetFolder));
    assert_eq!(state, draft("Castle", "p.jpg", "mods", "v2"));
}

#[test]
fn a_valid_draft_becomes_a_payload_with_the_same_fields() {
    let outcome = ItemInfo::validate(&draft("Castle", "p.jpg", "mods", "v2"), probe(true, true, true));
    assert_eq!(
        outcome,
        Ok(ItemInfo {
            name: "Castle".to_string(),
            preview_image: "p.jpg".to_string(),
            target_folder: "mods".to_string(),
            change_notes: "v2".to_string(),
        })
    );
}

#[test]
fn an_empty_preview_needs_nothing_on_disk() {
    let outcome = ItemInfo::validate(&draft("Castle", "", "mods", ""), probe(false, false, true));
    assert_eq!(
        outcome,
        Ok(ItemInfo {
            name: "Castle".to_string(),
            preview_image: String::new(),
            target_folder: "mods".to_string(),
            change_notes: String::new(),
        })
    );
}

#[test]
fn an_empty_name_is_reported_first() {
    let outcome = ItemInfo::validate(&draft("", "p.jpg", "", ""), probe(false, false, false));
    assert_eq!(outcome, Err("Name cannot be empty.".to_string()));
}

#[test]
fn a_missing_preview_is_reported_before_the_target() {
    let outcome = ItemInfo::validate(&draft("Castle", "p.jpg", "", ""), probe(false, false, false));
    assert_eq!(outcome, Err("Preview image \"p.jpg\" does not exist.".to_string()));
}

#[test]
fn a_preview_that_is_no_file_is_reported() {
    let outcome = ItemInfo::validate(&draft("Castle", "pics", "mods", ""), probe(true, false, true));
    assert_eq!(outcome, Err("Preview image \"pics\" is not a file.".to_string()));
}

#[test]
fn an_empty_target_is_reported() {
    let outcome = ItemInfo::validate(&draft("Castle", "", "", ""), probe(false, false, false));
    assert_eq!(outcome, Err("Target folder cannot be empty.".to_string()));
}

#[test]
fn a_missing_target_is_reported() {
    let outcome = ItemInfo::validate(&draft("Castle", "p.jpg", "mods", ""), probe(true, true, false));
    assert_eq!(outcome, Err("Target folder \"mods\" does not exist.".to_string()));
}

#[test]
fn the_same_draft_always_gets_the_same_outcome() {
    let first = draft("Castle", "p.jpg", "mods", "v2");
    let second = draft("Castle", "p.jpg", "mods", "v2");
    for bits in 0..8u8 {
        let answer = probe(bits & 1 != 0, bits & 2 != 0, bits & 4 != 0);
        assert_eq!(ItemInfo::validate(&first, answer), ItemInfo::validate(&second, answer));
        assert_eq!(ItemInfo::validate(&first, answer), ItemInfo::validate(&first, answer));
    }
}

#[test]
fn validation_on_disk_rejects_paths_that_lead_nowhere() {
    let missing = "/nonexistent-workshop-uploader-test-dir/none";
    assert_eq!(
        ItemInfo::try_from(draft("Castle", "", missing, "")),
        Err(format!("Target folder \"{}\" does not exist.", missing))
    );
    assert_eq!(
        ItemInfo::try_from(draft("Castle", missing, missing, "")),
        Err(format!("Preview image \"{}\" does not exist.", missing))
    );
    assert_eq!(ItemInfo::try_from(draft("", "", "", "")), Err("Name cannot be empty.".to_string()));
}

#[test]
fn validation_on_disk_accepts_an_existing_directory() {
    let target = ".".to_string();
    let outcome = ItemInfo::try_from(draft("Castle", "", target.as_str(), "notes"));
    assert_eq!(
        outcome,
        Ok(ItemInfo {
            name: "Castle".to_string(),
            preview_image: String::new(),
            target_folder: target.clone(),
            change_notes: "notes".to_string(),
        })
    );
    let outcome = ItemInfo::try_from(draft("Castle", target.as_str(), target.as_str(), ""));
    assert_eq!(outcome, Err(format!("Preview image \"{}\" is not a file.", target)));
}

#[test]
fn a_payload_shown_again_keeps_its_fields() {
    let info = ItemInfo {
        name: "Castle".to_string(),
        preview_image: "p.jpg".to_string(),
        target_folder: "mods".to_string(),
        change_notes: "v2".to_string(),
    };
    assert_eq!(info.duplicate(), info);
    assert_eq!(ItemInfoState::from(info), draft("Castle", "p.jpg", "mods", "v2"));
}
