//! The upload form: the editable draft, the validated payload, and the rules
//! that turn one into the other.

use vstd::prelude::*;
use crate::disk::{probe_paths, PathProbe};
use crate::file_field::FileField;
use crate::text::join3;

verus! {

/// The four texts of an upload form, as sequences of characters. Both the
/// draft and the validated payload are viewed as this.
pub struct ItemFields {
    pub name: Seq<char>,
    pub preview_image: Seq<char>,
    pub target_folder: Seq<char>,
    pub change_notes: Seq<char>,
}

/// Which of the two paths of the form a file picker is wanted for.
#[derive(Debug, Clone, Copy, PartialEq, Eq)]
pub enum PathKind {
    PreviewImage,
    TargetFolder,
}

/// An edit of the draft.
#[derive(Debug, Clone, PartialEq, Eq)]
pub enum ItemInfoMessage {
    EditName(String),
    EditPreviewImage(String),
    EditTargetFolder(String),
    BrowsePreviewImage,
    BrowseTargetFolder,
    EditChangeNotes(String),
}

/// An edit of the draft, with its texts as sequences of characters.
pub enum ItemInfoMessageView {
    EditName(Seq<char>),
    EditPreviewImage(Seq<char>),
    EditTargetFolder(Seq<char>),
    BrowsePreviewImage,
    BrowseTargetFolder,
    EditChangeNotes(Seq<char>),
}

impl View for ItemInfoMessage {
    type V = ItemInfoMessageView;

    open spec fn view(&self) -> ItemInfoMessageView {
        match self {
            ItemInfoMessage::EditName(t) => ItemInfoMessageView::EditName(t@),
            ItemInfoMessage::EditPreviewImage(t) => ItemInfoMessageView::EditPreviewImage(t@),
            ItemInfoMessage::EditTargetFolder(t) => ItemInfoMessageView::EditTargetFolder(t@),
            ItemInfoMessage::BrowsePreviewImage => ItemInfoMessageView::BrowsePreviewImage,
            ItemInfoMessage::BrowseTargetFolder => ItemInfoMessageView::BrowseTargetFolder,
            ItemInfoMessage::EditChangeNotes(t) => ItemInfoMessageView::EditChangeNotes(t@),
        }
    }
}

/// The draft after an edit. A browse request leaves the draft as it is: the
/// picked path comes back later as an edit of that path.
pub open spec fn spec_update(draft: ItemFields, message: ItemInfoMessageView) -> ItemFields {
    match message {
        ItemInfoMessageView::EditName(t) => ItemFields { name: t, ..draft },
        ItemInfoMessageView::EditPreviewImage(t) => ItemFields { preview_image: t, ..draft },
        ItemInfoMessageView::EditTargetFolder(t) => ItemFields { target_folder: t, ..draft },
        ItemInfoMessageView::BrowsePreviewImage => draft,
        ItemInfoMessageView::BrowseTargetFolder => draft,
        ItemInfoMessageView::EditChangeNotes(t) => ItemFields { change_notes: t, ..draft },
    }
}

/// The file picker that an edit asks for, if any.
pub open spec fn spec_browse(message: ItemInfoMessageView) -> Option<PathKind> {
    match message {
        ItemInfoMessageView::BrowsePreviewImage => Some(PathKind::PreviewImage),
        ItemInfoMessageView::BrowseTargetFolder => Some(PathKind::TargetFolder),
        _ => None,
    }
}

/// The freely editable draft of an upload. Any text may stand in any field;
/// only validation decides whether it can be uploaded.
#[derive(Debug, Clone, PartialEq, Eq)]
pub struct ItemInfoState {
    name: String,
    preview_image: FileField,
    target_folder: FileField,
    change_notes: String,
}

impl View for ItemInfoState {
    type V = ItemFields;

    closed spec fn view(&self) -> ItemFields {
        ItemFields {
            name: self.name@,
            preview_image: self.preview_image@,
            target_folder: self.target_folder@,
            change_notes: self.change_notes@,
        }
    }
}

/// The draft in which every field is empty.
pub open spec fn blank_fields() -> ItemFields {
    ItemFields {
        name: Seq::empty(),
        preview_image: Seq::empty(),
        target_folder: Seq::empty(),
        change_notes: Seq::empty(),
    }
}

impl Default for ItemInfoState {
    fn default() -> (draft: Self)
        ensures
            draft@ == blank_fields(),
    {
        ItemInfoState {
            name: String::new(),
            preview_image: FileField::new(),
            target_folder: FileField::new(),
            change_notes: String::new(),
        }
    }
}

impl ItemInfoState {
    /// Applies one edit. Returns the file picker that the edit asks for; the
    /// caller shows it and reports a picked path as an edit of that path.
    pub fn update(&mut self, message: ItemInfoMessage) -> (browse: Option<PathKind>)
        ensures
            final(self)@ == spec_update(old(self)@, message@),
            browse == spec_browse(message@),
    {
        match message {
            ItemInfoMessage::EditName(new_name) => {
                self.name = new_name;
                None
            },
            ItemInfoMessage::EditPreviewImage(new_path) => {
                self.preview_image = FileField::from(new_path);
                None
            },
            ItemInfoMessage::EditTargetFolder(new_path) => {
                self.target_folder = FileField::from(new_path);
                None
            },
            ItemInfoMessage::BrowsePreviewImage => Some(PathKind::PreviewImage),
            ItemInfoMessage::BrowseTargetFolder => Some(PathKind::TargetFolder),
            ItemInfoMessage::EditChangeNotes(new_notes) => {
                self.change_notes = new_notes;
                None
            },
        }
    }

    /// The name as entered.
    pub fn name(&self) -> (text: &str)
        ensures
            text@ == self@.name,
    {
        self.name.as_str()
    }

    /// The path of the preview image as entered.
    pub fn preview_image(&self) -> (field: &FileField)
        ensures
            field@ == self@.preview_image,
    {
        &self.preview_image
    }

    /// The path of the target folder as entered.
    pub fn target_folder(&self) -> (field: &FileField)
        ensures
            field@ == self@.target_folder,
    {
        &self.target_folder
    }

    /// The change notes as entered.
    pub fn change_notes(&self) -> (text: &str)
        ensures
            text@ == self@.change_notes,
    {
        self.change_notes.as_str()
    }
}

/// A validated upload payload: the name is not empty, and when it was made the
/// preview image was empty or an existing file and the target folder an
/// existing directory.
#[derive(Debug, Clone, PartialEq, Eq)]
pub struct ItemInfo {
    pub name: String,
    pub preview_image: String,
    pub target_folder: String,
    pub change_notes: String,
}

impl View for ItemInfo {
    type V = ItemFields;

    open spec fn view(&self) -> ItemFields {
        ItemFields {
            name: self.name@,
            preview_image: self.preview_image@,
            target_folder: self.target_folder@,
            change_notes: self.change_notes@,
        }
    }
}

impl From<ItemInfo> for ItemInfoState {
    /// The draft that shows a payload again for editing.
    fn from(value: ItemInfo) -> (draft: Self)
        ensures
            draft@ == value@,
    {
        ItemInfoState {
            name: value.name,
            preview_image: FileField::from(value.preview_image),
            target_folder: FileField::from(value.target_folder),
            change_notes: value.change_notes,
        }
    }
}

impl vstd::std_specs::convert::FromSpecImpl<ItemInfo> for ItemInfoState {
    closed spec fn obeys_from_spec() -> bool {
        true
    }

    closed spec fn from_spec(value: ItemInfo) -> Self {
        ItemInfoState {
            name: value.name,
            preview_image: FileField { path: value.preview_image },
            target_folder: FileField { path: value.target_folder },
            change_notes: value.change_notes,
        }
    }
}

/// The name rule: a name has been entered.
pub open spec fn name_ok(draft: ItemFields) -> bool {
    draft.name.len() > 0
}

/// The preview rule: no preview image has been entered, or a regular file
/// exists at its path.
pub open spec fn preview_ok(draft: ItemFields, probe: PathProbe) -> bool {
    draft.preview_image.len() == 0 || (probe.preview_exists && probe.preview_is_file)
}

/// The target rule: a directory exists at the target folder path.
pub open spec fn target_ok(probe: PathProbe) -> bool {
    probe.target_is_dir
}

/// The message for a broken name rule.
pub open spec fn name_error() -> Seq<char> {
    "Name cannot be empty."@
}

/// The message for a broken preview rule: the path leads nowhere, or to
/// something that is not a file.
pub open spec fn preview_error(draft: ItemFields, probe: PathProbe) -> Seq<char> {
    if !probe.preview_exists {
        "Preview image \""@ + draft.preview_image + "\" does not exist."@
    } else {
        "Preview image \""@ + draft.preview_image + "\" is not a file."@
    }
}

/// The message for a broken target rule: nothing was entered, or no
/// directory is there.
pub open spec fn target_error(draft: ItemFields) -> Seq<char> {
    if draft.target_folder.len() == 0 {
        "Target folder cannot be empty."@
    } else {
        "Target folder \""@ + draft.target_folder + "\" does not exist."@
    }
}

/// The outcome of validating a draft against what the disk said: the draft's
/// own fields when all three rules hold, and otherwise the message of the
/// first broken rule, in the order name, preview, target.
pub open spec fn spec_validate(draft: ItemFields, probe: PathProbe) -> Result<
    ItemFields,
    Seq<char>,
> {
    if !name_ok(draft) {
        Err(name_error())
    } else if !preview_ok(draft, probe) {
        Err(preview_error(draft, probe))
    } else if !target_ok(probe) {
        Err(target_error(draft))
    } else {
        Ok(draft)
    }
}

/// The view of a validation outcome.
pub open spec fn validation_view(outcome: Result<ItemInfo, String>) -> Result<
    ItemFields,
    Seq<char>,
> {
    match outcome {
        Ok(info) => Ok(info@),
        Err(message) => Err(message@),
    }
}

impl ItemInfo {
    /// A copy of this payload with the same texts.
    pub fn duplicate(&self) -> (copy: Self)
        ensures
            copy@ == self@,
    {
        ItemInfo {
            name: self.name.clone(),
            preview_image: self.preview_image.clone(),
            target_folder: self.target_folder.clone(),
            change_notes: self.change_notes.clone(),
        }
    }

    /// Validates a draft against a given answer of the disk.
    pub fn validate(draft: &ItemInfoState, probe: PathProbe) -> (outcome: Result<Self, String>)
        ensures
            validation_view(outcome) == spec_validate(draft@, probe),
    {
        if draft.name.as_str().is_empty() {
            return Err(String::from_str("Name cannot be empty."));
        }
        let preview = draft.preview_image.path.as_str();
        let target = draft.target_folder.path.as_str();
        let has_preview = probe.preview_exists && probe.preview_is_file;
        if !has_preview && !preview.is_empty() {
            if !probe.preview_exists {
                return Err(join3("Preview image \"", preview, "\" does not exist."));
            } else {
                return Err(join3("Preview image \"", preview, "\" is not a file."));
            }
        }
        if !probe.target_is_dir {
            if target.is_empty() {
                return Err(String::from_str("Target folder cannot be empty."));
            } else {
                return Err(join3("Target folder \"", target, "\" does not exist."));
            }
        }
        Ok(
            ItemInfo {
                name: draft.name.clone(),
                preview_image: draft.preview_image.path.clone(),
                target_folder: draft.target_folder.path.clone(),
                change_notes: draft.change_notes.clone(),
            },
        )
    }

    /// Validates a draft against the disk as it is now. Whatever the disk
    /// answers, the outcome is the one that `validate` gives for that answer.
    pub fn try_from(draft: ItemInfoState) -> (outcome: Result<Self, String>)
        ensures
            exists|probe: PathProbe| validation_view(outcome) == spec_validate(draft@, probe),
    {
        let probe = probe_paths(
            draft.preview_image.path.as_str(),
            draft.target_folder.path.as_str(),
        );
        let outcome = Self::validate(&draft, probe);
        assert(validation_view(outcome) == spec_validate(draft@, probe));
        outcome
    }
}

/// Validation accepts a draft exactly when it has a name, its preview image is
/// empty or an existing file, and its target folder is an existing directory;
/// an accepted draft comes out with its fields unchanged.
pub proof fn validation_accepts_exactly(draft: ItemFields, probe: PathProbe)
    ensures
        spec_validate(draft, probe) is Ok <==> draft.name.len() > 0 && probe.target_is_dir && (
        draft.preview_image.len() == 0 || (probe.preview_exists && probe.preview_is_file)),
        spec_validate(draft, probe) is Ok ==> spec_validate(draft, probe) == Ok::<
            ItemFields,
            Seq<char>,
        >(draft),
{
}

/// A rejected draft gets the message of the first rule it breaks, in the
/// order name, preview, target.
pub proof fn validation_reports_first_broken_rule(draft: ItemFields, probe: PathProbe)
    ensures
        !name_ok(draft) ==> spec_validate(draft, probe) == Err::<ItemFields, Seq<char>>(
            name_error(),
        ),
        name_ok(draft) && !preview_ok(draft, probe) ==> spec_validate(draft, probe) == Err::<
            ItemFields,
            Seq<char>,
        >(preview_error(draft, probe)),
        name_ok(draft) && preview_ok(draft, probe) && !target_ok(probe) ==> spec_validate(
            draft,
            probe,
        ) == Err::<ItemFields, Seq<char>>(target_error(draft)),
{
}

/// Validation depends on nothing but the texts of the draft and the answer of
/// the disk: two drafts with the same texts get the same outcome.
pub proof fn validation_is_a_function_of_the_texts(
    first: ItemInfoState,
    second: ItemInfoState,
    probe: PathProbe,
)
    requires
        first@ == second@,
    ensures
        spec_validate(first@, probe) == spec_validate(second@, probe),
{
}

} // verus!
