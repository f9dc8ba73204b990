//! One path entered in the form, as the text the user sees.

use vstd::prelude::*;

verus! {

/// A path field of the upload form. The path is kept as text: an empty text
/// means that nothing has been entered yet.
#[derive(Debug, Clone, PartialEq, Eq)]
pub struct FileField {
    pub path: String,
}

impl View for FileField {
    type V = Seq<char>;

    open spec fn view(&self) -> Seq<char> {
        self.path@
    }
}

impl FileField {
    /// An empty field.
    pub fn new() -> (field: Self)
        ensures
            field@ == Seq::<char>::empty(),
    {
        FileField { path: String::new() }
    }

    /// A copy of this field with the same path text.
    pub fn duplicate(&self) -> (copy: Self)
        ensures
            copy == *self,
    {
        FileField { path: self.path.clone() }
    }
}

impl From<String> for FileField {
    fn from(path: String) -> (field: Self)
        ensures
            field@ == path@,
    {
        FileField { path }
    }
}

impl vstd::std_specs::convert::FromSpecImpl<String> for FileField {
    open spec fn obeys_from_spec() -> bool {
        true
    }

    open spec fn from_spec(path: String) -> Self {
        FileField { path }
    }
}

} // verus!
