//! Verified core of a workshop uploader: the decisions behind uploading or
//! updating a content item on a workshop-style distribution platform.
//!
//! The crate holds the upload workflow, the rules of the upload form, what
//! each operation of a workshop session asks and makes of the answer, and the
//! bookkeeping that keeps the platform's callbacks pumped while a result is
//! awaited. A shell around it owns the window, the dialogs, the platform
//! client and its worker thread: it feeds events in and carries out the
//! effects that come back. The only thing the crate does on its own is to ask
//! the file system whether a path exists.

pub mod channel;
pub mod disk;
pub mod dispatcher;
pub mod error;
pub mod file_field;
pub mod id_text;
pub mod interest;
pub mod item_info;
pub mod pending;
pub mod session;
pub mod text;
pub mod workflow;

pub use channel::{Delivery, ResultChannel};
pub use disk::PathProbe;
pub use dispatcher::{Dispatcher, DispatcherAction, DispatcherMode, IDLE_TIMEOUT_MS};
pub use error::WorkshopError;
pub use file_field::FileField;
pub use id_text::{classify_id_text, item_id_text, IdText, InvalidId};
pub use interest::{InterestCounter, OperationGuard};
pub use item_info::{ItemFields, ItemInfo, ItemInfoMessage, ItemInfoState, PathKind};
pub use pending::PendingCall;
pub use session::{FileKind, ItemSummary, LookupRequest, LookupVerdict, Session, SubmitRequest};
pub use workflow::{advance, transition, Effect, Message, WorkflowState};
