//! Changes of a project's stack description, as reported to the user
//! interface.

use crate::text;
use vstd::prelude::*;

verus! {

pub const EVENT_CHANGED: &'static str = "stack-yaml-changed";

pub const KIND_MODIFIED: &'static str = "modified";

pub const KIND_CREATED: &'static str = "created";

pub const KIND_DELETED: &'static str = "deleted";

pub const MSG_NO_STACK_YAML: &'static str = "stack.yaml 파일이 존재하지 않습니다";

/// What happened to a watched file.
#[derive(Debug, Clone, Copy, PartialEq, Eq)]
pub enum ChangeKind {
    Modify,
    Create,
    Remove,
    Other,
}

/// What the user interface is told about a change.
#[derive(Debug, Clone, PartialEq, Eq)]
pub struct FileChangePayload {
    pub path: String,
    pub event_type: String,
}

/// The mathematical content of a [`FileChangePayload`].
pub struct ChangeModel {
    pub path: Seq<char>,
    pub event_type: Seq<char>,
}

impl View for FileChangePayload {
    type V = ChangeModel;

    open spec fn view(&self) -> ChangeModel {
        ChangeModel { path: self.path@, event_type: self.event_type@ }
    }
}

/// The word for a kind of change, for the kinds that are reported.
pub open spec fn kind_label(kind: ChangeKind) -> Option<Seq<char>> {
    match kind {
        ChangeKind::Modify => Some(KIND_MODIFIED@),
        ChangeKind::Create => Some(KIND_CREATED@),
        ChangeKind::Remove => Some(KIND_DELETED@),
        ChangeKind::Other => None,
    }
}

/// What is reported for a change of the file at `path`. Changes that are
/// neither a modification, a creation nor a removal are not reported.
pub open spec fn reported_change(kind: ChangeKind, path: Seq<char>) -> Option<ChangeModel> {
    match kind_label(kind) {
        Some(label) => Some(ChangeModel { path, event_type: label }),
        None => None,
    }
}

/// The content of an optional report.
pub open spec fn change_option_view(r: Option<FileChangePayload>) -> Option<ChangeModel> {
    match r {
        Some(c) => Some(c@),
        None => None,
    }
}

/// What is reported for a change of the file at `path`.
pub fn change_payload(kind: ChangeKind, path: &str) -> (r: Option<FileChangePayload>)
    ensures
        change_option_view(r) == reported_change(kind, path@),
{
    let label = match kind {
        ChangeKind::Modify => KIND_MODIFIED,
        ChangeKind::Create => KIND_CREATED,
        ChangeKind::Remove => KIND_DELETED,
        ChangeKind::Other => {
            return None;
        },
    };
    Some(FileChangePayload { path: text::owned(path), event_type: text::owned(label) })
}

/// Whether watching can start: only a stack description that exists can be
/// watched.
pub fn watch_stack_yaml(stack_yaml_exists: bool) -> (r: Result<(), String>)
    ensures
        match r {
            Ok(()) => stack_yaml_exists,
            Err(reason) => !stack_yaml_exists && reason@ == MSG_NO_STACK_YAML@,
        },
{
    if stack_yaml_exists {
        Ok(())
    } else {
        Err(text::owned(MSG_NO_STACK_YAML))
    }
}

} // verus!
