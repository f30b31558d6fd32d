use crate::commands::cleanup::{
    cleaned, cleanup_orphans, orphaned_clusters, orphaned_users, Orphans,
};
use crate::config::kubernetes::{ContextEntry, ContextView, KubeConfig, KubeConfigView};
use crate::entries::{
    entry_names, names_of, not_listed_in, partition_by_names, position, unlisted_names,
};
use crate::naming::contains_name;
use crate::text::framed;
use vstd::prelude::*;

verus! {

/// Which context becomes the current selection when the current one is
/// deleted and others remain.
#[derive(Debug)]
pub enum Replacement {
    /// The first context that remains.
    First,
    /// The remaining context of this name.
    Named(String),
    /// None: the deletion is to be given up.
    Refuse,
}

/// What a `Replacement` holds.
pub enum ReplacementView {
    First,
    Named(Seq<char>),
    Refuse,
}

impl View for Replacement {
    type V = ReplacementView;

    open spec fn view(&self) -> ReplacementView {
        match self {
            Replacement::First => ReplacementView::First,
            Replacement::Named(name) => ReplacementView::Named(name@),
            Replacement::Refuse => ReplacementView::Refuse,
        }
    }
}

/// Why a deletion was refused.
#[derive(Debug)]
pub enum DeleteError {
    /// The document has no contexts.
    NoContexts,
    /// No context has the name that was to be deleted.
    NotFound(String),
    /// No remaining context has the name that was to be selected.
    ReplacementNotFound(String),
    /// The current context was to be deleted and no other was to be selected.
    SwitchRefused,
}

/// What a `DeleteError` holds.
pub enum DeleteErrorView {
    NoContexts,
    NotFound(Seq<char>),
    ReplacementNotFound(Seq<char>),
    SwitchRefused,
}

impl View for DeleteError {
    type V = DeleteErrorView;

    open spec fn view(&self) -> DeleteErrorView {
        match self {
            DeleteError::NoContexts => DeleteErrorView::NoContexts,
            DeleteError::NotFound(name) => DeleteErrorView::NotFound(name@),
            DeleteError::ReplacementNotFound(name) => DeleteErrorView::ReplacementNotFound(name@),
            DeleteError::SwitchRefused => DeleteErrorView::SwitchRefused,
        }
    }
}

/// What a deletion did beside removing the context.
#[derive(Debug)]
pub struct DeleteReport {
    /// The context that was selected in place of the deleted one.
    pub switched_to: Option<String>,
    /// The clusters and users that were removed as orphans.
    pub removed: Orphans,
}

/// The contexts that remain when those called `name` are deleted.
pub open spec fn remaining_contexts(config: KubeConfigView, name: Seq<char>) -> Seq<ContextView> {
    not_listed_in(config.contexts, seq![name])
}

/// The document without the contexts called `name`.
pub open spec fn without_context(config: KubeConfigView, name: Seq<char>) -> KubeConfigView {
    KubeConfigView { contexts: remaining_contexts(config, name), ..config }
}

/// Whether deleting the context `name` takes the current selection away
/// while other contexts remain, so that one of them is to be selected.
pub open spec fn needs_replacement(config: KubeConfigView, name: Seq<char>) -> bool {
    config.current_context == name && remaining_contexts(config, name).len() > 0
}

/// The current selection after the context `name` is deleted. A selection
/// that is not deleted stays. In place of a deleted one comes the remaining
/// context that `replacement` asks for, or nothing when none remains.
pub open spec fn selection_after_delete(
    config: KubeConfigView,
    name: Seq<char>,
    replacement: ReplacementView,
) -> Result<Seq<char>, DeleteErrorView> {
    let others = names_of(remaining_contexts(config, name));
    if config.current_context != name {
        Ok(config.current_context)
    } else if others.len() == 0 {
        Ok(Seq::empty())
    } else {
        match replacement {
            ReplacementView::First => Ok(others[0]),
            ReplacementView::Named(other) => if others.contains(other) {
                Ok(other)
            } else {
                Err(DeleteErrorView::ReplacementNotFound(other))
            },
            ReplacementView::Refuse => Err(DeleteErrorView::SwitchRefused),
        }
    }
}

/// What deleting the context `name` makes of a document, or why it is
/// refused. With `cleanup`, the clusters and users that no remaining context
/// refers to go as well.
pub open spec fn delete_result(
    config: KubeConfigView,
    name: Seq<char>,
    replacement: ReplacementView,
    cleanup: bool,
) -> Result<KubeConfigView, DeleteErrorView> {
    if config.contexts.len() == 0 {
        Err(DeleteErrorView::NoContexts)
    } else if !names_of(config.contexts).contains(name) {
        Err(DeleteErrorView::NotFound(name))
    } else {
        match selection_after_delete(config, name, replacement) {
            Err(e) => Err(e),
            Ok(selection) => {
                let deleted = KubeConfigView {
                    current_context: selection,
                    ..without_context(config, name)
                };
                if cleanup {
                    Ok(cleaned(deleted))
                } else {
                    Ok(deleted)
                }
            },
        }
    }
}

/// How the context to delete is settled.
#[derive(Debug)]
pub enum DeleteTarget {
    /// This context is deleted.
    Named(String),
    /// One of these is to be picked.
    Choose(Vec<String>),
}

/// What a `DeleteTarget` holds.
pub enum DeleteTargetView {
    Named(Seq<char>),
    Choose(Seq<Seq<char>>),
}

impl View for DeleteTarget {
    type V = DeleteTargetView;

    open spec fn view(&self) -> DeleteTargetView {
        match self {
            DeleteTarget::Named(name) => DeleteTargetView::Named(name@),
            DeleteTarget::Choose(names) => DeleteTargetView::Choose(names.deep_view()),
        }
    }
}

/// How the context to delete is settled from the name that was asked for,
/// if any. A document without contexts has none to delete; a name that was
/// given must be that of a context; where none was given, one of the
/// document's contexts is to be picked.
pub open spec fn delete_target_of(config: KubeConfigView, name: Option<Seq<char>>) -> Result<
    DeleteTargetView,
    DeleteErrorView,
> {
    if config.contexts.len() == 0 {
        Err(DeleteErrorView::NoContexts)
    } else {
        match name {
            Some(name) => if names_of(config.contexts).contains(name) {
                Ok(DeleteTargetView::Named(name))
            } else {
                Err(DeleteErrorView::NotFound(name))
            },
            None => Ok(DeleteTargetView::Choose(names_of(config.contexts))),
        }
    }
}

/// Settles which context to delete from the name that was asked for, if
/// any.
pub fn delete_target(config: &KubeConfig, context_name: Option<String>) -> (r: Result<
    DeleteTarget,
    DeleteError,
>)
    ensures
        match delete_target_of(config@, context_name.deep_view()) {
            Ok(target) => r is Ok && r->Ok_0@ == target,
            Err(e) => r is Err && r->Err_0@ == e,
        },
{
    if config.contexts.is_empty() {
        return Err(DeleteError::NoContexts);
    }
    match context_name {
        Some(name) => {
            if position(&config.contexts, &name).is_some() {
                Ok(DeleteTarget::Named(name))
            } else {
                Err(DeleteError::NotFound(name))
            }
        },
        None => Ok(DeleteTarget::Choose(entry_names(&config.contexts))),
    }
}

/// Lists the contexts that can be selected in place of the context `name`
/// when it is deleted: the other contexts, by name, where `name` is the
/// current selection; none where it is not.
pub fn replacement_candidates(config: &KubeConfig, name: &str) -> (r: Vec<String>)
    ensures
        r.deep_view() == if config@.current_context == name@ {
            names_of(remaining_contexts(config@, name@))
        } else {
            Seq::empty()
        },
{
    let target = name.to_string();
    if config.current_context == target {
        let mut targets: Vec<String> = Vec::new();
        targets.push(target);
        assert(targets.deep_view() =~= seq![name@]);
        unlisted_names(&config.contexts, &targets)
    } else {
        let none: Vec<String> = Vec::new();
        none
    }
}

/// Deletes the context `context_name`.
///
/// Where it is the current selection and other contexts remain, one of them
/// is selected as `replacement` says; where none remains, the selection
/// becomes empty. With `cleanup`, the clusters and users that no remaining
/// context refers to are removed too. A refused deletion leaves the
/// document as it is.
pub fn delete_context(
    config: &mut KubeConfig,
    context_name: &str,
    replacement: Replacement,
    cleanup: bool,
) -> (r: Result<DeleteReport, DeleteError>)
    ensures
        match delete_result(old(config)@, context_name@, replacement@, cleanup) {
            Ok(after) => {
                &&& r is Ok
                &&& final(config)@ == after
                &&& r->Ok_0.switched_to.deep_view() == if needs_replacement(
                    old(config)@,
                    context_name@,
                ) {
                    Some(after.current_context)
                } else {
                    None
                }
                &&& r->Ok_0.removed.clusters.deep_view() == if cleanup {
                    orphaned_clusters(without_context(old(config)@, context_name@))
                } else {
                    Seq::empty()
                }
                &&& r->Ok_0.removed.users.deep_view() == if cleanup {
                    orphaned_users(without_context(old(config)@, context_name@))
                } else {
                    Seq::empty()
                }
            },
            Err(e) => r is Err && r->Err_0@ == e && final(config)@ == old(config)@,
        },
{
    if config.contexts.is_empty() {
        return Err(DeleteError::NoContexts);
    }
    let name = context_name.to_string();
    if position(&config.contexts, &name).is_none() {
        return Err(DeleteError::NotFound(name));
    }
    let mut targets: Vec<String> = Vec::new();
    targets.push(name.clone());
    assert(targets.deep_view() =~= seq![context_name@]);
    let others = unlisted_names(&config.contexts, &targets);
    let mut switched_to: Option<String> = None;
    if config.current_context == name {
        if others.len() > 0 {
            let selected = match replacement {
                Replacement::First => {
                    others[0].clone()
                },
                Replacement::Named(other) => {
                    if !contains_name(&others, &other) {
                        return Err(DeleteError::ReplacementNotFound(other));
                    }
                    other
                },
                Replacement::Refuse => {
                    return Err(DeleteError::SwitchRefused);
                },
            };
            config.current_context = selected.clone();
            switched_to = Some(selected);
        } else {
            config.current_context = String::new();
        }
    }
    let mut contexts: Vec<ContextEntry> = Vec::new();
    std::mem::swap(&mut config.contexts, &mut contexts);
    let (_deleted, remaining) = partition_by_names(contexts, &targets);
    config.contexts = remaining;
    let removed = if cleanup {
        cleanup_orphans(config)
    } else {
        let clusters: Vec<String> = Vec::new();
        let users: Vec<String> = Vec::new();
        Orphans { clusters, users }
    };
    Ok(DeleteReport { switched_to, removed })
}

/// The message that tells the user why a deletion was refused.
pub open spec fn delete_error_text(e: DeleteErrorView) -> Seq<char> {
    match e {
        DeleteErrorView::NoContexts => "No contexts available to delete"@,
        DeleteErrorView::NotFound(name) => "Context '"@ + name + "' not found"@,
        DeleteErrorView::ReplacementNotFound(name) => "Context '"@ + name + "' not found"@,
        DeleteErrorView::SwitchRefused => "Cannot delete the current context without switching first"@,
    }
}

impl DeleteError {
    /// The message for the user.
    pub fn message(&self) -> (r: String)
        ensures
            r@ == delete_error_text(self@),
    {
        match self {
            DeleteError::NoContexts => "No contexts available to delete".to_string(),
            DeleteError::NotFound(name) => framed("Context '", name.as_str(), "' not found"),
            DeleteError::ReplacementNotFound(name) => framed(
                "Context '",
                name.as_str(),
                "' not found",
            ),
            DeleteError::SwitchRefused => {
                "Cannot delete the current context without switching first".to_string()
            },
        }
    }
}

} // verus!
