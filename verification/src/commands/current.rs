use crate::commands::export::entry_named;
use crate::config::kubernetes::{ContextData, ContextDataView, KubeConfig, KubeConfigView};
use crate::entries::{names_of, position};
use vstd::prelude::*;

verus! {

/// What there is to show of the current selection.
#[derive(Debug)]
pub struct CurrentContext {
    /// The name that the document calls current.
    pub name: String,
    /// What the context of that name binds, where there is such a context.
    pub details: Option<ContextData>,
}

/// What a `CurrentContext` holds.
pub struct CurrentContextView {
    pub name: Seq<char>,
    pub details: Option<ContextDataView>,
}

impl View for CurrentContext {
    type V = CurrentContextView;

    open spec fn view(&self) -> CurrentContextView {
        CurrentContextView { name: self.name@, details: self.details.deep_view() }
    }
}

/// What there is to show of a document's current selection: its name and,
/// where a context has that name, what the first such context binds.
pub open spec fn current_context_of(config: KubeConfigView) -> CurrentContextView {
    CurrentContextView {
        name: config.current_context,
        details: if names_of(config.contexts).contains(config.current_context) {
            Some(entry_named(config.contexts, config.current_context).context)
        } else {
            None
        },
    }
}

/// Gathers what there is to show of the current selection. A selection that
/// names no context is shown by its name alone.
pub fn show_current_context(config: &KubeConfig) -> (r: CurrentContext)
    ensures
        r@ == current_context_of(config@),
{
    let details = match position(&config.contexts, &config.current_context) {
        Some(at) => Some(config.contexts[at].context.clone()),
        None => None,
    };
    CurrentContext { name: config.current_context.clone(), details }
}

} // verus!
