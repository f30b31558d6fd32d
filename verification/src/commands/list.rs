use crate::config::kubernetes::{KubeConfig, KubeConfigView};
use vstd::prelude::*;

verus! {

/// One line of the list of contexts.
#[derive(Debug)]
pub struct ContextLine {
    /// The context's name.
    pub name: String,
    /// Whether the context is the current selection.
    pub is_current: bool,
    /// The context's namespace, where it has one.
    pub namespace: Option<String>,
}

/// What a `ContextLine` holds.
pub struct ContextLineView {
    pub name: Seq<char>,
    pub is_current: bool,
    pub namespace: Option<Seq<char>>,
}

impl DeepView for ContextLine {
    type V = ContextLineView;

    open spec fn deep_view(&self) -> ContextLineView {
        ContextLineView {
            name: self.name@,
            is_current: self.is_current,
            namespace: self.namespace.deep_view(),
        }
    }
}

impl View for ContextLine {
    type V = ContextLineView;

    open spec fn view(&self) -> ContextLineView {
        self.deep_view()
    }
}

/// The list of a document's contexts: one line for each, in document order,
/// with a mark on every context that has the name of the current selection.
pub open spec fn context_lines(config: KubeConfigView) -> Seq<ContextLineView> {
    Seq::new(
        config.contexts.len(),
        |i: int|
            ContextLineView {
                name: config.contexts[i].name,
                is_current: config.contexts[i].name == config.current_context,
                namespace: config.contexts[i].context.namespace,
            },
    )
}

/// Lists the contexts of a document, the current one marked.
pub fn list_contexts(config: &KubeConfig) -> (r: Vec<ContextLine>)
    ensures
        r.deep_view() == context_lines(config@),
{
    let mut lines: Vec<ContextLine> = Vec::new();
    let mut i: usize = 0;
    while i < config.contexts.len()
        invariant
            i <= config.contexts.len(),
            lines.len() == i,
            forall|j: int| 0 <= j < i ==> lines@[j].deep_view() == context_lines(config@)[j],
        decreases config.contexts.len() - i,
    {
        let context = &config.contexts[i];
        let namespace = match &context.context.namespace {
            Some(n) => Some(n.clone()),
            None => None,
        };
        lines.push(
            ContextLine {
                name: context.name.clone(),
                is_current: context.name == config.current_context,
                namespace,
            },
        );
        i += 1;
    }
    lines
}

} // verus!
