use crate::config::kubernetes::{KubeConfig, KubeConfigView};
use crate::entries::{names_of, position};
use crate::text::framed;
use vstd::prelude::*;

verus! {

/// Why the current selection was not changed.
#[derive(Debug)]
pub enum SwitchError {
    /// No context has the name that was to be selected.
    NotFound(String),
}

/// What a `SwitchError` holds.
pub enum SwitchErrorView {
    NotFound(Seq<char>),
}

impl View for SwitchError {
    type V = SwitchErrorView;

    open spec fn view(&self) -> SwitchErrorView {
        match self {
            SwitchError::NotFound(name) => SwitchErrorView::NotFound(name@),
        }
    }
}

/// Makes the context `context_name` the current selection. It is refused
/// where no context has that name, and the document then stays as it is.
pub fn switch_context(config: &mut KubeConfig, context_name: &str) -> (r: Result<(), SwitchError>)
    ensures
        names_of(old(config)@.contexts).contains(context_name@) ==> r is Ok && final(config)@ == (
        KubeConfigView { current_context: context_name@, ..old(config)@ }),
        !names_of(old(config)@.contexts).contains(context_name@) ==> r is Err && r->Err_0@
            == SwitchErrorView::NotFound(context_name@) && final(config)@ == old(config)@,
{
    let name = context_name.to_string();
    match position(&config.contexts, &name) {
        Some(_) => {
            config.current_context = name;
            Ok(())
        },
        None => Err(SwitchError::NotFound(name)),
    }
}

impl SwitchError {
    /// The message for the user.
    pub fn message(&self) -> (r: String)
        ensures
            match self@ {
                SwitchErrorView::NotFound(name) => r@ == "Context '"@ + name + "' not found"@,
            },
    {
        match self {
            SwitchError::NotFound(name) => framed("Context '", name.as_str(), "' not found"),
        }
    }
}

} // verus!
