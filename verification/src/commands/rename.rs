use crate::config::kubernetes::{KubeConfig, KubeConfigView};
use crate::entries::{first_index, names_of, position, Named};
use crate::text::framed;
use vstd::prelude::*;

verus! {

/// Why a context was not renamed.
#[derive(Debug)]
pub enum RenameError {
    /// No context has the old name.
    NotFound(String),
    /// A context has the new name already. This is also what renaming a
    /// context to its own name comes to.
    AlreadyExists(String),
}

/// What a `RenameError` holds.
pub enum RenameErrorView {
    NotFound(Seq<char>),
    AlreadyExists(Seq<char>),
}

impl View for RenameError {
    type V = RenameErrorView;

    open spec fn view(&self) -> RenameErrorView {
        match self {
            RenameError::NotFound(name) => RenameErrorView::NotFound(name@),
            RenameError::AlreadyExists(name) => RenameErrorView::AlreadyExists(name@),
        }
    }
}

/// What renaming the context `old_name` to `new_name` makes of a document,
/// or why it is refused. The first context of the old name gets the new
/// one, and so does the current selection where it was the old name.
/// Clusters and users stay as they are.
pub open spec fn rename_result(
    config: KubeConfigView,
    old_name: Seq<char>,
    new_name: Seq<char>,
) -> Result<KubeConfigView, RenameErrorView> {
    let names = names_of(config.contexts);
    if !names.contains(old_name) {
        Err(RenameErrorView::NotFound(old_name))
    } else if names.contains(new_name) {
        Err(RenameErrorView::AlreadyExists(new_name))
    } else {
        let index = first_index(names, old_name);
        Ok(
            KubeConfigView {
                contexts: config.contexts.update(
                    index,
                    config.contexts[index].renamed(new_name),
                ),
                current_context: if config.current_context == old_name {
                    new_name
                } else {
                    config.current_context
                },
                ..config
            },
        )
    }
}

/// Renames the context `old_name` to `new_name`.
///
/// It is refused where no context has the old name, and where one has the
/// new name already, which is so whenever the two names are the same. A
/// refused renaming leaves the document as it is.
pub fn rename_context(config: &mut KubeConfig, old_name: &str, new_name: &str) -> (r: Result<
    (),
    RenameError,
>)
    ensures
        match rename_result(old(config)@, old_name@, new_name@) {
            Ok(after) => r is Ok && final(config)@ == after,
            Err(e) => r is Err && r->Err_0@ == e && final(config)@ == old(config)@,
        },
        names_of(old(config)@.contexts).contains(new_name@) ==> r is Err && final(config)@ == old(
            config,
        )@,
        old_name@ == new_name@ ==> r is Err && final(config)@ == old(config)@,
{
    let ghost before = config@;
    let old_name = old_name.to_string();
    let new_name = new_name.to_string();
    let index = match position(&config.contexts, &old_name) {
        Some(index) => index,
        None => {
            return Err(RenameError::NotFound(old_name));
        },
    };
    if position(&config.contexts, &new_name).is_some() {
        return Err(RenameError::AlreadyExists(new_name));
    }
    config.contexts[index].name = new_name.clone();
    if config.current_context == old_name {
        config.current_context = new_name;
    }
    proof {
        assert(config.contexts.deep_view() =~= before.contexts.update(
            index as int,
            before.contexts[index as int].renamed(new_name@),
        ));
    }
    Ok(())
}

/// The message that tells the user why a context was not renamed.
pub open spec fn rename_error_text(e: RenameErrorView) -> Seq<char> {
    match e {
        RenameErrorView::NotFound(name) => "Context '"@ + name + "' not found"@,
        RenameErrorView::AlreadyExists(name) => "Context '"@ + name + "' already exists"@,
    }
}

impl RenameError {
    /// The message for the user.
    pub fn message(&self) -> (r: String)
        ensures
            r@ == rename_error_text(self@),
    {
        match self {
            RenameError::NotFound(name) => framed("Context '", name.as_str(), "' not found"),
            RenameError::AlreadyExists(name) => framed(
                "Context '",
                name.as_str(),
                "' already exists",
            ),
        }
    }
}

} // verus!
