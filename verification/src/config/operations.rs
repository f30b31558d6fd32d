use crate::config::kubernetes::{KubeConfig, KubeConfigView};
use crate::text::{begins_with, blank, is_blank, occurs_in, starts_with, str_contains};
use vstd::prelude::*;
use vstd::string::StringExecFns;

verus! {

/// What is wrong with a document that could not be decoded.
#[derive(Debug, PartialEq, Eq, Structural, Clone, Copy)]
pub enum ParseFailure {
    /// The version tag or the type tag is missing.
    MissingRequiredFields,
    /// Some other field is missing.
    MissingField,
    /// Anything else: the text is no document of this shape.
    Malformed,
}

/// Sorts a decoder's complaint by what it says is missing.
pub open spec fn parse_failure(detail: Seq<char>) -> ParseFailure {
    if occurs_in(detail, "missing field `apiVersion`"@) || occurs_in(
        detail,
        "missing field `kind`"@,
    ) {
        ParseFailure::MissingRequiredFields
    } else if occurs_in(detail, "missing field"@) {
        ParseFailure::MissingField
    } else {
        ParseFailure::Malformed
    }
}

/// Sorts a decoder's complaint by what it says is missing.
pub fn classify_parse_error(detail: &str) -> (r: ParseFailure)
    ensures
        r == parse_failure(detail@),
{
    if str_contains(detail, "missing field `apiVersion`") || str_contains(
        detail,
        "missing field `kind`",
    ) {
        ParseFailure::MissingRequiredFields
    } else if str_contains(detail, "missing field") {
        ParseFailure::MissingField
    } else {
        ParseFailure::Malformed
    }
}

/// The message for a document file that holds nothing but white space.
pub open spec fn empty_config_text(path: Seq<char>) -> Seq<char> {
    "Config file is empty: "@ + path
        + "\n\nA valid kubeconfig file must contain at least:\n  apiVersion: v1\n  kind: Config\n  clusters: []\n  contexts: []\n  users: []\n  current-context: \"\""@
}

/// The message for a document file in which a field other than the two tags
/// is missing.
pub open spec fn missing_field_text(path: Seq<char>, detail: Seq<char>) -> Seq<char> {
    "Invalid kubeconfig file: "@ + path + "\n\n"@ + detail
        + "\n\nPlease check that your kubeconfig file has all required fields."@
}

/// The message for a file that is no document at all.
pub open spec fn malformed_text(path: Seq<char>, detail: Seq<char>) -> Seq<char> {
    "Failed to parse kubeconfig file: "@ + path + "\n\n"@ + detail
}

/// The message for a document file that could not be decoded, by what the
/// decoder's complaint `detail` says is missing.
pub open spec fn parse_failure_text(path: Seq<char>, detail: Seq<char>) -> Seq<char> {
    match parse_failure(detail) {
        ParseFailure::MissingRequiredFields => "Invalid kubeconfig file: "@ + path
            + "\n\nThe file appears to be missing required fields. A valid kubeconfig must include:\n  - apiVersion: v1\n  - kind: Config\n  - clusters, contexts, users arrays\n  - current-context\n\nOriginal error: "@
            + detail,
        ParseFailure::MissingField => missing_field_text(path, detail),
        ParseFailure::Malformed => malformed_text(path, detail),
    }
}

/// Writes the message for a document file that holds nothing but white
/// space.
pub fn empty_config_message(path: &str) -> (r: String)
    ensures
        r@ == empty_config_text(path@),
{
    let mut message = "Config file is empty: ".to_string();
    message.append(path);
    message.append(
        "\n\nA valid kubeconfig file must contain at least:\n  apiVersion: v1\n  kind: Config\n  clusters: []\n  contexts: []\n  users: []\n  current-context: \"\"",
    );
    message
}

/// Writes the message for a document file in which a field other than the
/// two tags is missing.
pub fn missing_field_message(path: &str, detail: &str) -> (r: String)
    ensures
        r@ == missing_field_text(path@, detail@),
{
    let mut message = "Invalid kubeconfig file: ".to_string();
    message.append(path);
    message.append("\n\n");
    message.append(detail);
    message.append("\n\nPlease check that your kubeconfig file has all required fields.");
    message
}

/// Writes the message for a file that is no document at all.
pub fn malformed_message(path: &str, detail: &str) -> (r: String)
    ensures
        r@ == malformed_text(path@, detail@),
{
    let mut message = "Failed to parse kubeconfig file: ".to_string();
    message.append(path);
    message.append("\n\n");
    message.append(detail);
    message
}

/// Writes the message for a document file that could not be decoded.
pub fn parse_failure_message(path: &str, detail: &str) -> (r: String)
    ensures
        r@ == parse_failure_text(path@, detail@),
{
    match classify_parse_error(detail) {
        ParseFailure::MissingRequiredFields => {
            let mut message = "Invalid kubeconfig file: ".to_string();
            message.append(path);
            message.append(
                "\n\nThe file appears to be missing required fields. A valid kubeconfig must include:\n  - apiVersion: v1\n  - kind: Config\n  - clusters, contexts, users arrays\n  - current-context\n\nOriginal error: ",
            );
            message.append(detail);
            message
        },
        ParseFailure::MissingField => missing_field_message(path, detail),
        ParseFailure::Malformed => malformed_message(path, detail),
    }
}

/// What is made of a document file at `path`, given whether its text is
/// nothing but white space and what decoding the text gave: an empty file is
/// refused, whatever the decoder made of it; a text that did not decode is
/// refused with a message that says what is missing; else the document is
/// handed on.
pub open spec fn loaded_config(
    path: Seq<char>,
    is_empty: bool,
    parsed: Result<KubeConfig, String>,
) -> Result<KubeConfig, Seq<char>> {
    if is_empty {
        Err(empty_config_text(path))
    } else {
        match parsed {
            Ok(config) => Ok(config),
            Err(detail) => Err(parse_failure_text(path, detail@)),
        }
    }
}

/// Judges what was read from the document file at `path`, given whether its
/// text is nothing but white space and what decoding the text gave.
pub fn judge_loaded(path: &str, is_empty: bool, parsed: Result<KubeConfig, String>) -> (r: Result<
    KubeConfig,
    String,
>)
    ensures
        match loaded_config(path@, is_empty, parsed) {
            Ok(config) => r == Ok::<KubeConfig, String>(config),
            Err(message) => r is Err && r->Err_0@ == message,
        },
{
    if is_empty {
        return Err(empty_config_message(path));
    }
    match parsed {
        Ok(config) => Ok(config),
        Err(detail) => Err(parse_failure_message(path, detail.as_str())),
    }
}

/// Judges what was read from the document file at `path`: `content` is the
/// file's text and `parsed` what decoding it gave. A text of nothing but
/// white space is refused as empty, whatever the decoder made of it; a text
/// that did not decode is refused with a message that says what is missing;
/// else the document is handed on.
pub fn load_kube_config_from(path: &str, content: &str, parsed: Result<KubeConfig, String>) -> (r:
    Result<KubeConfig, String>)
    ensures
        match loaded_config(path@, is_blank(content@), parsed) {
            Ok(config) => r == Ok::<KubeConfig, String>(config),
            Err(message) => r is Err && r->Err_0@ == message,
        },
        content@.len() == 0 ==> r is Err && r->Err_0@ == empty_config_text(path@),
        r is Err ==> (is_recoverable(r->Err_0@) <==> is_blank(content@)),
{
    proof {
        if loaded_config(path@, is_blank(content@), parsed) is Err {
            lemma_recoverable_iff_empty(path@, is_blank(content@), parsed);
        }
    }
    judge_loaded(path, blank(content), parsed)
}

/// Whether a failure to load the main document leaves an import free to
/// start from an empty document: the file is missing or is empty, which the
/// message says at its start. A file that is there and holds text, but does
/// not decode, is no such failure, whatever its path and the decoder's
/// complaint hold.
pub open spec fn is_recoverable(message: Seq<char>) -> bool {
    ||| starts_with(message, "Config file is empty: "@)
    ||| starts_with(message, "Kubernetes config file not found"@)
}

/// The message for an empty file tells a failure that an import recovers
/// from.
pub proof fn lemma_empty_is_recoverable(path: Seq<char>)
    ensures
        is_recoverable(empty_config_text(path)),
{
    let head = "Config file is empty: "@;
    assert(empty_config_text(path).subrange(0, head.len() as int) =~= head);
}

/// The message for a file that did not decode tells no failure that an
/// import recovers from, whatever the path and the decoder's complaint are.
pub proof fn lemma_undecoded_is_not_recoverable(path: Seq<char>, detail: Seq<char>)
    ensures
        !is_recoverable(parse_failure_text(path, detail)),
{
    reveal_strlit("Config file is empty: ");
    reveal_strlit("Kubernetes config file not found");
    reveal_strlit("Invalid kubeconfig file: ");
    reveal_strlit("Failed to parse kubeconfig file: ");
    let message = parse_failure_text(path, detail);
    assert(message[0] == 'I' || message[0] == 'F');
    if starts_with(message, "Config file is empty: "@) {
        assert(message.subrange(0, "Config file is empty: "@.len() as int)[0] == 'C');
    }
    if starts_with(message, "Kubernetes config file not found"@) {
        assert(message.subrange(0, "Kubernetes config file not found"@.len() as int)[0] == 'K');
    }
}

/// A failure to load a document file is one that an import recovers from
/// exactly if the file is empty: a file that holds text and does not decode
/// always keeps its error.
pub proof fn lemma_recoverable_iff_empty(
    path: Seq<char>,
    is_empty: bool,
    parsed: Result<KubeConfig, String>,
)
    requires
        loaded_config(path, is_empty, parsed) is Err,
    ensures
        is_recoverable(loaded_config(path, is_empty, parsed)->Err_0) <==> is_empty,
{
    if is_empty {
        lemma_empty_is_recoverable(path);
    } else {
        lemma_undecoded_is_not_recoverable(path, parsed->Err_0@);
    }
}

/// Stands in for a main document that is missing or empty: `loaded` is what
/// loading it gave. A document is handed on; a failure that
/// `is_recoverable` gives the empty document; any other failure stays.
pub fn load_kube_config_or_default(loaded: Result<KubeConfig, String>) -> (r: Result<
    KubeConfig,
    String,
>)
    ensures
        match loaded {
            Ok(config) => r == Ok::<KubeConfig, String>(config),
            Err(message) => if is_recoverable(message@) {
                r is Ok && r->Ok_0@ == KubeConfigView::empty()
            } else {
                r == Err::<KubeConfig, String>(message)
            },
        },
{
    match loaded {
        Ok(config) => Ok(config),
        Err(message) => {
            if begins_with(message.as_str(), "Config file is empty: ") || begins_with(
                message.as_str(),
                "Kubernetes config file not found",
            ) {
                Ok(KubeConfig::default())
            } else {
                Err(message)
            }
        },
    }
}

} // verus!
