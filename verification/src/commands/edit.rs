use crate::commands::add::EntryKind;
use crate::config::kubernetes::{
    ClusterEntry, ClusterView, ContextEntry, ContextView, KubeConfig, KubeConfigView, UserEntry,
    UserView,
};
use crate::entries::{
    entry_names, first_index, names_of, position, Named, NamedEntry,
};
use crate::naming::{decimal, decimal_string};
use crate::text::{
    framed, join, joined, lines_of, occurs_in, split_on, str_contains, str_lines, str_split,
    str_trim, str_trim_start, trimmed, trimmed_start,
};
use serde_yaml::Value;
use vstd::prelude::*;
use vstd::string::{StrSliceExecFns, StringExecFns};

verus! {

/// The entries that an edit of a context is about, by name: the context,
/// and the cluster and the user that it refers to.
#[derive(Debug)]
pub struct EditTarget {
    pub context_name: String,
    pub cluster_name: String,
    pub user_name: String,
}

/// What an `EditTarget` holds.
pub struct EditTargetView {
    pub context_name: Seq<char>,
    pub cluster_name: Seq<char>,
    pub user_name: Seq<char>,
}

impl View for EditTarget {
    type V = EditTargetView;

    open spec fn view(&self) -> EditTargetView {
        EditTargetView {
            context_name: self.context_name@,
            cluster_name: self.cluster_name@,
            user_name: self.user_name@,
        }
    }
}

/// Why an edit was refused.
#[derive(Debug)]
pub enum EditError {
    /// No context has this name.
    ContextNotFound(String),
    /// The context refers to a cluster that the document does not hold.
    ClusterNotFound(String),
    /// The context refers to a user that the document does not hold.
    UserNotFound(String),
    /// The edited text holds this many entries, not one to three.
    EntryCount(usize),
    /// An edited entry is no YAML; the decoder's complaint is enclosed.
    Unparsable(String),
    /// The name of an entry was changed.
    NameChanged { kind: EntryKind, was: String, now: String },
}

/// What an `EditError` holds. Of an entry that is no YAML it holds no more
/// than that.
pub enum EditErrorView {
    ContextNotFound(Seq<char>),
    ClusterNotFound(Seq<char>),
    UserNotFound(Seq<char>),
    EntryCount(nat),
    Unparsable,
    NameChanged { kind: EntryKind, was: Seq<char>, now: Seq<char> },
}

impl View for EditError {
    type V = EditErrorView;

    open spec fn view(&self) -> EditErrorView {
        match self {
            EditError::ContextNotFound(name) => EditErrorView::ContextNotFound(name@),
            EditError::ClusterNotFound(name) => EditErrorView::ClusterNotFound(name@),
            EditError::UserNotFound(name) => EditErrorView::UserNotFound(name@),
            EditError::EntryCount(n) => EditErrorView::EntryCount(*n as nat),
            EditError::Unparsable(_) => EditErrorView::Unparsable,
            EditError::NameChanged { kind, was, now } => EditErrorView::NameChanged {
                kind: *kind,
                was: was@,
                now: now@,
            },
        }
    }
}

/// The entries that an edit of the context `context_name` is about, or why
/// it cannot be edited: the context must stand in the document, and so must
/// the cluster and the user of its first entry.
pub open spec fn edit_target_of(config: KubeConfigView, context_name: Seq<char>) -> Result<
    EditTargetView,
    EditErrorView,
> {
    if !names_of(config.contexts).contains(context_name) {
        Err(EditErrorView::ContextNotFound(context_name))
    } else {
        let context = config.contexts[first_index(names_of(config.contexts), context_name)];
        if !names_of(config.clusters).contains(context.context.cluster) {
            Err(EditErrorView::ClusterNotFound(context.context.cluster))
        } else if !names_of(config.users).contains(context.context.user) {
            Err(EditErrorView::UserNotFound(context.context.user))
        } else {
            Ok(
                EditTargetView {
                    context_name,
                    cluster_name: context.context.cluster,
                    user_name: context.context.user,
                },
            )
        }
    }
}

/// Finds the entries that an edit of the context `context_name` is about.
pub fn edit_target(config: &KubeConfig, context_name: &str) -> (r: Result<EditTarget, EditError>)
    ensures
        match edit_target_of(config@, context_name@) {
            Ok(target) => r is Ok && r->Ok_0@ == target,
            Err(e) => r is Err && r->Err_0@ == e,
        },
{
    let name = context_name.to_string();
    let at = match position(&config.contexts, &name) {
        Some(at) => at,
        None => {
            return Err(EditError::ContextNotFound(name));
        },
    };
    let context = &config.contexts[at];
    if position(&config.clusters, &context.context.cluster).is_none() {
        return Err(EditError::ClusterNotFound(context.context.cluster.clone()));
    }
    if position(&config.users, &context.context.user).is_none() {
        return Err(EditError::UserNotFound(context.context.user.clone()));
    }
    Ok(
        EditTarget {
            context_name: name,
            cluster_name: context.context.cluster.clone(),
            user_name: context.context.user.clone(),
        },
    )
}

/// The comment at the head of the text that is handed to the editor: what
/// is edited, and the names of the clusters and users that there are.
pub open spec fn edit_header_text(config: KubeConfigView, context_name: Seq<char>) -> Seq<char> {
    "# Editing Kubernetes context: "@ + context_name
        + "\n# Make your changes and save the file.\n# The name fields must remain consistent across entries.\n# Available clusters: "@
        + joined(names_of(config.clusters), ", "@) + "\n# Available users: "@ + joined(
        names_of(config.users),
        ", "@,
    )
        + "\n#\n# This contains the full context, cluster, and user entries from your ~/.kube/config file.\n# All changes here will be merged back into your config.\n\n"@
}

/// The text that is handed to the editor: the header, then the three
/// entries, each in YAML under a comment that says what it is, with an empty
/// line after the context and after the cluster.
pub open spec fn edit_content_text(
    config: KubeConfigView,
    context_name: Seq<char>,
    context_yaml: Seq<char>,
    cluster_yaml: Seq<char>,
    user_yaml: Seq<char>,
) -> Seq<char> {
    edit_header_text(config, context_name) + "# Context entry\n"@ + context_yaml + "\n\n"@
        + "# Cluster entry\n"@ + cluster_yaml + "\n\n"@ + "# User entry\n"@ + user_yaml
}

/// Writes the text that is handed to the editor from the three entries in
/// YAML.
pub fn prepare_edit_content(
    config: &KubeConfig,
    target: &EditTarget,
    context_yaml: &str,
    cluster_yaml: &str,
    user_yaml: &str,
) -> (r: String)
    ensures
        r@ == edit_content_text(
            config@,
            target@.context_name,
            context_yaml@,
            cluster_yaml@,
            user_yaml@,
        ),
{
    let clusters = join(&entry_names(&config.clusters), ", ");
    let users = join(&entry_names(&config.users), ", ");
    let mut text = "# Editing Kubernetes context: ".to_string();
    text.append(target.context_name.as_str());
    text.append(
        "\n# Make your changes and save the file.\n# The name fields must remain consistent across entries.\n# Available clusters: ",
    );
    text.append(clusters.as_str());
    text.append("\n# Available users: ");
    text.append(users.as_str());
    text.append(
        "\n#\n# This contains the full context, cluster, and user entries from your ~/.kube/config file.\n# All changes here will be merged back into your config.\n\n",
    );
    text.append("# Context entry\n");
    text.append(context_yaml);
    text.append("\n\n");
    text.append("# Cluster entry\n");
    text.append(cluster_yaml);
    text.append("\n\n");
    text.append("# User entry\n");
    text.append(user_yaml);
    text
}

/// The editor to use: the one that the environment names as `EDITOR`, else
/// the one it names as `VISUAL`, else `notepad` on Windows and `vi`
/// elsewhere.
pub fn choose_editor(editor: Option<String>, visual: Option<String>, windows: bool) -> (r: String)
    ensures
        r@ == match (editor, visual) {
            (Some(e), _) => e@,
            (None, Some(v)) => v@,
            (None, None) => if windows {
                "notepad"@
            } else {
                "vi"@
            },
        },
{
    match editor {
        Some(e) => e,
        None => match visual {
            Some(v) => v,
            None => if windows {
                "notepad".to_string()
            } else {
                "vi".to_string()
            },
        },
    }
}

/// Says whether the editor opens a window of its own and returns at once:
/// this is taken to be so where its name holds `code`.
pub fn is_gui_editor(editor: &str) -> (b: bool)
    ensures
        b == (occurs_in(editor@, "code"@) || occurs_in(editor@, "vscode"@)),
{
    str_contains(editor, "code") || str_contains(editor, "vscode")
}

/// A text that starts with `#`.
pub open spec fn starts_with_hash(text: Seq<char>) -> bool {
    text.len() > 0 && text[0] == '#'
}

/// A line that is a comment: its first character after leading white space
/// is `#`.
pub open spec fn is_comment_line(line: Seq<char>) -> bool {
    starts_with_hash(trimmed_start(line))
}

/// The test on a line whether it is no comment.
pub open spec fn is_no_comment() -> spec_fn(Seq<char>) -> bool {
    |line: Seq<char>| !is_comment_line(line)
}

/// The test on a text whether it is not empty.
pub open spec fn is_not_empty() -> spec_fn(Seq<char>) -> bool {
    |part: Seq<char>| part.len() > 0
}

/// The taking away of white space at the two ends of a text.
pub open spec fn trimming() -> spec_fn(Seq<char>) -> Seq<char> {
    |part: Seq<char>| trimmed(part)
}

/// The lines without the comment lines, joined by line feeds.
pub open spec fn without_comments(lines: Seq<Seq<char>>) -> Seq<char> {
    joined(lines.filter(is_no_comment()), "\n"@)
}

/// The parts, each without white space at its ends, and without those of
/// which nothing is left.
pub open spec fn trimmed_parts(parts: Seq<Seq<char>>) -> Seq<Seq<char>> {
    parts.map_values(trimming()).filter(is_not_empty())
}

/// The entries of an edited text: what stands between empty lines once the
/// comment lines are taken out, each without white space at its ends, and
/// without those of which nothing is left.
pub open spec fn edited_entries_of(content: Seq<char>) -> Seq<Seq<char>> {
    trimmed_parts(split_on(without_comments(lines_of(content)), "\n\n"@))
}

/// Says whether a text starts with `#`.
pub fn begins_with_hash(text: &str) -> (b: bool)
    ensures
        b == starts_with_hash(text@),
{
    !text.is_empty() && text.get_char(0) == '#'
}

/// Says whether a line is a comment.
pub fn is_comment(line: &str) -> (b: bool)
    ensures
        b == is_comment_line(line@),
{
    begins_with_hash(str_trim_start(line))
}

/// Takes the comment lines out and joins the other lines by line feeds.
pub fn strip_comments(lines: Vec<String>) -> (r: String)
    ensures
        r@ == without_comments(lines.deep_view()),
{
    let ghost all = lines.deep_view();
    let mut kept: Vec<String> = Vec::new();
    for line in it: lines.into_iter()
        invariant
            all == lines.deep_view(),
            kept.deep_view() == all.take(it.index() as int).filter(is_no_comment()),
    {
        let ghost i = it.index() as int;
        proof {
            assert(all.take(i + 1) =~= all.take(i).push(line@));
            all.take(i).lemma_filter_push(line@, is_no_comment());
        }
        if !is_comment(line.as_str()) {
            kept.push(line);
        }
    }
    assert(all.take(all.len() as int) =~= all);
    join(&kept, "\n")
}

/// Takes the white space at the ends of each part away, and leaves out the
/// parts of which nothing is left.
pub fn trim_parts(parts: Vec<String>) -> (r: Vec<String>)
    ensures
        r.deep_view() == trimmed_parts(parts.deep_view()),
{
    let ghost all = parts.deep_view();
    let mut entries: Vec<String> = Vec::new();
    for part in it: parts.into_iter()
        invariant
            all == parts.deep_view(),
            entries.deep_view() == trimmed_parts(all.take(it.index() as int)),
    {
        let ghost i = it.index() as int;
        proof {
            assert(all.take(i + 1).map_values(trimming()) =~= all.take(i).map_values(
                trimming(),
            ).push(trimmed(part@)));
            all.take(i).map_values(trimming()).lemma_filter_push(
                trimmed(part@),
                is_not_empty(),
            );
        }
        let entry = str_trim(part.as_str());
        if !entry.is_empty() {
            entries.push(entry.to_string());
        }
    }
    assert(all.take(all.len() as int) =~= all);
    entries
}

/// Takes the comment lines out of a text and joins its other lines by line
/// feeds.
pub fn uncommented(content: &str) -> (r: String)
    ensures
        r@ == without_comments(lines_of(content@)),
{
    strip_comments(str_lines(content))
}

/// Cuts an edited text into its entries.
pub fn edited_entries(content: &str) -> (r: Vec<String>)
    ensures
        r.deep_view() == edited_entries_of(content@),
{
    let text = uncommented(content);
    proof {
        reveal_strlit("\n\n");
    }
    trim_parts(str_split(text.as_str(), "\n\n"))
}

/// Checks that an edited text holds one to three entries.
pub fn check_entry_count(entries: &Vec<String>) -> (r: Result<(), EditError>)
    ensures
        1 <= entries.len() <= 3 ==> r is Ok,
        !(1 <= entries.len() <= 3) ==> r is Err && r->Err_0@ == EditErrorView::EntryCount(
            entries.len() as nat,
        ),
{
    if entries.is_empty() || entries.len() > 3 {
        Err(EditError::EntryCount(entries.len()))
    } else {
        Ok(())
    }
}

/// What the value of a YAML field is, as far as an edited entry is judged by
/// it.
#[derive(Debug)]
pub enum YamlValue {
    /// A mapping.
    Mapping,
    /// A string.
    Text(String),
    /// Anything else.
    Other,
}

/// What a `YamlValue` holds.
pub enum YamlValueView {
    Mapping,
    Text(Seq<char>),
    Other,
}

/// One field of a YAML mapping: its key, where that is a string, and what
/// its value is.
#[derive(Debug)]
pub struct YamlField {
    pub key: Option<String>,
    pub value: YamlValue,
}

/// What a `YamlField` holds.
pub struct YamlFieldView {
    pub key: Option<Seq<char>>,
    pub value: YamlValueView,
}

impl DeepView for YamlValue {
    type V = YamlValueView;

    open spec fn deep_view(&self) -> YamlValueView {
        match self {
            YamlValue::Mapping => YamlValueView::Mapping,
            YamlValue::Text(s) => YamlValueView::Text(s@),
            YamlValue::Other => YamlValueView::Other,
        }
    }
}

impl DeepView for YamlField {
    type V = YamlFieldView;

    open spec fn deep_view(&self) -> YamlFieldView {
        YamlFieldView { key: self.key.deep_view(), value: self.value.deep_view() }
    }
}

/// The failure of the YAML decoder.
#[verifier::external_type_specification]
#[verifier::external_body]
pub struct ExYamlError(serde_yaml::Error);

/// What a text is when it is read as YAML: nothing where it is no YAML; no
/// fields where it is YAML but no mapping; else the fields of the mapping,
/// in their order.
pub uninterp spec fn yaml_fields(text: Seq<char>) -> Option<Option<Seq<YamlFieldView>>>;

/// `serde_yaml::from_str` at the type `serde_yaml::Value`: decodes the text
/// as YAML. It fails exactly on what `yaml_fields` takes for no YAML. Of a
/// mapping the fields are handed out in their order, of each the key if it
/// is a string, and of the value whether it is a mapping or a string; of
/// any other value, nothing.
#[verifier::external_body]
fn parse_yaml_fields(text: &str) -> (r: Result<Option<Vec<YamlField>>, serde_yaml::Error>)
    ensures
        match r {
            Ok(fields) => yaml_fields(text@) == Some(fields.deep_view()),
            Err(_) => yaml_fields(text@) is None,
        },
{
    let Value::Mapping(map) = serde_yaml::from_str::<Value>(text)? else {
        return Ok(None);
    };
    let field = |(key, value)| YamlField {
        key: match key {
            Value::String(s) => Some(s),
            _ => None,
        },
        value: match value {
            Value::Mapping(_) => YamlValue::Mapping,
            Value::String(s) => YamlValue::Text(s),
            _ => YamlValue::Other,
        },
    };
    Ok(Some(map.into_iter().map(field).collect()))
}

/// `serde_yaml::Error` as text: what the decoder says went wrong.
#[verifier::external_body]
fn yaml_error_text(error: &serde_yaml::Error) -> (r: String) {
    error.to_string()
}

/// The value of the first field whose key is `key`.
pub open spec fn field_value(fields: Seq<YamlFieldView>, key: Seq<char>) -> Option<YamlValueView>
    decreases fields.len(),
{
    if fields.len() == 0 {
        None
    } else if fields[0].key == Some(key) {
        Some(fields[0].value)
    } else {
        field_value(fields.drop_first(), key)
    }
}

/// The kind of entry that a mapping with these fields is: a context where
/// its field `context` is a mapping; else a cluster where its field
/// `cluster` is one; else a user where its field `user` is one; else none.
pub open spec fn entry_kind_of(fields: Seq<YamlFieldView>) -> Option<EntryKind> {
    if field_value(fields, "context"@) == Some(YamlValueView::Mapping) {
        Some(EntryKind::Context)
    } else if field_value(fields, "cluster"@) == Some(YamlValueView::Mapping) {
        Some(EntryKind::Cluster)
    } else if field_value(fields, "user"@) == Some(YamlValueView::Mapping) {
        Some(EntryKind::User)
    } else {
        None
    }
}

/// The name that an entry of this kind is to have after an edit.
pub open spec fn expected_name(target: EditTargetView, kind: EntryKind) -> Seq<char> {
    match kind {
        EntryKind::Context => target.context_name,
        EntryKind::Cluster => target.cluster_name,
        EntryKind::User => target.user_name,
    }
}

/// The judgement on an edited entry, given what it is as YAML: the kind of
/// entry it is, if it is one; refused where it is no YAML, and where it is an
/// entry whose field `name` is a string other than the name that an entry
/// of its kind is to have. An entry without a name that is a string passes.
pub open spec fn entry_judgement(
    parsed: Option<Option<Seq<YamlFieldView>>>,
    target: EditTargetView,
) -> Result<Option<EntryKind>, EditErrorView> {
    match parsed {
        None => Err(EditErrorView::Unparsable),
        Some(None) => Ok(None),
        Some(Some(fields)) => match entry_kind_of(fields) {
            None => Ok(None),
            Some(kind) => match field_value(fields, "name"@) {
                Some(YamlValueView::Text(now)) if now != expected_name(target, kind) => Err(
                    EditErrorView::NameChanged { kind, was: expected_name(target, kind), now },
                ),
                _ => Ok(Some(kind)),
            },
        },
    }
}

/// Finds the value of the first field whose key is `key`.
fn find_field<'a>(fields: &'a Vec<YamlField>, key: &str) -> (r: Option<&'a YamlValue>)
    ensures
        r.deep_view() == field_value(fields.deep_view(), key@),
{
    let ghost all = fields.deep_view();
    let wanted = key.to_string();
    let mut i: usize = 0;
    assert(all.skip(0) =~= all);
    while i < fields.len()
        invariant
            i <= fields.len(),
            all == fields.deep_view(),
            wanted@ == key@,
            field_value(all, key@) == field_value(all.skip(i as int), key@),
        decreases fields.len() - i,
    {
        proof {
            assert(all.skip(i as int).drop_first() =~= all.skip(i + 1));
        }
        let same = match &fields[i].key {
            Some(k) => *k == wanted,
            None => false,
        };
        if same {
            return Some(&fields[i].value);
        }
        i += 1;
    }
    None
}

/// Says whether the first field whose key is `key` holds a mapping.
fn is_mapping_field(fields: &Vec<YamlField>, key: &str) -> (b: bool)
    ensures
        b == (field_value(fields.deep_view(), key@) == Some(YamlValueView::Mapping)),
{
    match find_field(fields, key) {
        Some(YamlValue::Mapping) => true,
        _ => false,
    }
}

/// Judges an edited entry by its fields: says what kind of entry it is, if
/// it is one, and refuses it where its name was changed.
pub fn classify_entry(fields: &Vec<YamlField>, target: &EditTarget) -> (r: Result<
    Option<EntryKind>,
    EditError,
>)
    ensures
        match entry_judgement(Some(Some(fields.deep_view())), target@) {
            Ok(kind) => r == Ok::<Option<EntryKind>, EditError>(kind),
            Err(e) => r is Err && r->Err_0@ == e,
        },
{
    let (kind, expected) = if is_mapping_field(fields, "context") {
        (EntryKind::Context, &target.context_name)
    } else if is_mapping_field(fields, "cluster") {
        (EntryKind::Cluster, &target.cluster_name)
    } else if is_mapping_field(fields, "user") {
        (EntryKind::User, &target.user_name)
    } else {
        return Ok(None);
    };
    match find_field(fields, "name") {
        Some(YamlValue::Text(now)) => {
            if *now != *expected {
                return Err(
                    EditError::NameChanged { kind, was: expected.clone(), now: now.clone() },
                );
            }
        },
        _ => {},
    }
    Ok(Some(kind))
}

/// Judges an edited entry: reads it as YAML and says what kind of entry it
/// is, if it is one. It is refused where it is no YAML and where its name
/// was changed.
pub fn validate_edited_entry(entry: &str, target: &EditTarget) -> (r: Result<
    Option<EntryKind>,
    EditError,
>)
    ensures
        match entry_judgement(yaml_fields(entry@), target@) {
            Ok(kind) => r == Ok::<Option<EntryKind>, EditError>(kind),
            Err(e) => r is Err && r->Err_0@ == e,
        },
{
    match parse_yaml_fields(entry) {
        Err(error) => Err(EditError::Unparsable(yaml_error_text(&error))),
        Ok(None) => Ok(None),
        Ok(Some(fields)) => classify_entry(&fields, target),
    }
}

/// The entries that an edit gave, one of each kind at most.
#[derive(Debug)]
pub struct ParsedEdits {
    pub context: Option<ContextEntry>,
    pub cluster: Option<ClusterEntry>,
    pub user: Option<UserEntry>,
}

/// The collection with `edited`, if there is one, in the place of the first
/// entry called `name`, if there is one.
pub open spec fn with_edited<E: Named>(entries: Seq<E>, name: Seq<char>, edited: Option<E>) -> Seq<
    E,
> {
    match edited {
        Some(e) if names_of(entries).contains(name) => entries.update(
            first_index(names_of(entries), name),
            e,
        ),
        _ => entries,
    }
}

/// The document with the edited entries in the places of the entries that
/// the edit was about.
pub open spec fn with_changes(
    config: KubeConfigView,
    context: Option<ContextView>,
    cluster: Option<ClusterView>,
    user: Option<UserView>,
    target: EditTargetView,
) -> KubeConfigView {
    KubeConfigView {
        contexts: with_edited(config.contexts, target.context_name, context),
        clusters: with_edited(config.clusters, target.cluster_name, cluster),
        users: with_edited(config.users, target.user_name, user),
        ..config
    }
}

/// Puts `edited`, if there is one, in the place of the first entry called
/// `name`, if there is one.
fn put_edited<T: NamedEntry>(entries: &mut Vec<T>, name: &String, edited: Option<T>) where
    <T as DeepView>::V: Named,

    ensures
        final(entries).deep_view() == with_edited(
            old(entries).deep_view(),
            name@,
            edited.deep_view(),
        ),
{
    match edited {
        Some(entry) => match position(entries, name) {
            Some(at) => {
                entries[at] = entry;
            },
            None => {},
        },
        None => {},
    }
}

/// Puts the edited entries into the document, each in the place of the entry
/// that the edit was about. What was not edited, and what the document no
/// longer holds, is passed over.
pub fn merge_changes_back(config: &mut KubeConfig, edits: ParsedEdits, target: &EditTarget)
    ensures
        final(config)@ == with_changes(
            old(config)@,
            edits.context.deep_view(),
            edits.cluster.deep_view(),
            edits.user.deep_view(),
            target@,
        ),
{
    put_edited(&mut config.contexts, &target.context_name, edits.context);
    put_edited(&mut config.clusters, &target.cluster_name, edits.cluster);
    put_edited(&mut config.users, &target.user_name, edits.user);
}

/// The word for a kind of entry, as a message starts with it.
pub open spec fn kind_word(kind: EntryKind) -> Seq<char> {
    match kind {
        EntryKind::Context => "Context"@,
        EntryKind::Cluster => "Cluster"@,
        EntryKind::User => "User"@,
    }
}

/// The message that tells the user why an edit was refused.
pub open spec fn edit_error_text(e: EditErrorView) -> Seq<char> {
    match e {
        EditErrorView::ContextNotFound(name) => "Context '"@ + name + "' not found"@,
        EditErrorView::ClusterNotFound(name) => "Cluster '"@ + name + "' not found"@,
        EditErrorView::UserNotFound(name) => "User '"@ + name + "' not found"@,
        EditErrorView::EntryCount(n) => "Expected 1-3 configuration entries (context, cluster, user), found "@
            + decimal(n),
        EditErrorView::Unparsable => "Failed to parse edited YAML entry"@,
        EditErrorView::NameChanged { kind, was, now } => kind_word(kind)
            + " name cannot be changed (was: "@ + was + ", now: "@ + now + ")"@,
    }
}

impl EditError {
    /// The message for the user.
    pub fn message(&self) -> (r: String)
        ensures
            r@ == edit_error_text(self@),
    {
        match self {
            EditError::ContextNotFound(name) => framed("Context '", name.as_str(), "' not found"),
            EditError::ClusterNotFound(name) => framed("Cluster '", name.as_str(), "' not found"),
            EditError::UserNotFound(name) => framed("User '", name.as_str(), "' not found"),
            EditError::EntryCount(n) => {
                let mut text =
                    "Expected 1-3 configuration entries (context, cluster, user), found ".to_string();
                text.append(decimal_string(*n as u128).as_str());
                text
            },
            EditError::Unparsable(_) => "Failed to parse edited YAML entry".to_string(),
            EditError::NameChanged { kind, was, now } => {
                let word = match kind {
                    EntryKind::Context => "Context",
                    EntryKind::Cluster => "Cluster",
                    EntryKind::User => "User",
                };
                let mut text = framed(word, " name cannot be changed (was: ", was.as_str());
                text.append(", now: ");
                text.append(now.as_str());
                text.append(")");
                text
            },
        }
    }
}

} // verus!
