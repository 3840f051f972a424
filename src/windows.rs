use vstd::prelude::*;

use crate::counter::{advances, generate_unique_key, KeyCounter};
use crate::decimal::decimal;
use crate::envelope::{ok_response, CommandError, Res};
use crate::label::{
    first_segment, has_separator, instance_label, lemma_instance_labels_distinct,
    lemma_original_label_round_trip, original_label,
};
use crate::template::{TemplateSpec, TemplateTable};

verus! {

/// What a successful creation reports.
pub struct WindowInfo {
    /// The kind that was asked for.
    pub original_label: String,
    /// The label of the new instance.
    pub label: String,
    /// The key taken for the request, in decimal.
    pub key: String,
    pub allow_multiple: bool,
}

/// A window that the host is to create: what to report once it exists, and
/// the content it shows.
pub struct CreatePlan {
    pub info: WindowInfo,
    pub path: String,
}

/// `plan` opens a window of template `t`, asked for as `kind`, with key
/// `key`.
pub open spec fn plans(t: TemplateSpec, kind: Seq<char>, key: nat, plan: CreatePlan) -> bool {
    &&& plan.info.original_label@ == kind
    &&& plan.info.label@ == instance_label(t.label, t.allow_multiple, key)
    &&& plan.info.key@ == decimal(key)
    &&& plan.info.allow_multiple == t.allow_multiple
    &&& plan.path@ == t.path
}

/// What a creation request for `kind` gives, with the counter going from
/// `before` to `after`: an unknown kind is refused and takes no key;
/// otherwise the request takes the next key and plans its window.
pub open spec fn create_outcome(
    table: Map<Seq<char>, TemplateSpec>,
    before: KeyCounter,
    kind: Seq<char>,
    r: Result<CreatePlan, CommandError>,
    after: KeyCounter,
) -> bool {
    if !table.contains_key(kind) {
        r == Err::<CreatePlan, CommandError>(CommandError::UnknownKind) && after == before
    } else if before.next_spec() >= usize::MAX {
        r == Err::<CreatePlan, CommandError>(CommandError::KeysExhausted) && after == before
    } else {
        &&& r matches Ok(plan) && plans(table[kind], kind, before.next_spec(), plan)
        &&& advances(before, after)
    }
}

/// Plans a window of `kind`: looks up its template, takes a key and
/// names the instance (`"{base}-{key}"` where the template allows several
/// instances, else the base label).
pub fn create_window(table: &TemplateTable, counter: &mut KeyCounter, kind: &str) -> (r: Result<
    CreatePlan,
    CommandError,
>)
    requires
        table.wf(),
    ensures
        create_outcome(table@, *old(counter), kind@, r, *final(counter)),
{
    let template = match table.resolve(kind) {
        Some(t) => t,
        None => return Err(CommandError::UnknownKind),
    };
    let key = match generate_unique_key(counter) {
        Some(k) => k,
        None => return Err(CommandError::KeysExhausted),
    };
    let mut label = template.label.clone();
    if template.allow_multiple {
        proof {
            reveal_strlit("-");
        }
        label.append("-");
        label.append(key.as_str());
    }
    let info = WindowInfo {
        original_label: String::from_str(kind),
        label,
        key,
        allow_multiple: template.allow_multiple,
    };
    let plan = CreatePlan { info, path: template.path.clone() };
    assert(plan.info.label@ =~= instance_label(
        template.label@,
        template.allow_multiple,
        old(counter).next_spec(),
    ));
    Ok(plan)
}

/// What to do once the host has refused to create a window: whether to
/// bring the window found under the original label to the foreground, and
/// the error to report.
pub struct ConflictOutcome {
    pub foreground: bool,
    pub error: CommandError,
}

/// Decides the reply to a refused creation. Where a window already stands
/// under the original label it is brought forward and the host's
/// description of the failure is reported; else the window is reported as
/// not found.
pub fn resolve_conflict(failure: String, existing_found: bool) -> (r: ConflictOutcome)
    ensures
        r.foreground == existing_found,
        existing_found ==> r.error == CommandError::CreationFailed(failure),
        !existing_found ==> r.error == CommandError::WindowNotFound,
{
    if existing_found {
        ConflictOutcome { foreground: true, error: CommandError::CreationFailed(failure) }
    } else {
        ConflictOutcome { foreground: false, error: CommandError::WindowNotFound }
    }
}

/// The window that a lookup found, or the error that none was.
pub fn get_webview_window<W>(window: Option<W>) -> (r: Result<W, CommandError>)
    ensures
        window matches Some(w) ==> r == Ok::<W, CommandError>(w),
        window is None ==> r == Err::<W, CommandError>(CommandError::WindowNotFound),
{
    match window {
        Some(w) => Ok(w),
        None => Err(CommandError::WindowNotFound),
    }
}

/// What a state query reports.
pub struct WindowState {
    /// The part of the label before its first `-`.
    pub original_label: String,
    pub label: String,
    /// `"show"` or `"hide"`.
    pub state: String,
}

pub open spec fn state_name(visible: bool) -> Seq<char> {
    if visible {
        "show"@
    } else {
        "hide"@
    }
}

/// The state of the window labelled `label`, given whether the host
/// found it and, if so, whether it is visible.
pub fn get_window_state(label: &str, visible: Option<bool>) -> (r: Result<WindowState, CommandError>)
    ensures
        visible is None ==> r == Err::<WindowState, CommandError>(CommandError::WindowNotFound),
        visible matches Some(v) ==> (r matches Ok(s) && s.original_label@ == first_segment(label@)
            && s.label@ == label@ && s.state@ == state_name(v)),
{
    let v = match visible {
        Some(v) => v,
        None => return Err(CommandError::WindowNotFound),
    };
    let state = if v {
        String::from_str("show")
    } else {
        String::from_str("hide")
    };
    Ok(WindowState { original_label: original_label(label), label: String::from_str(label), state })
}

/// The reply to a request to hide a window, given whether the host found
/// it (and so hid it).
pub fn hide_window(found: bool) -> (r: Result<String, CommandError>)
    ensures
        found ==> (r matches Ok(s) && s@ == "window hidden"@),
        !found ==> r == Err::<String, CommandError>(CommandError::WindowNotFound),
{
    if found {
        Ok(String::from_str("window hidden"))
    } else {
        Err(CommandError::WindowNotFound)
    }
}

/// The reply to a request to show a window, given whether the host found
/// it (and so showed it).
pub fn show_window(found: bool) -> (r: Result<String, CommandError>)
    ensures
        found ==> (r matches Ok(s) && s@ == "window shown"@),
        !found ==> r == Err::<String, CommandError>(CommandError::WindowNotFound),
{
    if found {
        Ok(String::from_str("window shown"))
    } else {
        Err(CommandError::WindowNotFound)
    }
}

pub struct CpuInfo {
    pub cores: usize,
}

pub struct SystemInfo {
    pub cpu: CpuInfo,
}

/// The reply that reports the machine's number of processor cores.
pub fn system_info(cores: usize) -> (r: Res<SystemInfo>)
    ensures
        r.status@ == "ok"@,
        r.data.cpu.cores == cores,
{
    ok_response(SystemInfo { cpu: CpuInfo { cores } })
}

/// Two successful requests in a row for a kind that allows several
/// instances name their windows `"{base}-{k1}"` and `"{base}-{k2}"` with
/// `k1 < k2`, so the two labels differ.
pub proof fn lemma_repeated_creation_distinct_labels(
    table: Map<Seq<char>, TemplateSpec>,
    kind: Seq<char>,
    c0: KeyCounter,
    c1: KeyCounter,
    c2: KeyCounter,
    r1: Result<CreatePlan, CommandError>,
    r2: Result<CreatePlan, CommandError>,
)
    requires
        create_outcome(table, c0, kind, r1, c1),
        create_outcome(table, c1, kind, r2, c2),
        r1 is Ok,
        r2 is Ok,
        table[kind].allow_multiple,
    ensures
        c0.next_spec() < c1.next_spec(),
        r1->Ok_0.info.label@ == table[kind].label + seq!['-'] + decimal(c0.next_spec()),
        r2->Ok_0.info.label@ == table[kind].label + seq!['-'] + decimal(c1.next_spec()),
        r1->Ok_0.info.label@ != r2->Ok_0.info.label@,
{
    lemma_instance_labels_distinct(table[kind].label, c0.next_spec(), c1.next_spec());
}

/// Two successful requests in a row for a kind that allows one instance
/// only name their windows alike, by the template's base label, and both
/// keep the kind as the label to fall back on.
pub proof fn lemma_repeated_creation_single_label(
    table: Map<Seq<char>, TemplateSpec>,
    kind: Seq<char>,
    c0: KeyCounter,
    c1: KeyCounter,
    c2: KeyCounter,
    r1: Result<CreatePlan, CommandError>,
    r2: Result<CreatePlan, CommandError>,
)
    requires
        create_outcome(table, c0, kind, r1, c1),
        create_outcome(table, c1, kind, r2, c2),
        r1 is Ok,
        r2 is Ok,
        !table[kind].allow_multiple,
    ensures
        r1->Ok_0.info.label@ == table[kind].label,
        r2->Ok_0.info.label@ == table[kind].label,
        r1->Ok_0.info.original_label@ == kind,
        r2->Ok_0.info.original_label@ == kind,
{
}

/// The original label that a state query reads off a window created for a
/// kind is that kind's base label, provided the base label holds no `-`.
pub proof fn lemma_state_query_recovers_base_label(
    table: Map<Seq<char>, TemplateSpec>,
    kind: Seq<char>,
    before: KeyCounter,
    after: KeyCounter,
    r: Result<CreatePlan, CommandError>,
)
    requires
        create_outcome(table, before, kind, r, after),
        r is Ok,
        !has_separator(table[kind].label),
    ensures
        first_segment(r->Ok_0.info.label@) == table[kind].label,
{
    lemma_original_label_round_trip(
        table[kind].label,
        table[kind].allow_multiple,
        before.next_spec(),
    );
}

} // verus!
