//! The workflow mapper: recording the steps of a task in a browser (what
//! was done, on which page, and which API calls it caused), and replaying a
//! recording step by step.
//!
//! Page observations and captured API calls ride along as opaque payloads
//! of type `J`; the decisions here never look inside them.
use vstd::prelude::*;
use crate::text::{contains, ends_with, str_eq, chars_of, contains_str, ends_with_str, push_str, push_decimal,
    decimal, first_index_of, find_char, slice_vec, string_of};
use crate::capture::CapturedRequest;

verus! {

// ───────────────────────── actions ─────────────────────────

/// What a workflow step does.
#[derive(Debug, Clone, Copy, PartialEq, Eq, Structural)]
pub enum WorkflowAction {
    Observe,
    Click,
    Type,
    Select,
    /// `navigate` or `goto`.
    Navigate,
    Press,
    Scroll,
    Hover,
    Wait,
    /// Any other action name.
    Unknown,
}

/// The action an action name stands for.
pub open spec fn action_of(name: Seq<char>) -> WorkflowAction {
    if name == "observe"@ {
        WorkflowAction::Observe
    } else if name == "click"@ {
        WorkflowAction::Click
    } else if name == "type"@ {
        WorkflowAction::Type
    } else if name == "select"@ {
        WorkflowAction::Select
    } else if name == "navigate"@ || name == "goto"@ {
        WorkflowAction::Navigate
    } else if name == "press"@ {
        WorkflowAction::Press
    } else if name == "scroll"@ {
        WorkflowAction::Scroll
    } else if name == "hover"@ {
        WorkflowAction::Hover
    } else if name == "wait"@ {
        WorkflowAction::Wait
    } else {
        WorkflowAction::Unknown
    }
}

/// The action an action name stands for.
pub fn parse_action(name: &str) -> (a: WorkflowAction)
    ensures
        a == action_of(name@),
{
    if str_eq(name, "observe") {
        WorkflowAction::Observe
    } else if str_eq(name, "click") {
        WorkflowAction::Click
    } else if str_eq(name, "type") {
        WorkflowAction::Type
    } else if str_eq(name, "select") {
        WorkflowAction::Select
    } else if str_eq(name, "navigate") || str_eq(name, "goto") {
        WorkflowAction::Navigate
    } else if str_eq(name, "press") {
        WorkflowAction::Press
    } else if str_eq(name, "scroll") {
        WorkflowAction::Scroll
    } else if str_eq(name, "hover") {
        WorkflowAction::Hover
    } else if str_eq(name, "wait") {
        WorkflowAction::Wait
    } else {
        WorkflowAction::Unknown
    }
}

/// The action to perform while recording: observing is done separately,
/// and an unknown action is an error naming it.
pub fn act_action(name: &str) -> (r: Result<WorkflowAction, String>)
    ensures
        r matches Ok(a) ==> a == action_of(name@) && a != WorkflowAction::Observe && a != WorkflowAction::Unknown,
        r matches Err(e) ==> (action_of(name@) == WorkflowAction::Observe || action_of(name@) == WorkflowAction::Unknown)
            && e@ == "Unknown workflow action: "@ + name@,
        r is Err <==> (action_of(name@) == WorkflowAction::Observe || action_of(name@) == WorkflowAction::Unknown),
{
    let a = parse_action(name);
    match a {
        WorkflowAction::Observe | WorkflowAction::Unknown => {
            let mut e = String::new();
            push_str(&mut e, "Unknown workflow action: ");
            push_str(&mut e, name);
            Err(e)
        },
        _ => Ok(a),
    }
}

/// The direction to scroll: the value, or `down` when it is empty.
pub open spec fn scroll_direction_text(value: Seq<char>) -> Seq<char> {
    if value.len() == 0 {
        "down"@
    } else {
        value
    }
}

/// The direction to scroll: the value, or `down` when it is empty.
pub fn scroll_direction(value: &str) -> (r: String)
    ensures
        r@ == scroll_direction_text(value@),
{
    if value.is_empty() {
        "down".to_owned()
    } else {
        value.to_owned()
    }
}

// ───────────────────────── API requests ─────────────────────────

/// A captured request that matters to a workflow: an XHR, fetch, document
/// or other request, a URL under `/api/` or `/graphql`, or any non-GET
/// request that is not for a script or a stylesheet.
pub open spec fn is_api_request(url: Seq<char>, resource_type: Seq<char>, method: Seq<char>) -> bool {
    resource_type == "XHR"@ || resource_type == "Fetch"@ || resource_type == "Document"@ || resource_type == "Other"@
        || contains(url, "/api/"@) || contains(url, "/graphql"@)
        || (method != "GET"@ && !ends_with(url, ".js"@) && !ends_with(url, ".css"@))
}

/// Whether a captured request matters to a workflow.
pub fn api_request(url: &str, resource_type: &str, method: &str) -> (r: bool)
    ensures
        r == is_api_request(url@, resource_type@, method@),
        resource_type@ == "XHR"@ || resource_type@ == "Fetch"@ || resource_type@ == "Document"@ || resource_type@
            == "Other"@ ==> r,
{
    let uc = chars_of(url);
    str_eq(resource_type, "XHR") || str_eq(resource_type, "Fetch") || str_eq(resource_type, "Document") || str_eq(
        resource_type,
        "Other",
    ) || contains_str(uc.as_slice(), "/api/") || contains_str(uc.as_slice(), "/graphql") || (!str_eq(method, "GET")
        && !ends_with_str(uc.as_slice(), ".js") && !ends_with_str(uc.as_slice(), ".css"))
}

/// A captured request matters to a workflow.
pub open spec fn keeps_api<R, S>() -> spec_fn(CapturedRequest<R, S>) -> bool {
    |e: CapturedRequest<R, S>| is_api_request(e.url@, e.resource_type@, e.method@)
}

/// The captured requests that matter to a workflow, in order.
pub fn api_requests<R, S>(entries: Vec<CapturedRequest<R, S>>) -> (r: Vec<CapturedRequest<R, S>>)
    ensures
        r@ == entries@.filter(keeps_api::<R, S>()),
{
    let ghost src = entries@;
    let ghost keep = keeps_api::<R, S>();
    let ghost total = src.len();
    let mut rest = entries;
    let mut out: Vec<CapturedRequest<R, S>> = Vec::new();
    assert(src.skip(0) =~= src);
    while rest.len() > 0
        invariant
            keep == keeps_api::<R, S>(),
            total == src.len(),
            rest@.len() <= total,
            rest@ == src.skip(total - rest@.len()),
            out@ == src.take(total - rest@.len()).filter(keep),
        decreases rest@.len(),
    {
        let ghost taken = total - rest@.len();
        let e = rest.remove(0);
        assert(e == src[taken]);
        assert(rest@ =~= src.skip(taken + 1));
        if api_request(e.url.as_str(), e.resource_type.as_str(), e.method.as_str()) {
            out.push(e);
        }
        proof {
            reveal(Seq::filter);
            let t = src.take(taken + 1);
            assert(t.last() == e);
            assert(t.drop_last() =~= src.take(taken));
            assert(out@ =~= t.filter(keep));
        }
    }
    assert(src.take(total as int) =~= src);
    out
}

// ───────────────────────── the recording ─────────────────────────

/// A recorded step.
pub struct WorkflowStep<J> {
    /// Its position, from 1.
    pub step_number: usize,
    pub action: String,
    pub target: Option<String>,
    pub value: Option<String>,
    /// The page URL after the step.
    pub url: String,
    /// The page state after the step.
    pub observation: J,
    /// The API calls the step caused.
    pub network_requests: Vec<J>,
    pub timestamp: String,
    pub notes: String,
}

/// An API endpoint seen while recording: its method and URL, with the
/// rest of what was captured.
pub struct DiscoveredEndpoint<J> {
    pub method: String,
    pub url: String,
    pub details: J,
    /// The step during which it was first seen.
    pub discovered_at_step: usize,
}

/// How to find a field again on replay: its CSS selector and name, with
/// the rest of what was observed of it.
pub struct FieldMapping<J> {
    pub selector: String,
    pub name: String,
    pub details: J,
}

/// A recorded workflow.
pub struct Workflow<J> {
    pub name: String,
    pub start_url: String,
    pub steps: Vec<WorkflowStep<J>>,
    pub api_endpoints_discovered: Vec<DiscoveredEndpoint<J>>,
    /// Field label to how the field is found, no label twice.
    pub field_map: Vec<(String, FieldMapping<J>)>,
}

/// The key that tells endpoints apart: method and URL.
pub open spec fn endpoint_key(method: Seq<char>, url: Seq<char>) -> Seq<char> {
    method + ":"@ + url
}

/// An endpoint with the same key is already listed.
pub open spec fn has_endpoint<J>(es: Seq<DiscoveredEndpoint<J>>, method: Seq<char>, url: Seq<char>) -> bool {
    exists|i: int| 0 <= i < es.len() && endpoint_key(es[i].method@, es[i].url@) == endpoint_key(method, url)
}

/// The labels of a field map.
pub open spec fn labels<J>(m: Seq<(String, FieldMapping<J>)>) -> Seq<Seq<char>> {
    m.map_values(|e: (String, FieldMapping<J>)| e.0@)
}

/// The selector recorded for a label.
pub open spec fn selector_for<J>(m: Seq<(String, FieldMapping<J>)>, label: Seq<char>) -> Option<Seq<char>> {
    if labels(m).contains(label) {
        Some(m[labels(m).index_of(label)].1.selector@)
    } else {
        None
    }
}

impl<J> Workflow<J> {
    /// A workflow with nothing recorded yet, started at `url`.
    pub fn new(name: &str, url: &str) -> (w: Self)
        ensures
            w.name@ == name@,
            w.start_url@ == url@,
            w.steps@.len() == 0,
            w.api_endpoints_discovered@.len() == 0,
            w.field_map@.len() == 0,
            w.wf(),
    {
        let w = Workflow {
            name: name.to_owned(),
            start_url: url.to_owned(),
            steps: Vec::new(),
            api_endpoints_discovered: Vec::new(),
            field_map: Vec::new(),
        };
        assert(labels(w.field_map@) =~= Seq::<Seq<char>>::empty());
        w
    }

    /// Steps are numbered from 1 in order, and no field label is mapped
    /// twice.
    pub open spec fn wf(&self) -> bool {
        &&& forall|i: int| 0 <= i < self.steps@.len() ==> #[trigger] self.steps@[i].step_number == i + 1
        &&& labels(self.field_map@).no_duplicates()
    }

    /// Records an observation of the page at `url` as the next step.
    pub fn record_observe(&mut self, url: &str, observation: J, timestamp: String)
        requires
            old(self).wf(),
            old(self).steps@.len() < usize::MAX,
        ensures
            final(self).wf(),
            final(self).steps@.len() == old(self).steps@.len() + 1,
            final(self).steps@.drop_last() == old(self).steps@,
            final(self).steps@.last().action@ == "observe"@,
            final(self).steps@.last().target is None,
            final(self).steps@.last().value is None,
            final(self).steps@.last().url@ == url@,
            final(self).steps@.last().observation == observation,
            final(self).steps@.last().network_requests@.len() == 0,
            final(self).steps@.last().notes@ == Seq::<char>::empty(),
            final(self).api_endpoints_discovered@ == old(self).api_endpoints_discovered@,
            final(self).field_map@ == old(self).field_map@,
            final(self).name == old(self).name,
            final(self).start_url == old(self).start_url,
    {
        let n = self.steps.len();
        self.steps.push(WorkflowStep {
            step_number: n + 1,
            action: "observe".to_owned(),
            target: None,
            value: None,
            url: url.to_owned(),
            observation,
            network_requests: Vec::new(),
            timestamp,
            notes: String::new(),
        });
        assert(self.steps@.drop_last() =~= old(self).steps@);
    }

    /// Maps `label` to how its field is found, replacing an earlier
    /// mapping of the label; an empty label or selector records nothing.
    pub fn map_field(&mut self, label: &str, selector: &str, name: &str, details: J)
        requires
            old(self).wf(),
        ensures
            final(self).wf(),
            final(self).steps == old(self).steps,
            final(self).api_endpoints_discovered == old(self).api_endpoints_discovered,
            label@.len() == 0 || selector@.len() == 0 ==> final(self).field_map@ == old(self).field_map@,
            label@.len() > 0 && selector@.len() > 0 ==> selector_for(final(self).field_map@, label@) == Some(selector@),
            label@.len() > 0 && selector@.len() > 0 ==> forall|l: Seq<char>| l != label@ ==> selector_for(
                final(self).field_map@,
                l,
            ) == selector_for(old(self).field_map@, l),
    {
        if label.is_empty() || selector.is_empty() {
            return;
        }
        let m = FieldMapping { selector: selector.to_owned(), name: name.to_owned(), details };
        let ghost before = self.field_map@;
        let mut i: usize = 0;
        while i < self.field_map.len()
            invariant
                self.field_map@ == before,
                before == old(self).field_map@,
                self.steps == old(self).steps,
                self.api_endpoints_discovered == old(self).api_endpoints_discovered,
                old(self).wf(),
                label@.len() > 0,
                selector@.len() > 0,
                m.selector@ == selector@,
                labels(before).no_duplicates(),
                i <= before.len(),
                forall|j: int| 0 <= j < i ==> before[j].0@ != label@,
            decreases before.len() - i,
        {
            if str_eq(self.field_map[i].0.as_str(), label) {
                let mut fm: Vec<(String, FieldMapping<J>)> = Vec::new();
                std::mem::swap(&mut fm, &mut self.field_map);
                let (k, _old) = fm.remove(i);
                fm.insert(i, (k, m));
                self.field_map = fm;
                proof {
                    let after = self.field_map@;
                    assert(labels(after) =~= labels(before));
                    assert(labels(before)[i as int] == label@);
                    assert(labels(before).index_of(label@) == i) by {
                        lemma_first_index(labels(before), i as int);
                    }
                    assert(after[i as int].1.selector@ == selector@);
                    assert forall|l: Seq<char>| l != label@ implies selector_for(after, l) == selector_for(before, l) by {
                        if labels(before).contains(l) {
                            let t = labels(before).index_of(l);
                            assert(labels(before)[t] == l);
                            assert(t != i);
                        }
                    }
                }
                return;
            }
            i = i + 1;
        }
        self.field_map.push((label.to_owned(), m));
        proof {
            let after = self.field_map@;
            assert(labels(after) =~= labels(before).push(label@));
            assert(!labels(before).contains(label@)) by {
                if labels(before).contains(label@) {
                    let t = labels(before).index_of(label@);
                    assert(labels(before)[t] == label@);
                }
            }
            lemma_first_index(labels(after), before.len() as int);
            assert forall|l: Seq<char>| l != label@ implies selector_for(after, l) == selector_for(before, l) by {
                if labels(before).contains(l) {
                    let t = labels(before).index_of(l);
                    assert(labels(before)[t] == l);
                    assert(labels(after)[t] == l);
                    lemma_first_index(labels(after), t);
                    lemma_first_index(labels(before), t);
                }
                if labels(after).contains(l) {
                    let t = labels(after).index_of(l);
                    assert(labels(after)[t] == l);
                    assert(t < before.len());
                    assert(labels(before)[t] == l);
                }
            }
        }
    }

    /// Lists an endpoint seen during step `step`, unless one with the same
    /// method and URL is listed already.
    pub fn add_endpoint(&mut self, method: String, url: String, details: J, step: usize)
        ensures
            final(self).steps == old(self).steps,
            final(self).field_map == old(self).field_map,
            has_endpoint(old(self).api_endpoints_discovered@, method@, url@) ==> final(self).api_endpoints_discovered@
                == old(self).api_endpoints_discovered@,
            !has_endpoint(old(self).api_endpoints_discovered@, method@, url@) ==> {
                &&& final(self).api_endpoints_discovered@.len() == old(self).api_endpoints_discovered@.len() + 1
                &&& final(self).api_endpoints_discovered@.drop_last() == old(self).api_endpoints_discovered@
                &&& final(self).api_endpoints_discovered@.last() == (DiscoveredEndpoint {
                    method,
                    url,
                    details,
                    discovered_at_step: step,
                })
            },
    {
        let key = endpoint_key_string(method.as_str(), url.as_str());
        let mut i: usize = 0;
        while i < self.api_endpoints_discovered.len()
            invariant
                self.api_endpoints_discovered@ == old(self).api_endpoints_discovered@,
                self.steps == old(self).steps,
                self.field_map == old(self).field_map,
                key@ == endpoint_key(method@, url@),
                i <= self.api_endpoints_discovered@.len(),
                forall|j: int| 0 <= j < i ==> endpoint_key(
                    #[trigger] self.api_endpoints_discovered@[j].method@,
                    self.api_endpoints_discovered@[j].url@,
                ) != key@,
            decreases self.api_endpoints_discovered@.len() - i,
        {
            let k = endpoint_key_string(
                self.api_endpoints_discovered[i].method.as_str(),
                self.api_endpoints_discovered[i].url.as_str(),
            );
            if str_eq(k.as_str(), key.as_str()) {
                return;
            }
            i = i + 1;
        }
        self.api_endpoints_discovered.push(DiscoveredEndpoint {
            method,
            url,
            details,
            discovered_at_step: step,
        });
        assert(self.api_endpoints_discovered@.drop_last() =~= old(self).api_endpoints_discovered@);
    }
}

proof fn lemma_first_index(s: Seq<Seq<char>>, i: int)
    requires
        s.no_duplicates(),
        0 <= i < s.len(),
    ensures
        s.contains(s[i]),
        s.index_of(s[i]) == i,
{
    assert(s[i] == s[i]);
    assert(s.contains(s[i]));
}

fn endpoint_key_string(method: &str, url: &str) -> (k: String)
    ensures
        k@ == endpoint_key(method@, url@),
{
    let mut k = String::new();
    push_str(&mut k, method);
    push_str(&mut k, ":");
    push_str(&mut k, url);
    k
}

/// The endpoint list after listing new endpoints in order, each unless
/// one with its method and URL is listed already.
pub open spec fn endpoints_after<J>(
    es: Seq<DiscoveredEndpoint<J>>,
    new: Seq<(String, String, J)>,
    step: usize,
) -> Seq<DiscoveredEndpoint<J>>
    decreases new.len(),
{
    if new.len() == 0 {
        es
    } else {
        let prev = endpoints_after(es, new.drop_last(), step);
        let e = new.last();
        if has_endpoint(prev, e.0@, e.1@) {
            prev
        } else {
            prev.push(DiscoveredEndpoint { method: e.0, url: e.1, details: e.2, discovered_at_step: step })
        }
    }
}

impl<J> Workflow<J> {
    /// Records a performed action as the next step: the API calls it caused
    /// (each given as method, URL and details) join the endpoint list, and
    /// the step keeps the action, its target, its value (none when empty),
    /// the page URL after it and the calls.
    pub fn record_act(
        &mut self,
        action: &str,
        target: &str,
        value: &str,
        url_after: &str,
        observation: J,
        calls: Vec<(String, String, J)>,
        network_requests: Vec<J>,
        timestamp: String,
        notes: &str,
    )
        requires
            old(self).wf(),
            old(self).steps@.len() < usize::MAX,
        ensures
            final(self).wf(),
            final(self).steps@.len() == old(self).steps@.len() + 1,
            final(self).steps@.drop_last() == old(self).steps@,
            final(self).steps@.last().step_number == old(self).steps@.len() + 1,
            final(self).steps@.last().action@ == action@,
            final(self).steps@.last().target matches Some(t) && t@ == target@,
            value@.len() == 0 ==> final(self).steps@.last().value is None,
            value@.len() > 0 ==> (final(self).steps@.last().value matches Some(v) && v@ == value@),
            final(self).steps@.last().url@ == url_after@,
            final(self).steps@.last().observation == observation,
            final(self).steps@.last().network_requests == network_requests,
            final(self).steps@.last().notes@ == notes@,
            final(self).api_endpoints_discovered@ == endpoints_after(
                old(self).api_endpoints_discovered@,
                calls@,
                (old(self).steps@.len() + 1) as usize,
            ),
            final(self).field_map == old(self).field_map,
    {
        let step = self.steps.len() + 1;
        let ghost es0 = self.api_endpoints_discovered@;
        let ghost new = calls@;
        let mut rest = calls;
        let ghost total = new.len();
        assert(new.skip(0) =~= new);
        while rest.len() > 0
            invariant
                total == new.len(),
                rest@.len() <= total,
                rest@ == new.skip(total - rest@.len()),
                self.api_endpoints_discovered@ == endpoints_after(es0, new.take(total - rest@.len()), step),
                self.steps == old(self).steps,
                self.field_map == old(self).field_map,
                es0 == old(self).api_endpoints_discovered@,
                step == old(self).steps@.len() + 1,
            decreases rest@.len(),
        {
            let ghost taken = total - rest@.len();
            let (m, u, d) = rest.remove(0);
            assert(rest@ =~= new.skip(taken + 1));
            proof {
                let t = new.take(taken + 1);
                assert(t.drop_last() =~= new.take(taken));
                assert(t.last() == (m, u, d));
            }
            self.add_endpoint(m, u, d, step);
        }
        assert(new.take(total as int) =~= new);
        let v = if value.is_empty() {
            None
        } else {
            Some(value.to_owned())
        };
        self.steps.push(WorkflowStep {
            step_number: step,
            action: action.to_owned(),
            target: Some(target.to_owned()),
            value: v,
            url: url_after.to_owned(),
            observation,
            network_requests,
            timestamp,
            notes: notes.to_owned(),
        });
        assert(self.steps@.drop_last() =~= old(self).steps@);
    }

    /// The selector recorded for a field label.
    pub fn selector_of(&self, label: &str) -> (r: Option<String>)
        requires
            self.wf(),
        ensures
            r matches Some(s) ==> selector_for(self.field_map@, label@) == Some(s@),
            r is None ==> selector_for(self.field_map@, label@) is None,
    {
        let mut i: usize = 0;
        while i < self.field_map.len()
            invariant
                self.wf(),
                i <= self.field_map@.len(),
                forall|j: int| 0 <= j < i ==> self.field_map@[j].0@ != label@,
            decreases self.field_map@.len() - i,
        {
            if str_eq(self.field_map[i].0.as_str(), label) {
                proof {
                    assert(labels(self.field_map@)[i as int] == label@);
                    lemma_first_index(labels(self.field_map@), i as int);
                }
                return Some(self.field_map[i].1.selector.clone());
            }
            i = i + 1;
        }
        proof {
            if labels(self.field_map@).contains(label@) {
                let t = labels(self.field_map@).index_of(label@);
                assert(labels(self.field_map@)[t] == label@);
            }
        }
        None
    }
}

// ───────────────────────── replay ─────────────────────────

/// The text before the first occurrence of a char, all of it when there is
/// none.
pub open spec fn before_char(s: Seq<char>, c: char) -> Seq<char> {
    match first_index_of(s, c) {
        Some(i) => s.take(i),
        None => s,
    }
}

/// A URL without its query and fragment.
pub open spec fn url_base(u: Seq<char>) -> Seq<char> {
    before_char(before_char(u, '?'), '#')
}

fn before_char_exec(s: &[char], c: char) -> (r: Vec<char>)
    ensures
        r@ == before_char(s@, c),
{
    match find_char(s, c) {
        Some(i) => {
            let r = slice_vec(s, 0, i);
            assert(r@ =~= s@.take(i as int));
            r
        },
        None => slice_vec(s, 0, s.len()),
    }
}

/// A URL without its query and fragment.
pub fn url_without_query(u: &str) -> (r: String)
    ensures
        r@ == url_base(u@),
{
    let cs = chars_of(u);
    let a = before_char_exec(cs.as_slice(), '?');
    let b = before_char_exec(a.as_slice(), '#');
    string_of(b.as_slice())
}

/// What replaying a step starts with.
pub enum ReplayCheck {
    /// An observation: nothing to replay.
    Skip,
    /// The browser is not on the step's page; the replay stops here.
    UrlMismatch,
    /// Perform the action.
    Run(WorkflowAction),
    /// The action cannot be replayed (a hover, or an action of no known
    /// name): the step fails without running, and the replay stops here.
    Unsupported,
}

/// The actions a replay can perform.
pub open spec fn replayable(a: WorkflowAction) -> bool {
    a != WorkflowAction::Hover && a != WorkflowAction::Unknown
}

/// What replaying a step starts with: observations are skipped; any other
/// step needs the browser on the step's page (query and fragment aside)
/// unless it navigates; there, a hover or an unknown action cannot be
/// replayed.
pub open spec fn replay_check_of(action: Seq<char>, step_url: Seq<char>, current_url: Seq<char>) -> ReplayCheck {
    if action == "observe"@ {
        ReplayCheck::Skip
    } else if url_base(current_url) == url_base(step_url) || action_of(action) == WorkflowAction::Navigate {
        if replayable(action_of(action)) {
            ReplayCheck::Run(action_of(action))
        } else {
            ReplayCheck::Unsupported
        }
    } else {
        ReplayCheck::UrlMismatch
    }
}

/// What replaying a step with the given action and page URL starts with,
/// the browser being at `current_url`.
pub fn replay_check(action: &str, step_url: &str, current_url: &str) -> (r: ReplayCheck)
    ensures
        r == replay_check_of(action@, step_url@, current_url@),
{
    if str_eq(action, "observe") {
        return ReplayCheck::Skip;
    }
    let a = url_without_query(current_url);
    let b = url_without_query(step_url);
    let act = parse_action(action);
    if str_eq(a.as_str(), b.as_str()) || act == WorkflowAction::Navigate {
        if act == WorkflowAction::Hover || act == WorkflowAction::Unknown {
            ReplayCheck::Unsupported
        } else {
            ReplayCheck::Run(act)
        }
    } else {
        ReplayCheck::UrlMismatch
    }
}

/// How a replayed step ended.
#[derive(Debug, Clone, Copy, PartialEq, Eq, Structural)]
pub enum StepOutcome {
    Skipped,
    UrlMismatch,
    Succeeded,
    Failed,
}

/// How a step ends, from its check and, for a step that runs, whether its
/// action succeeded. A step that cannot be replayed fails.
pub open spec fn outcome_of(check: ReplayCheck, action_ok: bool) -> StepOutcome {
    match check {
        ReplayCheck::Skip => StepOutcome::Skipped,
        ReplayCheck::UrlMismatch => StepOutcome::UrlMismatch,
        ReplayCheck::Run(_) => if action_ok { StepOutcome::Succeeded } else { StepOutcome::Failed },
        ReplayCheck::Unsupported => StepOutcome::Failed,
    }
}

/// The detail recorded for a step whose action cannot be replayed.
pub fn unsupported_detail(action: &str) -> (r: String)
    ensures
        r@ == "unknown action: "@ + action@,
{
    let mut r = String::new();
    push_str(&mut r, "unknown action: ");
    push_str(&mut r, action);
    r
}

/// An outcome that lets the replay go on.
pub open spec fn goes_on(o: StepOutcome) -> bool {
    o == StepOutcome::Skipped || o == StepOutcome::Succeeded
}

/// The number of steps that succeeded.
pub open spec fn count_ok(os: Seq<StepOutcome>) -> nat
    decreases os.len(),
{
    if os.len() == 0 {
        0
    } else {
        count_ok(os.drop_last()) + if os.last() == StepOutcome::Succeeded { 1nat } else { 0nat }
    }
}

/// The number of steps that are not observations.
pub open spec fn count_actions<J>(steps: Seq<WorkflowStep<J>>) -> nat
    decreases steps.len(),
{
    if steps.len() == 0 {
        0
    } else {
        count_actions(steps.drop_last()) + if steps.last().action@ != "observe"@ { 1nat } else { 0nat }
    }
}

/// A replay in progress: the outcome of each step replayed so far, in
/// order, and the step number it stopped at, if it stopped.
pub struct Replay {
    pub outcomes: Vec<StepOutcome>,
    pub stopped_at: Option<usize>,
}

/// What the replay does next.
pub enum ReplayDecision {
    /// Every step is replayed, or the replay stopped.
    Finished,
    /// Replay the step at this index, starting as the check says.
    Step(usize, ReplayCheck),
}

impl Replay {
    /// A replay that has done nothing yet.
    pub fn new() -> (r: Self)
        ensures
            r.outcomes@.len() == 0,
            r.stopped_at is None,
            r.wf(),
    {
        Replay { outcomes: Vec::new(), stopped_at: None }
    }

    /// Every recorded outcome but the last lets the replay go on, and the
    /// replay is stopped exactly when the last one does not.
    pub open spec fn wf(&self) -> bool {
        &&& forall|i: int| 0 <= i < self.outcomes@.len() - 1 ==> goes_on(#[trigger] self.outcomes@[i])
        &&& (self.stopped_at is Some <==> (self.outcomes@.len() > 0 && !goes_on(self.outcomes@.last())))
    }

    /// What to do next in replaying `steps` with the browser at
    /// `current_url`: nothing once stopped or past the last step, else the
    /// next step and how it starts.
    pub fn decide<J>(&self, steps: &Vec<WorkflowStep<J>>, current_url: &str) -> (d: ReplayDecision)
        requires
            self.wf(),
        ensures
            self.stopped_at is Some || self.outcomes@.len() >= steps@.len() ==> d is Finished,
            self.stopped_at is None && self.outcomes@.len() < steps@.len() ==> (d matches ReplayDecision::Step(i, c)
                && i == self.outcomes@.len() && c == replay_check_of(
                steps@[i as int].action@,
                steps@[i as int].url@,
                current_url@,
            )),
    {
        if self.stopped_at.is_some() || self.outcomes.len() >= steps.len() {
            return ReplayDecision::Finished;
        }
        let i = self.outcomes.len();
        let c = replay_check(steps[i].action.as_str(), steps[i].url.as_str(), current_url);
        ReplayDecision::Step(i, c)
    }

    /// Every recorded outcome is the one its step's check and action gave:
    /// exactly the observations are skipped.
    pub open spec fn follows<J>(&self, steps: Seq<WorkflowStep<J>>) -> bool {
        &&& self.outcomes@.len() <= steps.len()
        &&& forall|i: int| 0 <= i < self.outcomes@.len() ==> (#[trigger] self.outcomes@[i] == StepOutcome::Skipped
            <==> steps[i].action@ == "observe"@)
    }

    /// Ends the next step of `steps`, whose check is taken with the browser
    /// at `current_url`: an observation is skipped, a step on another page
    /// is a mismatch, a hover or an unknown action fails without running,
    /// and any other step succeeded or failed as its action did. A mismatch
    /// or a failure stops the replay at the step's number.
    pub fn finish_step<J>(&mut self, steps: &Vec<WorkflowStep<J>>, current_url: &str, action_ok: bool) -> (o: StepOutcome)
        requires
            old(self).wf(),
            old(self).follows(steps@),
            old(self).stopped_at is None,
            old(self).outcomes@.len() < steps@.len(),
        ensures
            o == outcome_of(replay_check_of(
                steps@[old(self).outcomes@.len() as int].action@,
                steps@[old(self).outcomes@.len() as int].url@,
                current_url@,
            ), action_ok),
            final(self).wf(),
            final(self).follows(steps@),
            final(self).outcomes@ == old(self).outcomes@.push(o),
            goes_on(o) ==> final(self).stopped_at is None,
            !goes_on(o) ==> final(self).stopped_at == Some(steps@[old(self).outcomes@.len() as int].step_number),
    {
        let i = self.outcomes.len();
        let check = replay_check(steps[i].action.as_str(), steps[i].url.as_str(), current_url);
        let outcome = match check {
            ReplayCheck::Skip => StepOutcome::Skipped,
            ReplayCheck::UrlMismatch => StepOutcome::UrlMismatch,
            ReplayCheck::Run(_) => if action_ok { StepOutcome::Succeeded } else { StepOutcome::Failed },
            ReplayCheck::Unsupported => StepOutcome::Failed,
        };
        proof {
            reveal_strlit("observe");
        }
        self.outcomes.push(outcome);
        if !(outcome == StepOutcome::Skipped || outcome == StepOutcome::Succeeded) {
            self.stopped_at = Some(steps[i].step_number);
        }
        assert(self.outcomes@.drop_last() =~= old(self).outcomes@);
        assert forall|k: int| 0 <= k < self.outcomes@.len() implies (#[trigger] self.outcomes@[k] == StepOutcome::Skipped
            <==> steps@[k].action@ == "observe"@) by {
            if k < i {
                assert(self.outcomes@[k] == old(self).outcomes@[k]);
            }
        }
        outcome
    }

    /// The number of steps replayed successfully.
    pub fn completed(&self) -> (n: usize)
        ensures
            n == count_ok(self.outcomes@),
    {
        let mut n: usize = 0;
        let mut i: usize = 0;
        while i < self.outcomes.len()
            invariant
                i <= self.outcomes@.len(),
                n == count_ok(self.outcomes@.take(i as int)),
                n <= i,
            decreases self.outcomes@.len() - i,
        {
            assert(self.outcomes@.take(i + 1).drop_last() =~= self.outcomes@.take(i as int));
            if self.outcomes[i] == StepOutcome::Succeeded {
                n = n + 1;
            }
            i = i + 1;
        }
        assert(self.outcomes@.take(self.outcomes@.len() as int) =~= self.outcomes@);
        n
    }

    /// Whether the replay stopped before the end.
    pub fn paused(&self) -> (p: bool)
        ensures
            p == self.stopped_at is Some,
    {
        self.stopped_at.is_some()
    }
}

/// The number of recorded steps that are not observations.
pub fn action_count<J>(steps: &Vec<WorkflowStep<J>>) -> (n: usize)
    ensures
        n == count_actions(steps@),
{
    let mut n: usize = 0;
    let mut i: usize = 0;
    while i < steps.len()
        invariant
            i <= steps@.len(),
            n == count_actions(steps@.take(i as int)),
            n <= i,
        decreases steps@.len() - i,
    {
        assert(steps@.take(i + 1).drop_last() =~= steps@.take(i as int));
        if !str_eq(steps[i].action.as_str(), "observe") {
            n = n + 1;
        }
        i = i + 1;
    }
    assert(steps@.take(steps@.len() as int) =~= steps@);
    n
}

/// The message after saving a workflow.
pub open spec fn saved_message_text(name: Seq<char>, steps: nat, endpoints: nat, fields: nat, path: Seq<char>) -> Seq<char> {
    "Saved workflow '"@ + name + "' ("@ + decimal(steps) + " steps, "@ + decimal(endpoints) + " API endpoints, "@
        + decimal(fields) + " field mappings) to "@ + path
}

/// The message after saving a workflow to `path`.
pub fn saved_message<J>(wf: &Workflow<J>, path: &str) -> (m: String)
    ensures
        m@ == saved_message_text(
            wf.name@,
            wf.steps@.len(),
            wf.api_endpoints_discovered@.len(),
            wf.field_map@.len(),
            path@,
        ),
{
    let mut m = String::new();
    push_str(&mut m, "Saved workflow '");
    push_str(&mut m, wf.name.as_str());
    push_str(&mut m, "' (");
    push_decimal(&mut m, wf.steps.len() as u64);
    push_str(&mut m, " steps, ");
    push_decimal(&mut m, wf.api_endpoints_discovered.len() as u64);
    push_str(&mut m, " API endpoints, ");
    push_decimal(&mut m, wf.field_map.len() as u64);
    push_str(&mut m, " field mappings) to ");
    push_str(&mut m, path);
    m
}

// ───────────────────────── laws ─────────────────────────

/// No two listed endpoints share a method and URL.
pub open spec fn endpoint_keys_unique<J>(es: Seq<DiscoveredEndpoint<J>>) -> bool {
    forall|i: int, j: int| 0 <= i < j < es.len() ==> endpoint_key(#[trigger] es[i].method@, es[i].url@)
        != endpoint_key(#[trigger] es[j].method@, es[j].url@)
}

/// Listing new calls never lists one method and URL twice.
pub proof fn law_endpoints_stay_unique<J>(es: Seq<DiscoveredEndpoint<J>>, new: Seq<(String, String, J)>, step: usize)
    requires
        endpoint_keys_unique(es),
    ensures
        endpoint_keys_unique(endpoints_after(es, new, step)),
    decreases new.len(),
{
    if new.len() > 0 {
        law_endpoints_stay_unique(es, new.drop_last(), step);
        let prev = endpoints_after(es, new.drop_last(), step);
        let e = new.last();
        if !has_endpoint(prev, e.0@, e.1@) {
            let next = endpoints_after(es, new, step);
            assert forall|i: int, j: int| 0 <= i < j < next.len() implies endpoint_key(#[trigger] next[i].method@, next[i].url@)
                != endpoint_key(#[trigger] next[j].method@, next[j].url@) by {
                if j == next.len() - 1 {
                    assert(next[i] == prev[i]);
                    if endpoint_key(next[i].method@, next[i].url@) == endpoint_key(e.0@, e.1@) {
                        assert(has_endpoint(prev, e.0@, e.1@));
                    }
                } else {
                    assert(next[i] == prev[i]);
                    assert(next[j] == prev[j]);
                }
            }
        }
    }
}

/// Listing new calls keeps every endpoint listed before, in its place.
pub proof fn law_endpoints_keep_earlier<J>(es: Seq<DiscoveredEndpoint<J>>, new: Seq<(String, String, J)>, step: usize)
    ensures
        endpoints_after(es, new, step).len() >= es.len(),
        endpoints_after(es, new, step).take(es.len() as int) == es,
    decreases new.len(),
{
    if new.len() > 0 {
        law_endpoints_keep_earlier(es, new.drop_last(), step);
        let prev = endpoints_after(es, new.drop_last(), step);
        let next = endpoints_after(es, new, step);
        assert(next.take(es.len() as int) =~= prev.take(es.len() as int));
    }
}

/// After the calls of a step are listed, each of them has an endpoint with
/// its method and URL.
pub proof fn law_every_call_listed<J>(es: Seq<DiscoveredEndpoint<J>>, new: Seq<(String, String, J)>, step: usize, k: int)
    requires
        0 <= k < new.len(),
    ensures
        has_endpoint(endpoints_after(es, new, step), new[k].0@, new[k].1@),
    decreases new.len(),
{
    let prev = endpoints_after(es, new.drop_last(), step);
    let next = endpoints_after(es, new, step);
    law_endpoints_keep_earlier(prev, seq![new.last()], step);
    if k < new.len() - 1 {
        law_every_call_listed(es, new.drop_last(), step, k);
        assert(new.drop_last()[k] == new[k]);
        let i = choose|i: int| 0 <= i < prev.len()
            && endpoint_key(prev[i].method@, prev[i].url@) == endpoint_key(new[k].0@, new[k].1@);
        if !has_endpoint(prev, new.last().0@, new.last().1@) {
            assert(next[i] == prev[i]);
        }
    } else {
        let e = new.last();
        if !has_endpoint(prev, e.0@, e.1@) {
            let n = next.len() - 1;
            assert(next[n].method == e.0 && next[n].url == e.1);
        }
    }
}

/// Once a step ends in a mismatch or a failure, the replay is stopped, and
/// deciding what comes next gives nothing more to replay.
pub proof fn law_replay_pauses_on_mismatch(before: Replay, after: Replay, outcome: StepOutcome)
    requires
        before.wf(),
        after.wf(),
        after.outcomes@ == before.outcomes@.push(outcome),
        !goes_on(outcome),
    ensures
        after.stopped_at is Some,
{
}

/// A hover or an action of no known name is never replayed: on the step's
/// page it fails, whatever the caller reports, and so stops the replay.
pub proof fn law_unsupported_step_fails(action: Seq<char>, step_url: Seq<char>, current_url: Seq<char>, action_ok: bool)
    requires
        action != "observe"@,
        !replayable(action_of(action)),
        url_base(current_url) == url_base(step_url),
    ensures
        replay_check_of(action, step_url, current_url) == ReplayCheck::Unsupported,
        outcome_of(replay_check_of(action, step_url, current_url), action_ok) == StepOutcome::Failed,
        !goes_on(outcome_of(replay_check_of(action, step_url, current_url), action_ok)),
{
}

proof fn lemma_all_go_on_counts<J>(os: Seq<StepOutcome>, steps: Seq<WorkflowStep<J>>)
    requires
        os.len() == steps.len(),
        forall|i: int| 0 <= i < os.len() ==> goes_on(#[trigger] os[i]),
        forall|i: int| 0 <= i < os.len() ==> (#[trigger] os[i] == StepOutcome::Skipped <==> steps[i].action@ == "observe"@),
    ensures
        count_ok(os) == count_actions(steps),
    decreases os.len(),
{
    if os.len() > 0 {
        let (a, b) = (os.drop_last(), steps.drop_last());
        assert forall|i: int| 0 <= i < a.len() implies goes_on(#[trigger] a[i]) by {
            assert(a[i] == os[i]);
        }
        assert forall|i: int| 0 <= i < a.len() implies (#[trigger] a[i] == StepOutcome::Skipped <==> b[i].action@ == "observe"@) by {
            assert(a[i] == os[i]);
            assert(b[i] == steps[i]);
        }
        lemma_all_go_on_counts(a, b);
        assert(goes_on(os[os.len() - 1]));
    }
}

/// A replay that went through every step without stopping succeeded in
/// every step that is not an observation: it counts as many successes as
/// the workflow has actions.
pub proof fn law_completed_replay_ran_every_action<J>(r: Replay, steps: Seq<WorkflowStep<J>>)
    requires
        r.wf(),
        r.follows(steps),
        r.stopped_at is None,
        r.outcomes@.len() == steps.len(),
    ensures
        count_ok(r.outcomes@) == count_actions(steps),
{
    let os = r.outcomes@;
    assert forall|i: int| 0 <= i < os.len() implies goes_on(#[trigger] os[i]) by {
        if i < os.len() - 1 {
        } else {
            assert(os.last() == os[i]);
        }
    }
    lemma_all_go_on_counts(os, steps);
}

/// The replay never counts more successes than steps it replayed.
pub proof fn law_completed_within_replayed(os: Seq<StepOutcome>)
    ensures
        count_ok(os) <= os.len(),
    decreases os.len(),
{
    if os.len() > 0 {
        law_completed_within_replayed(os.drop_last());
    }
}

/// Requests of type XHR, Fetch, Document or Other are always kept, as are
/// requests to an `/api/` or `/graphql` URL; a GET of any other type to
/// another URL is dropped, and so is a request of another type for a
/// script or a stylesheet.
pub proof fn law_api_requests_kept(url: Seq<char>, resource_type: Seq<char>, method: Seq<char>)
    ensures
        resource_type == "XHR"@ || resource_type == "Fetch"@ || resource_type == "Document"@ || resource_type
            == "Other"@ ==> is_api_request(url, resource_type, method),
        contains(url, "/api/"@) || contains(url, "/graphql"@) ==> is_api_request(url, resource_type, method),
        !(resource_type == "XHR"@ || resource_type == "Fetch"@ || resource_type == "Document"@ || resource_type
            == "Other"@) && !contains(url, "/api/"@) && !contains(url, "/graphql"@) && (method == "GET"@ || ends_with(
            url,
            ".js"@,
        ) || ends_with(url, ".css"@)) ==> !is_api_request(url, resource_type, method),
        method != "GET"@ && !ends_with(url, ".js"@) && !ends_with(url, ".css"@) ==> is_api_request(
            url,
            resource_type,
            method,
        ),
{
}

/// Among the requests recorded for an action is every captured XHR, Fetch,
/// Document or Other request.
pub proof fn law_kept_request_recorded<R, S>(entries: Seq<CapturedRequest<R, S>>, k: int)
    requires
        0 <= k < entries.len(),
        entries[k].resource_type@ == "XHR"@ || entries[k].resource_type@ == "Fetch"@ || entries[k].resource_type@
            == "Document"@ || entries[k].resource_type@ == "Other"@,
    ensures
        entries.filter(keeps_api::<R, S>()).contains(entries[k]),
{
    broadcast use vstd::seq_lib::group_filter_ensures;
    law_api_requests_kept(entries[k].url@, entries[k].resource_type@, entries[k].method@);
    assert(keeps_api::<R, S>()(entries[k]));
}

} // verus!
