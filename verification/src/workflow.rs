//! The card workflow engine: every decision of one enrichment run.
//!
//! One run turns a card plus the active configuration into an ordered plan
//! of dependent form submissions.  The engine is pure: the caller performs
//! the network calls, runs the page-parsing collaborator, and hands the
//! outcomes back in as plain values (a detail path, an identifier triple,
//! response status codes); every decision between those calls is made and
//! verified here.

use crate::request::pair_views;
use crate::request::FormRequest;
use crate::request::HttpRequest;
use crate::request::Method;
use crate::urls::abs_url;
use crate::urls::abs_url_spec;
use crate::urls::dec_str;
use crate::urls::dec_string;
use crate::urls::search_path;
use crate::urls::search_path_spec;
use vstd::prelude::*;

verus! {

/// Which optional workflow steps run, plus the session credential.
/// Supplied once per connection and read-only during a run.
#[derive(Clone)]
pub struct Config {
    pub session_id: Option<String>,
    pub auto_add: Option<u64>,
    pub auto_unlock: bool,
    pub auto_forq: bool,
    pub auto_forget: bool,
    pub add_mined_sentences: bool,
    pub add_custom_definition: bool,
    pub auto_open: bool,
}

impl Config {
    /// Whether any step that needs both the session credential and the
    /// detail page is enabled.
    pub open spec fn any_login_or_detail_options_spec(&self) -> bool {
        self.auto_add is Some || self.auto_unlock || self.auto_forq || self.auto_forget
            || self.add_mined_sentences || self.add_custom_definition
    }

    pub fn any_login_or_detail_options(&self) -> (r: bool)
        ensures
            r == self.any_login_or_detail_options_spec(),
    {
        self.auto_add.is_some() || self.auto_unlock || self.auto_forq || self.auto_forget
            || self.add_mined_sentences || self.add_custom_definition
    }
}

/// One card's input, immutable for the duration of a run.
#[derive(Clone)]
pub struct Fields {
    pub word: String,
    pub reading: Option<String>,
    pub sentence: String,
    pub definition: Option<String>,
}

/// The identifier triple extracted from a detail page: vocabulary id,
/// spelling id and reading id.  It lives only within one run.
pub struct VocabId {
    pub v: String,
    pub s: String,
    pub r: String,
}

/// A fetched detail page, reduced to what the engine reads from it: the
/// identifier triple, if the extraction collaborator found one.
pub struct VocabCard {
    pub id: Option<VocabId>,
}

/// A fatal failure: it aborts the whole run.
#[derive(Clone, Copy, PartialEq, Eq, Structural, Debug)]
pub enum RunError {
    /// The mandatory search request did not complete.
    SearchFailed,
    /// The detail page could not be fetched.
    DetailFetchFailed,
    /// A credential-dependent option is enabled but the card's detail page
    /// was not found.
    CardNotFound,
    /// The viewer-open action failed.
    OpenFailed,
}

/// A reported failure: it concerns one dependent step only and never stops
/// the sibling steps.
#[derive(Clone, Copy, PartialEq, Eq, Structural, Debug)]
pub enum StepError {
    /// The step needs the identifier triple and extraction found none.
    MissingId,
    /// The remote rejected the step's request with this status code.
    Rejected(u16),
}

/// The dependent steps of a run, in their fixed execution order.
#[derive(Clone, Copy, PartialEq, Eq, Structural, Debug)]
pub enum StepKind {
    AddToDeck,
    ForceUnlock,
    Forq,
    MarkUnknown,
    SetSentence,
    SetDefinition,
}

/// What one dependent step does in this run.
pub enum StepAction {
    /// The step is disabled, or its own text guard turns it off.
    Skip,
    /// The step is enabled but needs the identifier triple and none was
    /// extracted: it fails on its own, without stopping its siblings.
    MissingId,
    /// The step issues this form submission.
    Send(FormRequest),
}

/// One entry of the run's dependent-step plan.
pub struct PlannedStep {
    pub kind: StepKind,
    pub action: StepAction,
}

/// Spec-level form submission: path and pairs as character sequences.
#[verifier::ext_equal]
pub struct FormSpec {
    pub path: Seq<char>,
    pub fields: Seq<(Seq<char>, Seq<char>)>,
}

/// Spec-level counterpart of `StepAction`.
#[verifier::ext_equal]
pub enum ActionSpec {
    Skip,
    MissingId,
    Send(FormSpec),
}

/// The abstract content of a planned action.
pub open spec fn action_view(a: StepAction) -> ActionSpec {
    match a {
        StepAction::Skip => ActionSpec::Skip,
        StepAction::MissingId => ActionSpec::MissingId,
        StepAction::Send(fr) => ActionSpec::Send(
            FormSpec { path: fr.path@, fields: pair_views(fr.fields@) },
        ),
    }
}

/// The add-to-deck submission: identifier triple and origin, posted to the
/// target deck's add endpoint.
pub open spec fn add_to_deck_plan(id: Option<VocabId>, deck_id: u64, origin: Seq<char>) -> ActionSpec {
    match id {
        None => ActionSpec::MissingId,
        Some(i) => ActionSpec::Send(
            FormSpec {
                path: "/deck/"@ + dec_str(deck_id as nat) + "/add"@,
                fields: seq![
                    ("v"@, i.v@),
                    ("r"@, i.r@),
                    ("s"@, i.s@),
                    ("origin"@, origin),
                ],
            },
        ),
    }
}

/// The shared shape of the force-unlock, forq and mark-unknown
/// submissions: vocabulary id, spelling id and origin, posted to a fixed
/// endpoint.
pub open spec fn simple_post_plan(id: Option<VocabId>, path: Seq<char>, origin: Seq<char>) -> ActionSpec {
    match id {
        None => ActionSpec::MissingId,
        Some(i) => ActionSpec::Send(
            FormSpec {
                path: path,
                fields: seq![("v"@, i.v@), ("s"@, i.s@), ("origin"@, origin)],
            },
        ),
    }
}

/// An identifier-scoped edit path: `<prefix>?v=<v>&s=<s>&r=<r>`.
pub open spec fn id_query_path(prefix: Seq<char>, id: VocabId) -> Seq<char> {
    prefix + "?v="@ + id.v@ + "&s="@ + id.s@ + "&r="@ + id.r@
}

/// The sentence-edit submission.  An empty sentence turns the step off
/// entirely: nothing is sent and nothing fails.
pub open spec fn set_custom_sentence_plan(id: Option<VocabId>, sentence: Seq<char>) -> ActionSpec {
    if sentence.len() == 0 {
        ActionSpec::Skip
    } else {
        match id {
            None => ActionSpec::MissingId,
            Some(i) => ActionSpec::Send(
                FormSpec {
                    path: id_query_path("/edit-shown-sentence"@, i),
                    fields: seq![("sentence"@, sentence), ("translation"@, ""@)],
                },
            ),
        }
    }
}

/// The definition-edit submission: the fixed payload that keeps every
/// supported language enabled, plus the custom definition text.  An empty
/// definition turns the step off entirely.
pub open spec fn set_custom_definition_plan(id: Option<VocabId>, definition: Seq<char>) -> ActionSpec {
    if definition.len() == 0 {
        ActionSpec::Skip
    } else {
        match id {
            None => ActionSpec::MissingId,
            Some(i) => ActionSpec::Send(
                FormSpec {
                    path: id_query_path("/edit_shown_meanings"@, i),
                    fields: seq![
                        ("language-select"@, "default"@),
                        ("language-english"@, "1"@),
                        ("language-japanese"@, "1"@),
                        ("language-german"@, "1"@),
                        ("language-spanish"@, "1"@),
                        ("language-french"@, "1"@),
                        ("language-hungarian"@, "1"@),
                        ("custom-definition"@, definition),
                    ],
                },
            ),
        }
    }
}

fn pair(k: &'static str, v: String) -> (p: (String, String))
    ensures
        p.0@ == k@,
        p.1 == v,
{
    (String::from_str(k), v)
}

impl VocabCard {
    /// The identifier triple, or the missing-identifier failure that every
    /// dependent step surfaces when extraction found none.
    pub fn find_id(&self) -> (r: Result<VocabId, StepError>)
        ensures
            self.id matches Some(id) ==> r == Ok::<VocabId, StepError>(id),
            self.id is None ==> r == Err::<VocabId, StepError>(StepError::MissingId),
    {
        match &self.id {
            Some(id) => Ok(VocabId { v: id.v.clone(), s: id.s.clone(), r: id.r.clone() }),
            None => Err(StepError::MissingId),
        }
    }

    /// Plans the add-to-deck submission for the given target deck.
    pub fn add_to_deck(&self, deck_id: u64, origin: &str) -> (a: StepAction)
        ensures
            action_view(a) == add_to_deck_plan(self.id, deck_id, origin@),
    {
        match self.find_id() {
            Err(_) => StepAction::MissingId,
            Ok(id) => {
                let ghost gid = id;
                let VocabId { v, s, r } = id;
                let mut path = String::from_str("/deck/");
                let deck = dec_string(deck_id);
                path.append(deck.as_str());
                path.append("/add");
                let mut fields: Vec<(String, String)> = Vec::new();
                fields.push(pair("v", v));
                fields.push(pair("r", r));
                fields.push(pair("s", s));
                fields.push(pair("origin", String::from_str(origin)));
                let a = StepAction::Send(FormRequest { path, fields });
                proof {
                    assert(self.id == Some(gid));
                    assert(action_view(a) =~~= add_to_deck_plan(self.id, deck_id, origin@));
                }
                a
            },
        }
    }

    fn simple_post(&self, path: &'static str, origin: &str) -> (a: StepAction)
        ensures
            action_view(a) == simple_post_plan(self.id, path@, origin@),
    {
        match self.find_id() {
            Err(_) => StepAction::MissingId,
            Ok(id) => {
                let ghost gid = id;
                let VocabId { v, s, r: _ } = id;
                let mut fields: Vec<(String, String)> = Vec::new();
                fields.push(pair("v", v));
                fields.push(pair("s", s));
                fields.push(pair("origin", String::from_str(origin)));
                let a = StepAction::Send(FormRequest { path: String::from_str(path), fields });
                proof {
                    assert(self.id == Some(gid));
                    assert(action_view(a) =~~= simple_post_plan(self.id, path@, origin@));
                }
                a
            },
        }
    }

    /// Plans the force-unlock submission.
    pub fn force_unlock(&self, origin: &str) -> (a: StepAction)
        ensures
            action_view(a) == simple_post_plan(self.id, "/force-unlock"@, origin@),
    {
        self.simple_post("/force-unlock", origin)
    }

    /// Plans the forq (priority-queue) submission.
    pub fn forq(&self, origin: &str) -> (a: StepAction)
        ensures
            action_view(a) == simple_post_plan(self.id, "/prioritize"@, origin@),
    {
        self.simple_post("/prioritize", origin)
    }

    /// Plans the mark-unknown submission.
    pub fn mark_unknown(&self, origin: &str) -> (a: StepAction)
        ensures
            action_view(a) == simple_post_plan(self.id, "/mark-as-not-known"@, origin@),
    {
        self.simple_post("/mark-as-not-known", origin)
    }

    /// Plans the sentence-edit submission; an empty sentence skips the
    /// step without a request.
    pub fn set_custom_sentence(&self, sentence: &str) -> (a: StepAction)
        ensures
            action_view(a) == set_custom_sentence_plan(self.id, sentence@),
    {
        if sentence.is_empty() {
            StepAction::Skip
        } else {
            match self.find_id() {
                Err(_) => StepAction::MissingId,
                Ok(id) => {
                    let ghost gid = id;
                    let path = id_query("/edit-shown-sentence", &id);
                    let mut fields: Vec<(String, String)> = Vec::new();
                    fields.push(pair("sentence", String::from_str(sentence)));
                    fields.push(pair("translation", String::from_str("")));
                    let a = StepAction::Send(FormRequest { path, fields });
                    proof {
                        assert(self.id == Some(gid));
                        assert(action_view(a) =~~= set_custom_sentence_plan(self.id, sentence@));
                    }
                    a
                },
            }
        }
    }

    /// Plans the definition-edit submission; an empty definition skips the
    /// step without a request.
    pub fn set_custom_definition(&self, definition: &str) -> (a: StepAction)
        ensures
            action_view(a) == set_custom_definition_plan(self.id, definition@),
    {
        if definition.is_empty() {
            StepAction::Skip
        } else {
            match self.find_id() {
                Err(_) => StepAction::MissingId,
                Ok(id) => {
                    let ghost gid = id;
                    let path = id_query("/edit_shown_meanings", &id);
                    let mut fields: Vec<(String, String)> = Vec::new();
                    fields.push(pair("language-select", String::from_str("default")));
                    fields.push(pair("language-english", String::from_str("1")));
                    fields.push(pair("language-japanese", String::from_str("1")));
                    fields.push(pair("language-german", String::from_str("1")));
                    fields.push(pair("language-spanish", String::from_str("1")));
                    fields.push(pair("language-french", String::from_str("1")));
                    fields.push(pair("language-hungarian", String::from_str("1")));
                    fields.push(pair("custom-definition", String::from_str(definition)));
                    let a = StepAction::Send(FormRequest { path, fields });
                    proof {
                        assert(self.id == Some(gid));
                        assert(action_view(a) =~~= set_custom_definition_plan(self.id, definition@));
                    }
                    a
                },
            }
        }
    }
}

fn id_query(prefix: &'static str, id: &VocabId) -> (p: String)
    ensures
        p@ == id_query_path(prefix@, *id),
{
    let mut s = String::from_str(prefix);
    s.append("?v=");
    s.append(id.v.as_str());
    s.append("&s=");
    s.append(id.s.as_str());
    s.append("&r=");
    s.append(id.r.as_str());
    proof {
        assert(s@ =~= id_query_path(prefix@, *id));
    }
    s
}

/// One dependent step's planned action under the active configuration:
/// a disabled step is skipped, an enabled one plans its submission or its
/// missing-identifier failure.
pub open spec fn step_plan(
    config: Config,
    fields: Fields,
    id: Option<VocabId>,
    origin: Seq<char>,
    kind: StepKind,
) -> ActionSpec {
    match kind {
        StepKind::AddToDeck => match config.auto_add {
            Some(deck_id) => add_to_deck_plan(id, deck_id, origin),
            None => ActionSpec::Skip,
        },
        StepKind::ForceUnlock => if config.auto_unlock {
            simple_post_plan(id, "/force-unlock"@, origin)
        } else {
            ActionSpec::Skip
        },
        StepKind::Forq => if config.auto_forq {
            simple_post_plan(id, "/prioritize"@, origin)
        } else {
            ActionSpec::Skip
        },
        StepKind::MarkUnknown => if config.auto_forget {
            simple_post_plan(id, "/mark-as-not-known"@, origin)
        } else {
            ActionSpec::Skip
        },
        StepKind::SetSentence => if config.add_mined_sentences {
            set_custom_sentence_plan(id, fields.sentence@)
        } else {
            ActionSpec::Skip
        },
        StepKind::SetDefinition => if config.add_custom_definition {
            match fields.definition {
                Some(d) => set_custom_definition_plan(id, d@),
                None => ActionSpec::Skip,
            }
        } else {
            ActionSpec::Skip
        },
    }
}

/// Plans all six dependent steps of one run, in their fixed order.  Every
/// step is planned independently: no entry depends on another's outcome,
/// only on the shared identifier, the configuration and the card.
pub fn plan_steps(config: &Config, fields: &Fields, card: &VocabCard, origin: &str) -> (plan: Vec<
    PlannedStep,
>)
    ensures
        plan_matches(plan@, *config, *fields, card.id, origin@),
{
    let a0 = match config.auto_add {
        Some(deck_id) => card.add_to_deck(deck_id, origin),
        None => StepAction::Skip,
    };
    let a1 = if config.auto_unlock {
        card.force_unlock(origin)
    } else {
        StepAction::Skip
    };
    let a2 = if config.auto_forq {
        card.forq(origin)
    } else {
        StepAction::Skip
    };
    let a3 = if config.auto_forget {
        card.mark_unknown(origin)
    } else {
        StepAction::Skip
    };
    let a4 = if config.add_mined_sentences {
        card.set_custom_sentence(fields.sentence.as_str())
    } else {
        StepAction::Skip
    };
    let a5 = if config.add_custom_definition {
        match &fields.definition {
            Some(d) => card.set_custom_definition(d.as_str()),
            None => StepAction::Skip,
        }
    } else {
        StepAction::Skip
    };
    let mut plan: Vec<PlannedStep> = Vec::new();
    plan.push(PlannedStep { kind: StepKind::AddToDeck, action: a0 });
    plan.push(PlannedStep { kind: StepKind::ForceUnlock, action: a1 });
    plan.push(PlannedStep { kind: StepKind::Forq, action: a2 });
    plan.push(PlannedStep { kind: StepKind::MarkUnknown, action: a3 });
    plan.push(PlannedStep { kind: StepKind::SetSentence, action: a4 });
    plan.push(PlannedStep { kind: StepKind::SetDefinition, action: a5 });
    plan
}

/// The mandatory search request for a card's word.
pub fn search_request(word: &str) -> (r: HttpRequest)
    ensures
        r.method == Method::Get,
        r.url@ == abs_url_spec(search_path_spec(word@)),
        r.form_body is None,
{
    let p = search_path(word);
    HttpRequest::get_to(p.as_str())
}

/// View of an optional string.
pub open spec fn opt_str_view(o: Option<String>) -> Option<Seq<char>> {
    match o {
        Some(s) => Some(s@),
        None => None,
    }
}

/// The run's resolved URL: the absolute detail URL when the detail page
/// was found, else the absolute search URL.  It takes no identifier: the
/// open phase never depends on extraction.
pub open spec fn open_url_spec(word: Seq<char>, detail: Option<Seq<char>>) -> Seq<char> {
    match detail {
        Some(rel) => abs_url_spec(rel),
        None => abs_url_spec(search_path_spec(word)),
    }
}

/// Resolves the URL the run returns (and, when configured, opens).
pub fn resolve_open_url(word: &str, detail: &Option<String>) -> (r: String)
    ensures
        r@ == open_url_spec(word@, opt_str_view(*detail)),
{
    match detail {
        Some(rel) => abs_url(rel.as_str()),
        None => {
            let p = search_path(word);
            abs_url(p.as_str())
        },
    }
}

/// Decision after the search page, given whether a detail URL was found:
/// `Ok(true)` fetches the detail page, `Ok(false)` skips every dependent
/// step and proceeds to the open phase, and the configuration-conflict
/// error aborts the run because the configured actions cannot be
/// performed.
pub open spec fn detail_decision(config: Config, detail_found: bool) -> Result<bool, RunError> {
    if config.session_id is None {
        Ok(false)
    } else if detail_found {
        Ok(true)
    } else if config.any_login_or_detail_options_spec() {
        Err(RunError::CardNotFound)
    } else {
        Ok(false)
    }
}

/// Decides whether the run fetches the detail page.
pub fn decide_detail_fetch(config: &Config, detail_found: bool) -> (r: Result<bool, RunError>)
    ensures
        r == detail_decision(*config, detail_found),
{
    if config.session_id.is_none() {
        Ok(false)
    } else if detail_found {
        Ok(true)
    } else if config.any_login_or_detail_options() {
        Err(RunError::CardNotFound)
    } else {
        Ok(false)
    }
}

/// Status-code success: any 2xx or 3xx.
pub open spec fn is_success_status(status: u16) -> bool {
    200 <= status < 400
}

/// Classifies the mandatory search call; a transport failure is fatal.
pub fn judge_search(transport_ok: bool) -> (r: Result<(), RunError>)
    ensures
        r == if transport_ok {
            Ok::<(), RunError>(())
        } else {
            Err::<(), RunError>(RunError::SearchFailed)
        },
{
    if transport_ok {
        Ok(())
    } else {
        Err(RunError::SearchFailed)
    }
}

/// Classifies the detail fetch: a transport failure (`None`) or an
/// unsuccessful status aborts the run, because no dependent step can
/// proceed without the page.
pub fn judge_detail_fetch(status: Option<u16>) -> (r: Result<(), RunError>)
    ensures
        r == match status {
            Some(s) => if is_success_status(s) {
                Ok::<(), RunError>(())
            } else {
                Err::<(), RunError>(RunError::DetailFetchFailed)
            },
            None => Err::<(), RunError>(RunError::DetailFetchFailed),
        },
{
    match status {
        Some(s) => if 200 <= s && s < 400 {
            Ok(())
        } else {
            Err(RunError::DetailFetchFailed)
        },
        None => Err(RunError::DetailFetchFailed),
    }
}

/// Classifies one dependent step's response status.  The failure is
/// reported for that step alone.
pub fn judge_step(status: u16) -> (r: Result<(), StepError>)
    ensures
        r == if is_success_status(status) {
            Ok::<(), StepError>(())
        } else {
            Err::<(), StepError>(StepError::Rejected(status))
        },
{
    if 200 <= status && status < 400 {
        Ok(())
    } else {
        Err(StepError::Rejected(status))
    }
}

/// Whether a dependent step is enabled: its configuration gate is on and
/// its own text guard (for the sentence and definition steps) does not
/// turn it off.
pub open spec fn step_enabled(config: Config, fields: Fields, kind: StepKind) -> bool {
    match kind {
        StepKind::AddToDeck => config.auto_add is Some,
        StepKind::ForceUnlock => config.auto_unlock,
        StepKind::Forq => config.auto_forq,
        StepKind::MarkUnknown => config.auto_forget,
        StepKind::SetSentence => config.add_mined_sentences && fields.sentence@.len() > 0,
        StepKind::SetDefinition => config.add_custom_definition && (fields.definition matches Some(
            d,
        ) && d@.len() > 0),
    }
}

/// Where one enrichment run stands.  Steps that need the detail page or
/// the identifier triple are reachable only through the states that carry
/// them: no step before identifier extraction can depend on it.
pub enum RunState {
    /// Nothing has been sent.
    Start,
    /// The mandatory search request is out.
    SearchSent,
    /// The detail fetch for this relative URL is out.
    DetailSent { detail: String },
    /// Every network step is decided; the run's resolved URL awaits the
    /// open phase.
    OpenPhase { open_url: String },
    /// The run finished with its resolved URL.
    Done { open_url: String },
    /// The run aborted.
    Failed { err: RunError },
}

/// One run of the card workflow for a single card, as an explicit state
/// machine: the caller performs each returned request or plan against the
/// network and feeds the outcome back in; every decision in between is
/// made here.
pub struct Run {
    pub config: Config,
    pub fields: Fields,
    pub state: RunState,
}

impl Run {
    pub fn new(config: Config, fields: Fields) -> (r: Run)
        ensures
            r.config == config,
            r.fields == fields,
            r.state is Start,
    {
        Run { config, fields, state: RunState::Start }
    }

    /// Issues the mandatory search request.
    pub fn start(&mut self) -> (req: HttpRequest)
        requires
            old(self).state is Start,
        ensures
            final(self).config == old(self).config,
            final(self).fields == old(self).fields,
            final(self).state is SearchSent,
            req.method == Method::Get,
            req.url@ == abs_url_spec(search_path_spec(old(self).fields.word@)),
            req.form_body is None,
    {
        self.state = RunState::SearchSent;
        search_request(self.fields.word.as_str())
    }

    /// A transport failure on the search call aborts the run: search is
    /// mandatory.
    pub fn on_search_failure(&mut self)
        requires
            old(self).state is SearchSent,
        ensures
            final(self).config == old(self).config,
            final(self).fields == old(self).fields,
            final(self).state matches RunState::Failed { err: RunError::SearchFailed },
    {
        self.state = RunState::Failed { err: RunError::SearchFailed };
    }

    /// Consumes the search page's outcome: the relative detail URL the
    /// parsing collaborator found on it, if any.  Returns the detail fetch
    /// to issue, when the run calls for one; otherwise the new state says
    /// whether the run proceeds to the open phase or aborts with the
    /// configuration conflict.
    pub fn on_search_page(&mut self, detail: Option<String>) -> (req: Option<HttpRequest>)
        requires
            old(self).state is SearchSent,
        ensures
            final(self).config == old(self).config,
            final(self).fields == old(self).fields,
            detail_decision(old(self).config, detail is Some) matches Err(e) ==> final(self).state matches RunState::Failed { err } && err == e && req is None,
            detail_decision(old(self).config, detail is Some) == Ok::<bool, RunError>(false)
                ==> (final(self).state matches RunState::OpenPhase { open_url } && open_url@
                == open_url_spec(old(self).fields.word@, opt_str_view(detail))) && req is None,
            detail_decision(old(self).config, detail is Some) == Ok::<bool, RunError>(true) ==> ({
                &&& detail matches Some(rel)
                &&& final(self).state matches RunState::DetailSent { detail: d } && d == rel
                &&& req matches Some(q) && q.method == Method::Get && q.url@ == abs_url_spec(rel@)
                    && q.form_body is None
            }),
    {
        match decide_detail_fetch(&self.config, detail.is_some()) {
            Err(e) => {
                self.state = RunState::Failed { err: e };
                None
            },
            Ok(false) => {
                let open_url = resolve_open_url(self.fields.word.as_str(), &detail);
                self.state = RunState::OpenPhase { open_url };
                None
            },
            Ok(true) => {
                // Reached only when a detail URL was found.
                match detail {
                    Some(rel) => {
                        let req = HttpRequest::get_to(rel.as_str());
                        self.state = RunState::DetailSent { detail: rel };
                        Some(req)
                    },
                    None => {
                        // detail_decision never asks for a fetch without a
                        // detail URL.
                        proof {
                            assert(false);
                        }
                        None
                    },
                }
            },
        }
    }

    /// A transport failure on the detail fetch aborts the run: no
    /// dependent step can proceed without the page.
    pub fn on_detail_failure(&mut self)
        requires
            old(self).state is DetailSent,
        ensures
            final(self).config == old(self).config,
            final(self).fields == old(self).fields,
            final(self).state matches RunState::Failed { err: RunError::DetailFetchFailed },
    {
        self.state = RunState::Failed { err: RunError::DetailFetchFailed };
    }

    /// Consumes the detail fetch's status and the card the extraction
    /// collaborator read from the page.  On success, hands out the full
    /// dependent-step plan, with the detail URL as every submission's
    /// origin; the caller issues each planned submission and classifies
    /// its status with `judge_step`, reporting failures without stopping
    /// the siblings.
    pub fn on_detail_page(&mut self, status: u16, card: &VocabCard) -> (plan: Option<
        Vec<PlannedStep>,
    >)
        requires
            old(self).state is DetailSent,
        ensures
            final(self).config == old(self).config,
            final(self).fields == old(self).fields,
            !is_success_status(status) ==> (final(self).state matches RunState::Failed {
                err: RunError::DetailFetchFailed,
            } && plan is None),
            is_success_status(status) ==> ({
                &&& final(self).state matches RunState::OpenPhase { open_url } && (old(self).state matches RunState::DetailSent { detail } && open_url@ == abs_url_spec(
                    detail@,
                ))
                &&& plan matches Some(p) && plan_matches(
                    p@,
                    old(self).config,
                    old(self).fields,
                    card.id,
                    old(self).state->DetailSent_detail@,
                )
            }),
    {
        if !(200 <= status && status < 400) {
            self.state = RunState::Failed { err: RunError::DetailFetchFailed };
            None
        } else {
            match &self.state {
                RunState::DetailSent { detail } => {
                    let plan = plan_steps(&self.config, &self.fields, card, detail.as_str());
                    let open_url = abs_url(detail.as_str());
                    self.state = RunState::OpenPhase { open_url };
                    Some(plan)
                },
                _ => {
                    proof {
                        assert(false);
                    }
                    None
                },
            }
        }
    }

    /// The open phase.  When auto-open is configured the caller hands the
    /// resolved URL to the viewer collaborator first and reports whether
    /// that succeeded; its failure is fatal.  Otherwise the run completes
    /// with the resolved URL.
    pub fn complete(&mut self, open_ok: bool) -> (r: Result<String, RunError>)
        requires
            old(self).state is OpenPhase,
        ensures
            final(self).config == old(self).config,
            final(self).fields == old(self).fields,
            old(self).config.auto_open && !open_ok ==> (final(self).state matches RunState::Failed {
                err: RunError::OpenFailed,
            } && r == Err::<String, RunError>(RunError::OpenFailed)),
            !old(self).config.auto_open || open_ok ==> ({
                &&& final(self).state matches RunState::Done { open_url } && old(self).state matches RunState::OpenPhase { open_url: u } && open_url == u
                &&& r matches Ok(res) && res == old(self).state->OpenPhase_open_url
            }),
    {
        if self.config.auto_open && !open_ok {
            self.state = RunState::Failed { err: RunError::OpenFailed };
            Err(RunError::OpenFailed)
        } else {
            match &self.state {
                RunState::OpenPhase { open_url } => {
                    let res = open_url.clone();
                    let u = open_url.clone();
                    self.state = RunState::Done { open_url: u };
                    Ok(res)
                },
                _ => {
                    proof {
                        assert(false);
                    }
                    Err(RunError::OpenFailed)
                },
            }
        }
    }
}

/// Whether a handed-out plan is exactly the six dependent steps of this
/// run, in order, each planned under the active configuration with the
/// detail URL as origin.
pub open spec fn plan_matches(
    plan: Seq<PlannedStep>,
    config: Config,
    fields: Fields,
    id: Option<VocabId>,
    origin: Seq<char>,
) -> bool {
    &&& plan.len() == 6
    &&& plan[0].kind == StepKind::AddToDeck
    &&& plan[1].kind == StepKind::ForceUnlock
    &&& plan[2].kind == StepKind::Forq
    &&& plan[3].kind == StepKind::MarkUnknown
    &&& plan[4].kind == StepKind::SetSentence
    &&& plan[5].kind == StepKind::SetDefinition
    &&& forall|i: int|
        0 <= i < 6 ==> action_view((#[trigger] plan[i]).action) == step_plan(
            config,
            fields,
            id,
            origin,
            plan[i].kind,
        )
}

/// With no credential-dependent option enabled, a run whose detail page is
/// not found never aborts: the decision is to skip the dependent phase,
/// and the run's resolved URL is the search URL itself.
pub proof fn lemma_no_detail_without_options_succeeds(config: Config, word: Seq<char>)
    requires
        !config.any_login_or_detail_options_spec(),
    ensures
        detail_decision(config, false) == Ok::<bool, RunError>(false),
        open_url_spec(word, None) == abs_url_spec(search_path_spec(word)),
{
}

/// With a session credential present and at least one credential-dependent
/// option enabled, a run whose detail page is not found aborts with the
/// configuration-conflict error.
pub proof fn lemma_no_detail_with_options_conflicts(config: Config)
    requires
        config.session_id is Some,
        config.any_login_or_detail_options_spec(),
    ensures
        detail_decision(config, false) == Err::<bool, RunError>(RunError::CardNotFound),
{
}

/// When identifier extraction finds nothing on a fetched detail page,
/// every enabled dependent step fails with its own missing-identifier
/// error and every other step is skipped: no submission is planned, and
/// the run is not aborted.  The open phase takes no identifier at all
/// (see `open_url_spec`), so it still runs.
pub proof fn lemma_missing_id_isolates_failures(
    config: Config,
    fields: Fields,
    origin: Seq<char>,
    kind: StepKind,
)
    ensures
        step_plan(config, fields, None, origin, kind) == if step_enabled(config, fields, kind) {
            ActionSpec::MissingId
        } else {
            ActionSpec::Skip
        },
{
}

/// Re-running a dependent step with the same identifier triple and origin
/// plans the identical submission: the plan is a function of the run's
/// inputs alone, so repeated runs share no engine-side state.
pub proof fn lemma_step_plan_repeatable(
    config: Config,
    fields: Fields,
    id1: VocabId,
    id2: VocabId,
    origin: Seq<char>,
    kind: StepKind,
)
    requires
        id1.v@ == id2.v@,
        id1.s@ == id2.s@,
        id1.r@ == id2.r@,
    ensures
        step_plan(config, fields, Some(id1), origin, kind) == step_plan(
            config,
            fields,
            Some(id2),
            origin,
            kind,
        ),
{
    assert(step_plan(config, fields, Some(id1), origin, kind) =~~= step_plan(
        config,
        fields,
        Some(id2),
        origin,
        kind,
    ));
}

/// An empty sentence turns the sentence step off entirely, and an empty
/// definition the definition step: nothing is sent and nothing fails,
/// whether or not an identifier was extracted.
pub proof fn lemma_empty_text_skips(id: Option<VocabId>, text: Seq<char>)
    requires
        text.len() == 0,
    ensures
        set_custom_sentence_plan(id, text) == ActionSpec::Skip,
        set_custom_definition_plan(id, text) == ActionSpec::Skip,
{
}

} // verus!


