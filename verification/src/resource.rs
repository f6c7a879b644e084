//! Resolution of the files the model is loaded from.
//!
//! A resolution never touches the file system, the network or a process
//! itself. It is a small state machine: [`Resolver::action`] names the work
//! that is outstanding, the caller does it and reports what happened with
//! [`Resolver::advance`], until the resolver has finished.

use crate::error::{ErrorKind, PipelineError};
use vstd::prelude::*;
use vstd::string::*;

verus! {

/// The role of a file in the pipeline.
#[derive(Clone, Copy, Debug, PartialEq, Eq, Structural)]
pub enum ResourceType {
    /// The model's configuration.
    Config,
    /// The model's weights.
    Model,
    /// The tokenizer's merge rules.
    Merges,
    /// The tokenizer's vocabulary.
    Vocab,
}

/// Where an artifact is found.
#[derive(Clone, Copy, Debug, PartialEq, Eq, Structural)]
pub enum ResourceSource {
    /// Under a name in the registry of pretrained models.
    Remote,
    /// At a path of the local file system.
    Local,
}

/// Why a resolution failed.
#[derive(Clone, Copy, Debug, PartialEq, Eq, Structural)]
pub enum Failure {
    /// The remote artifact could not be fetched.
    NotFetched,
    /// The merge step could not be started.
    NotLaunched,
    /// The merge step was started and broke off.
    Aborted,
    /// The merge step ran to its end and the file is still missing.
    StillMissing,
}

/// How far a resolution has come.
#[derive(Clone, Copy, Debug, PartialEq, Eq, Structural)]
pub enum Phase {
    /// The download of a remote artifact is outstanding.
    Fetching,
    /// The first look for the model file is outstanding.
    Probing,
    /// The merge step is outstanding.
    Merging,
    /// The look for the model file after the merge step is outstanding.
    Confirming,
    /// Finished: the file was there without a merge step.
    Present,
    /// Finished: the merge step made the file.
    Generated,
    /// Finished without a file.
    Failed(Failure),
}

/// The work a resolver waits for.
#[derive(Clone, Copy, Debug, PartialEq, Eq, Structural)]
pub enum Action {
    /// Fetch the artifact named by the resolver's location into the cache.
    Fetch,
    /// Look whether a file exists at the resolver's location.
    CheckExists,
    /// Run the resolver's merge script and wait for it.
    RunMerge,
    /// Nothing: the resolution has finished.
    Finish,
}

/// What the caller found when it did the work.
#[derive(Clone, Debug, PartialEq, Eq)]
pub enum Event {
    /// The artifact is in the cache, at this path.
    Fetched(String),
    /// The artifact could not be fetched.
    FetchFailed,
    /// Whether the file exists.
    Exists(bool),
    /// The merge script could not be started.
    MergeNotLaunched,
    /// The merge script was started and broke off.
    MergeAborted,
    /// The merge script ran to its end.
    MergeCompleted,
}

/// An [`Event`] with its path as a sequence of characters.
pub enum EventView {
    Fetched(Seq<char>),
    FetchFailed,
    Exists(bool),
    MergeNotLaunched,
    MergeAborted,
    MergeCompleted,
}

impl View for Event {
    type V = EventView;

    open spec fn view(&self) -> EventView {
        match self {
            Event::Fetched(path) => EventView::Fetched(path@),
            Event::FetchFailed => EventView::FetchFailed,
            Event::Exists(found) => EventView::Exists(*found),
            Event::MergeNotLaunched => EventView::MergeNotLaunched,
            Event::MergeAborted => EventView::MergeAborted,
            Event::MergeCompleted => EventView::MergeCompleted,
        }
    }
}

/// One artifact of the pipeline: what it is, and where it is found.
#[derive(Clone, Debug, PartialEq, Eq)]
pub struct ResourceDescriptor {
    pub kind: ResourceType,
    pub source: ResourceSource,
    /// The name in the registry, or the path of the file.
    pub location: String,
}

/// How a resolution ended.
#[derive(Clone, Debug, PartialEq, Eq)]
pub enum Resolution {
    /// The file at this path was there already.
    Present(String),
    /// The merge step made the file at this path.
    Generated(String),
    /// There is no file.
    Failed(PipelineError),
}

/// A [`Resolution`] with its texts as sequences of characters.
pub enum ResolutionView {
    Present(Seq<char>),
    Generated(Seq<char>),
    Failed(ErrorKind, Seq<char>),
}

impl View for Resolution {
    type V = ResolutionView;

    open spec fn view(&self) -> ResolutionView {
        match self {
            Resolution::Present(path) => ResolutionView::Present(path@),
            Resolution::Generated(path) => ResolutionView::Generated(path@),
            Resolution::Failed(error) => ResolutionView::Failed(error.kind, error.message@),
        }
    }
}

impl Resolution {
    /// The path of the file, or the error of a resolution that failed.
    pub fn into_path(self) -> (r: Result<String, PipelineError>)
        ensures
            match self@ {
                ResolutionView::Present(path) => r matches Ok(p) && p@ == path,
                ResolutionView::Generated(path) => r matches Ok(p) && p@ == path,
                ResolutionView::Failed(kind, message) => r matches Err(e) && e@ == (kind, message),
            },
    {
        match self {
            Resolution::Present(path) => Ok(path),
            Resolution::Generated(path) => Ok(path),
            Resolution::Failed(error) => Err(error),
        }
    }
}

/// The state of a resolution as a mathematical value.
pub struct ResolverView {
    pub kind: ResourceType,
    pub location: Seq<char>,
    pub script: Seq<char>,
    pub phase: Phase,
}

/// The resolution of one artifact.
pub struct Resolver {
    kind: ResourceType,
    location: String,
    script: String,
    phase: Phase,
}

impl View for Resolver {
    type V = ResolverView;

    closed spec fn view(&self) -> ResolverView {
        ResolverView {
            kind: self.kind,
            location: self.location@,
            script: self.script@,
            phase: self.phase,
        }
    }
}

/// The phase in which the resolution of a local file starts: only a model
/// file is looked for, and made where it is missing.
pub open spec fn local_start(kind: ResourceType) -> Phase {
    if kind == ResourceType::Model {
        Phase::Probing
    } else {
        Phase::Present
    }
}

/// The work that is outstanding in a phase.
pub open spec fn action_of(phase: Phase) -> Action {
    match phase {
        Phase::Fetching => Action::Fetch,
        Phase::Probing => Action::CheckExists,
        Phase::Merging => Action::RunMerge,
        Phase::Confirming => Action::CheckExists,
        Phase::Present => Action::Finish,
        Phase::Generated => Action::Finish,
        Phase::Failed(_) => Action::Finish,
    }
}

/// The phase that follows `phase` on `event`. An event that does not answer
/// the outstanding work changes nothing.
pub open spec fn next_phase(phase: Phase, event: EventView) -> Phase {
    match (phase, event) {
        (Phase::Fetching, EventView::Fetched(_)) => Phase::Present,
        (Phase::Fetching, EventView::FetchFailed) => Phase::Failed(Failure::NotFetched),
        (Phase::Probing, EventView::Exists(true)) => Phase::Present,
        (Phase::Probing, EventView::Exists(false)) => Phase::Merging,
        (Phase::Merging, EventView::MergeNotLaunched) => Phase::Failed(Failure::NotLaunched),
        (Phase::Merging, EventView::MergeAborted) => Phase::Failed(Failure::Aborted),
        (Phase::Merging, EventView::MergeCompleted) => Phase::Confirming,
        (Phase::Confirming, EventView::Exists(true)) => Phase::Generated,
        (Phase::Confirming, EventView::Exists(false)) => Phase::Failed(Failure::StillMissing),
        _ => phase,
    }
}

/// The state that follows `state` on `event`. Only a finished download
/// changes the location: to the path in the cache.
pub open spec fn step(state: ResolverView, event: EventView) -> ResolverView {
    ResolverView {
        kind: state.kind,
        location: match (state.phase, event) {
            (Phase::Fetching, EventView::Fetched(path)) => path,
            _ => state.location,
        },
        script: state.script,
        phase: next_phase(state.phase, event),
    }
}

/// The phase in which the resolution of an artifact starts.
pub open spec fn start_phase(kind: ResourceType, source: ResourceSource) -> Phase {
    match source {
        ResourceSource::Remote => Phase::Fetching,
        ResourceSource::Local => local_start(kind),
    }
}

/// The state after `events`, taken in from the first to the last.
pub open spec fn run(state: ResolverView, events: Seq<EventView>) -> ResolverView
    decreases events.len(),
{
    if events.len() == 0 {
        state
    } else {
        run(step(state, events[0]), events.skip(1))
    }
}

/// Whether a phase is an end of the resolution.
pub open spec fn finished(phase: Phase) -> bool {
    action_of(phase) == Action::Finish
}

/// The stage of the pipeline a failure belongs to.
pub open spec fn failure_kind(failure: Failure) -> ErrorKind {
    match failure {
        Failure::NotFetched => ErrorKind::Retrieval,
        Failure::NotLaunched => ErrorKind::ResourceGeneration,
        Failure::Aborted => ErrorKind::ResourceGeneration,
        Failure::StillMissing => ErrorKind::ResourceGeneration,
    }
}

/// The message of a failure.
pub open spec fn failure_message(failure: Failure, location: Seq<char>, script: Seq<char>) -> Seq<
    char,
> {
    match failure {
        Failure::NotFetched => "Cannot retrieve "@ + location + "."@,
        Failure::NotLaunched => "Cannot execute "@ + script + "."@,
        Failure::Aborted => "Cannot create the model from the model parts."@,
        Failure::StillMissing => "Cannot find the model "@ + location + "."@,
    }
}

/// The end a state stands for, if it is one.
pub open spec fn outcome_of(state: ResolverView) -> Option<ResolutionView> {
    match state.phase {
        Phase::Present => Some(ResolutionView::Present(state.location)),
        Phase::Generated => Some(ResolutionView::Generated(state.location)),
        Phase::Failed(failure) => Some(
            ResolutionView::Failed(
                failure_kind(failure),
                failure_message(failure, state.location, state.script),
            ),
        ),
        _ => None,
    }
}

/// Starts the resolution of the local file at `path_str`. A model file is
/// looked for first and made with `merge_script` where it is missing; any
/// other file is taken as it is.
pub fn get_local_resource(resource_type: ResourceType, path_str: &str, merge_script: &str) -> (r:
    Resolver)
    ensures
        r@ == (ResolverView {
            kind: resource_type,
            location: path_str@,
            script: merge_script@,
            phase: local_start(resource_type),
        }),
{
    let phase = match resource_type {
        ResourceType::Model => Phase::Probing,
        ResourceType::Config | ResourceType::Merges | ResourceType::Vocab => Phase::Present,
    };
    Resolver {
        kind: resource_type,
        location: String::from_str(path_str),
        script: String::from_str(merge_script),
        phase,
    }
}

/// Starts the resolution of `descriptor`. A remote artifact is fetched; a
/// local one is resolved as [`get_local_resource`] does.
pub fn resolve(descriptor: &ResourceDescriptor, merge_script: &str) -> (r: Resolver)
    ensures
        r@ == (ResolverView {
            kind: descriptor.kind,
            location: descriptor.location@,
            script: merge_script@,
            phase: start_phase(descriptor.kind, descriptor.source),
        }),
{
    match descriptor.source {
        ResourceSource::Remote => Resolver {
            kind: descriptor.kind,
            location: descriptor.location.clone(),
            script: String::from_str(merge_script),
            phase: Phase::Fetching,
        },
        ResourceSource::Local => get_local_resource(
            descriptor.kind,
            descriptor.location.as_str(),
            merge_script,
        ),
    }
}

impl Resolver {
    /// What the artifact is.
    pub fn kind(&self) -> (k: ResourceType)
        ensures
            k == self@.kind,
    {
        self.kind
    }

    /// The name or path the outstanding work is about.
    pub fn location(&self) -> (l: &str)
        ensures
            l@ == self@.location,
    {
        self.location.as_str()
    }

    /// The script that makes a missing model file.
    pub fn script(&self) -> (s: &str)
        ensures
            s@ == self@.script,
    {
        self.script.as_str()
    }

    /// How far the resolution has come.
    pub fn phase(&self) -> (p: Phase)
        ensures
            p == self@.phase,
    {
        self.phase
    }

    /// How the resolution ended, or `None` while work is outstanding.
    pub fn outcome(&self) -> (r: Option<Resolution>)
        ensures
            match r {
                Some(resolution) => outcome_of(self@) == Some(resolution@),
                None => outcome_of(self@) is None,
            },
    {
        match self.phase {
            Phase::Present => Some(Resolution::Present(self.location.clone())),
            Phase::Generated => Some(Resolution::Generated(self.location.clone())),
            Phase::Failed(failure) => {
                let message = match failure {
                    Failure::NotFetched => {
                        let mut m = String::from_str("Cannot retrieve ");
                        m.append(self.location.as_str());
                        m.append(".");
                        m
                    },
                    Failure::NotLaunched => {
                        let mut m = String::from_str("Cannot execute ");
                        m.append(self.script.as_str());
                        m.append(".");
                        m
                    },
                    Failure::Aborted => String::from_str(
                        "Cannot create the model from the model parts.",
                    ),
                    Failure::StillMissing => {
                        let mut m = String::from_str("Cannot find the model ");
                        m.append(self.location.as_str());
                        m.append(".");
                        m
                    },
                };
                let kind = match failure {
                    Failure::NotFetched => ErrorKind::Retrieval,
                    Failure::NotLaunched | Failure::Aborted | Failure::StillMissing => {
                        ErrorKind::ResourceGeneration
                    },
                };
                Some(Resolution::Failed(PipelineError::new(kind, message)))
            },
            Phase::Fetching | Phase::Probing | Phase::Merging | Phase::Confirming => None,
        }
    }

    /// The work the caller has to do next.
    pub fn action(&self) -> (a: Action)
        ensures
            a == action_of(self@.phase),
    {
        match self.phase {
            Phase::Fetching => Action::Fetch,
            Phase::Probing | Phase::Confirming => Action::CheckExists,
            Phase::Merging => Action::RunMerge,
            Phase::Present | Phase::Generated | Phase::Failed(_) => Action::Finish,
        }
    }

    /// Takes in what the caller found.
    pub fn advance(&mut self, event: Event)
        ensures
            final(self)@ == step(old(self)@, event@),
    {
        match (self.phase, event) {
            (Phase::Fetching, Event::Fetched(path)) => {
                self.location = path;
                self.phase = Phase::Present;
            },
            (Phase::Fetching, Event::FetchFailed) => {
                self.phase = Phase::Failed(Failure::NotFetched);
            },
            (Phase::Probing, Event::Exists(true)) => {
                self.phase = Phase::Present;
            },
            (Phase::Probing, Event::Exists(false)) => {
                self.phase = Phase::Merging;
            },
            (Phase::Merging, Event::MergeNotLaunched) => {
                self.phase = Phase::Failed(Failure::NotLaunched);
            },
            (Phase::Merging, Event::MergeAborted) => {
                self.phase = Phase::Failed(Failure::Aborted);
            },
            (Phase::Merging, Event::MergeCompleted) => {
                self.phase = Phase::Confirming;
            },
            (Phase::Confirming, Event::Exists(true)) => {
                self.phase = Phase::Generated;
            },
            (Phase::Confirming, Event::Exists(false)) => {
                self.phase = Phase::Failed(Failure::StillMissing);
            },
            _ => {},
        }
    }
}

/// The state in which the resolution of the local file at `path` starts.
pub open spec fn local_state(kind: ResourceType, path: Seq<char>, script: Seq<char>) -> ResolverView {
    ResolverView { kind, location: path, script, phase: local_start(kind) }
}

/// What is reported where a model file is missing at the first look and the
/// merge step runs to its end: nothing found, the end of the merge step, and
/// what the second look found.
pub open spec fn merge_reports(found: bool) -> Seq<EventView> {
    seq![EventView::Exists(false), EventView::MergeCompleted, EventView::Exists(found)]
}

/// Taking in `first` and then `rest` is taking in both in a row.
pub proof fn lemma_run_concat(state: ResolverView, first: Seq<EventView>, rest: Seq<EventView>)
    ensures
        run(state, first + rest) == run(run(state, first), rest),
    decreases first.len(),
{
    if first.len() == 0 {
        assert(first + rest =~= rest);
    } else {
        assert((first + rest).skip(1) =~= first.skip(1) + rest);
        lemma_run_concat(step(state, first[0]), first.skip(1), rest);
    }
}

/// A finished resolution stays as it is, whatever is reported to it.
pub proof fn lemma_finished_is_final(state: ResolverView, events: Seq<EventView>)
    requires
        finished(state.phase),
    ensures
        run(state, events) == state,
    decreases events.len(),
{
    if events.len() > 0 {
        lemma_finished_is_final(state, events.skip(1));
    }
}

/// A file that is there at the first look is never made again: where the
/// first report on a local file says that it exists, the merge step is asked
/// for at no point of the resolution, however many reports follow, and from
/// that report on the resolution has ended with the file as present at its
/// path. A file other than the model needs no report for that.
pub proof fn lemma_present_file_is_not_merged(
    kind: ResourceType,
    path: Seq<char>,
    script: Seq<char>,
    events: Seq<EventView>,
    k: int,
)
    requires
        0 <= k <= events.len(),
        kind == ResourceType::Model ==> events.len() > 0 && events[0] == EventView::Exists(true),
    ensures
        action_of(run(local_state(kind, path, script), events.take(k)).phase) != Action::RunMerge,
        k > 0 ==> outcome_of(run(local_state(kind, path, script), events.take(k))) == Some(
            ResolutionView::Present(path),
        ),
{
    let start = local_state(kind, path, script);
    let prefix = events.take(k);
    if kind == ResourceType::Model {
        if k > 0 {
            assert(prefix[0] == events[0]);
            lemma_finished_is_final(step(start, prefix[0]), prefix.skip(1));
        }
    } else {
        lemma_finished_is_final(start, prefix);
    }
}

/// The resolution of a missing model file whose merge step runs to its end:
/// the merge step is asked for after the first report and at no other point,
/// and from the third report on the state is the one that the second look
/// led to.
proof fn lemma_merge_trace(
    path: Seq<char>,
    script: Seq<char>,
    found: bool,
    later: Seq<EventView>,
    k: int,
)
    requires
        0 <= k <= 3 + later.len(),
    ensures
        ({
            let start = local_state(ResourceType::Model, path, script);
            let state = run(start, (merge_reports(found) + later).take(k));
            &&& action_of(state.phase) == Action::RunMerge <==> k == 1
            &&& k >= 3 ==> state == (ResolverView {
                phase: next_phase(Phase::Confirming, EventView::Exists(found)),
                ..start
            })
        }),
{
    let start = local_state(ResourceType::Model, path, script);
    let reports = merge_reports(found);
    let prefix = (reports + later).take(k);
    reveal_with_fuel(run, 4);
    if k < 3 {
        assert(prefix =~= reports.take(k));
        assert(k >= 1 ==> prefix.skip(1) =~= reports.take(k).skip(1));
        assert(k == 1 ==> prefix.skip(1).len() == 0);
        assert(k == 2 ==> prefix.skip(1).skip(1).len() == 0);
    } else {
        let tail = later.take(k - 3);
        assert(prefix =~= reports + tail);
        lemma_run_concat(start, reports, tail);
        assert(reports.skip(1).skip(1).skip(1) =~= Seq::<EventView>::empty());
        lemma_finished_is_final(run(start, reports), tail);
    }
}

/// A missing model file is made once: where the first look finds nothing, the
/// merge step runs to its end and the second look finds the file, the merge
/// step is asked for once, after the first report, and from the third report
/// on the resolution has ended with the file as generated at its path,
/// whatever is reported later.
pub proof fn lemma_merge_makes_the_file(
    path: Seq<char>,
    script: Seq<char>,
    later: Seq<EventView>,
    k: int,
)
    requires
        0 <= k <= 3 + later.len(),
    ensures
        ({
            let start = local_state(ResourceType::Model, path, script);
            let state = run(start, (merge_reports(true) + later).take(k));
            &&& action_of(state.phase) == Action::RunMerge <==> k == 1
            &&& k >= 3 ==> outcome_of(state) == Some(ResolutionView::Generated(path))
        }),
{
    lemma_merge_trace(path, script, true, later, k);
}

/// A merge step that leaves no file is an error: where the first look finds
/// nothing, the merge step runs to its end and the second look finds nothing
/// either, the merge step is asked for once, after the first report, and from
/// the third report on the resolution has failed in resource generation,
/// whatever is reported later.
pub proof fn lemma_merge_without_file_fails(
    path: Seq<char>,
    script: Seq<char>,
    later: Seq<EventView>,
    k: int,
)
    requires
        0 <= k <= 3 + later.len(),
    ensures
        ({
            let start = local_state(ResourceType::Model, path, script);
            let state = run(start, (merge_reports(false) + later).take(k));
            &&& action_of(state.phase) == Action::RunMerge <==> k == 1
            &&& k >= 3 ==> outcome_of(state) == Some(
                ResolutionView::Failed(
                    ErrorKind::ResourceGeneration,
                    failure_message(Failure::StillMissing, path, script),
                ),
            )
        }),
{
    lemma_merge_trace(path, script, false, later, k);
}

} // verus!
