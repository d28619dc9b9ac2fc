use vstd::prelude::*;
use vstd::string::*;
use crate::parser::{field, posts_view, text_of, Post, PostView};
use crate::string_map::StringMap;

verus! {

/// A standalone page of the site.
#[derive(Debug, PartialEq, Eq)]
pub struct Page {
    pub title: String,
    pub description: Option<String>,
    pub slug: String,
    pub html: String,
}

/// A file of the built site: where it goes below the build directory, and what it holds.
#[derive(Debug, PartialEq, Eq)]
pub struct OutputFile {
    pub path: String,
    pub contents: String,
}

/// The state that the stages of a build share: the content, the settings,
/// and the files produced so far.
#[derive(Debug)]
pub struct Site {
    pub posts: Vec<Post>,
    pub pages: Vec<Page>,
    pub metadata: StringMap,
    pub outputs: Vec<OutputFile>,
}

/// Why a stage of the build failed.
#[derive(Debug, Clone, PartialEq, Eq)]
pub enum PluginError {
    /// A file or directory could not be read or written.
    Io(String),
    /// A setting that the stage needs is not in the site's metadata.
    MissingSetting(String),
    /// Any other failure, in the stage's own words.
    Failure(String),
}

pub struct PageView {
    pub title: Seq<char>,
    pub description: Option<Seq<char>>,
    pub slug: Seq<char>,
    pub html: Seq<char>,
}

pub struct OutputFileView {
    pub path: Seq<char>,
    pub contents: Seq<char>,
}

pub struct SiteView {
    pub posts: Seq<PostView>,
    pub pages: Seq<PageView>,
    pub metadata: Map<Seq<char>, Seq<char>>,
    pub outputs: Seq<OutputFileView>,
}

pub enum PluginErrorView {
    Io(Seq<char>),
    MissingSetting(Seq<char>),
    Failure(Seq<char>),
}

impl View for Page {
    type V = PageView;

    open spec fn view(&self) -> PageView {
        PageView {
            title: self.title@,
            description: text_of(self.description),
            slug: self.slug@,
            html: self.html@,
        }
    }
}

impl View for OutputFile {
    type V = OutputFileView;

    open spec fn view(&self) -> OutputFileView {
        OutputFileView { path: self.path@, contents: self.contents@ }
    }
}

/// A page, if there is one, by its view.
pub open spec fn page_option_view(page: Option<Page>) -> Option<PageView> {
    match page {
        Some(p) => Some(p@),
        None => None,
    }
}

/// The views of a list of pages.
pub open spec fn pages_view(pages: Seq<Page>) -> Seq<PageView> {
    pages.map_values(|p: Page| p@)
}

/// The views of a list of output files.
pub open spec fn outputs_view(outputs: Seq<OutputFile>) -> Seq<OutputFileView> {
    outputs.map_values(|f: OutputFile| f@)
}

impl View for Site {
    type V = SiteView;

    open spec fn view(&self) -> SiteView {
        SiteView {
            posts: posts_view(self.posts@),
            pages: pages_view(self.pages@),
            metadata: self.metadata@,
            outputs: outputs_view(self.outputs@),
        }
    }
}

impl View for PluginError {
    type V = PluginErrorView;

    open spec fn view(&self) -> PluginErrorView {
        match self {
            PluginError::Io(detail) => PluginErrorView::Io(detail@),
            PluginError::MissingSetting(name) => PluginErrorView::MissingSetting(name@),
            PluginError::Failure(detail) => PluginErrorView::Failure(detail@),
        }
    }
}

/// The error that a stage ended with, by its view; nothing for a success.
pub open spec fn outcome_view(result: Result<(), PluginError>) -> Option<PluginErrorView> {
    match result {
        Ok(_) => None,
        Err(e) => Some(e@),
    }
}

impl PluginError {
    /// The error in words.
    pub open spec fn described(view: PluginErrorView) -> Seq<char> {
        match view {
            PluginErrorView::Io(detail) => "input or output failed: "@ + detail,
            PluginErrorView::MissingSetting(name) => "the setting "@ + name + " must be set"@,
            PluginErrorView::Failure(detail) => detail,
        }
    }

    pub fn message(&self) -> (text: String)
        ensures
            text@ == Self::described(self@),
    {
        match self {
            PluginError::Io(detail) => "input or output failed: ".to_owned().concat(
                detail.as_str(),
            ),
            PluginError::MissingSetting(name) => "the setting ".to_owned().concat(
                name.as_str(),
            ).concat(" must be set"),
            PluginError::Failure(detail) => detail.clone(),
        }
    }
}

impl Site {
    /// A site without content, settings or output.
    pub open spec fn empty() -> SiteView {
        SiteView {
            posts: Seq::empty(),
            pages: Seq::empty(),
            metadata: Map::empty(),
            outputs: Seq::empty(),
        }
    }

    pub fn new() -> (site: Site)
        ensures
            site@ == Site::empty(),
    {
        let site = Site {
            posts: Vec::new(),
            pages: Vec::new(),
            metadata: StringMap::new(),
            outputs: Vec::new(),
        };
        assert(site@.posts =~= Seq::empty());
        assert(site@.pages =~= Seq::empty());
        assert(site@.outputs =~= Seq::empty());
        site
    }
}

/// The site `before` with one more output file at the end.
pub open spec fn with_output(before: SiteView, path: Seq<char>, contents: Seq<char>) -> SiteView {
    SiteView { outputs: before.outputs.push(OutputFileView { path, contents }), ..before }
}

/// The value of a setting, or the error that names the setting that is missing.
pub fn setting(settings: &StringMap, name: &str) -> (value: Result<String, PluginError>)
    ensures
        match value {
            Ok(v) => field(settings@, name@) == Some(v@),
            Err(e) => field(settings@, name@) is None && e@ == PluginErrorView::MissingSetting(
                name@,
            ),
        },
{
    match settings.get(name) {
        Some(v) => Ok(v.clone()),
        None => Err(PluginError::MissingSetting(name.to_owned())),
    }
}

impl Site {
    /// The value of a setting of the site.
    pub fn setting(&self, name: &str) -> (value: Result<String, PluginError>)
        ensures
            match value {
                Ok(v) => field(self@.metadata, name@) == Some(v@),
                Err(e) => field(self@.metadata, name@) is None && e@
                    == PluginErrorView::MissingSetting(name@),
            },
    {
        setting(&self.metadata, name)
    }

    /// Adds a file to the output of the build.
    pub fn emit(&mut self, path: String, contents: String)
        ensures
            final(self)@ == with_output(old(self)@, path@, contents@),
    {
        let ghost before = self.outputs@;
        let file = OutputFile { path, contents };
        self.outputs.push(file);
        assert(outputs_view(self.outputs@) =~= outputs_view(before).push(file@));
    }
}

/// A named stage of the build that reads and changes the site.
pub trait Plugin {
    /// What one run of the stage may do: a run on the site `before` may leave
    /// the site `after` and end with the error `failure`, or with success
    /// where `failure` is `None`. A stage that says nothing of itself may do
    /// anything.
    open spec fn effect(
        &self,
        before: SiteView,
        after: SiteView,
        failure: Option<PluginErrorView>,
    ) -> bool {
        true
    }

    /// Whether `name` is the name that the stage goes by. A stage that says
    /// nothing of itself may go by any name.
    open spec fn named(&self, name: Seq<char>) -> bool {
        true
    }

    fn name(&self) -> (name: &str)
        ensures
            self.named(name@),
    ;

    fn run(&self, site: &mut Site) -> (result: Result<(), PluginError>)
        ensures
            self.effect(old(site)@, final(site)@, outcome_view(result)),
    ;
}

/// A registered stage.
pub struct Stage {
    pub plugin: Box<dyn Plugin>,
}

impl Stage {
    pub open spec fn effect(
        &self,
        before: SiteView,
        after: SiteView,
        failure: Option<PluginErrorView>,
    ) -> bool {
        self.plugin.effect(before, after, failure)
    }

    pub open spec fn named(&self, name: Seq<char>) -> bool {
        self.plugin.named(name)
    }
}

/// Where a run of the pipeline stands.
#[derive(Debug, PartialEq, Eq)]
pub enum PipelineState {
    /// Not started.
    Idle,
    /// The stage with this index is the next to run.
    Running(usize),
    /// Every stage has succeeded.
    Completed,
    /// A stage has failed with this error; no stage runs after it.
    Aborted(PluginError),
}

pub enum PipelineStateView {
    Idle,
    Running(int),
    Completed,
    Aborted(PluginErrorView),
}

impl View for PipelineState {
    type V = PipelineStateView;

    open spec fn view(&self) -> PipelineStateView {
        match self {
            PipelineState::Idle => PipelineStateView::Idle,
            PipelineState::Running(index) => PipelineStateView::Running(*index as int),
            PipelineState::Completed => PipelineStateView::Completed,
            PipelineState::Aborted(e) => PipelineStateView::Aborted(e@),
        }
    }
}

impl PipelineState {
    /// The state after the run of a pipeline of `stage_count` stages has
    /// begun: from `Idle` the first stage is due, or the run is complete
    /// where there is no stage. A run that has begun stays where it is.
    pub open spec fn begun(state: PipelineStateView, stage_count: int) -> PipelineStateView {
        match state {
            PipelineStateView::Idle => if stage_count > 0 {
                PipelineStateView::Running(0)
            } else {
                PipelineStateView::Completed
            },
            other => other,
        }
    }

    /// The state after the stage that was due has ended with `outcome`: a
    /// success moves on by one stage, or completes the run after the last
    /// one; an error aborts the run. A state in which no stage is due stays
    /// as it is.
    pub open spec fn next(
        state: PipelineStateView,
        stage_count: int,
        outcome: Option<PluginErrorView>,
    ) -> PipelineStateView {
        match state {
            PipelineStateView::Running(index) => match outcome {
                None => if index + 1 < stage_count {
                    PipelineStateView::Running(index + 1)
                } else {
                    PipelineStateView::Completed
                },
                Some(e) => PipelineStateView::Aborted(e),
            },
            other => other,
        }
    }

    /// The stage that is due in this state, if one is.
    pub open spec fn due(state: PipelineStateView) -> Option<int> {
        match state {
            PipelineStateView::Running(index) => Some(index),
            _ => None,
        }
    }

    pub fn new() -> (state: PipelineState)
        ensures
            state@ == PipelineStateView::Idle,
    {
        PipelineState::Idle
    }

    pub fn begin(self, stage_count: usize) -> (state: PipelineState)
        ensures
            state@ == Self::begun(self@, stage_count as int),
    {
        match self {
            PipelineState::Idle => if stage_count > 0 {
                PipelineState::Running(0)
            } else {
                PipelineState::Completed
            },
            other => other,
        }
    }

    pub fn advance(self, stage_count: usize, outcome: Result<(), PluginError>) -> (state:
        PipelineState)
        ensures
            state@ == Self::next(self@, stage_count as int, outcome_view(outcome)),
    {
        match self {
            PipelineState::Running(index) => match outcome {
                Ok(()) => if index < stage_count && index + 1 < stage_count {
                    PipelineState::Running(index + 1)
                } else {
                    PipelineState::Completed
                },
                Err(e) => PipelineState::Aborted(e),
            },
            other => other,
        }
    }

    pub fn next_stage(&self) -> (index: Option<usize>)
        ensures
            match index {
                Some(i) => Self::due(self@) == Some(i as int),
                None => Self::due(self@) is None,
            },
    {
        match self {
            PipelineState::Running(index) => Some(*index),
            _ => None,
        }
    }
}

/// A run of the stages from index `from` on takes the site `before` to the
/// site `after` and ends with `failure`: each stage works on the site that
/// the stage before it left, the first error ends the run and is its
/// outcome, and without an error every stage runs and there is no failure.
pub open spec fn runs_from(
    stages: Seq<Stage>,
    from: int,
    before: SiteView,
    after: SiteView,
    failure: Option<PluginErrorView>,
) -> bool
    decreases stages.len() - from,
{
    if from >= stages.len() {
        after == before && failure is None
    } else {
        exists|mid: SiteView, step: Option<PluginErrorView>|
            #[trigger] stages[from].effect(before, mid, step) && match step {
                None => runs_from(stages, from + 1, mid, after, failure),
                Some(e) => after == mid && failure == step,
            }
    }
}

/// The stages of a build, run one after the other on one site.
pub struct PluginPipeline {
    plugins: Vec<Stage>,
}

impl PluginPipeline {
    /// The registered stages, in the order of their registration.
    pub closed spec fn stages(&self) -> Seq<Stage> {
        self.plugins@
    }

    pub fn new() -> (pipeline: PluginPipeline)
        ensures
            pipeline.stages() == Seq::<Stage>::empty(),
    {
        PluginPipeline { plugins: Vec::new() }
    }

    /// Registers `plugin` as the last stage.
    pub fn add_plugin(&mut self, plugin: Box<dyn Plugin>)
        ensures
            final(self).stages() == old(self).stages().push(Stage { plugin }),
    {
        self.plugins.push(Stage { plugin });
    }

    /// The number of registered stages.
    pub fn len(&self) -> (n: usize)
        ensures
            n == self.stages().len(),
    {
        self.plugins.len()
    }

    /// The name of the stage with this index.
    pub fn stage_name(&self, index: usize) -> (name: &str)
        requires
            index < self.stages().len(),
        ensures
            self.stages()[index as int].named(name@),
    {
        self.plugins[index].plugin.name()
    }

    /// Runs the stage with this index on the site.
    pub fn run_stage(&self, index: usize, site: &mut Site) -> (result: Result<(), PluginError>)
        requires
            index < self.stages().len(),
        ensures
            self.stages()[index as int].effect(old(site)@, final(site)@, outcome_view(result)),
    {
        self.plugins[index].plugin.run(site)
    }

    /// Runs the stages in the order of their registration, and stops at the
    /// first that fails, with its error.
    pub fn run(&self, site: &mut Site) -> (result: Result<(), PluginError>)
        ensures
            runs_from(self.stages(), 0, old(site)@, final(site)@, outcome_view(result)),
    {
        let count = self.plugins.len();
        let ghost stages = self.plugins@;
        let ghost start = site@;
        let mut state = PipelineState::new().begin(count);
        loop
            invariant
                count == stages.len(),
                stages == self.plugins@,
                match state@ {
                    PipelineStateView::Idle => false,
                    PipelineStateView::Running(index) => 0 <= index < count && forall|
                        after: SiteView,
                        result: Option<PluginErrorView>,
                    | #[trigger]
                        runs_from(stages, index, site@, after, result) ==> runs_from(
                            stages,
                            0,
                            start,
                            after,
                            result,
                        ),
                    PipelineStateView::Completed => runs_from(stages, 0, start, site@, None),
                    PipelineStateView::Aborted(e) => runs_from(stages, 0, start, site@, Some(e)),
                },
            ensures
                PipelineState::due(state@) is None,
            decreases
                    match state@ {
                        PipelineStateView::Running(index) => count - index,
                        _ => 0,
                    },
        {
            let index = match state.next_stage() {
                Some(index) => index,
                None => {
                    break ;
                },
            };
            let ghost before = site@;
            let outcome = self.run_stage(index, site);
            proof {
                let step = outcome_view(outcome);
                assert(stages[index as int].effect(before, site@, step));
                match step {
                    None => {
                        if index + 1 < count {
                            assert forall|after: SiteView, result: Option<PluginErrorView>|
                                #[trigger] runs_from(
                                    stages,
                                    index + 1,
                                    site@,
                                    after,
                                    result,
                                ) implies runs_from(stages, 0, start, after, result) by {
                                assert(runs_from(stages, index as int, before, after, result));
                            }
                        } else {
                            assert(runs_from(stages, index + 1, site@, site@, None));
                            assert(runs_from(stages, index as int, before, site@, None));
                        }
                    },
                    Some(e) => {
                        assert(runs_from(stages, index as int, before, site@, step));
                    },
                }
            }
            state = state.advance(count, outcome);
        }
        match state {
            PipelineState::Aborted(e) => Err(e),
            _ => Ok(()),
        }
    }
}

/// A pipeline without stages leaves the site as it is and succeeds.
pub proof fn lemma_empty_pipeline(
    before: SiteView,
    after: SiteView,
    result: Option<PluginErrorView>,
)
    ensures
        runs_from(Seq::<Stage>::empty(), 0, before, after, result) <==> (after == before
            && result is None),
{
}

/// When a stage fails, the run ends there: the site is the one that this
/// stage left, the result is its error unchanged, and this holds whatever
/// stages are registered after it.
pub proof fn lemma_abort_ends_run(
    stages: Seq<Stage>,
    from: int,
    before: SiteView,
    after: SiteView,
    error: PluginErrorView,
)
    requires
        0 <= from < stages.len(),
        stages[from].effect(before, after, Some(error)),
    ensures
        runs_from(stages, from, before, after, Some(error)),
{
}

/// A run that ends in an error has a stage that failed with exactly that
/// error, on the site that the stages before it produced by succeeding, and
/// the site at the end is the one that the failing stage left behind.
pub proof fn lemma_error_has_origin(
    stages: Seq<Stage>,
    from: int,
    before: SiteView,
    after: SiteView,
    error: PluginErrorView,
) -> (origin: (int, SiteView))
    requires
        0 <= from,
        runs_from(stages, from, before, after, Some(error)),
    ensures
        from <= origin.0 < stages.len(),
        stages[origin.0].effect(origin.1, after, Some(error)),
        succeeds_between(stages, from, origin.0, before, origin.1),
    decreases stages.len() - from,
{
    let (mid, step) = choose|mid: SiteView, step: Option<PluginErrorView>|
        #[trigger] stages[from].effect(before, mid, step) && match step {
            None => runs_from(stages, from + 1, mid, after, Some(error)),
            Some(e) => after == mid && Some(error) == step,
        };
    match step {
        None => {
            let origin = lemma_error_has_origin(stages, from + 1, mid, after, error);
            assert(stages[from].effect(before, mid, None));
            origin
        },
        Some(e) => (from, before),
    }
}

/// The stages from index `from` up to, not including, `to` all succeed, and
/// take the site `before` to the site `after`.
pub open spec fn succeeds_between(
    stages: Seq<Stage>,
    from: int,
    to: int,
    before: SiteView,
    after: SiteView,
) -> bool
    decreases to - from,
{
    if from >= to {
        after == before
    } else {
        exists|mid: SiteView| #[trigger]
            stages[from].effect(before, mid, None) && succeeds_between(
                stages,
                from + 1,
                to,
                mid,
                after,
            )
    }
}

} // verus!
