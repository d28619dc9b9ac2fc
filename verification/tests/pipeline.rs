use rusty_smith::plugin::{
    setting, OutputFile, PipelineState, Plugin, PluginError, PluginPipeline, Site,
};
use rusty_smith::string_map::StringMap;

struct Counting {
    label: &'static str,
    failure: Option<PluginError>,
}

impl Counting {
    fn passing(label: &'static str) -> Box<Counting> {
        Box::new(Counting { label, failure: None })
    }

    fn failing(label: &'static str, failure: PluginError) -> Box<Counting> {
        Box::new(Counting { label, failure: Some(failure) })
    }
}

impl Plugin for Counting {
    fn name(&self) -> &str {
        self.label
    }

    fn run(&self, site: &mut Site) -> Result<(), PluginError> {
        let seen = site.outputs.len();
        site.emit(format!("{}-{}", seen, self.label), String::new());
        match &self.failure {
            Some(error) => Err(error.clone()),
            None => Ok(()),
        }
    }
}

fn ran(site: &Site) -> Vec<&str> {
    site.outputs.iter().map(|f| f.path.as_str()).collect()
}

#[test]
fn pipeline_stops_at_the_first_failing_plugin() {
    let mut pipeline = PluginPipeline::new();
    pipeline.add_plugin(Counting::passing("one"));
    pipeline.add_plugin(Counting::failing("two", PluginError::Failure("stage two broke".to_string())));
    pipeline.add_plugin(Counting::passing("three"));
    pipeline.add_plugin(Counting::passing("four"));
    let mut site = Site::new();
    let result = pipeline.run(&mut site);
    assert_eq!(result, Err(PluginError::Failure("stage two broke".to_string())));
    assert_eq!(ran(&site), vec!["0-one", "1-two"]);
}

#[test]
fn pipeline_hands_on_the_error_unchanged() {
    let mut pipeline = PluginPipeline::new();
    pipeline.add_plugin(Counting::failing("io", PluginError::Io("disk full".to_string())));
    pipeline.add_plugin(Counting::failing("later", PluginError::Failure("never seen".to_string())));
    let mut site = Site::new();
    assert_eq!(pipeline.run(&mut site), Err(PluginError::Io("disk full".to_string())));
    assert_eq!(ran(&site), vec!["0-io"]);
}

#[test]
fn pipeline_runs_every_plugin_in_the_order_of_registration() {
    let mut pipeline = PluginPipeline::new();
    pipeline.add_plugin(Counting::passing("a"));
    pipeline.add_plugin(Counting::passing("b"));
    pipeline.add_plugin(Counting::passing("c"));
    assert_eq!(pipeline.len(), 3);
    assert_eq!(pipeline.stage_name(0), "a");
    assert_eq!(pipeline.stage_name(2), "c");
    let mut site = Site::new();
    assert_eq!(pipeline.run(&mut site), Ok(()));
    assert_eq!(ran(&site), vec!["0-a", "1-b", "2-c"]);
}

#[test]
fn pipeline_keeps_what_was_done_before_the_failure() {
    let mut pipeline = PluginPipeline::new();
    pipeline.add_plugin(Counting::passing("a"));
    pipeline.add_plugin(Counting::passing("b"));
    pipeline.add_plugin(Counting::failing("c", PluginError::Failure("x".to_string())));
    let mut site = Site::new();
    site.emit("before".to_string(), "kept".to_string());
    assert!(pipeline.run(&mut site).is_err());
    assert_eq!(ran(&site), vec!["before", "1-a", "2-b", "3-c"]);
    assert_eq!(site.outputs[0].contents, "kept");
}

#[test]
fn an_empty_pipeline_succeeds_and_changes_nothing() {
    let pipeline = PluginPipeline::new();
    assert_eq!(pipeline.len(), 0);
    let mut site = Site::new();
    site.metadata.insert("k".to_string(), "v".to_string());
    assert_eq!(pipeline.run(&mut site), Ok(()));
    assert!(site.outputs.is_empty());
    assert_eq!(site.metadata.len(), 1);
}

#[test]
fn a_pipeline_can_run_again_on_another_site() {
    let mut pipeline = PluginPipeline::new();
    pipeline.add_plugin(Counting::passing("a"));
    let mut first = Site::new();
    let mut second = Site::new();
    assert_eq!(pipeline.run(&mut first), Ok(()));
    assert_eq!(pipeline.run(&mut second), Ok(()));
    assert_eq!(ran(&first), ran(&second));
}

#[test]
fn a_new_site_is_empty() {
    let site = Site::new();
    assert!(site.posts.is_empty());
    assert!(site.pages.is_empty());
    assert!(site.outputs.is_empty());
    assert_eq!(site.metadata.len(), 0);
}

#[test]
fn emit_adds_the_file_at_the_end() {
    let mut site = Site::new();
    site.emit("a.txt".to_string(), "A".to_string());
    site.emit("b.txt".to_string(), "B".to_string());
    assert_eq!(
        site.outputs,
        vec![
            OutputFile { path: "a.txt".to_string(), contents: "A".to_string() },
            OutputFile { path: "b.txt".to_string(), contents: "B".to_string() },
        ]
    );
}

#[test]
fn a_setting_is_read_from_the_metadata() {
    let mut site = Site::new();
    site.metadata.insert("HOST".to_string(), "https://example.com".to_string());
    assert_eq!(site.setting("HOST"), Ok("https://example.com".to_string()));
    assert_eq!(
        site.setting("AUTHOR_NAME"),
        Err(PluginError::MissingSetting("AUTHOR_NAME".to_string()))
    );
    let mut settings = StringMap::new();
    settings.insert("A".to_string(), "".to_string());
    assert_eq!(setting(&settings, "A"), Ok(String::new()));
    assert_eq!(setting(&settings, "B"), Err(PluginError::MissingSetting("B".to_string())));
}

#[test]
fn a_run_starts_at_the_first_stage() {
    assert_eq!(PipelineState::new(), PipelineState::Idle);
    assert_eq!(PipelineState::new().begin(3), PipelineState::Running(0));
    assert_eq!(PipelineState::Idle.begin(1), PipelineState::Running(0));
    assert_eq!(PipelineState::Idle.begin(0), PipelineState::Completed);
}

#[test]
fn a_run_that_has_begun_does_not_begin_again() {
    assert_eq!(PipelineState::Running(2).begin(3), PipelineState::Running(2));
    assert_eq!(PipelineState::Completed.begin(3), PipelineState::Completed);
    let error = PluginError::Io("x".to_string());
    assert_eq!(PipelineState::Aborted(error.clone()).begin(3), PipelineState::Aborted(error));
}

#[test]
fn a_success_moves_on_by_one_stage() {
    assert_eq!(PipelineState::Running(0).advance(3, Ok(())), PipelineState::Running(1));
    assert_eq!(PipelineState::Running(1).advance(3, Ok(())), PipelineState::Running(2));
    assert_eq!(PipelineState::Running(2).advance(3, Ok(())), PipelineState::Completed);
}

#[test]
fn an_error_aborts_the_run() {
    let error = PluginError::Failure("broke".to_string());
    assert_eq!(
        PipelineState::Running(1).advance(4, Err(error.clone())),
        PipelineState::Aborted(error)
    );
}

#[test]
fn a_state_without_a_stage_that_is_due_stays() {
    let error = PluginError::Io("x".to_string());
    assert_eq!(PipelineState::Completed.advance(3, Ok(())), PipelineState::Completed);
    assert_eq!(
        PipelineState::Completed.advance(3, Err(error.clone())),
        PipelineState::Completed
    );
    assert_eq!(
        PipelineState::Aborted(error.clone()).advance(3, Ok(())),
        PipelineState::Aborted(error)
    );
    assert_eq!(PipelineState::Idle.advance(3, Ok(())), PipelineState::Idle);
}

#[test]
fn only_a_running_state_has_a_stage_that_is_due() {
    assert_eq!(PipelineState::Running(2).next_stage(), Some(2));
    assert_eq!(PipelineState::Idle.next_stage(), None);
    assert_eq!(PipelineState::Completed.next_stage(), None);
    assert_eq!(PipelineState::Aborted(PluginError::Io("x".to_string())).next_stage(), None);
}

#[test]
fn plugin_error_message_names_the_reason() {
    assert_eq!(PluginError::Io("disk full".to_string()).message(), "input or output failed: disk full");
    assert_eq!(
        PluginError::MissingSetting("HOST".to_string()).message(),
        "the setting HOST must be set"
    );
    assert_eq!(PluginError::Failure("broke".to_string()).message(), "broke");
}
