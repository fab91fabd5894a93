use surveyor::normalize::DELIM_LEN;
use surveyor::pipeline::{
    pipeline_start, pipeline_step, PipelineAction, PipelineEvent, PipelineState, PlanOutcome,
    ProjectOutcome, StepFailure,
};
use surveyor::project::Project;

fn project() -> Project {
    Project {
        name: String::from("infra-a"),
        slack_webhook_url: String::from("https://hooks.example.com/services/abc"),
        git_repo_url: String::from("https://git.example.com/infra-a.git"),
        tmp_prj_directory: String::from("/tmp/infra-a"),
        aws_api_key: String::from("test-key"),
        aws_secret: String::from("test-secret"),
        aws_default_region: String::from("eu-west-1"),
    }
}

fn plan_text_with_preamble(body: &str) -> String {
    let d = "-".repeat(DELIM_LEN);
    format!("Refreshing Terraform state in-memory...{}{}{}", d, body, d)
}

#[test]
fn successful_run_walks_every_step_and_cleans_up() {
    let p = project();
    let (state, action) = pipeline_start(&p);
    match action {
        PipelineAction::CloneRepo { url, dest } => {
            assert_eq!(url, "https://git.example.com/infra-a.git");
            assert_eq!(dest, "/tmp/infra-a");
        }
        _ => panic!("expected a clone action first"),
    }

    let (state, action) = pipeline_step(&p, state, PipelineEvent::CloneFinished { ok: true });
    match action {
        PipelineAction::RunInit { command } => {
            assert_eq!(command.program, "terraform");
            assert_eq!(command.args, vec![String::from("init")]);
            assert_eq!(command.working_dir, "/tmp/infra-a");
            assert!(command.env.is_empty());
        }
        _ => panic!("expected the init step after a successful clone"),
    }

    let (state, action) = pipeline_step(&p, state, PipelineEvent::InitFinished);
    match action {
        PipelineAction::RunPlan { command } => {
            assert_eq!(command.program, "terraform");
            assert_eq!(command.args, vec![String::from("plan"), String::from("-no-color")]);
            assert_eq!(command.working_dir, "/tmp/infra-a");
            assert_eq!(command.env.len(), 3);
            assert_eq!(command.env[0].name, "AWS_ACCESS_KEY_ID");
            assert_eq!(command.env[0].value, "test-key");
            assert_eq!(command.env[1].name, "AWS_SECRET_ACCESS_KEY");
            assert_eq!(command.env[1].value, "test-secret");
            assert_eq!(command.env[2].name, "AWS_DEFAULT_REGION");
            assert_eq!(command.env[2].value, "eu-west-1");
        }
        _ => panic!("expected the plan step after init"),
    }

    let output = PlanOutcome::Text(plan_text_with_preamble("\nplan: 1 to add\n"));
    let (state, action) = pipeline_step(&p, state, PipelineEvent::PlanFinished { output });
    match action {
        PipelineAction::SendNotification { target, text } => {
            assert_eq!(target, "https://hooks.example.com/services/abc");
            assert_eq!(text, "\nplan: 1 to add\n");
        }
        _ => panic!("expected the notification after a well-formed plan"),
    }

    let (state, action) = pipeline_step(&p, state, PipelineEvent::NotifyFinished);
    match action {
        PipelineAction::RemoveCheckout { path } => assert_eq!(path, "/tmp/infra-a"),
        _ => panic!("expected cleanup after the notification"),
    }

    let (state, action) = pipeline_step(&p, state, PipelineEvent::CleanupFinished { ok: true });
    match action {
        PipelineAction::Report { outcome } => assert_eq!(outcome, ProjectOutcome::Succeeded),
        _ => panic!("expected the final report"),
    }
    assert_eq!(state, PipelineState::Finished { outcome: ProjectOutcome::Succeeded });
}

#[test]
fn clone_failure_reports_at_once_without_cleanup() {
    let p = project();
    let (state, _) = pipeline_start(&p);
    let (state, action) = pipeline_step(&p, state, PipelineEvent::CloneFinished { ok: false });
    match action {
        PipelineAction::Report { outcome } => {
            assert_eq!(outcome, ProjectOutcome::Failed(StepFailure::CloneFailed));
        }
        _ => panic!("a failed clone must end the pipeline at once, with no cleanup"),
    }
    assert_eq!(
        state,
        PipelineState::Finished { outcome: ProjectOutcome::Failed(StepFailure::CloneFailed) }
    );
}

#[test]
fn plan_tool_failure_still_cleans_up() {
    let p = project();
    let (state, _) = pipeline_start(&p);
    let (state, _) = pipeline_step(&p, state, PipelineEvent::CloneFinished { ok: true });
    let (state, _) = pipeline_step(&p, state, PipelineEvent::InitFinished);
    let (state, action) = pipeline_step(
        &p,
        state,
        PipelineEvent::PlanFinished { output: PlanOutcome::InvocationFailed },
    );
    match action {
        PipelineAction::RemoveCheckout { path } => assert_eq!(path, "/tmp/infra-a"),
        _ => panic!("cleanup must run even when the plan step failed"),
    }
    let (state, action) = pipeline_step(&p, state, PipelineEvent::CleanupFinished { ok: true });
    match action {
        PipelineAction::Report { outcome } => {
            assert_eq!(outcome, ProjectOutcome::Failed(StepFailure::PlanToolFailed));
        }
        _ => panic!("expected the final report"),
    }
    assert_eq!(
        state,
        PipelineState::Finished { outcome: ProjectOutcome::Failed(StepFailure::PlanToolFailed) }
    );
}

#[test]
fn plan_output_that_is_not_text_still_cleans_up() {
    let p = project();
    let (state, _) = pipeline_start(&p);
    let (state, _) = pipeline_step(&p, state, PipelineEvent::CloneFinished { ok: true });
    let (state, _) = pipeline_step(&p, state, PipelineEvent::InitFinished);
    let (state, action) =
        pipeline_step(&p, state, PipelineEvent::PlanFinished { output: PlanOutcome::NotText });
    assert!(matches!(action, PipelineAction::RemoveCheckout { .. }));
    let (_, action) = pipeline_step(&p, state, PipelineEvent::CleanupFinished { ok: true });
    match action {
        PipelineAction::Report { outcome } => {
            assert_eq!(outcome, ProjectOutcome::Failed(StepFailure::PlanOutputNotText));
        }
        _ => panic!("expected the final report"),
    }
}

#[test]
fn plan_without_two_delimiters_fails_normalize_and_cleans_up() {
    let p = project();
    let (state, _) = pipeline_start(&p);
    let (state, _) = pipeline_step(&p, state, PipelineEvent::CloneFinished { ok: true });
    let (state, _) = pipeline_step(&p, state, PipelineEvent::InitFinished);
    let output = PlanOutcome::Text(String::from("no delimiter anywhere"));
    let (state, action) = pipeline_step(&p, state, PipelineEvent::PlanFinished { output });
    assert!(matches!(action, PipelineAction::RemoveCheckout { .. }));
    let (_, action) = pipeline_step(&p, state, PipelineEvent::CleanupFinished { ok: true });
    match action {
        PipelineAction::Report { outcome } => {
            assert_eq!(outcome, ProjectOutcome::Failed(StepFailure::NormalizeFailed));
        }
        _ => panic!("expected the final report"),
    }
}

#[test]
fn cleanup_failure_is_reported_when_all_else_succeeded() {
    let p = project();
    let (state, _) = pipeline_start(&p);
    let (state, _) = pipeline_step(&p, state, PipelineEvent::CloneFinished { ok: true });
    let (state, _) = pipeline_step(&p, state, PipelineEvent::InitFinished);
    let output = PlanOutcome::Text(plan_text_with_preamble("body"));
    let (state, _) = pipeline_step(&p, state, PipelineEvent::PlanFinished { output });
    let (state, _) = pipeline_step(&p, state, PipelineEvent::NotifyFinished);
    let (_, action) = pipeline_step(&p, state, PipelineEvent::CleanupFinished { ok: false });
    match action {
        PipelineAction::Report { outcome } => {
            assert_eq!(outcome, ProjectOutcome::Failed(StepFailure::CleanupFailed));
        }
        _ => panic!("expected the final report"),
    }
}

#[test]
fn earlier_failure_outranks_a_cleanup_failure() {
    let p = project();
    let (state, _) = pipeline_start(&p);
    let (state, _) = pipeline_step(&p, state, PipelineEvent::CloneFinished { ok: true });
    let (state, _) = pipeline_step(&p, state, PipelineEvent::InitFinished);
    let (state, _) = pipeline_step(
        &p,
        state,
        PipelineEvent::PlanFinished { output: PlanOutcome::InvocationFailed },
    );
    let (_, action) = pipeline_step(&p, state, PipelineEvent::CleanupFinished { ok: false });
    match action {
        PipelineAction::Report { outcome } => {
            assert_eq!(outcome, ProjectOutcome::Failed(StepFailure::PlanToolFailed));
        }
        _ => panic!("expected the final report"),
    }
}
