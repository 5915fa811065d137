use aipack::agent::{Agent, PartKind, PromptPart};
use aipack::config::AgentOptions;
use aipack::flow::{
    on_chat_done, on_data_evaluated, on_output_evaluated, on_part_rendered, task_start,
    ChatResponseData, DryMode, ModelIden, PublishEvent, RecEvent, RunAgentInputResponse,
    RunBaseOptions, RunError, Stage, TaskAction, TaskSetup,
};
use aipack::pricing::Usage;
use aipack::value::DataValue;

fn obj(fields: Vec<(&str, DataValue)>) -> DataValue {
    DataValue::Obj(
        fields
            .into_iter()
            .map(|(k, v)| (k.to_string(), v))
            .collect(),
    )
}

fn s(text: &str) -> DataValue {
    DataValue::Str(text.to_string())
}

fn marker(kind: &str, data: Option<DataValue>) -> DataValue {
    let mut inner = vec![("kind", s(kind))];
    if let Some(d) = data {
        inner.push(("data", d));
    }
    obj(vec![("_aipack_", obj(inner))])
}

fn base_agent(
    model: Option<&str>,
    parts: Vec<PromptPart>,
    data_script: Option<&str>,
    output_script: Option<&str>,
) -> Agent {
    let options = match model {
        Some(m) => AgentOptions::new(m.to_string()),
        None => AgentOptions::default(),
    };
    Agent {
        name: "test-agent".to_string(),
        file_dir: "./agents".to_string(),
        options,
        prompt_parts: parts,
        data_script: data_script.map(|t| t.to_string()),
        output_script: output_script.map(|t| t.to_string()),
    }
}

fn setup_for(agent: Agent, input: DataValue, dry_mode: DryMode) -> TaskSetup {
    TaskSetup {
        agent,
        before_all_result: DataValue::Null,
        label: "input-01".to_string(),
        input,
        run_base_options: RunBaseOptions { verbose: false, dry_mode },
    }
}

fn chat_response(text: &str) -> ChatResponseData {
    ChatResponseData {
        content_texts: vec![text.to_string()],
        reasoning_content: None,
        usage: Usage {
            prompt_tokens: Some(10),
            completion_tokens: Some(5),
            ..Default::default()
        },
        model_iden: ModelIden {
            adapter_kind: "OpenAI".to_string(),
            model_name: "gpt-4o-mini".to_string(),
        },
        provider_model_iden: ModelIden {
            adapter_kind: "OpenAI".to_string(),
            model_name: "gpt-4o-mini-2024".to_string(),
        },
    }
}

/// Skip is spend-free: a Data-stage Skip ends the task with no output
/// and the chat client is never asked for anything.
#[test]
fn test_skip_is_spend_free() {
    let agent = base_agent(
        Some("gpt-4o-mini"),
        vec![PromptPart::new(PartKind::User, "Hello".to_string(), None)],
        Some("return skip".into()),
        None,
    );
    let setup = setup_for(agent, s("one"), DryMode::Off);
    let step = task_start(setup);
    assert!(matches!(step.action, TaskAction::EvalScript { stage: Stage::Data, .. }));

    let skip = marker(
        "Skip",
        Some(obj(vec![("reason", s("Some reason"))])),
    );
    let step = on_data_evaluated(step.flow, Ok(skip)).expect("skip should not be an error");
    // the task is over, with no output and no chat request ever issued
    assert!(matches!(step.action, TaskAction::Done(None)));
    // the Data stage end fires before the skip log
    assert!(matches!(step.recs[0], RecEvent::StageEnd(Stage::Data)));
    match &step.recs[1] {
        RecEvent::Log(text, _) => {
            assert_eq!(text, "Aipack Skip input at Data stage: input-01 (Reason: Some reason)");
        }
        other => panic!("expected skip log, got {other:?}"),
    }
}

/// Empty prompt means no chat call: whitespace-only parts produce no
/// messages, and the Output stage sees a null chat response.
#[test]
fn test_empty_prompt_no_chat_call() {
    let agent = base_agent(
        Some("gpt-4o-mini"),
        vec![PromptPart::new(PartKind::User, "   ".to_string(), None)],
        None,
        Some("return {}".into()),
    );
    let setup = setup_for(agent, s("one"), DryMode::Off);
    let step = task_start(setup);
    let template = match &step.action {
        TaskAction::RenderPart { template, .. } => template.clone(),
        other => panic!("expected a render action, got {other:?}"),
    };
    let step = on_part_rendered(step.flow, Ok(template)).expect("render result should pass");
    // no chat: straight to the Output stage, whose scope has a null ai_response
    match &step.action {
        TaskAction::EvalScript { stage: Stage::Output, scope, .. } => {
            let ai = scope
                .iter()
                .find(|(k, _)| k == "ai_response")
                .expect("scope should carry ai_response");
            assert_eq!(ai.1, DataValue::Null);
        }
        other => panic!("expected the output stage, got {other:?}"),
    }
    assert!(step
        .recs
        .iter()
        .any(|r| matches!(r, RecEvent::Publish(PublishEvent::NoInstruction))));
}

/// An option override applies only to the flow that received it: a
/// sibling task started from an equal agent still resolves the
/// original model.
#[test]
fn test_option_override_affects_only_current_input() {
    let make_agent = || {
        base_agent(
            Some("gpt-4o-mini"),
            vec![],
            Some("return data_response".into()),
            None,
        )
    };
    let setup_a = setup_for(make_agent(), s("a"), DryMode::Req);
    let setup_b = setup_for(make_agent(), s("b"), DryMode::Req);

    let step_a = task_start(setup_a);
    let override_value = marker(
        "DataResponse",
        Some(obj(vec![(
            "options",
            obj(vec![("model", s("another-model"))]),
        )])),
    );
    let step_a = on_data_evaluated(step_a.flow, Ok(override_value)).expect("override should pass");
    assert_eq!(
        step_a.flow.agent.options.resolve_model().map(|m| m.as_str()),
        Some("another-model")
    );

    // sibling input B still sees the original resolved model
    let step_b = task_start(setup_b);
    assert_eq!(
        step_b.flow.agent.options.resolve_model().map(|m| m.as_str()),
        Some("gpt-4o-mini")
    );
}

/// Dry-run symmetry: both modes yield no output, but only the
/// post-response mode issues the chat request.
#[test]
fn test_dry_run_symmetry() {
    let part = || PromptPart::new(PartKind::User, "Say hi".to_string(), None);

    // stop before the request: no chat action is ever produced
    let agent = base_agent(Some("gpt-4o-mini"), vec![part()], None, None);
    let setup = setup_for(agent, s("one"), DryMode::Req);
    let step = task_start(setup);
    let template = match &step.action {
        TaskAction::RenderPart { template, .. } => template.clone(),
        other => panic!("expected a render action, got {other:?}"),
    };
    let step = on_part_rendered(step.flow, Ok(template)).expect("render result should pass");
    assert!(matches!(step.action, TaskAction::Done(None)), "pre-request mode: no chat");

    // stop after the response: the chat request is issued, output still none
    let agent = base_agent(Some("gpt-4o-mini"), vec![part()], None, None);
    let setup = setup_for(agent, s("one"), DryMode::Res);
    let step = task_start(setup);
    let template = match &step.action {
        TaskAction::RenderPart { template, .. } => template.clone(),
        other => panic!("expected a render action, got {other:?}"),
    };
    let step = on_part_rendered(step.flow, Ok(template)).expect("render result should pass");
    assert!(
        matches!(step.action, TaskAction::ExecChat { .. }),
        "post-response mode: the chat request is issued"
    );
    let step = on_chat_done(step.flow, Ok(chat_response("hi")), 1200)
        .expect("chat result should pass");
    assert!(matches!(step.action, TaskAction::Done(None)), "post-response mode: no output");
}

/// End-to-end: a Data-stage override replaces input and data, and the
/// Output script sees exactly those values.
#[test]
fn test_data_response_full_override() {
    let agent = base_agent(
        None,
        vec![],
        Some("return data_response".into()),
        Some("return {input = input, data = data}".into()),
    );
    let setup = setup_for(agent, s("./some-random/file.txt"), DryMode::Off);
    let step = task_start(setup);

    let override_value = marker(
        "DataResponse",
        Some(obj(vec![
            ("data", s("hello")),
            ("input", s("new input")),
            ("options", obj(vec![("model", s("another-model"))])),
        ])),
    );
    let step = on_data_evaluated(step.flow, Ok(override_value)).expect("override should pass");

    // the model override is recorded for observability
    assert!(step.recs.iter().any(|r| match r {
        RecEvent::ModelOverride(m) => m == "another-model",
        _ => false,
    }));

    // no prompt parts: the Output stage runs next; play the script on its scope
    let scope = match &step.action {
        TaskAction::EvalScript { stage: Stage::Output, scope, .. } => scope,
        other => panic!("expected the output stage, got {other:?}"),
    };
    let scope_get = |key: &str| -> DataValue {
        let found = scope.iter().find(|(k, _)| k == key).expect("scope key should exist");
        found.1.deep_clone()
    };
    let output = obj(vec![
        ("input", scope_get("input")),
        ("data", scope_get("data")),
    ]);
    let step = on_output_evaluated(step.flow, Ok(output)).expect("output should pass");

    match step.action {
        TaskAction::Done(Some(RunAgentInputResponse::OutputResponse(doc))) => {
            assert_eq!(doc.get("data"), Some(&s("hello")));
            assert_eq!(doc.get("input"), Some(&s("new input")));
        }
        other => panic!("expected an output document, got {other:?}"),
    }
}

/// A full chat round: accounting records, the exact info line, and the
/// response as the task's output.
#[test]
fn test_chat_accounting_round() {
    let agent = base_agent(
        Some("gpt-4o-mini"),
        vec![PromptPart::new(PartKind::User, "Say hi".to_string(), None)],
        None,
        None,
    );
    let setup = setup_for(agent, s("one"), DryMode::Off);
    let step = task_start(setup);
    let template = match &step.action {
        TaskAction::RenderPart { template, .. } => template.clone(),
        other => panic!("expected a render action, got {other:?}"),
    };
    let step = on_part_rendered(step.flow, Ok(template)).expect("render result should pass");
    let (model, messages) = match &step.action {
        TaskAction::ExecChat { model, messages, .. } => (model.clone(), messages),
        other => panic!("expected the chat request, got {other:?}"),
    };
    assert_eq!(model, "gpt-4o-mini");
    assert_eq!(messages.len(), 1);
    assert_eq!(messages[0].content, "Say hi");

    let step = on_chat_done(step.flow, Ok(chat_response("hi there")), 1234)
        .expect("chat result should pass");
    assert!(matches!(step.recs[0], RecEvent::StageEnd(Stage::Ai)));
    // price: 10 * 0.15/M + 5 * 0.6/M = 0.0000045 -> rounds to 0.0000 (0 e4-units)
    assert!(matches!(step.recs[1], RecEvent::Cost(0)));
    match &step.action {
        TaskAction::Done(Some(RunAgentInputResponse::AiReponse(a))) => {
            assert_eq!(a.content.as_deref(), Some("hi there"));
            assert_eq!(a.model_name, "gpt-4o-mini");
            assert_eq!(a.duration_ms, 1234);
            assert_eq!(
                a.info,
                "Duration: 1.234s | ~$0 | Prompt Tokens: 10 | Completion Tokens: 5 \
                 | Model: gpt-4o-mini (gpt-4o-mini-2024) | Adapter: OpenAI"
            );
        }
        other => panic!("expected the chat response as output, got {other:?}"),
    }
}

/// Round-trip of inline part options: the options line is rendered with
/// the template, then re-extracted; the body keeps none of it.
#[test]
fn test_round_trip_inline_part_options() {
    let part = PromptPart::new(
        PartKind::System,
        "Be brief".to_string(),
        Some("cache = {{flag}}".to_string()),
    );
    let agent = base_agent(Some("gpt-4o-mini"), vec![part], None, None);
    let setup = setup_for(agent, s("one"), DryMode::Off);
    let step = task_start(setup);
    let template = match &step.action {
        TaskAction::RenderPart { template, .. } => template.clone(),
        other => panic!("expected a render action, got {other:?}"),
    };
    assert_eq!(template, "cache = {{flag}}\nBe brief");

    // play the template renderer: resolve the variable
    let rendered = template.replace("{{flag}}", "true");
    let step = on_part_rendered(step.flow, Ok(rendered)).expect("render result should pass");
    match &step.action {
        TaskAction::ExecChat { messages, .. } => {
            assert_eq!(messages.len(), 1);
            assert_eq!(messages[0].content, "Be brief", "the options line must be stripped");
            assert!(messages[0].cache, "the resolved cache hint must be attached");
        }
        other => panic!("expected the chat request, got {other:?}"),
    }
}

/// A control signal at the Output stage is a hard error.
#[test]
fn test_output_stage_rejects_signals() {
    let agent = base_agent(None, vec![], None, Some("return skip".into()));
    let setup = setup_for(agent, s("one"), DryMode::Off);
    let step = task_start(setup);
    assert!(matches!(step.action, TaskAction::EvalScript { stage: Stage::Output, .. }));

    let skip = marker("Skip", None);
    let err = on_output_evaluated(step.flow, Ok(skip)).expect_err("skip at output is an error");
    match err {
        aipack::flow::RunError::UnsupportedSignal { name } => assert_eq!(name, "Skip"),
        other => panic!("expected an unsupported-signal error, got {other:?}"),
    }
}

/// Each fatal error carries its stage and context.
#[test]
fn test_error_variants() {
    // a failing Data script
    let agent = base_agent(None, vec![], Some("boom".into()), None);
    let step = task_start(setup_for(agent, s("x"), DryMode::Off));
    let err = on_data_evaluated(step.flow, Err("syntax error".to_string()))
        .expect_err("a script failure is fatal");
    match err {
        RunError::Script { stage, error, .. } => {
            assert!(matches!(stage, Stage::Data));
            assert_eq!(error, "syntax error");
        }
        other => panic!("expected a script error, got {other:?}"),
    }

    // a malformed control marker
    let agent = base_agent(None, vec![], Some("boom".into()), None);
    let step = task_start(setup_for(agent, s("x"), DryMode::Off));
    let malformed = obj(vec![("_aipack_", s("Skip"))]);
    let err = on_data_evaluated(step.flow, Ok(malformed))
        .expect_err("a malformed marker is fatal");
    assert!(matches!(err, RunError::MalformedSignal { stage: Stage::Data }));

    // an options override that does not parse
    let agent = base_agent(None, vec![], Some("boom".into()), None);
    let step = task_start(setup_for(agent, s("x"), DryMode::Off));
    let bad_override = marker(
        "DataResponse",
        Some(obj(vec![("options", obj(vec![("model", DataValue::Bool(true))]))])),
    );
    let err = on_data_evaluated(step.flow, Ok(bad_override))
        .expect_err("a bad override is fatal");
    assert!(matches!(err, RunError::BadOptionsOverride));

    // a signal kind no stage supports
    let agent = base_agent(None, vec![], Some("boom".into()), None);
    let step = task_start(setup_for(agent, s("x"), DryMode::Off));
    let err = on_data_evaluated(step.flow, Ok(marker("BeforeAllResponse", None)))
        .expect_err("an unknown signal is fatal");
    match err {
        RunError::UnsupportedSignal { name } => assert_eq!(name, "BeforeAllResponse"),
        other => panic!("expected an unsupported-signal error, got {other:?}"),
    }

    // a failing render, with the part's index
    let agent = base_agent(
        None,
        vec![PromptPart::new(PartKind::User, "{{broken".to_string(), None)],
        None,
        None,
    );
    let step = task_start(setup_for(agent, s("x"), DryMode::Off));
    let err = on_part_rendered(step.flow, Err("unclosed template expression".to_string()))
        .expect_err("a render failure is fatal");
    match err {
        RunError::Render { part_idx, error } => {
            assert_eq!(part_idx, 0);
            assert_eq!(error, "unclosed template expression");
        }
        other => panic!("expected a render error, got {other:?}"),
    }

    // an unparseable inline options directive, with the part's index
    let part = PromptPart::new(
        PartKind::User,
        "body".to_string(),
        Some("cache = maybe".to_string()),
    );
    let agent = base_agent(None, vec![part], None, None);
    let step = task_start(setup_for(agent, s("x"), DryMode::Off));
    let err = on_part_rendered(step.flow, Ok("cache = maybe\nbody".to_string()))
        .expect_err("an unparseable directive is fatal");
    assert!(matches!(err, RunError::PartOptions { part_idx: 0 }));

    // a provider failure is passed on untouched
    let agent = base_agent(
        Some("gpt-4o-mini"),
        vec![PromptPart::new(PartKind::User, "hi".to_string(), None)],
        None,
        None,
    );
    let step = task_start(setup_for(agent, s("x"), DryMode::Off));
    let template = match &step.action {
        TaskAction::RenderPart { template, .. } => template.clone(),
        other => panic!("expected a render action, got {other:?}"),
    };
    let step = on_part_rendered(step.flow, Ok(template)).expect("render result should pass");
    let err = on_chat_done(step.flow, Err("connection refused".to_string()), 10)
        .expect_err("a provider failure is fatal");
    match err {
        RunError::Chat { error } => assert_eq!(error, "connection refused"),
        other => panic!("expected a chat error, got {other:?}"),
    }
}
