use deepclaude::error::{ClientError, OrchestrationError, TransportKind};
use deepclaude::models::{ChatRequest, FinishReason, Message, Role, Stage, StageResult, TokenUsage};
use deepclaude::orchestrator::{Orchestrator, Phase, StageConfig, StreamEvent};
use deepclaude::pricing::{PricingEntry, PricingTable, StagePrice};

fn user_request(content: &str, stream: bool) -> ChatRequest {
    ChatRequest {
        messages: vec![Message { role: Role::User, content: content.to_string() }],
        stream,
        reasoning_model: None,
        completion_model: None,
    }
}

fn reasoning_config() -> StageConfig {
    StageConfig { provider: "reasonco".to_string(), model: "thinker-1".to_string() }
}

fn completion_config() -> StageConfig {
    StageConfig { provider: "answerco".to_string(), model: "writer-1".to_string() }
}

fn table() -> PricingTable {
    let mut t = PricingTable::new();
    t.push(PricingEntry {
        provider: "reasonco".to_string(),
        model: "thinker-1".to_string(),
        price: StagePrice { prompt_nanodollars: 2, completion_nanodollars: 3 },
    });
    t.push(PricingEntry {
        provider: "answerco".to_string(),
        model: "writer-1".to_string(),
        price: StagePrice { prompt_nanodollars: 5, completion_nanodollars: 7 },
    });
    t
}

#[test]
fn empty_request_is_invalid() {
    let req = ChatRequest {
        messages: vec![],
        stream: false,
        reasoning_model: None,
        completion_model: None,
    };
    let r = Orchestrator::new(req, &reasoning_config(), &completion_config());
    match r {
        Err(e) => assert_eq!(e, OrchestrationError::InvalidRequest),
        Ok(_) => panic!("an empty conversation must be rejected"),
    }
}

#[test]
fn buffered_two_stage_success() {
    let req = user_request("2+2?", false);
    let mut orch = Orchestrator::new(req, &reasoning_config(), &completion_config()).unwrap();

    let r_req = orch.start_reasoning();
    assert_eq!(r_req.model, "thinker-1");
    assert_eq!(r_req.messages.len(), 1);
    assert_eq!(r_req.messages[0].content, "2+2?");
    assert!(!r_req.stream);

    let c_req = orch.on_reasoning_success(StageResult {
        text: "Let me compute: 2+2=4".to_string(),
        finish_reason: FinishReason::Stop,
        usage: TokenUsage { prompt_tokens: 10, completion_tokens: 8 },
    });
    assert_eq!(c_req.model, "writer-1");
    assert_eq!(c_req.messages.len(), 2);
    assert_eq!(c_req.messages[0].content, "2+2?");
    assert_eq!(c_req.messages[1].content, "Let me compute: 2+2=4");
    assert!(matches!(c_req.messages[1].role, Role::System));

    let resp = orch
        .on_completion_success(
            StageResult {
                text: "4".to_string(),
                finish_reason: FinishReason::Stop,
                usage: TokenUsage { prompt_tokens: 20, completion_tokens: 2 },
            },
            &table(),
        )
        .unwrap();
    assert_eq!(resp.reasoning_content, "Let me compute: 2+2=4");
    assert_eq!(resp.final_content, "4");
    assert_eq!(resp.combined_usage.prompt_tokens, 30);
    assert_eq!(resp.combined_usage.completion_tokens, 10);
    // 10*2 + 8*3 + 20*5 + 2*7 nanodollars
    assert_eq!(resp.combined_cost, 20 + 24 + 100 + 14);
    assert_eq!(orch.phase, Phase::Done);
}

#[test]
fn usage_additivity_over_both_stages() {
    let req = user_request("sum it", false);
    let mut orch = Orchestrator::new(req, &reasoning_config(), &completion_config()).unwrap();
    let _ = orch.start_reasoning();
    let _ = orch.on_reasoning_success(StageResult {
        text: "trace".to_string(),
        finish_reason: FinishReason::Stop,
        usage: TokenUsage { prompt_tokens: 123, completion_tokens: 456 },
    });
    let resp = orch
        .on_completion_success(
            StageResult {
                text: "answer".to_string(),
                finish_reason: FinishReason::Stop,
                usage: TokenUsage { prompt_tokens: 1000, completion_tokens: 1 },
            },
            &table(),
        )
        .unwrap();
    assert_eq!(resp.combined_usage.prompt_tokens, 123 + 1000);
    assert_eq!(resp.combined_usage.completion_tokens, 456 + 1);
}

#[test]
fn reasoning_failure_never_reaches_completion_client() {
    let req = user_request("2+2?", false);
    let mut orch = Orchestrator::new(req, &reasoning_config(), &completion_config()).unwrap();
    let _ = orch.start_reasoning();

    // Test double for the completion-stage provider client: counts calls.
    let mut completion_calls: u32 = 0;

    // Drive the machine the way the surrounding program would: the
    // completion client runs only when a successful reasoning outcome
    // yields a completion-stage request.
    let reasoning_outcome: Result<StageResult, ClientError> =
        Err(ClientError::Transport(TransportKind::Timeout));
    let err = match reasoning_outcome {
        Ok(res) => {
            let _c_req = orch.on_reasoning_success(res);
            completion_calls += 1;
            panic!("the reasoning outcome was a failure");
        }
        Err(cause) => orch.fail_stage(cause),
    };
    assert_eq!(orch.phase, Phase::Failed(Stage::Reasoning));
    match err {
        OrchestrationError::Upstream { stage, cause, partial_usage } => {
            assert_eq!(stage, Stage::Reasoning);
            assert_eq!(cause, ClientError::Transport(TransportKind::Timeout));
            assert_eq!(partial_usage.prompt_tokens, 0);
            assert_eq!(partial_usage.completion_tokens, 0);
        }
        other => panic!("expected an upstream error, got {:?}", other),
    }
    assert_eq!(completion_calls, 0);
}

#[test]
fn completion_failure_keeps_reasoning_usage() {
    let req = user_request("2+2?", false);
    let mut orch = Orchestrator::new(req, &reasoning_config(), &completion_config()).unwrap();
    let _ = orch.start_reasoning();
    let _ = orch.on_reasoning_success(StageResult {
        text: "Let me compute: 2+2=4".to_string(),
        finish_reason: FinishReason::Stop,
        usage: TokenUsage { prompt_tokens: 10, completion_tokens: 8 },
    });
    let err = orch.fail_stage(ClientError::Decode);
    assert_eq!(orch.phase, Phase::Failed(Stage::Completion));
    match err {
        OrchestrationError::Upstream { stage, cause, partial_usage } => {
            assert_eq!(stage, Stage::Completion);
            assert_eq!(cause, ClientError::Decode);
            assert_eq!(partial_usage.prompt_tokens, 10);
            assert_eq!(partial_usage.completion_tokens, 8);
        }
        other => panic!("expected an upstream error, got {:?}", other),
    }
}

#[test]
fn unknown_pricing_fails_not_zero() {
    let req = user_request("2+2?", false);
    let unknown = StageConfig { provider: "nobody".to_string(), model: "missing".to_string() };
    let mut orch = Orchestrator::new(req, &unknown, &completion_config()).unwrap();
    let _ = orch.start_reasoning();
    let _ = orch.on_reasoning_success(StageResult {
        text: "trace".to_string(),
        finish_reason: FinishReason::Stop,
        usage: TokenUsage { prompt_tokens: 1, completion_tokens: 1 },
    });
    let r = orch.on_completion_success(
        StageResult {
            text: "4".to_string(),
            finish_reason: FinishReason::Stop,
            usage: TokenUsage { prompt_tokens: 1, completion_tokens: 1 },
        },
        &table(),
    );
    match r {
        Err(e) => assert_eq!(e, OrchestrationError::PricingNotFound),
        Ok(resp) => panic!("unknown pricing must not yield a cost, got {}", resp.combined_cost),
    }
}

#[test]
fn model_overrides_take_precedence() {
    let req = ChatRequest {
        messages: vec![Message { role: Role::User, content: "hi".to_string() }],
        stream: false,
        reasoning_model: Some("r-custom".to_string()),
        completion_model: Some("c-custom".to_string()),
    };
    let mut orch = Orchestrator::new(req, &reasoning_config(), &completion_config()).unwrap();
    let r_req = orch.start_reasoning();
    assert_eq!(r_req.model, "r-custom");
    let c_req = orch.on_reasoning_success(StageResult {
        text: "t".to_string(),
        finish_reason: FinishReason::Stop,
        usage: TokenUsage { prompt_tokens: 1, completion_tokens: 1 },
    });
    assert_eq!(c_req.model, "c-custom");
}

#[test]
fn streaming_two_stage_scenario() {
    let req = user_request("2+2?", true);
    let mut orch = Orchestrator::new(req, &reasoning_config(), &completion_config()).unwrap();
    let r_req = orch.start_reasoning();
    assert!(r_req.stream);

    let mut events: Vec<StreamEvent> = Vec::new();
    events.push(StreamEvent::Chunk(orch.on_stream_delta("Let me compute: ".to_string())));
    events.push(StreamEvent::Chunk(orch.on_stream_delta("2+2=4".to_string())));

    let c_req = orch.finish_reasoning_stream(TokenUsage { prompt_tokens: 10, completion_tokens: 8 });
    // The completion request carries the full streamed reasoning text.
    assert_eq!(c_req.messages[1].content, "Let me compute: 2+2=4");

    events.push(StreamEvent::Chunk(orch.on_stream_delta("4".to_string())));
    let summary = orch
        .finish_completion_stream(
            TokenUsage { prompt_tokens: 20, completion_tokens: 2 },
            &table(),
        )
        .unwrap();
    events.push(summary);

    // Chunk order: reasoning chunks first, then completion chunks, then the
    // terminal summary; each stage's deltas reconstruct that stage's text.
    let mut reasoning_text = String::new();
    let mut completion_text = String::new();
    let mut seen_completion = false;
    let mut seen_summary = false;
    for ev in &events {
        match ev {
            StreamEvent::Chunk(c) => {
                assert!(!seen_summary, "no chunk may follow the summary");
                match c.stage {
                    Stage::Reasoning => {
                        assert!(!seen_completion, "reasoning chunk after a completion chunk");
                        reasoning_text.push_str(&c.delta);
                    }
                    Stage::Completion => {
                        seen_completion = true;
                        completion_text.push_str(&c.delta);
                    }
                }
            }
            StreamEvent::Summary { usage, cost } => {
                seen_summary = true;
                assert_eq!(usage.prompt_tokens, 30);
                assert_eq!(usage.completion_tokens, 10);
                assert_eq!(*cost, 20 + 24 + 100 + 14);
            }
            StreamEvent::Failure(e) => panic!("unexpected failure event {:?}", e),
        }
    }
    assert!(seen_summary);
    assert_eq!(reasoning_text, "Let me compute: 2+2=4");
    assert_eq!(completion_text, "4");
    assert_eq!(orch.phase, Phase::Done);
}

#[test]
fn streaming_reasoning_failure_stops_the_request() {
    let req = user_request("2+2?", true);
    let mut orch = Orchestrator::new(req, &reasoning_config(), &completion_config()).unwrap();
    let _ = orch.start_reasoning();
    let _ = orch.on_stream_delta("Let me ".to_string());
    let err = orch.fail_stage(ClientError::Transport(TransportKind::Connection));
    assert_eq!(orch.phase, Phase::Failed(Stage::Reasoning));
    match err {
        OrchestrationError::Upstream { stage, partial_usage, .. } => {
            assert_eq!(stage, Stage::Reasoning);
            assert_eq!(partial_usage.prompt_tokens, 0);
        }
        other => panic!("expected an upstream error, got {:?}", other),
    }
}
