use std::path::PathBuf;

use candle_core::Device;
use text_model::Action;
use text_model::Assembly;
use text_model::Attachment;
use text_model::BuildError;
use text_model::DefaultSchedulerMethod;
use text_model::DeviceMapping;
use text_model::Engine;
use text_model::Event;
use text_model::IsqOrganization;
use text_model::ModelDType;
use text_model::PositiveUsize;
use text_model::RuntimeRequest;
use text_model::SchedulerConfig;
use text_model::TextModelBuilder;
use text_model::TokenSource;

struct Plain;

impl Engine for Plain {
    type Topology = u32;
    type LoaderType = &'static str;
    type IsqType = u8;
    type DeviceMapSetting = &'static str;
    type EmbeddingModel = &'static str;
    type SearchCallback = fn(&str) -> usize;
    type ToolCallback = fn(&str) -> String;
    type Tool = String;
    type McpClientConfig = String;
    type PagedAttentionConfig = u16;
    type CacheConfig = u64;
}

fn shout(args: &str) -> String {
    args.to_uppercase()
}

fn whisper(args: &str) -> String {
    args.to_lowercase()
}

fn count(query: &str) -> usize {
    query.len()
}

fn fixed_limit(request: &RuntimeRequest<Plain>) -> Option<usize> {
    match &request.scheduler {
        SchedulerConfig::DefaultScheduler { method: DefaultSchedulerMethod::Fixed(n) } => {
            Some(n.get())
        }
        SchedulerConfig::PagedAttentionMeta { .. } => None,
    }
}

/// Runs an assembly up to the point where the model is loaded.
fn loaded(b: TextModelBuilder<Plain>) -> Assembly<Plain> {
    let plan = match b.build() {
        Ok(plan) => plan,
        Err(_) => panic!("expected a plan"),
    };
    let (stage, action) = plan.begin();
    let (stage, action) = match action {
        Action::InitLogging => stage.step(Event::Completed),
        other => (stage, other),
    };
    assert!(matches!(action, Action::BuildLoader(_)));
    let (stage, action) = stage.step(Event::Completed);
    assert!(matches!(action, Action::LoadModel(_)));
    stage
}

#[test]
fn scenario_no_paged_attn_max_seqs_8_is_fixed_8() {
    let b = TextModelBuilder::<Plain>::new("m").with_max_num_seqs(8);
    let (stage, action) = loaded(b).step(Event::Completed);
    assert!(matches!(stage, Assembly::AwaitRuntime));
    match action {
        Action::BuildRuntime(request) => assert_eq!(fixed_limit(&request), Some(8)),
        _ => panic!("expected the runtime to be built"),
    }
}

#[test]
fn scenario_paged_attn_unsupported_is_fixed_and_carries_no_setting() {
    let b = TextModelBuilder::<Plain>::new("m")
        .with_paged_attn(false, || Ok(7))
        .unwrap();
    assert_eq!(b.paged_attn_cfg, None);
    let plan = match b.build() {
        Ok(plan) => plan,
        Err(_) => panic!("expected a plan"),
    };
    assert_eq!(plan.load.paged_attn_cfg, None);
    assert!(!plan.runtime.paged_attn_requested);
    let (stage, _) = plan.begin();
    let (stage, _) = stage.step(Event::Completed);
    let (stage, action) = stage.step(Event::Completed);
    assert!(matches!(stage, Assembly::AwaitRuntime));
    match action {
        Action::BuildRuntime(request) => assert_eq!(fixed_limit(&request), Some(32)),
        _ => panic!("expected the runtime to be built"),
    }
}

#[test]
fn unsupported_paged_attn_never_asks_for_the_cache_config() {
    let b = TextModelBuilder::<Plain>::new("m")
        .with_max_num_seqs(5)
        .with_paged_attn(false, || Ok(7))
        .unwrap();
    let (_, action) = loaded(b).step(Event::Completed);
    match action {
        Action::BuildRuntime(request) => assert_eq!(fixed_limit(&request), Some(5)),
        _ => panic!("expected the runtime to be built"),
    }
}

#[test]
fn confirmed_paged_attn_is_the_paged_scheduler() {
    let b = TextModelBuilder::<Plain>::new("m")
        .with_max_num_seqs(12)
        .with_paged_attn(true, || Ok(7))
        .unwrap();
    let (stage, action) = loaded(b).step(Event::Completed);
    assert!(matches!(action, Action::QueryCacheConfig));
    let (stage, action) = stage.step(Event::CacheConfig(Some(4096)));
    assert!(matches!(stage, Assembly::AwaitRuntime));
    match action {
        Action::BuildRuntime(request) => assert!(matches!(
            request.scheduler,
            SchedulerConfig::PagedAttentionMeta { max_num_seqs: 12, config: 4096 }
        )),
        _ => panic!("expected the runtime to be built"),
    }
}

#[test]
fn unconfirmed_paged_attn_falls_back_to_fixed() {
    let b = TextModelBuilder::<Plain>::new("m")
        .with_max_num_seqs(12)
        .with_paged_attn(true, || Ok(7))
        .unwrap();
    let (stage, action) = loaded(b).step(Event::Completed);
    assert!(matches!(action, Action::QueryCacheConfig));
    let (_, action) = stage.step(Event::CacheConfig(None));
    match action {
        Action::BuildRuntime(request) => assert_eq!(fixed_limit(&request), Some(12)),
        _ => panic!("expected the runtime to be built"),
    }
}

#[test]
fn paged_scheduler_takes_limit_zero() {
    let b = TextModelBuilder::<Plain>::new("m")
        .with_max_num_seqs(0)
        .with_paged_attn(true, || Ok(7))
        .unwrap();
    let (stage, _) = loaded(b).step(Event::Completed);
    let (_, action) = stage.step(Event::CacheConfig(Some(1)));
    match action {
        Action::BuildRuntime(request) => assert!(matches!(
            request.scheduler,
            SchedulerConfig::PagedAttentionMeta { max_num_seqs: 0, config: 1 }
        )),
        _ => panic!("expected the runtime to be built"),
    }
}

#[test]
fn fixed_scheduler_with_limit_zero_aborts() {
    let b = TextModelBuilder::<Plain>::new("m").with_max_num_seqs(0);
    let (stage, action) = loaded(b).step(Event::Completed);
    assert!(matches!(stage, Assembly::Failed));
    assert!(matches!(action, Action::Abort(BuildError::MaxNumSeqs)));
}

#[test]
fn failed_loader_aborts_without_loading() {
    let plan = match TextModelBuilder::<Plain>::new("m").with_loader_type("unknown").build() {
        Ok(plan) => plan,
        Err(_) => panic!("expected a plan"),
    };
    let (stage, action) = plan.begin();
    match action {
        Action::BuildLoader(request) => assert_eq!(request.loader_type, Some("unknown")),
        _ => panic!("expected the loader to be built"),
    }
    let (stage, action) = stage.step(Event::Failed(anyhow::Error::msg("no such loader")));
    assert!(matches!(stage, Assembly::Failed));
    match action {
        Action::Abort(BuildError::Loader(e)) => assert_eq!(e.to_string(), "no such loader"),
        _ => panic!("expected the loader's error"),
    }
    let (stage, action) = stage.step(Event::Completed);
    assert!(matches!(stage, Assembly::Failed));
    assert!(matches!(action, Action::Abort(BuildError::UnexpectedEvent)));
    let (stage, action) = stage.step(Event::CacheConfig(Some(1)));
    assert!(matches!(stage, Assembly::Failed));
    assert!(matches!(action, Action::Abort(BuildError::UnexpectedEvent)));
}

#[test]
fn failed_load_aborts_with_the_load_error() {
    let plan = match TextModelBuilder::<Plain>::new("m").build() {
        Ok(plan) => plan,
        Err(_) => panic!("expected a plan"),
    };
    let (stage, _) = plan.begin();
    let (stage, _) = stage.step(Event::Completed);
    let (stage, action) = stage.step(Event::Failed(anyhow::Error::msg("out of memory")));
    assert!(matches!(stage, Assembly::Failed));
    match action {
        Action::Abort(BuildError::Load(e)) => assert_eq!(e.to_string(), "out of memory"),
        _ => panic!("expected the load error"),
    }
}

#[test]
fn failed_runtime_aborts_with_the_runtime_error() {
    let (stage, _) = loaded(TextModelBuilder::<Plain>::new("m")).step(Event::Completed);
    let (stage, action) = stage.step(Event::Failed(anyhow::Error::msg("engine stopped")));
    assert!(matches!(stage, Assembly::Failed));
    match action {
        Action::Abort(BuildError::Runtime(e)) => assert_eq!(e.to_string(), "engine stopped"),
        _ => panic!("expected the runtime error"),
    }
}

#[test]
fn completed_runtime_finishes() {
    let (stage, _) = loaded(TextModelBuilder::<Plain>::new("m")).step(Event::Completed);
    let (stage, action) = stage.step(Event::Completed);
    assert!(matches!(stage, Assembly::Done));
    assert!(matches!(action, Action::Finish));
    let (stage, action) = stage.step(Event::Completed);
    assert!(matches!(stage, Assembly::Failed));
    assert!(matches!(action, Action::Abort(BuildError::UnexpectedEvent)));
}

#[test]
fn logging_is_initialized_first_where_asked_for() {
    let plan = match TextModelBuilder::<Plain>::new("m").with_logging().build() {
        Ok(plan) => plan,
        Err(_) => panic!("expected a plan"),
    };
    assert!(plan.init_logging);
    assert!(!plan.load.silent);
    let (stage, action) = plan.begin();
    assert!(matches!(stage, Assembly::AwaitLogging { .. }));
    assert!(matches!(action, Action::InitLogging));
    let (stage, action) = stage.step(Event::Completed);
    assert!(matches!(stage, Assembly::AwaitLoader { .. }));
    assert!(matches!(action, Action::BuildLoader(_)));
}

#[test]
fn without_logging_the_loader_comes_first_and_loading_is_silent() {
    let plan = match TextModelBuilder::<Plain>::new("m").build() {
        Ok(plan) => plan,
        Err(_) => panic!("expected a plan"),
    };
    assert!(!plan.init_logging);
    assert!(plan.load.silent);
    let (stage, action) = plan.begin();
    assert!(matches!(stage, Assembly::AwaitLoader { .. }));
    assert!(matches!(action, Action::BuildLoader(_)));
}

#[test]
fn unexpected_events_abort() {
    let plan = match TextModelBuilder::<Plain>::new("m").with_logging().build() {
        Ok(plan) => plan,
        Err(_) => panic!("expected a plan"),
    };
    let (stage, _) = plan.begin();
    let (stage, action) = stage.step(Event::Failed(anyhow::Error::msg("logging")));
    assert!(matches!(stage, Assembly::Failed));
    assert!(matches!(action, Action::Abort(BuildError::UnexpectedEvent)));

    let plan = match TextModelBuilder::<Plain>::new("m").build() {
        Ok(plan) => plan,
        Err(_) => panic!("expected a plan"),
    };
    let (stage, _) = plan.begin();
    let (stage, action) = stage.step(Event::CacheConfig(None));
    assert!(matches!(stage, Assembly::Failed));
    assert!(matches!(action, Action::Abort(BuildError::UnexpectedEvent)));

    let (stage, action) = loaded(TextModelBuilder::<Plain>::new("m")).step(Event::CacheConfig(Some(3)));
    assert!(matches!(stage, Assembly::Failed));
    assert!(matches!(action, Action::Abort(BuildError::UnexpectedEvent)));

    let b = TextModelBuilder::<Plain>::new("m").with_paged_attn(true, || Ok(1)).unwrap();
    let (stage, _) = loaded(b).step(Event::Completed);
    let (stage, action) = stage.step(Event::Completed);
    assert!(matches!(stage, Assembly::Failed));
    assert!(matches!(action, Action::Abort(BuildError::UnexpectedEvent)));
}

#[test]
fn loader_request_carries_the_loader_facing_configuration() {
    let plan = match TextModelBuilder::<Plain>::new("org/model")
        .with_prompt_chunksize(PositiveUsize::new(256).unwrap())
        .with_topology(9)
        .with_mixture_qexperts_isq()
        .write_uqff(PathBuf::from("out.uqff"))
        .from_uqff(vec![PathBuf::from("in.uqff")])
        .with_imatrix(PathBuf::from("i"))
        .with_calibration_file(PathBuf::from("c"))
        .from_hf_cache_pathf(PathBuf::from("/cache"))
        .with_chat_template("chat")
        .with_tokenizer_json("tok.json")
        .with_no_kv_cache()
        .with_jinja_explicit("x.jinja".to_string())
        .with_loader_type("mistral")
        .build()
    {
        Ok(plan) => plan,
        Err(_) => panic!("expected a plan"),
    };
    let l = plan.loader;
    assert_eq!(l.config.prompt_chunksize.map(|p| p.get()), Some(256));
    assert_eq!(l.config.topology, Some(9));
    assert_eq!(l.config.organization, IsqOrganization::MoeExpertsOnly);
    assert_eq!(l.config.write_uqff, Some(PathBuf::from("out.uqff")));
    assert_eq!(l.config.from_uqff, Some(vec![PathBuf::from("in.uqff")]));
    assert_eq!(l.config.imatrix, Some(PathBuf::from("i")));
    assert_eq!(l.config.calibration_file, Some(PathBuf::from("c")));
    assert_eq!(l.config.hf_cache_path, Some(PathBuf::from("/cache")));
    assert_eq!(l.chat_template, Some("chat".to_string()));
    assert_eq!(l.tokenizer_json, Some("tok.json".to_string()));
    assert_eq!(l.model_id, Some("org/model".to_string()));
    assert!(l.no_kv_cache);
    assert_eq!(l.jinja_explicit, Some("x.jinja".to_string()));
    assert_eq!(l.loader_type, Some("mistral"));
    assert!(plan.runtime.no_kv_cache);
}

#[test]
fn load_request_carries_the_resolved_settings() {
    let plan = match TextModelBuilder::<Plain>::new("m")
        .with_hf_revision("rev")
        .with_token_source(TokenSource::Literal("secret".to_string()))
        .with_dtype(ModelDType::F32)
        .with_device(Device::Cpu)
        .with_device_mapping("layers 0-15 on gpu 0")
        .with_isq(8)
        .with_paged_attn(true, || Ok(3))
        .unwrap()
        .build()
    {
        Ok(plan) => plan,
        Err(_) => panic!("expected a plan"),
    };
    let l = plan.load;
    assert_eq!(l.revision, Some("rev".to_string()));
    assert_eq!(l.token_source, TokenSource::Literal("secret".to_string()));
    assert_eq!(l.dtype, ModelDType::F32);
    assert!(l.device.is_cpu());
    assert!(l.silent);
    assert!(matches!(l.device_mapping, DeviceMapping::Explicit("layers 0-15 on gpu 0")));
    assert_eq!(l.isq, Some(8));
    assert_eq!(l.paged_attn_cfg, Some(3));
    assert!(plan.runtime.paged_attn_requested);
}

#[test]
fn device_mapping_defaults_to_automatic_for_text() {
    let plan = match TextModelBuilder::<Plain>::new("m").build() {
        Ok(plan) => plan,
        Err(_) => panic!("expected a plan"),
    };
    assert!(matches!(plan.load.device_mapping, DeviceMapping::AutoText));
    assert_eq!(plan.load.token_source, TokenSource::CacheToken);
    assert_eq!(plan.load.dtype, ModelDType::Auto);
    assert_eq!(plan.load.revision, None);
}

#[test]
fn forced_cpu_loads_onto_the_cpu() {
    let plan = match TextModelBuilder::<Plain>::new("m").with_force_cpu().build() {
        Ok(plan) => plan,
        Err(_) => panic!("expected a plan"),
    };
    assert!(plan.load.device.is_cpu());
}

#[test]
fn attachments_come_in_the_order_of_registration() {
    let b = TextModelBuilder::<Plain>::new("m")
        .with_mcp_client("server".to_string())
        .with_tool_callback_and_tool("defined", whisper, "a definition".to_string())
        .with_tool_callback("second", whisper)
        .with_tool_callback("first", shout)
        .with_tool_callback("second", shout)
        .with_search_callback(count);
    let (_, action) = loaded(b).step(Event::Completed);
    let request = match action {
        Action::BuildRuntime(request) => request,
        _ => panic!("expected the runtime to be built"),
    };
    let a = request.attachments;
    assert_eq!(a.len(), 5);
    match &a[0] {
        Attachment::SearchCallback(f) => assert_eq!(f("abc"), 3),
        _ => panic!("expected the search callback first"),
    }
    match &a[1] {
        Attachment::ToolCallback { name, callback } => {
            assert_eq!(name, "second");
            assert_eq!(callback("x"), "X");
        }
        _ => panic!("expected a plain tool callback"),
    }
    match &a[2] {
        Attachment::ToolCallback { name, callback } => {
            assert_eq!(name, "first");
            assert_eq!(callback("x"), "X");
        }
        _ => panic!("expected a plain tool callback"),
    }
    match &a[3] {
        Attachment::ToolCallbackWithTool { name, callback, tool } => {
            assert_eq!(name, "defined");
            assert_eq!(callback("X"), "x");
            assert_eq!(tool, "a definition");
        }
        _ => panic!("expected a tool callback with its definition"),
    }
    match &a[4] {
        Attachment::McpClient(config) => assert_eq!(config, "server"),
        _ => panic!("expected the tool server last"),
    }
}

#[test]
fn no_extensions_give_no_attachments() {
    let (_, action) = loaded(TextModelBuilder::<Plain>::new("m")).step(Event::Completed);
    match action {
        Action::BuildRuntime(request) => {
            assert!(request.attachments.is_empty());
            assert_eq!(request.search_bert_model, None);
            assert!(!request.throughput_logging);
            assert!(!request.no_kv_cache);
            assert!(!request.no_prefix_cache);
            assert_eq!(request.prefix_cache_n, Some(16));
        }
        _ => panic!("expected the runtime to be built"),
    }
}

#[test]
fn prefix_cache_is_off_exactly_without_a_retention_count() {
    let b = TextModelBuilder::<Plain>::new("m").with_prefix_cache_n(None);
    let (_, action) = loaded(b).step(Event::Completed);
    match action {
        Action::BuildRuntime(request) => {
            assert!(request.no_prefix_cache);
            assert_eq!(request.prefix_cache_n, None);
        }
        _ => panic!("expected the runtime to be built"),
    }
    let b = TextModelBuilder::<Plain>::new("m").with_prefix_cache_n(Some(0));
    let (_, action) = loaded(b).step(Event::Completed);
    match action {
        Action::BuildRuntime(request) => {
            assert!(!request.no_prefix_cache);
            assert_eq!(request.prefix_cache_n, Some(0));
        }
        _ => panic!("expected the runtime to be built"),
    }
}

#[test]
fn runtime_request_carries_the_serving_options() {
    let b = TextModelBuilder::<Plain>::new("m")
        .with_search("embedder")
        .with_throughput_logging()
        .with_no_kv_cache()
        .with_prefix_cache_n(Some(4));
    let (_, action) = loaded(b).step(Event::Completed);
    match action {
        Action::BuildRuntime(request) => {
            assert_eq!(request.search_bert_model, Some("embedder"));
            assert!(request.throughput_logging);
            assert!(request.no_kv_cache);
            assert!(!request.no_prefix_cache);
            assert_eq!(request.prefix_cache_n, Some(4));
        }
        _ => panic!("expected the runtime to be built"),
    }
}
