use vstd::prelude::*;
use candle_core::Device;
use std::path::PathBuf;
use crate::builder::TextModelBuilder;
use crate::builder::ToolCallbackWithTool;
use crate::device::device_resolved;
use crate::device::resolve_device;
use crate::engine::Engine;
use crate::error::BuildError;
use crate::options::IsqOrganization;
use crate::options::ModelDType;
use crate::options::PositiveUsize;
use crate::options::TokenSource;
use crate::registry::holds_name;
use crate::registry::lemma_entries_map_at;
use crate::registry::lemma_entries_map_dom_len;
use crate::registry::names_distinct;
use crate::registry::Registry;
use crate::scheduler::SchedulerConfig;

verus! {

/// The device-mapping strategy that the model is loaded with.
pub enum DeviceMapping<M> {
    /// The strategy that was set on the builder.
    Explicit(M),
    /// Automatic mapping with the engine's default capacity parameters for text models.
    AutoText,
}

/// The part of the configuration that the loader itself is made from.
pub struct NormalSpecificConfig<E: Engine> {
    pub prompt_chunksize: Option<PositiveUsize>,
    pub topology: Option<E::Topology>,
    pub organization: IsqOrganization,
    pub write_uqff: Option<PathBuf>,
    pub from_uqff: Option<Vec<PathBuf>>,
    pub imatrix: Option<PathBuf>,
    pub calibration_file: Option<PathBuf>,
    pub hf_cache_path: Option<PathBuf>,
}

/// What the engine's loader factory is called with.
pub struct LoaderRequest<E: Engine> {
    pub config: NormalSpecificConfig<E>,
    pub chat_template: Option<String>,
    pub tokenizer_json: Option<String>,
    pub model_id: Option<String>,
    pub no_kv_cache: bool,
    pub jinja_explicit: Option<String>,
    pub loader_type: Option<E::LoaderType>,
}

/// What the loader is called with to materialize the model.
pub struct LoadRequest<E: Engine> {
    pub revision: Option<String>,
    pub token_source: TokenSource,
    pub dtype: ModelDType,
    pub device: Device,
    /// Set where logging was not asked for.
    pub silent: bool,
    pub device_mapping: DeviceMapping<E::DeviceMapSetting>,
    pub isq: Option<E::IsqType>,
    pub paged_attn_cfg: Option<E::PagedAttentionConfig>,
}

/// One extension that is registered with the runtime before it is finalized.
pub enum Attachment<E: Engine> {
    SearchCallback(E::SearchCallback),
    ToolCallback { name: String, callback: E::ToolCallback },
    ToolCallbackWithTool { name: String, callback: E::ToolCallback, tool: E::Tool },
    McpClient(E::McpClientConfig),
}

/// What the runtime is made from, but for the scheduling policy, which is only known once
/// the model is loaded.
pub struct PendingRuntime<E: Engine> {
    pub paged_attn_requested: bool,
    pub max_num_seqs: usize,
    pub throughput_logging: bool,
    pub search_bert_model: Option<E::EmbeddingModel>,
    /// In the order in which they are to be registered.
    pub attachments: Vec<Attachment<E>>,
    pub no_kv_cache: bool,
    pub no_prefix_cache: bool,
    pub prefix_cache_n: Option<usize>,
}

/// What the engine's runtime builder is called with.
pub struct RuntimeRequest<E: Engine> {
    pub scheduler: SchedulerConfig<E::CacheConfig>,
    pub throughput_logging: bool,
    pub search_bert_model: Option<E::EmbeddingModel>,
    /// In the order in which they are to be registered.
    pub attachments: Vec<Attachment<E>>,
    pub no_kv_cache: bool,
    pub no_prefix_cache: bool,
    pub prefix_cache_n: Option<usize>,
}

/// A finalized configuration: every request that the assembly will make of the engine, as
/// far as it is known before the model is loaded.
pub struct AssemblyPlan<E: Engine> {
    pub init_logging: bool,
    pub loader: LoaderRequest<E>,
    pub load: LoadRequest<E>,
    pub runtime: PendingRuntime<E>,
}

/// The attachments in the order of their registration: the search callback, the tool
/// callbacks without a definition, those with one, and the tool server.
pub open spec fn attachment_seq<E: Engine>(
    search_callback: Option<E::SearchCallback>,
    tool_callbacks: Seq<(String, E::ToolCallback)>,
    tool_callbacks_with_tools: Seq<(String, ToolCallbackWithTool<E>)>,
    mcp_client_config: Option<E::McpClientConfig>,
) -> Seq<Attachment<E>> {
    let search = match search_callback {
        Some(callback) => seq![Attachment::SearchCallback(callback)],
        None => seq![],
    };
    let plain = tool_callbacks.map_values(
        |entry: (String, E::ToolCallback)|
            Attachment::ToolCallback { name: entry.0, callback: entry.1 },
    );
    let defined = tool_callbacks_with_tools.map_values(
        |entry: (String, ToolCallbackWithTool<E>)|
            Attachment::ToolCallbackWithTool {
                name: entry.0,
                callback: entry.1.callback,
                tool: entry.1.tool,
            },
    );
    let mcp = match mcp_client_config {
        Some(config) => seq![Attachment::McpClient(config)],
        None => seq![],
    };
    search + plain + defined + mcp
}

/// Lays the extensions out in the order of their registration.
fn collect_attachments<E: Engine>(
    search_callback: Option<E::SearchCallback>,
    tool_callbacks: Registry<E::ToolCallback>,
    tool_callbacks_with_tools: Registry<ToolCallbackWithTool<E>>,
    mcp_client_config: Option<E::McpClientConfig>,
) -> (out: Vec<Attachment<E>>)
    ensures
        out@ == attachment_seq(
            search_callback,
            tool_callbacks.entries(),
            tool_callbacks_with_tools.entries(),
            mcp_client_config,
        ),
        names_distinct(tool_callbacks.entries()),
        names_distinct(tool_callbacks_with_tools.entries()),
{
    let mut out: Vec<Attachment<E>> = Vec::new();
    match search_callback {
        Some(callback) => {
            out.push(Attachment::SearchCallback(callback));
        },
        None => {},
    }
    let ghost search = out@;
    let plain = tool_callbacks.into_entries();
    let ghost plain_entries = plain@;
    for entry in iter: plain.into_iter()
        invariant
            iter.seq() == plain_entries,
            out@ == search + plain_entries.take(iter.index()).map_values(
                |entry: (String, E::ToolCallback)|
                    Attachment::ToolCallback { name: entry.0, callback: entry.1 },
            ),
    {
        proof {
            assert(plain_entries.take(iter.index() + 1) == plain_entries.take(iter.index()).push(
                entry,
            ));
        }
        out.push(Attachment::ToolCallback { name: entry.0, callback: entry.1 });
    }
    proof {
        assert(plain_entries.take(plain_entries.len() as int) == plain_entries);
    }
    let ghost before_defined = out@;
    let defined = tool_callbacks_with_tools.into_entries();
    let ghost defined_entries = defined@;
    for entry in iter: defined.into_iter()
        invariant
            iter.seq() == defined_entries,
            out@ == before_defined + defined_entries.take(iter.index()).map_values(
                |entry: (String, ToolCallbackWithTool<E>)|
                    Attachment::ToolCallbackWithTool {
                        name: entry.0,
                        callback: entry.1.callback,
                        tool: entry.1.tool,
                    },
            ),
    {
        proof {
            assert(defined_entries.take(iter.index() + 1) == defined_entries.take(
                iter.index(),
            ).push(entry));
        }
        let ToolCallbackWithTool { callback, tool } = entry.1;
        out.push(Attachment::ToolCallbackWithTool { name: entry.0, callback, tool });
    }
    proof {
        assert(defined_entries.take(defined_entries.len() as int) == defined_entries);
    }
    match mcp_client_config {
        Some(config) => {
            out.push(Attachment::McpClient(config));
        },
        None => {},
    }
    out
}

impl<E: Engine> TextModelBuilder<E> {
    /// The loader is made from the loader-facing part of the configuration, the template and
    /// tokenizer sources, the model id and the cache switch.
    pub open spec fn loader_request(self) -> LoaderRequest<E> {
        LoaderRequest {
            config: NormalSpecificConfig {
                prompt_chunksize: self.prompt_chunksize,
                topology: self.topology,
                organization: self.organization,
                write_uqff: self.write_uqff,
                from_uqff: self.from_uqff,
                imatrix: self.imatrix,
                calibration_file: self.calibration_file,
                hf_cache_path: self.hf_cache_path,
            },
            chat_template: self.chat_template,
            tokenizer_json: self.tokenizer_json,
            model_id: Some(self.model_id),
            no_kv_cache: self.no_kv_cache,
            jinja_explicit: self.jinja_explicit,
            loader_type: self.loader_type,
        }
    }

    /// The model is loaded onto `device`, quietly unless logging was asked for, with the
    /// device mapping that was set or else the automatic one for text models.
    pub open spec fn load_request(self, device: Device) -> LoadRequest<E> {
        LoadRequest {
            revision: self.hf_revision,
            token_source: self.token_source,
            dtype: self.dtype,
            device,
            silent: !self.with_logging,
            device_mapping: match self.device_mapping {
                Some(mapping) => DeviceMapping::Explicit(mapping),
                None => DeviceMapping::AutoText,
            },
            isq: self.isq,
            paged_attn_cfg: self.paged_attn_cfg,
        }
    }

    /// Whether `runtime` is what this builder asks of the runtime: its serving options as
    /// they were set, the prefix cache off exactly where no retention count is set, and its
    /// extensions in the order of their registration.
    pub open spec fn asks_runtime(self, runtime: PendingRuntime<E>) -> bool {
        &&& runtime.paged_attn_requested == (self.paged_attn_cfg is Some)
        &&& runtime.max_num_seqs == self.max_num_seqs
        &&& runtime.throughput_logging == self.throughput_logging
        &&& runtime.search_bert_model == self.search_bert_model
        &&& runtime.attachments@ == attachment_seq(
            self.search_callback,
            self.tool_callbacks.entries(),
            self.tool_callbacks_with_tools.entries(),
            self.mcp_client_config,
        )
        &&& runtime.no_kv_cache == self.no_kv_cache
        &&& runtime.no_prefix_cache == (self.prefix_cache_n is None)
        &&& runtime.prefix_cache_n == self.prefix_cache_n
    }

    /// Whether `plan` lays out what this builder collected, for loading onto `device`. Each
    /// name that is registered in a tool registry is listed once.
    pub open spec fn plans(self, device: Device, plan: AssemblyPlan<E>) -> bool {
        &&& plan.init_logging == self.with_logging
        &&& plan.loader == self.loader_request()
        &&& plan.load == self.load_request(device)
        &&& self.asks_runtime(plan.runtime)
        &&& names_distinct(self.tool_callbacks.entries())
        &&& names_distinct(self.tool_callbacks_with_tools.entries())
    }

    /// Whether `r` may be what finalizing this builder gives.
    ///
    /// The plan is laid out for the device that was set, or else for the default device,
    /// which is the CPU where the CPU is forced. Only the search for a default device can
    /// fail, so a builder with a device set, or with the CPU forced, always yields a plan.
    pub open spec fn builds(self, r: Result<AssemblyPlan<E>, BuildError>) -> bool {
        match r {
            Ok(plan) => {
                &&& device_resolved(self.device, self.force_cpu, plan.load.device)
                &&& self.plans(plan.load.device, plan)
            },
            Err(error) => error is Device && self.device is None && !self.force_cpu,
        }
    }

    /// Lays out every request that the assembly will make of the engine, for loading the
    /// model onto `device`.
    pub fn plan_on(self, device: Device) -> (plan: AssemblyPlan<E>)
        ensures
            self.plans(device, plan),
    {
        let loader = LoaderRequest {
            config: NormalSpecificConfig {
                prompt_chunksize: self.prompt_chunksize,
                topology: self.topology,
                organization: self.organization,
                write_uqff: self.write_uqff,
                from_uqff: self.from_uqff,
                imatrix: self.imatrix,
                calibration_file: self.calibration_file,
                hf_cache_path: self.hf_cache_path,
            },
            chat_template: self.chat_template,
            tokenizer_json: self.tokenizer_json,
            model_id: Some(self.model_id),
            no_kv_cache: self.no_kv_cache,
            jinja_explicit: self.jinja_explicit,
            loader_type: self.loader_type,
        };
        let paged_attn_requested = self.paged_attn_cfg.is_some();
        let load = LoadRequest {
            revision: self.hf_revision,
            token_source: self.token_source,
            dtype: self.dtype,
            device,
            silent: !self.with_logging,
            device_mapping: match self.device_mapping {
                Some(mapping) => DeviceMapping::Explicit(mapping),
                None => DeviceMapping::AutoText,
            },
            isq: self.isq,
            paged_attn_cfg: self.paged_attn_cfg,
        };
        let attachments = collect_attachments::<E>(
            self.search_callback,
            self.tool_callbacks,
            self.tool_callbacks_with_tools,
            self.mcp_client_config,
        );
        let runtime = PendingRuntime {
            paged_attn_requested,
            max_num_seqs: self.max_num_seqs,
            throughput_logging: self.throughput_logging,
            search_bert_model: self.search_bert_model,
            attachments,
            no_kv_cache: self.no_kv_cache,
            no_prefix_cache: self.prefix_cache_n.is_none(),
            prefix_cache_n: self.prefix_cache_n,
        };
        AssemblyPlan { init_logging: self.with_logging, loader, load, runtime }
    }

    /// Finalizes the configuration: resolves the device and lays out every request that the
    /// assembly will make of the engine. Nothing is asked of the engine yet.
    pub fn build(self) -> (r: Result<AssemblyPlan<E>, BuildError>)
        ensures
            self.builds(r),
    {
        let mut builder = self;
        let explicit = builder.device.take();
        match resolve_device(explicit, builder.force_cpu) {
            Ok(device) => Ok(builder.plan_on(device)),
            Err(error) => Err(BuildError::Device(error)),
        }
    }
}

/// Nothing that was registered is merged or dropped on the way to the runtime: the
/// attachments hold one entry for the search callback if there is one, one for every name
/// in each of the two tool registries, and one for the tool server if there is one.
pub proof fn law_every_extension_is_attached<E: Engine>(
    builder: TextModelBuilder<E>,
    device: Device,
    plan: AssemblyPlan<E>,
)
    requires
        builder.plans(device, plan),
    ensures
        plan.runtime.attachments@.len() == (if builder.search_callback is Some {
            1nat
        } else {
            0nat
        }) + builder@.tool_callbacks.dom().len() + builder@.tool_callbacks_with_tools.dom().len()
            + (if builder.mcp_client_config is Some {
            1nat
        } else {
            0nat
        }),
{
    lemma_entries_map_dom_len(builder.tool_callbacks.entries());
    lemma_entries_map_dom_len(builder.tool_callbacks_with_tools.entries());
}

/// Every tool callback that is registered without a definition is attached under its name.
pub proof fn law_plain_tool_callback_is_attached<E: Engine>(
    builder: TextModelBuilder<E>,
    device: Device,
    plan: AssemblyPlan<E>,
    name: Seq<char>,
)
    requires
        builder.plans(device, plan),
        builder@.tool_callbacks.contains_key(name),
    ensures
        exists|i: int|
            0 <= i < plan.runtime.attachments@.len() && (
            #[trigger] plan.runtime.attachments@[i] matches Attachment::ToolCallback {
                name: attached,
                callback,
            } && attached@ == name && callback == builder@.tool_callbacks[name]),
{
    let entries = builder.tool_callbacks.entries();
    let k = choose|k: int| holds_name(entries, name, k);
    assert(holds_name(entries, name, k));
    lemma_entries_map_at(entries, k);
    let offset: int = if builder.search_callback is Some {
        1
    } else {
        0
    };
    let i = offset + k;
    assert(plan.runtime.attachments@[i] == Attachment::<E>::ToolCallback {
        name: entries[k].0,
        callback: entries[k].1,
    });
}

/// Every tool callback that is registered with a definition is attached under its name,
/// with its definition.
pub proof fn law_defined_tool_callback_is_attached<E: Engine>(
    builder: TextModelBuilder<E>,
    device: Device,
    plan: AssemblyPlan<E>,
    name: Seq<char>,
)
    requires
        builder.plans(device, plan),
        builder@.tool_callbacks_with_tools.contains_key(name),
    ensures
        exists|i: int|
            0 <= i < plan.runtime.attachments@.len() && (
            #[trigger] plan.runtime.attachments@[i] matches Attachment::ToolCallbackWithTool {
                name: attached,
                callback,
                tool,
            } && attached@ == name && callback == builder@.tool_callbacks_with_tools[name].callback
                && tool == builder@.tool_callbacks_with_tools[name].tool),
{
    let entries = builder.tool_callbacks_with_tools.entries();
    let k = choose|k: int| holds_name(entries, name, k);
    assert(holds_name(entries, name, k));
    lemma_entries_map_at(entries, k);
    let offset: int = if builder.search_callback is Some {
        1
    } else {
        0
    };
    let i = offset + builder.tool_callbacks.entries().len() + k;
    assert(plan.runtime.attachments@[i] == Attachment::<E>::ToolCallbackWithTool {
        name: entries[k].0,
        callback: entries[k].1.callback,
        tool: entries[k].1.tool,
    });
}

} // verus!
