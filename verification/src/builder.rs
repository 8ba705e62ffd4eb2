use vstd::prelude::*;
use candle_core::Device;
use std::path::PathBuf;
use crate::engine::Engine;
use crate::options::IsqOrganization;
use crate::options::ModelDType;
use crate::options::PositiveUsize;
use crate::options::TokenSource;
use crate::registry::Registry;

verus! {

/// `std::path::PathBuf`, carried through unopened.
#[verifier::external_type_specification]
#[verifier::external_body]
pub struct ExPathBuf(PathBuf);

/// A tool callback together with the definition under which the tool is advertised.
pub struct ToolCallbackWithTool<E: Engine> {
    pub callback: E::ToolCallback,
    pub tool: E::Tool,
}

/// Collects every option for loading and running a text model.
///
/// Each setter takes the builder, overwrites what it is named after and hands the builder
/// back; nothing is checked or resolved before the builder is finalized.
pub struct TextModelBuilder<E: Engine> {
    // Loading the model
    pub model_id: String,
    pub token_source: TokenSource,
    pub hf_revision: Option<String>,
    pub write_uqff: Option<PathBuf>,
    pub from_uqff: Option<Vec<PathBuf>>,
    pub imatrix: Option<PathBuf>,
    pub calibration_file: Option<PathBuf>,
    pub chat_template: Option<String>,
    pub jinja_explicit: Option<String>,
    pub tokenizer_json: Option<String>,
    pub device_mapping: Option<E::DeviceMapSetting>,
    pub hf_cache_path: Option<PathBuf>,
    pub search_bert_model: Option<E::EmbeddingModel>,
    pub search_callback: Option<E::SearchCallback>,
    pub tool_callbacks: Registry<E::ToolCallback>,
    pub tool_callbacks_with_tools: Registry<ToolCallbackWithTool<E>>,
    pub mcp_client_config: Option<E::McpClientConfig>,
    pub device: Option<Device>,
    // Running the model
    pub prompt_chunksize: Option<PositiveUsize>,
    pub topology: Option<E::Topology>,
    pub organization: IsqOrganization,
    pub loader_type: Option<E::LoaderType>,
    pub dtype: ModelDType,
    pub force_cpu: bool,
    pub isq: Option<E::IsqType>,
    pub throughput_logging: bool,
    // Serving
    pub paged_attn_cfg: Option<E::PagedAttentionConfig>,
    pub max_num_seqs: usize,
    pub no_kv_cache: bool,
    pub with_logging: bool,
    pub prefix_cache_n: Option<usize>,
}

/// What a builder has collected: text as character sequences, each registry as the map from
/// a name to what is registered under it.
pub struct ConfigRecord<E: Engine> {
    pub model_id: Seq<char>,
    pub token_source: TokenSource,
    pub hf_revision: Option<Seq<char>>,
    pub write_uqff: Option<PathBuf>,
    pub from_uqff: Option<Seq<PathBuf>>,
    pub imatrix: Option<PathBuf>,
    pub calibration_file: Option<PathBuf>,
    pub chat_template: Option<Seq<char>>,
    pub jinja_explicit: Option<Seq<char>>,
    pub tokenizer_json: Option<Seq<char>>,
    pub device_mapping: Option<E::DeviceMapSetting>,
    pub hf_cache_path: Option<PathBuf>,
    pub search_bert_model: Option<E::EmbeddingModel>,
    pub search_callback: Option<E::SearchCallback>,
    pub tool_callbacks: Map<Seq<char>, E::ToolCallback>,
    pub tool_callbacks_with_tools: Map<Seq<char>, ToolCallbackWithTool<E>>,
    pub mcp_client_config: Option<E::McpClientConfig>,
    pub device: Option<Device>,
    pub prompt_chunksize: Option<PositiveUsize>,
    pub topology: Option<E::Topology>,
    pub organization: IsqOrganization,
    pub loader_type: Option<E::LoaderType>,
    pub dtype: ModelDType,
    pub force_cpu: bool,
    pub isq: Option<E::IsqType>,
    pub throughput_logging: bool,
    pub paged_attn_cfg: Option<E::PagedAttentionConfig>,
    pub max_num_seqs: usize,
    pub no_kv_cache: bool,
    pub with_logging: bool,
    pub prefix_cache_n: Option<usize>,
}

/// One call of a setter, with what it was given.
pub enum Setting<E: Engine> {
    Search(E::EmbeddingModel),
    SearchCallback(E::SearchCallback),
    ToolCallback(Seq<char>, E::ToolCallback),
    ToolCallbackAndTool(Seq<char>, ToolCallbackWithTool<E>),
    McpClient(E::McpClientConfig),
    ThroughputLogging,
    JinjaExplicit(Seq<char>),
    PromptChunksize(PositiveUsize),
    Topology(E::Topology),
    MixtureQexpertsIsq,
    ChatTemplate(Seq<char>),
    TokenizerJson(Seq<char>),
    LoaderType(E::LoaderType),
    Dtype(ModelDType),
    ForceCpu,
    TokenSource(TokenSource),
    HfRevision(Seq<char>),
    Isq(E::IsqType),
    Imatrix(PathBuf),
    CalibrationFile(PathBuf),
    PagedAttn(Option<E::PagedAttentionConfig>),
    MaxNumSeqs(usize),
    NoKvCache,
    PrefixCacheN(Option<usize>),
    Logging,
    DeviceMapping(E::DeviceMapSetting),
    FromUqff(Seq<PathBuf>),
    WriteUqff(PathBuf),
    HfCachePath(PathBuf),
    Device(Device),
}

/// The part of a record that a setting writes: a field, or in a registry the entry of one
/// name.
pub enum Slot {
    SearchBertModel,
    SearchCallback,
    ToolCallback(Seq<char>),
    ToolCallbackWithTool(Seq<char>),
    McpClientConfig,
    ThroughputLogging,
    JinjaExplicit,
    PromptChunksize,
    Topology,
    Organization,
    ChatTemplate,
    TokenizerJson,
    LoaderType,
    Dtype,
    ForceCpu,
    TokenSource,
    HfRevision,
    Isq,
    Imatrix,
    CalibrationFile,
    PagedAttnCfg,
    MaxNumSeqs,
    NoKvCache,
    PrefixCacheN,
    WithLogging,
    DeviceMapping,
    FromUqff,
    WriteUqff,
    HfCachePath,
    Device,
}

impl<E: Engine> Setting<E> {
    /// The slot that this setting writes.
    pub open spec fn slot(self) -> Slot {
        match self {
            Setting::Search(_) => Slot::SearchBertModel,
            Setting::SearchCallback(_) => Slot::SearchCallback,
            Setting::ToolCallback(name, _) => Slot::ToolCallback(name),
            Setting::ToolCallbackAndTool(name, _) => Slot::ToolCallbackWithTool(name),
            Setting::McpClient(_) => Slot::McpClientConfig,
            Setting::ThroughputLogging => Slot::ThroughputLogging,
            Setting::JinjaExplicit(_) => Slot::JinjaExplicit,
            Setting::PromptChunksize(_) => Slot::PromptChunksize,
            Setting::Topology(_) => Slot::Topology,
            Setting::MixtureQexpertsIsq => Slot::Organization,
            Setting::ChatTemplate(_) => Slot::ChatTemplate,
            Setting::TokenizerJson(_) => Slot::TokenizerJson,
            Setting::LoaderType(_) => Slot::LoaderType,
            Setting::Dtype(_) => Slot::Dtype,
            Setting::ForceCpu => Slot::ForceCpu,
            Setting::TokenSource(_) => Slot::TokenSource,
            Setting::HfRevision(_) => Slot::HfRevision,
            Setting::Isq(_) => Slot::Isq,
            Setting::Imatrix(_) => Slot::Imatrix,
            Setting::CalibrationFile(_) => Slot::CalibrationFile,
            Setting::PagedAttn(_) => Slot::PagedAttnCfg,
            Setting::MaxNumSeqs(_) => Slot::MaxNumSeqs,
            Setting::NoKvCache => Slot::NoKvCache,
            Setting::PrefixCacheN(_) => Slot::PrefixCacheN,
            Setting::Logging => Slot::WithLogging,
            Setting::DeviceMapping(_) => Slot::DeviceMapping,
            Setting::FromUqff(_) => Slot::FromUqff,
            Setting::WriteUqff(_) => Slot::WriteUqff,
            Setting::HfCachePath(_) => Slot::HfCachePath,
            Setting::Device(_) => Slot::Device,
        }
    }
}

impl<E: Engine> ConfigRecord<E> {
    /// The record of a builder that was just made for `model_id`: the default quantization
    /// organization, the token from the local cache, room for 32 sequences, a prefix cache
    /// of 16 sequences, an automatic precision, and everything else unset or switched off.
    pub open spec fn initial(model_id: Seq<char>) -> Self {
        ConfigRecord {
            model_id,
            token_source: TokenSource::CacheToken,
            hf_revision: None,
            write_uqff: None,
            from_uqff: None,
            imatrix: None,
            calibration_file: None,
            chat_template: None,
            jinja_explicit: None,
            tokenizer_json: None,
            device_mapping: None,
            hf_cache_path: None,
            search_bert_model: None,
            search_callback: None,
            tool_callbacks: Map::empty(),
            tool_callbacks_with_tools: Map::empty(),
            mcp_client_config: None,
            device: None,
            prompt_chunksize: None,
            topology: None,
            organization: IsqOrganization::Default,
            loader_type: None,
            dtype: ModelDType::Auto,
            force_cpu: false,
            isq: None,
            throughput_logging: false,
            paged_attn_cfg: None,
            max_num_seqs: 32,
            no_kv_cache: false,
            with_logging: false,
            prefix_cache_n: Some(16),
        }
    }

    /// The record after one setting: the setting's slot holds what the setting brought, and
    /// the rest is as it was.
    pub open spec fn apply(self, setting: Setting<E>) -> Self {
        ConfigRecord {
            model_id: self.model_id,
            token_source: match setting {
                Setting::TokenSource(token_source) => token_source,
                _ => self.token_source,
            },
            hf_revision: match setting {
                Setting::HfRevision(text) => Some(text),
                _ => self.hf_revision,
            },
            write_uqff: match setting {
                Setting::WriteUqff(path) => Some(path),
                _ => self.write_uqff,
            },
            from_uqff: match setting {
                Setting::FromUqff(paths) => Some(paths),
                _ => self.from_uqff,
            },
            imatrix: match setting {
                Setting::Imatrix(path) => Some(path),
                _ => self.imatrix,
            },
            calibration_file: match setting {
                Setting::CalibrationFile(path) => Some(path),
                _ => self.calibration_file,
            },
            chat_template: match setting {
                Setting::ChatTemplate(text) => Some(text),
                _ => self.chat_template,
            },
            jinja_explicit: match setting {
                Setting::JinjaExplicit(text) => Some(text),
                _ => self.jinja_explicit,
            },
            tokenizer_json: match setting {
                Setting::TokenizerJson(text) => Some(text),
                _ => self.tokenizer_json,
            },
            device_mapping: match setting {
                Setting::DeviceMapping(mapping) => Some(mapping),
                _ => self.device_mapping,
            },
            hf_cache_path: match setting {
                Setting::HfCachePath(path) => Some(path),
                _ => self.hf_cache_path,
            },
            search_bert_model: match setting {
                Setting::Search(model) => Some(model),
                _ => self.search_bert_model,
            },
            search_callback: match setting {
                Setting::SearchCallback(callback) => Some(callback),
                _ => self.search_callback,
            },
            tool_callbacks: match setting {
                Setting::ToolCallback(name, callback) => self.tool_callbacks.insert(name, callback),
                _ => self.tool_callbacks,
            },
            tool_callbacks_with_tools: match setting {
                Setting::ToolCallbackAndTool(name, entry) => self.tool_callbacks_with_tools.insert(
                    name,
                    entry,
                ),
                _ => self.tool_callbacks_with_tools,
            },
            mcp_client_config: match setting {
                Setting::McpClient(config) => Some(config),
                _ => self.mcp_client_config,
            },
            device: match setting {
                Setting::Device(device) => Some(device),
                _ => self.device,
            },
            prompt_chunksize: match setting {
                Setting::PromptChunksize(size) => Some(size),
                _ => self.prompt_chunksize,
            },
            topology: match setting {
                Setting::Topology(topology) => Some(topology),
                _ => self.topology,
            },
            organization: match setting {
                Setting::MixtureQexpertsIsq => IsqOrganization::MoeExpertsOnly,
                _ => self.organization,
            },
            loader_type: match setting {
                Setting::LoaderType(loader_type) => Some(loader_type),
                _ => self.loader_type,
            },
            dtype: match setting {
                Setting::Dtype(dtype) => dtype,
                _ => self.dtype,
            },
            force_cpu: match setting {
                Setting::ForceCpu => true,
                _ => self.force_cpu,
            },
            isq: match setting {
                Setting::Isq(isq) => Some(isq),
                _ => self.isq,
            },
            throughput_logging: match setting {
                Setting::ThroughputLogging => true,
                _ => self.throughput_logging,
            },
            paged_attn_cfg: match setting {
                Setting::PagedAttn(config) => config,
                _ => self.paged_attn_cfg,
            },
            max_num_seqs: match setting {
                Setting::MaxNumSeqs(n) => n,
                _ => self.max_num_seqs,
            },
            no_kv_cache: match setting {
                Setting::NoKvCache => true,
                _ => self.no_kv_cache,
            },
            with_logging: match setting {
                Setting::Logging => true,
                _ => self.with_logging,
            },
            prefix_cache_n: match setting {
                Setting::PrefixCacheN(n) => n,
                _ => self.prefix_cache_n,
            },
        }
    }

    /// The record after a request for paged attention.
    ///
    /// Where the environment does not support paged attention the request is dropped without
    /// an error, whatever the configuration would have been. Where it does, `outcome` is what
    /// making the configuration gave: the configuration is taken, or its error ends the
    /// request.
    pub open spec fn request_paged_attn(
        self,
        supported: bool,
        outcome: Result<E::PagedAttentionConfig, anyhow::Error>,
    ) -> Result<Self, anyhow::Error> {
        if !supported {
            Ok(self.apply(Setting::PagedAttn(None)))
        } else {
            match outcome {
                Ok(config) => Ok(self.apply(Setting::PagedAttn(Some(config)))),
                Err(error) => Err(error),
            }
        }
    }
}

/// The characters of an optional text.
pub open spec fn text_view(text: Option<String>) -> Option<Seq<char>> {
    match text {
        Some(t) => Some(t@),
        None => None,
    }
}

/// The paths of an optional list of paths.
pub open spec fn paths_view(paths: Option<Vec<PathBuf>>) -> Option<Seq<PathBuf>> {
    match paths {
        Some(p) => Some(p@),
        None => None,
    }
}

/// What a fallible setter hands back, with the builder as its record.
pub open spec fn record_of<E: Engine>(r: Result<TextModelBuilder<E>, anyhow::Error>) -> Result<
    ConfigRecord<E>,
    anyhow::Error,
> {
    match r {
        Ok(builder) => Ok(builder@),
        Err(error) => Err(error),
    }
}

impl<E: Engine> View for TextModelBuilder<E> {
    type V = ConfigRecord<E>;

    open spec fn view(&self) -> ConfigRecord<E> {
        ConfigRecord {
            model_id: self.model_id@,
            token_source: self.token_source,
            hf_revision: text_view(self.hf_revision),
            write_uqff: self.write_uqff,
            from_uqff: paths_view(self.from_uqff),
            imatrix: self.imatrix,
            calibration_file: self.calibration_file,
            chat_template: text_view(self.chat_template),
            jinja_explicit: text_view(self.jinja_explicit),
            tokenizer_json: text_view(self.tokenizer_json),
            device_mapping: self.device_mapping,
            hf_cache_path: self.hf_cache_path,
            search_bert_model: self.search_bert_model,
            search_callback: self.search_callback,
            tool_callbacks: self.tool_callbacks@,
            tool_callbacks_with_tools: self.tool_callbacks_with_tools@,
            mcp_client_config: self.mcp_client_config,
            device: self.device,
            prompt_chunksize: self.prompt_chunksize,
            topology: self.topology,
            organization: self.organization,
            loader_type: self.loader_type,
            dtype: self.dtype,
            force_cpu: self.force_cpu,
            isq: self.isq,
            throughput_logging: self.throughput_logging,
            paged_attn_cfg: self.paged_attn_cfg,
            max_num_seqs: self.max_num_seqs,
            no_kv_cache: self.no_kv_cache,
            with_logging: self.with_logging,
            prefix_cache_n: self.prefix_cache_n,
        }
    }
}

impl<E: Engine> TextModelBuilder<E> {
    /// A builder for the model `model_id` with the defaults applied: the default
    /// quantization organization, the token from the local cache, at most 32 sequences at
    /// once, a prefix cache of 16 sequences, web search off, and the device mapping left to
    /// finalization.
    pub fn new(model_id: &str) -> (r: Self)
        ensures
            r@ == ConfigRecord::<E>::initial(model_id@),
    {
        TextModelBuilder {
            model_id: model_id.to_owned(),
            prompt_chunksize: None,
            topology: None,
            organization: IsqOrganization::Default,
            write_uqff: None,
            from_uqff: None,
            chat_template: None,
            tokenizer_json: None,
            loader_type: None,
            dtype: ModelDType::Auto,
            force_cpu: false,
            token_source: TokenSource::CacheToken,
            hf_revision: None,
            isq: None,
            paged_attn_cfg: None,
            max_num_seqs: 32,
            no_kv_cache: false,
            prefix_cache_n: Some(16),
            with_logging: false,
            device_mapping: None,
            imatrix: None,
            calibration_file: None,
            jinja_explicit: None,
            throughput_logging: false,
            hf_cache_path: None,
            search_bert_model: None,
            search_callback: None,
            tool_callbacks: Registry::new(),
            tool_callbacks_with_tools: Registry::new(),
            mcp_client_config: None,
            device: None,
        }
    }

    /// Requests paged attention with the configuration that `paged_attn_cfg` makes.
    ///
    /// `supported` says whether the environment supports paged attention. Where it does not,
    /// the request is dropped: `paged_attn_cfg` is not called, the builder comes back with no
    /// paged-attention configuration, and that is no error. Where it does, `paged_attn_cfg`
    /// is called once; its configuration is taken, or its error is returned.
    pub fn with_paged_attn<F: FnOnce() -> Result<E::PagedAttentionConfig, anyhow::Error>>(
        self,
        supported: bool,
        paged_attn_cfg: F,
    ) -> (r: Result<Self, anyhow::Error>)
        requires
            supported ==> paged_attn_cfg.requires(()),
        ensures
            !supported ==> record_of(r) == Ok::<ConfigRecord<E>, anyhow::Error>(
                self@.apply(Setting::PagedAttn(None)),
            ),
            supported ==> exists|outcome: Result<E::PagedAttentionConfig, anyhow::Error>|
                #![trigger paged_attn_cfg.ensures((), outcome)]
                paged_attn_cfg.ensures((), outcome) && record_of(r) == self@.request_paged_attn(
                    true,
                    outcome,
                ),
    {
        let mut b = self;
        if supported {
            match paged_attn_cfg() {
                Ok(config) => {
                    b.paged_attn_cfg = Some(config);
                    Ok(b)
                },
                Err(error) => Err(error),
            }
        } else {
            b.paged_attn_cfg = None;
            Ok(b)
        }
    }

    /// Registers `callback` under the tool name `name` together with the definition `tool`,
    /// which is advertised to the model. It takes the place of what was registered with a
    /// definition under that name before; the callbacks registered without one are not
    /// touched.
    pub fn with_tool_callback_and_tool(
        self,
        name: &str,
        callback: E::ToolCallback,
        tool: E::Tool,
    ) -> (r: Self)
        ensures
            r@ == self@.apply(
                Setting::ToolCallbackAndTool(name@, ToolCallbackWithTool { callback, tool }),
            ),
    {
        let mut b = self;
        let entry = ToolCallbackWithTool { callback, tool };
        b.tool_callbacks_with_tools.insert(name.to_owned(), entry);
        b
    }

    /// Registers `callback` under the tool name `name`, in place of what was registered
    /// without a definition under that name before; the callbacks registered with one are
    /// not touched.
    pub fn with_tool_callback(self, name: &str, callback: E::ToolCallback) -> (r: Self)
        ensures
            r@ == self@.apply(Setting::ToolCallback(name@, callback)),
    {
        let mut b = self;
        b.tool_callbacks.insert(name.to_owned(), callback);
        b
    }

    /// Switches web search on, with `search_bert_model` as the embedding model that ranks the
    /// results.
    pub fn with_search(self, search_bert_model: E::EmbeddingModel) -> (r: Self)
        ensures
            r@ == self@.apply(Setting::Search(search_bert_model)),
    {
        let mut b = self;
        b.search_bert_model = Some(search_bert_model);
        b
    }

    /// Replaces the search function that is used where web search is on.
    pub fn with_search_callback(self, callback: E::SearchCallback) -> (r: Self)
        ensures
            r@ == self@.apply(Setting::SearchCallback(callback)),
    {
        let mut b = self;
        b.search_callback = Some(callback);
        b
    }

    /// Sets the external tool server whose tools are registered with the runtime.
    pub fn with_mcp_client(self, config: E::McpClientConfig) -> (r: Self)
        ensures
            r@ == self@.apply(Setting::McpClient(config)),
    {
        let mut b = self;
        b.mcp_client_config = Some(config);
        b
    }

    /// Switches the logging of the runtime's throughput on.
    pub fn with_throughput_logging(self) -> (r: Self)
        ensures
            r@ == self@.apply(Setting::ThroughputLogging),
    {
        let mut b = self;
        b.throughput_logging = true;
        b
    }

    /// Sets the chat template file that overrides every other chat template.
    pub fn with_jinja_explicit(self, jinja_explicit: String) -> (r: Self)
        ensures
            r@ == self@.apply(Setting::JinjaExplicit(jinja_explicit@)),
    {
        let mut b = self;
        b.jinja_explicit = Some(jinja_explicit);
        b
    }

    /// Sets the number of prompt tokens that are processed in one batch.
    pub fn with_prompt_chunksize(self, prompt_chunksize: PositiveUsize) -> (r: Self)
        ensures
            r@ == self@.apply(Setting::PromptChunksize(prompt_chunksize)),
    {
        let mut b = self;
        b.prompt_chunksize = Some(prompt_chunksize);
        b
    }

    /// Sets the topology of the model. Where it overlaps with the quantization mode, the
    /// engine goes by the topology.
    pub fn with_topology(self, topology: E::Topology) -> (r: Self)
        ensures
            r@ == self@.apply(Setting::Topology(topology)),
    {
        let mut b = self;
        b.topology = Some(topology);
        b
    }

    /// Restricts in-place quantization to the experts of a mixture-of-experts model.
    pub fn with_mixture_qexperts_isq(self) -> (r: Self)
        ensures
            r@ == self@.apply(Setting::MixtureQexpertsIsq),
    {
        let mut b = self;
        b.organization = IsqOrganization::MoeExpertsOnly;
        b
    }

    /// Sets the chat template: the template itself, or the path of a file that holds one.
    pub fn with_chat_template(self, chat_template: &str) -> (r: Self)
        ensures
            r@ == self@.apply(Setting::ChatTemplate(chat_template@)),
    {
        let mut b = self;
        b.chat_template = Some(chat_template.to_owned());
        b
    }

    /// Sets the path of the tokenizer file.
    pub fn with_tokenizer_json(self, tokenizer_json: &str) -> (r: Self)
        ensures
            r@ == self@.apply(Setting::TokenizerJson(tokenizer_json@)),
    {
        let mut b = self;
        b.tokenizer_json = Some(tokenizer_json.to_owned());
        b
    }

    /// Sets the loader type, which the engine otherwise determines from the model.
    pub fn with_loader_type(self, loader_type: E::LoaderType) -> (r: Self)
        ensures
            r@ == self@.apply(Setting::LoaderType(loader_type)),
    {
        let mut b = self;
        b.loader_type = Some(loader_type);
        b
    }

    /// Sets the precision that the model is loaded in.
    pub fn with_dtype(self, dtype: ModelDType) -> (r: Self)
        ensures
            r@ == self@.apply(Setting::Dtype(dtype)),
    {
        let mut b = self;
        b.dtype = dtype;
        b
    }

    /// Forces the CPU as the default device.
    pub fn with_force_cpu(self) -> (r: Self)
        ensures
            r@ == self@.apply(Setting::ForceCpu),
    {
        let mut b = self;
        b.force_cpu = true;
        b
    }

    /// Sets where the credential for the model hub comes from.
    pub fn with_token_source(self, token_source: TokenSource) -> (r: Self)
        ensures
            r@ == self@.apply(Setting::TokenSource(token_source)),
    {
        let mut b = self;
        b.token_source = token_source;
        b
    }

    /// Sets the revision of the model on the hub.
    pub fn with_hf_revision(self, revision: &str) -> (r: Self)
        ensures
            r@ == self@.apply(Setting::HfRevision(revision@)),
    {
        let mut b = self;
        b.hf_revision = Some(revision.to_owned());
        b
    }

    /// Sets the in-place quantization mode. Where it overlaps with the topology, the engine
    /// goes by the topology.
    pub fn with_isq(self, isq: E::IsqType) -> (r: Self)
        ensures
            r@ == self@.apply(Setting::Isq(isq)),
    {
        let mut b = self;
        b.isq = Some(isq);
        b
    }

    /// Sets the importance-matrix file for quantization. A calibration file that is set too
    /// stays set: which of the two counts is the loader's affair.
    pub fn with_imatrix(self, path: PathBuf) -> (r: Self)
        ensures
            r@ == self@.apply(Setting::Imatrix(path)),
    {
        let mut b = self;
        b.imatrix = Some(path);
        b
    }

    /// Sets the calibration file from which an importance matrix is collected. An importance
    /// matrix that is set too stays set: which of the two counts is the loader's affair.
    pub fn with_calibration_file(self, path: PathBuf) -> (r: Self)
        ensures
            r@ == self@.apply(Setting::CalibrationFile(path)),
    {
        let mut b = self;
        b.calibration_file = Some(path);
        b
    }

    /// Sets the number of sequences that may run at once.
    pub fn with_max_num_seqs(self, max_num_seqs: usize) -> (r: Self)
        ensures
            r@ == self@.apply(Setting::MaxNumSeqs(max_num_seqs)),
    {
        let mut b = self;
        b.max_num_seqs = max_num_seqs;
        b
    }

    /// Switches the key-value cache off.
    pub fn with_no_kv_cache(self) -> (r: Self)
        ensures
            r@ == self@.apply(Setting::NoKvCache),
    {
        let mut b = self;
        b.no_kv_cache = true;
        b
    }

    /// Sets the number of sequences that the prefix cache holds; `None` switches the prefix
    /// cache off.
    pub fn with_prefix_cache_n(self, n_seqs: Option<usize>) -> (r: Self)
        ensures
            r@ == self@.apply(Setting::PrefixCacheN(n_seqs)),
    {
        let mut b = self;
        b.prefix_cache_n = n_seqs;
        b
    }

    /// Switches logging on.
    pub fn with_logging(self) -> (r: Self)
        ensures
            r@ == self@.apply(Setting::Logging),
    {
        let mut b = self;
        b.with_logging = true;
        b
    }

    /// Sets the device-mapping strategy.
    pub fn with_device_mapping(self, device_mapping: E::DeviceMapSetting) -> (r: Self)
        ensures
            r@ == self@.apply(Setting::DeviceMapping(device_mapping)),
    {
        let mut b = self;
        b.device_mapping = Some(device_mapping);
        b
    }

    /// Sets the precompiled artifacts that the model is read from.
    pub fn from_uqff(self, path: Vec<PathBuf>) -> (r: Self)
        ensures
            r@ == self@.apply(Setting::FromUqff(path@)),
    {
        let mut b = self;
        b.from_uqff = Some(path);
        b
    }

    /// Sets the path that the precompiled artifact is written to. Its directory is where the
    /// loader puts the other files that go with the artifact.
    pub fn write_uqff(self, path: PathBuf) -> (r: Self)
        ensures
            r@ == self@.apply(Setting::WriteUqff(path)),
    {
        let mut b = self;
        b.write_uqff = Some(path);
        b
    }

    /// Sets the local cache directory for models from the hub.
    pub fn from_hf_cache_pathf(self, hf_cache_path: PathBuf) -> (r: Self)
        ensures
            r@ == self@.apply(Setting::HfCachePath(hf_cache_path)),
    {
        let mut b = self;
        b.hf_cache_path = Some(hf_cache_path);
        b
    }

    /// Sets the device that the model is loaded onto; automatic device mapping starts from
    /// it.
    pub fn with_device(self, device: Device) -> (r: Self)
        ensures
            r@ == self@.apply(Setting::Device(device)),
    {
        let mut b = self;
        b.device = Some(device);
        b
    }
}

/// The record after a sequence of settings, applied from the first to the last.
pub open spec fn apply_all<E: Engine>(
    record: ConfigRecord<E>,
    settings: Seq<Setting<E>>,
) -> ConfigRecord<E>
    decreases settings.len(),
{
    if settings.len() == 0 {
        record
    } else {
        apply_all(record.apply(settings[0]), settings.drop_first())
    }
}

/// Of two settings of one slot the second wins: the record is as if the first had never
/// been made.
pub proof fn law_last_setting_wins<E: Engine>(
    record: ConfigRecord<E>,
    first: Setting<E>,
    second: Setting<E>,
)
    requires
        first.slot() == second.slot(),
    ensures
        record.apply(first).apply(second) == record.apply(second),
{
    let both = record.apply(first).apply(second);
    let last = record.apply(second);
    assert(both.tool_callbacks =~= last.tool_callbacks);
    assert(both.tool_callbacks_with_tools =~= last.tool_callbacks_with_tools);
}

/// Settings of different slots do not see each other: they give the same record in either
/// order.
pub proof fn law_unrelated_settings_commute<E: Engine>(
    record: ConfigRecord<E>,
    a: Setting<E>,
    b: Setting<E>,
)
    requires
        a.slot() != b.slot(),
    ensures
        record.apply(a).apply(b) == record.apply(b).apply(a),
{
    let ab = record.apply(a).apply(b);
    let ba = record.apply(b).apply(a);
    assert(ab.tool_callbacks =~= ba.tool_callbacks);
    assert(ab.tool_callbacks_with_tools =~= ba.tool_callbacks_with_tools);
}

/// A setting is forgotten as soon as a later setting of the same slot follows, however many
/// other settings lie between the two.
proof fn lemma_setting_absorbed<E: Engine>(
    record: ConfigRecord<E>,
    setting: Setting<E>,
    later: Seq<Setting<E>>,
    k: int,
)
    requires
        0 <= k < later.len(),
        later[k].slot() == setting.slot(),
    ensures
        apply_all(record.apply(setting), later) == apply_all(record, later),
    decreases later.len(),
{
    if later[0].slot() == setting.slot() {
        law_last_setting_wins(record, setting, later[0]);
    } else {
        law_unrelated_settings_commute(record, setting, later[0]);
        lemma_setting_absorbed(record.apply(later[0]), setting, later.drop_first(), k - 1);
    }
}

/// In every sequence of settings only the last setting of each slot counts: taking out a
/// setting that a later one of the same slot follows leaves the final record as it is.
pub proof fn law_overwritten_setting_has_no_effect<E: Engine>(
    record: ConfigRecord<E>,
    settings: Seq<Setting<E>>,
    i: int,
    j: int,
)
    requires
        0 <= i < j < settings.len(),
        settings[i].slot() == settings[j].slot(),
    ensures
        apply_all(record, settings) == apply_all(record, settings.remove(i)),
    decreases i,
{
    if i == 0 {
        assert(settings.remove(0) =~= settings.drop_first());
        lemma_setting_absorbed(record, settings[0], settings.drop_first(), j - 1);
    } else {
        assert(settings.remove(i).drop_first() =~= settings.drop_first().remove(i - 1));
        law_overwritten_setting_has_no_effect(
            record.apply(settings[0]),
            settings.drop_first(),
            i - 1,
            j - 1,
        );
    }
}

/// The final record does not depend on the order in which settings of different slots are
/// made: two neighbours of different slots can change places.
pub proof fn law_order_of_unrelated_settings_is_free<E: Engine>(
    record: ConfigRecord<E>,
    settings: Seq<Setting<E>>,
    i: int,
)
    requires
        0 <= i,
        i + 1 < settings.len(),
        settings[i].slot() != settings[i + 1].slot(),
    ensures
        apply_all(record, settings) == apply_all(
            record,
            settings.update(i, settings[i + 1]).update(i + 1, settings[i]),
        ),
    decreases i,
{
    let swapped = settings.update(i, settings[i + 1]).update(i + 1, settings[i]);
    if i == 0 {
        let rest = settings.drop_first().drop_first();
        assert(settings.drop_first()[0] == settings[1]);
        assert(swapped.drop_first()[0] == settings[0]);
        assert(swapped.drop_first().drop_first() =~= rest);
        assert(apply_all(record, settings) == apply_all(
            record.apply(settings[0]).apply(settings[1]),
            rest,
        )) by {
            assert(apply_all(record, settings) == apply_all(
                record.apply(settings[0]),
                settings.drop_first(),
            ));
        }
        assert(apply_all(record, swapped) == apply_all(
            record.apply(settings[1]).apply(settings[0]),
            rest,
        )) by {
            assert(apply_all(record, swapped) == apply_all(
                record.apply(swapped[0]),
                swapped.drop_first(),
            ));
        }
        law_unrelated_settings_commute(record, settings[0], settings[1]);
    } else {
        let rest = settings.drop_first();
        assert(swapped.drop_first() =~= rest.update(i - 1, rest[i]).update(i, rest[i - 1]));
        assert(swapped[0] == settings[0]);
        law_order_of_unrelated_settings_is_free(record.apply(settings[0]), rest, i - 1);
    }
}

/// The two tool registries are separate: a callback registered without a definition and one
/// registered with a definition under the same name are both kept, each in its own registry,
/// in whichever order they were registered.
pub proof fn law_tool_registries_are_separate<E: Engine>(
    record: ConfigRecord<E>,
    name: Seq<char>,
    callback: E::ToolCallback,
    defined: ToolCallbackWithTool<E>,
)
    ensures
        ({
            let plain_first = record.apply(Setting::ToolCallback(name, callback)).apply(
                Setting::ToolCallbackAndTool(name, defined),
            );
            let defined_first = record.apply(Setting::ToolCallbackAndTool(name, defined)).apply(
                Setting::ToolCallback(name, callback),
            );
            &&& plain_first == defined_first
            &&& plain_first.tool_callbacks.contains_key(name)
            &&& plain_first.tool_callbacks[name] == callback
            &&& plain_first.tool_callbacks_with_tools.contains_key(name)
            &&& plain_first.tool_callbacks_with_tools[name] == defined
        }),
{
}

} // verus!
