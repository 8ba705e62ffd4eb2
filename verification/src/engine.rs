use vstd::prelude::*;

verus! {

/// The value types that an inference engine brings with it.
///
/// The builder carries values of these types from the caller to the engine and never
/// looks inside them, so an engine is free to choose what they are.
pub trait Engine {
    /// Per-layer placement and precision override.
    type Topology;

    /// Selects the architecture-specific loader.
    type LoaderType;

    /// In-place quantization mode.
    type IsqType;

    /// An explicit device-mapping strategy.
    type DeviceMapSetting;

    /// Selects the embedding model that web search ranks results with.
    type EmbeddingModel;

    /// Replaces the built-in web-search function.
    type SearchCallback;

    /// Handles calls of one named tool.
    type ToolCallback;

    /// A structured tool definition that is advertised to the model.
    type Tool;

    /// How to reach an external tool server.
    type McpClientConfig;

    /// The engine's own validated paged-attention configuration.
    type PagedAttentionConfig;

    /// The cache configuration that a loaded pipeline reports.
    type CacheConfig;
}

} // verus!
