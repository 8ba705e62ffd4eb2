use vstd::prelude::*;

verus! {

/// How much device memory the paged-attention cache may take.
#[derive(Clone, Copy, Debug, PartialEq, Eq, Structural)]
pub enum MemoryGpuConfig {
    /// An absolute budget, in the engine's memory unit.
    MbAmount(usize),
    /// As much as a context of this many tokens needs.
    ContextSize(usize),
}

/// The element type of the paged-attention cache.
#[derive(Clone, Copy, Debug, PartialEq, Eq, Structural)]
pub enum PagedCacheType {
    /// The engine selects the type.
    Auto,
    /// 8-bit floating point, four exponent and three mantissa bits.
    F8E4M3,
}

/// The values from which an engine makes its paged-attention configuration.
#[derive(Clone, Copy, Debug, PartialEq, Eq)]
pub struct PagedAttentionParams {
    /// Tokens per cache block; the engine picks its default when absent.
    pub block_size: Option<usize>,
    /// Host-memory budget, in the engine's memory unit.
    pub mem_cpu: usize,
    /// Device-memory budget.
    pub mem_gpu: MemoryGpuConfig,
    /// Cache element type.
    pub cache_type: PagedCacheType,
}

/// Collects the paged-attention parameters before the engine validates them.
pub struct PagedAttentionMetaBuilder {
    block_size: Option<usize>,
    mem_cpu: usize,
    mem_gpu: MemoryGpuConfig,
    cache_type: PagedCacheType,
}

impl View for PagedAttentionMetaBuilder {
    type V = PagedAttentionParams;

    closed spec fn view(&self) -> PagedAttentionParams {
        PagedAttentionParams {
            block_size: self.block_size,
            mem_cpu: self.mem_cpu,
            mem_gpu: self.mem_gpu,
            cache_type: self.cache_type,
        }
    }
}

/// The parameters of a builder that nothing was set on: no block size, a host budget of 64,
/// a device budget sized for a context of 4096 tokens, and an automatic cache type.
pub open spec fn default_paged_attention_params() -> PagedAttentionParams {
    PagedAttentionParams {
        block_size: None,
        mem_cpu: 64,
        mem_gpu: MemoryGpuConfig::ContextSize(4096),
        cache_type: PagedCacheType::Auto,
    }
}

impl Default for PagedAttentionMetaBuilder {
    fn default() -> (r: Self)
        ensures
            r@ == default_paged_attention_params(),
    {
        PagedAttentionMetaBuilder {
            block_size: None,
            mem_cpu: 64,
            mem_gpu: MemoryGpuConfig::ContextSize(4096),
            cache_type: PagedCacheType::Auto,
        }
    }
}

impl PagedAttentionMetaBuilder {
    /// Sets the number of tokens per cache block.
    pub fn with_block_size(self, block_size: usize) -> (r: Self)
        ensures
            r@ == (PagedAttentionParams { block_size: Some(block_size), ..self@ }),
    {
        let mut b = self;
        b.block_size = Some(block_size);
        b
    }

    /// Sets the device-memory budget.
    pub fn with_gpu_memory(self, mem_gpu: MemoryGpuConfig) -> (r: Self)
        ensures
            r@ == (PagedAttentionParams { mem_gpu, ..self@ }),
    {
        let mut b = self;
        b.mem_gpu = mem_gpu;
        b
    }

    /// Sets the cache element type.
    pub fn with_paged_cache_type(self, cache_type: PagedCacheType) -> (r: Self)
        ensures
            r@ == (PagedAttentionParams { cache_type, ..self@ }),
    {
        let mut b = self;
        b.cache_type = cache_type;
        b
    }

    /// The collected parameters.
    pub fn params(&self) -> (p: PagedAttentionParams)
        ensures
            p == self@,
    {
        PagedAttentionParams {
            block_size: self.block_size,
            mem_cpu: self.mem_cpu,
            mem_gpu: self.mem_gpu,
            cache_type: self.cache_type,
        }
    }

    /// Hands the collected parameters to the engine's constructor and returns what it gives:
    /// the engine's configuration, or the error with which it turned the parameters down.
    ///
    /// The constructor is called exactly once, with exactly the collected parameters.
    pub fn build<C, F: FnOnce(PagedAttentionParams) -> Result<C, anyhow::Error>>(
        self,
        construct: F,
    ) -> (r: Result<C, anyhow::Error>)
        requires
            construct.requires((self@,)),
        ensures
            construct.ensures((self@,), r),
    {
        let params = self.params();
        construct(params)
    }
}

} // verus!
