use text_model::MemoryGpuConfig;
use text_model::PagedAttentionMetaBuilder;
use text_model::PagedAttentionParams;
use text_model::PagedCacheType;

#[test]
fn meta_builder_defaults() {
    let p = PagedAttentionMetaBuilder::default().params();
    assert_eq!(p.block_size, None);
    assert_eq!(p.mem_cpu, 64);
    assert_eq!(p.mem_gpu, MemoryGpuConfig::ContextSize(4096));
    assert_eq!(p.cache_type, PagedCacheType::Auto);
}

#[test]
fn meta_builder_setters_overwrite_one_field_each() {
    let p = PagedAttentionMetaBuilder::default()
        .with_block_size(16)
        .with_gpu_memory(MemoryGpuConfig::MbAmount(2048))
        .with_paged_cache_type(PagedCacheType::F8E4M3)
        .params();
    assert_eq!(
        p,
        PagedAttentionParams {
            block_size: Some(16),
            mem_cpu: 64,
            mem_gpu: MemoryGpuConfig::MbAmount(2048),
            cache_type: PagedCacheType::F8E4M3,
        }
    );
}

#[test]
fn meta_builder_last_block_size_wins() {
    let p = PagedAttentionMetaBuilder::default()
        .with_block_size(8)
        .with_block_size(32)
        .params();
    assert_eq!(p.block_size, Some(32));
    assert_eq!(p.mem_gpu, MemoryGpuConfig::ContextSize(4096));
}

#[test]
fn meta_builder_setter_order_is_free() {
    let a = PagedAttentionMetaBuilder::default()
        .with_block_size(8)
        .with_paged_cache_type(PagedCacheType::F8E4M3)
        .params();
    let b = PagedAttentionMetaBuilder::default()
        .with_paged_cache_type(PagedCacheType::F8E4M3)
        .with_block_size(8)
        .params();
    assert_eq!(a, b);
}

#[test]
fn build_hands_the_parameters_to_the_constructor() {
    let built = PagedAttentionMetaBuilder::default()
        .with_block_size(32)
        .with_gpu_memory(MemoryGpuConfig::ContextSize(8192))
        .build(|p: PagedAttentionParams| Ok(p));
    let p = built.unwrap();
    assert_eq!(p.block_size, Some(32));
    assert_eq!(p.mem_cpu, 64);
    assert_eq!(p.mem_gpu, MemoryGpuConfig::ContextSize(8192));
    assert_eq!(p.cache_type, PagedCacheType::Auto);
}

#[test]
fn build_returns_the_constructors_error() {
    let built: anyhow::Result<u8> = PagedAttentionMetaBuilder::default()
        .with_block_size(0)
        .build(|p: PagedAttentionParams| {
            if p.block_size == Some(0) {
                Err(anyhow::Error::msg("invalid block size"))
            } else {
                Ok(1)
            }
        });
    assert_eq!(built.unwrap_err().to_string(), "invalid block size");
}
