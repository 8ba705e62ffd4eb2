use std::path::PathBuf;

use text_model::Engine;
use text_model::IsqOrganization;
use text_model::TextModelBuilder;
use text_model::TokenSource;
use text_model::UqffTextModelBuilder;

struct Plain;

impl Engine for Plain {
    type Topology = u32;
    type LoaderType = &'static str;
    type IsqType = u8;
    type DeviceMapSetting = &'static str;
    type EmbeddingModel = &'static str;
    type SearchCallback = fn(&str) -> usize;
    type ToolCallback = fn(&str) -> String;
    type Tool = String;
    type McpClientConfig = String;
    type PagedAttentionConfig = u16;
    type CacheConfig = u64;
}

fn paths() -> Vec<PathBuf> {
    vec![PathBuf::from("part-0.uqff"), PathBuf::from("part-1.uqff")]
}

#[test]
fn uqff_builder_holds_exactly_the_given_paths() {
    let inner = UqffTextModelBuilder::<Plain>::new("m", paths()).into_inner();
    assert_eq!(inner.from_uqff, Some(paths()));
    assert_eq!(inner.write_uqff, None);
}

#[test]
fn uqff_builder_with_no_paths_holds_an_empty_list() {
    let inner = UqffTextModelBuilder::<Plain>::new("m", Vec::new()).into_inner();
    assert_eq!(inner.from_uqff, Some(Vec::new()));
}

#[test]
fn uqff_builder_is_a_base_builder_with_the_paths_set() {
    let wrapped = UqffTextModelBuilder::<Plain>::new("m", paths()).into_inner();
    let base = TextModelBuilder::<Plain>::new("m").from_uqff(paths());
    assert_eq!(wrapped.model_id, base.model_id);
    assert_eq!(wrapped.from_uqff, base.from_uqff);
    assert_eq!(wrapped.max_num_seqs, 32);
    assert_eq!(wrapped.prefix_cache_n, Some(16));
    assert_eq!(wrapped.organization, IsqOrganization::Default);
    assert_eq!(wrapped.token_source, TokenSource::CacheToken);
    assert_eq!(wrapped.dtype, base.dtype);
    assert_eq!(wrapped.isq, base.isq);
    assert_eq!(wrapped.tool_callbacks.len(), 0);
}

#[test]
fn uqff_builder_lends_its_base_builder() {
    let mut w = UqffTextModelBuilder::<Plain>::new("m", paths());
    assert_eq!(w.inner().max_num_seqs, 32);
    w.inner_mut().max_num_seqs = 4;
    assert_eq!(w.inner().max_num_seqs, 4);
    assert_eq!(w.into_inner().from_uqff, Some(paths()));
}

#[test]
fn uqff_builder_converts_into_its_base_builder() {
    let w = UqffTextModelBuilder::<Plain>::new("m", paths());
    let base: TextModelBuilder<Plain> = w.into();
    let base = base.with_max_num_seqs(2);
    assert_eq!(base.from_uqff, Some(paths()));
    assert_eq!(base.max_num_seqs, 2);
}

#[test]
fn uqff_builder_finalizes_like_its_base_builder() {
    let plan = UqffTextModelBuilder::<Plain>::new("m", paths()).build();
    match plan {
        Ok(plan) => {
            assert_eq!(plan.loader.config.from_uqff, Some(paths()));
            assert_eq!(plan.loader.model_id, Some("m".to_string()));
            assert!(!plan.init_logging);
        }
        Err(_) => panic!("expected a plan"),
    }
}
