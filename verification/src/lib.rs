//! Assembles a text-model runtime from a declarative configuration.
//!
//! A [`TextModelBuilder`] collects the options; `build` resolves what was left open into an
//! [`AssemblyPlan`]; the plan's [`Assembly`] then tells its driver, one [`Action`] at a time,
//! what to ask of the inference engine, and takes each outcome back as an [`Event`]. The
//! engine itself stays outside: the builder only carries its values, as the types of an
//! [`Engine`].

pub mod engine;
pub mod error;
pub mod options;
pub mod device;
pub mod registry;
pub mod paged_attn;
pub mod builder;
pub mod scheduler;
pub mod plan;
pub mod assembly;
pub mod uqff;

pub use crate::assembly::Action;
pub use crate::assembly::Assembly;
pub use crate::assembly::Event;
pub use crate::builder::TextModelBuilder;
pub use crate::builder::ToolCallbackWithTool;
pub use crate::device::best_device;
pub use crate::device::resolve_device;
pub use crate::engine::Engine;
pub use crate::error::BuildError;
pub use crate::options::IsqOrganization;
pub use crate::options::ModelDType;
pub use crate::options::PositiveUsize;
pub use crate::options::TokenSource;
pub use crate::paged_attn::MemoryGpuConfig;
pub use crate::paged_attn::PagedAttentionMetaBuilder;
pub use crate::paged_attn::PagedAttentionParams;
pub use crate::paged_attn::PagedCacheType;
pub use crate::plan::AssemblyPlan;
pub use crate::plan::Attachment;
pub use crate::plan::DeviceMapping;
pub use crate::plan::LoadRequest;
pub use crate::plan::LoaderRequest;
pub use crate::plan::NormalSpecificConfig;
pub use crate::plan::PendingRuntime;
pub use crate::plan::RuntimeRequest;
pub use crate::registry::Registry;
pub use crate::scheduler::confirm_paged_attn;
pub use crate::scheduler::scheduler_config;
pub use crate::scheduler::DefaultSchedulerMethod;
pub use crate::scheduler::PagedAttention;
pub use crate::scheduler::SchedulerConfig;
pub use crate::uqff::UqffTextModelBuilder;
