use vstd::prelude::*;
use crate::error::BuildError;
use crate::options::PositiveUsize;

verus! {

/// How the default scheduler bounds the sequences that run at once.
pub enum DefaultSchedulerMethod {
    /// A fixed number of sequences.
    Fixed(PositiveUsize),
}

/// The scheduling policy that a runtime is built with.
pub enum SchedulerConfig<C> {
    /// The default scheduler with a fixed capacity.
    DefaultScheduler { method: DefaultSchedulerMethod },
    /// The paged-attention scheduler, with the cache configuration that the pipeline reported.
    PagedAttentionMeta { max_num_seqs: usize, config: C },
}

/// Paged attention after the pipeline was asked: a request counts only where the loaded
/// pipeline confirms it with a cache configuration.
pub enum PagedAttention<C> {
    /// Requested, and confirmed by the pipeline with this cache configuration.
    Active { config: C },
    /// Not requested, or requested and not confirmed.
    Inactive,
}

/// Paged attention is active exactly where it was requested and the pipeline reports a
/// cache configuration.
pub open spec fn confirmed_paged_attn<C>(requested: bool, reported: Option<C>) -> PagedAttention<
    C,
> {
    match reported {
        Some(config) => if requested {
            PagedAttention::Active { config }
        } else {
            PagedAttention::Inactive
        },
        None => PagedAttention::Inactive,
    }
}

/// The policy for a paged-attention state and a sequence limit: the paged-attention scheduler
/// with the confirmed cache configuration and the limit as it is; otherwise the default
/// scheduler with the limit as its fixed capacity, which has to be at least one.
pub open spec fn scheduler_for<C>(paged_attn: PagedAttention<C>, max_num_seqs: usize) -> Result<
    SchedulerConfig<C>,
    BuildError,
> {
    match paged_attn {
        PagedAttention::Active { config } => Ok(
            SchedulerConfig::PagedAttentionMeta { max_num_seqs, config },
        ),
        PagedAttention::Inactive => if max_num_seqs > 0 {
            Ok(
                SchedulerConfig::DefaultScheduler {
                    method: DefaultSchedulerMethod::Fixed(PositiveUsize::of(max_num_seqs)),
                },
            )
        } else {
            Err(BuildError::MaxNumSeqs)
        },
    }
}

/// Holds a request for paged attention against what the loaded pipeline reports.
pub fn confirm_paged_attn<C>(requested: bool, reported: Option<C>) -> (r: PagedAttention<C>)
    ensures
        r == confirmed_paged_attn(requested, reported),
{
    match reported {
        Some(config) => {
            if requested {
                PagedAttention::Active { config }
            } else {
                PagedAttention::Inactive
            }
        },
        None => PagedAttention::Inactive,
    }
}

/// Selects the scheduling policy.
///
/// Fails only for the default scheduler with a limit of zero sequences.
pub fn scheduler_config<C>(paged_attn: PagedAttention<C>, max_num_seqs: usize) -> (r: Result<
    SchedulerConfig<C>,
    BuildError,
>)
    ensures
        r == scheduler_for(paged_attn, max_num_seqs),
{
    match paged_attn {
        PagedAttention::Active { config } => Ok(
            SchedulerConfig::PagedAttentionMeta { max_num_seqs, config },
        ),
        PagedAttention::Inactive => match PositiveUsize::new(max_num_seqs) {
            Some(limit) => Ok(
                SchedulerConfig::DefaultScheduler { method: DefaultSchedulerMethod::Fixed(limit) },
            ),
            None => Err(BuildError::MaxNumSeqs),
        },
    }
}

} // verus!
