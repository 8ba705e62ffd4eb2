use vstd::prelude::*;
use crate::builder::ConfigRecord;
use crate::builder::TextModelBuilder;
use crate::engine::Engine;
use crate::error::BuildError;
use crate::options::PositiveUsize;
use crate::plan::AssemblyPlan;
use crate::plan::LoadRequest;
use crate::plan::LoaderRequest;
use crate::plan::PendingRuntime;
use crate::plan::RuntimeRequest;
use crate::scheduler::confirm_paged_attn;
use crate::scheduler::confirmed_paged_attn;
use crate::scheduler::scheduler_config;
use crate::scheduler::scheduler_for;
use crate::scheduler::DefaultSchedulerMethod;
use crate::scheduler::SchedulerConfig;

verus! {

/// What the driver of an assembly is to do next.
pub enum Action<E: Engine> {
    /// Initialize the process-wide logging.
    InitLogging,
    /// Construct the loader.
    BuildLoader(LoaderRequest<E>),
    /// Materialize the model with the loader.
    LoadModel(LoadRequest<E>),
    /// Ask the loaded pipeline for its cache configuration.
    QueryCacheConfig,
    /// Build the runtime around the pipeline, register the attachments and finalize it.
    BuildRuntime(RuntimeRequest<E>),
    /// Hand the finalized runtime to the caller.
    Finish,
    /// Give up and hand the error to the caller.
    Abort(BuildError),
}

/// What the driver reports back after an action.
pub enum Event<E: Engine> {
    /// The action was carried out.
    Completed,
    /// The action failed.
    Failed(anyhow::Error),
    /// The cache configuration that the pipeline reports, if it reports one.
    CacheConfig(Option<E::CacheConfig>),
}

/// Where an assembly stands: what it waits for, and what is still to be handed out.
pub enum Assembly<E: Engine> {
    AwaitLogging { loader: LoaderRequest<E>, load: LoadRequest<E>, runtime: PendingRuntime<E> },
    AwaitLoader { load: LoadRequest<E>, runtime: PendingRuntime<E> },
    AwaitPipeline { runtime: PendingRuntime<E> },
    AwaitCacheConfig { runtime: PendingRuntime<E> },
    AwaitRuntime,
    Done,
    Failed,
}

impl<E: Engine> PendingRuntime<E> {
    /// The request for the runtime once the scheduling policy is known.
    pub open spec fn with_scheduler(
        self,
        scheduler: SchedulerConfig<E::CacheConfig>,
    ) -> RuntimeRequest<E> {
        RuntimeRequest {
            scheduler,
            throughput_logging: self.throughput_logging,
            search_bert_model: self.search_bert_model,
            attachments: self.attachments,
            no_kv_cache: self.no_kv_cache,
            no_prefix_cache: self.no_prefix_cache,
            prefix_cache_n: self.prefix_cache_n,
        }
    }

    /// What follows once the pipeline's cache configuration is known, or known not to
    /// matter: the runtime is built with the policy that is selected for it, or the assembly
    /// ends because no policy can be.
    pub open spec fn scheduled(self, reported: Option<E::CacheConfig>) -> (
        Assembly<E>,
        Action<E>,
    ) {
        match scheduler_for(
            confirmed_paged_attn(self.paged_attn_requested, reported),
            self.max_num_seqs,
        ) {
            Ok(scheduler) => (
                Assembly::AwaitRuntime,
                Action::BuildRuntime(self.with_scheduler(scheduler)),
            ),
            Err(error) => (Assembly::Failed, Action::Abort(error)),
        }
    }

    /// Selects the scheduling policy and asks for the runtime.
    fn schedule(self, reported: Option<E::CacheConfig>) -> (r: (Assembly<E>, Action<E>))
        ensures
            r == self.scheduled(reported),
    {
        let paged_attn = confirm_paged_attn(self.paged_attn_requested, reported);
        match scheduler_config(paged_attn, self.max_num_seqs) {
            Ok(scheduler) => (
                Assembly::AwaitRuntime,
                Action::BuildRuntime(
                    RuntimeRequest {
                        scheduler,
                        throughput_logging: self.throughput_logging,
                        search_bert_model: self.search_bert_model,
                        attachments: self.attachments,
                        no_kv_cache: self.no_kv_cache,
                        no_prefix_cache: self.no_prefix_cache,
                        prefix_cache_n: self.prefix_cache_n,
                    },
                ),
            ),
            Err(error) => (Assembly::Failed, Action::Abort(error)),
        }
    }
}

impl<E: Engine> AssemblyPlan<E> {
    /// The first stage and action of the assembly: logging where it was asked for, and
    /// otherwise the loader at once.
    pub open spec fn first(self) -> (Assembly<E>, Action<E>) {
        if self.init_logging {
            (
                Assembly::AwaitLogging {
                    loader: self.loader,
                    load: self.load,
                    runtime: self.runtime,
                },
                Action::InitLogging,
            )
        } else {
            (
                Assembly::AwaitLoader { load: self.load, runtime: self.runtime },
                Action::BuildLoader(self.loader),
            )
        }
    }

    /// Starts the assembly.
    pub fn begin(self) -> (r: (Assembly<E>, Action<E>))
        ensures
            r == self.first(),
    {
        if self.init_logging {
            (
                Assembly::AwaitLogging {
                    loader: self.loader,
                    load: self.load,
                    runtime: self.runtime,
                },
                Action::InitLogging,
            )
        } else {
            (
                Assembly::AwaitLoader { load: self.load, runtime: self.runtime },
                Action::BuildLoader(self.loader),
            )
        }
    }
}

impl<E: Engine> Assembly<E> {
    /// Where the assembly ends up when the stage it is in does not wait for what was
    /// reported.
    pub open spec fn unexpected() -> (Assembly<E>, Action<E>) {
        (Assembly::Failed, Action::Abort(BuildError::UnexpectedEvent))
    }

    /// The next stage and action after `event`.
    ///
    /// The stages follow each other in one fixed order: logging, the loader, the model, the
    /// cache configuration where paged attention was requested, the runtime. Each is entered
    /// only when the one before it was completed, a failure ends the assembly with its error,
    /// and an assembly that has ended stays ended.
    pub open spec fn next(self, event: Event<E>) -> (Assembly<E>, Action<E>) {
        match self {
            Assembly::AwaitLogging { loader, load, runtime } => match event {
                Event::Completed => (
                    Assembly::AwaitLoader { load, runtime },
                    Action::BuildLoader(loader),
                ),
                _ => Self::unexpected(),
            },
            Assembly::AwaitLoader { load, runtime } => match event {
                Event::Completed => (
                    Assembly::AwaitPipeline { runtime },
                    Action::LoadModel(load),
                ),
                Event::Failed(error) => (
                    Assembly::Failed,
                    Action::Abort(BuildError::Loader(error)),
                ),
                Event::CacheConfig(_) => Self::unexpected(),
            },
            Assembly::AwaitPipeline { runtime } => match event {
                Event::Completed => if runtime.paged_attn_requested {
                    (Assembly::AwaitCacheConfig { runtime }, Action::QueryCacheConfig)
                } else {
                    runtime.scheduled(None)
                },
                Event::Failed(error) => (
                    Assembly::Failed,
                    Action::Abort(BuildError::Load(error)),
                ),
                Event::CacheConfig(_) => Self::unexpected(),
            },
            Assembly::AwaitCacheConfig { runtime } => match event {
                Event::CacheConfig(reported) => runtime.scheduled(reported),
                _ => Self::unexpected(),
            },
            Assembly::AwaitRuntime => match event {
                Event::Completed => (Assembly::Done, Action::Finish),
                Event::Failed(error) => (
                    Assembly::Failed,
                    Action::Abort(BuildError::Runtime(error)),
                ),
                Event::CacheConfig(_) => Self::unexpected(),
            },
            Assembly::Done => Self::unexpected(),
            Assembly::Failed => Self::unexpected(),
        }
    }

    /// Takes the assembly one stage further.
    pub fn step(self, event: Event<E>) -> (r: (Assembly<E>, Action<E>))
        ensures
            r == self.next(event),
    {
        match self {
            Assembly::AwaitLogging { loader, load, runtime } => match event {
                Event::Completed => (
                    Assembly::AwaitLoader { load, runtime },
                    Action::BuildLoader(loader),
                ),
                _ => (Assembly::Failed, Action::Abort(BuildError::UnexpectedEvent)),
            },
            Assembly::AwaitLoader { load, runtime } => match event {
                Event::Completed => (
                    Assembly::AwaitPipeline { runtime },
                    Action::LoadModel(load),
                ),
                Event::Failed(error) => (
                    Assembly::Failed,
                    Action::Abort(BuildError::Loader(error)),
                ),
                Event::CacheConfig(_) => (
                    Assembly::Failed,
                    Action::Abort(BuildError::UnexpectedEvent),
                ),
            },
            Assembly::AwaitPipeline { runtime } => match event {
                Event::Completed => {
                    if runtime.paged_attn_requested {
                        (Assembly::AwaitCacheConfig { runtime }, Action::QueryCacheConfig)
                    } else {
                        runtime.schedule(None)
                    }
                },
                Event::Failed(error) => (
                    Assembly::Failed,
                    Action::Abort(BuildError::Load(error)),
                ),
                Event::CacheConfig(_) => (
                    Assembly::Failed,
                    Action::Abort(BuildError::UnexpectedEvent),
                ),
            },
            Assembly::AwaitCacheConfig { runtime } => match event {
                Event::CacheConfig(reported) => runtime.schedule(reported),
                _ => (Assembly::Failed, Action::Abort(BuildError::UnexpectedEvent)),
            },
            Assembly::AwaitRuntime => match event {
                Event::Completed => (Assembly::Done, Action::Finish),
                Event::Failed(error) => (
                    Assembly::Failed,
                    Action::Abort(BuildError::Runtime(error)),
                ),
                Event::CacheConfig(_) => (
                    Assembly::Failed,
                    Action::Abort(BuildError::UnexpectedEvent),
                ),
            },
            Assembly::Done => (Assembly::Failed, Action::Abort(BuildError::UnexpectedEvent)),
            Assembly::Failed => (Assembly::Failed, Action::Abort(BuildError::UnexpectedEvent)),
        }
    }
}

/// The actions that an assembly asks for, one after each of `events`, starting in `stage`.
pub open spec fn actions_after<E: Engine>(stage: Assembly<E>, events: Seq<Event<E>>) -> Seq<
    Action<E>,
>
    decreases events.len(),
{
    if events.len() == 0 {
        seq![]
    } else {
        let (next, action) = stage.next(events[0]);
        seq![action] + actions_after(next, events.drop_first())
    }
}

/// An assembly that has failed asks for nothing more: whatever is reported to it, it only
/// ever answers that it has given up.
pub proof fn law_failed_assembly_stays_failed<E: Engine>(events: Seq<Event<E>>, i: int)
    requires
        0 <= i < events.len(),
    ensures
        actions_after(Assembly::<E>::Failed, events).len() == events.len(),
        actions_after(Assembly::<E>::Failed, events)[i] == Action::<E>::Abort(
            BuildError::UnexpectedEvent,
        ),
    decreases events.len(),
{
    lemma_actions_len(Assembly::<E>::Failed, events);
    if i > 0 {
        law_failed_assembly_stays_failed::<E>(events.drop_first(), i - 1);
    }
}

/// An assembly answers every event with one action.
proof fn lemma_actions_len<E: Engine>(stage: Assembly<E>, events: Seq<Event<E>>)
    ensures
        actions_after(stage, events).len() == events.len(),
    decreases events.len(),
{
    if events.len() > 0 {
        lemma_actions_len(stage.next(events[0]).0, events.drop_first());
    }
}

/// The stages follow each other in one fixed order: each action is only ever asked for in
/// the stage before it, and only after that stage's own action was carried out.
pub proof fn law_actions_keep_their_order<E: Engine>(stage: Assembly<E>, event: Event<E>)
    ensures
        stage.next(event).1 is BuildLoader ==> stage is AwaitLogging && event is Completed,
        stage.next(event).1 is LoadModel ==> stage is AwaitLoader && event is Completed,
        stage.next(event).1 is QueryCacheConfig ==> stage is AwaitPipeline
            && event is Completed,
        stage.next(event).1 is BuildRuntime ==> (stage is AwaitPipeline && event is Completed)
            || (stage is AwaitCacheConfig && event is CacheConfig),
        stage.next(event).1 is Finish ==> stage is AwaitRuntime && event is Completed,
        !(stage.next(event).1 is InitLogging),
{
}

/// An assembly either goes on or gives up for good: it answers with an error exactly when
/// it enters the failed stage, and every failure that is reported to it makes it do so.
pub proof fn law_failure_ends_the_assembly<E: Engine>(stage: Assembly<E>, event: Event<E>)
    ensures
        stage.next(event).1 is Abort <==> stage.next(event).0 is Failed,
        event is Failed ==> stage.next(event).0 is Failed,
        stage.next(event).0 is Done <==> stage.next(event).1 is Finish,
{
}

/// A loader that cannot be constructed ends the assembly before the model is touched: the
/// failure is answered with the loader's error, and whatever is reported afterwards, the
/// model is never asked to be loaded.
pub proof fn law_failed_loader_never_loads<E: Engine>(
    load: LoadRequest<E>,
    runtime: PendingRuntime<E>,
    error: anyhow::Error,
    later: Seq<Event<E>>,
    i: int,
)
    requires
        0 <= i <= later.len(),
    ensures
        ({
            let actions = actions_after(
                Assembly::AwaitLoader { load, runtime },
                seq![Event::Failed(error)] + later,
            );
            &&& actions.len() == later.len() + 1
            &&& actions[0] == Action::<E>::Abort(BuildError::Loader(error))
            &&& !(actions[i] is LoadModel)
        }),
{
    let stage = Assembly::AwaitLoader { load, runtime };
    let events = seq![Event::Failed(error)] + later;
    assert(events.drop_first() =~= later);
    lemma_actions_len(stage, events);
    if i > 0 {
        law_failed_assembly_stays_failed::<E>(later, i - 1);
    }
}

/// Where the environment does not support paged attention, a request for it is dropped for
/// good: no cache configuration is asked of the pipeline, and whatever the pipeline would
/// report, the runtime gets the default scheduler with the configured limit as its fixed
/// capacity.
pub proof fn law_unsupported_paged_attn_runs_fixed<E: Engine>(
    before: ConfigRecord<E>,
    outcome: Result<E::PagedAttentionConfig, anyhow::Error>,
    builder: TextModelBuilder<E>,
    runtime: PendingRuntime<E>,
    reported: Option<E::CacheConfig>,
)
    requires
        before.request_paged_attn(false, outcome) == Ok::<ConfigRecord<E>, anyhow::Error>(
            builder@,
        ),
        builder.asks_runtime(runtime),
        before.max_num_seqs > 0,
    ensures
        builder.paged_attn_cfg is None,
        (Assembly::AwaitPipeline { runtime }).next(Event::Completed) == runtime.scheduled(
            reported,
        ),
        runtime.scheduled(reported) == (
            Assembly::<E>::AwaitRuntime,
            Action::BuildRuntime(
                runtime.with_scheduler(
                    SchedulerConfig::DefaultScheduler {
                        method: DefaultSchedulerMethod::Fixed(
                            PositiveUsize::of(before.max_num_seqs),
                        ),
                    },
                ),
            ),
        ),
{
}

/// Where the environment supports paged attention and the loaded pipeline reports a cache
/// configuration, the runtime gets the paged-attention scheduler with exactly that cache
/// configuration and the configured limit.
pub proof fn law_confirmed_paged_attn_runs_paged<E: Engine>(
    before: ConfigRecord<E>,
    config: E::PagedAttentionConfig,
    builder: TextModelBuilder<E>,
    runtime: PendingRuntime<E>,
    cache_config: E::CacheConfig,
)
    requires
        before.request_paged_attn(true, Ok(config)) == Ok::<ConfigRecord<E>, anyhow::Error>(
            builder@,
        ),
        builder.asks_runtime(runtime),
    ensures
        builder.paged_attn_cfg == Some(config),
        (Assembly::AwaitPipeline { runtime }).next(Event::Completed) == (
            Assembly::AwaitCacheConfig { runtime },
            Action::<E>::QueryCacheConfig,
        ),
        (Assembly::AwaitCacheConfig { runtime }).next(
            Event::CacheConfig(Some(cache_config)),
        ) == (
            Assembly::<E>::AwaitRuntime,
            Action::BuildRuntime(
                runtime.with_scheduler(
                    SchedulerConfig::PagedAttentionMeta {
                        max_num_seqs: before.max_num_seqs,
                        config: cache_config,
                    },
                ),
            ),
        ),
{
}

} // verus!
