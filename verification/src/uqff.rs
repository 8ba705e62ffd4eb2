use vstd::prelude::*;
use std::path::PathBuf;
use crate::builder::ConfigRecord;
use crate::builder::Setting;
use crate::builder::TextModelBuilder;
use crate::engine::Engine;
use crate::error::BuildError;
use crate::plan::AssemblyPlan;

verus! {

/// A text-model builder for a model that is read from precompiled artifacts.
///
/// It is a base builder on which the artifacts are already set, and nothing more: the base
/// builder can be borrowed or taken out at any time, and finalizing the wrapper is
/// finalizing the base builder.
pub struct UqffTextModelBuilder<E: Engine>(pub TextModelBuilder<E>);

impl<E: Engine> View for UqffTextModelBuilder<E> {
    type V = ConfigRecord<E>;

    open spec fn view(&self) -> ConfigRecord<E> {
        self.0@
    }
}

impl<E: Engine> UqffTextModelBuilder<E> {
    /// A builder for the model `model_id`, read from the artifacts `uqff_file`: the base
    /// builder's defaults, with exactly these paths as the artifacts to read from.
    pub fn new(model_id: &str, uqff_file: Vec<PathBuf>) -> (r: Self)
        ensures
            r@ == ConfigRecord::<E>::initial(model_id@).apply(Setting::FromUqff(uqff_file@)),
            r@.from_uqff == Some(uqff_file@),
    {
        let inner = TextModelBuilder::new(model_id);
        UqffTextModelBuilder(inner.from_uqff(uqff_file))
    }

    /// Finalizes the base builder.
    pub fn build(self) -> (r: Result<AssemblyPlan<E>, BuildError>)
        ensures
            self.0.builds(r),
    {
        self.0.build()
    }

    /// The base builder, with everything that was set on it.
    pub fn into_inner(self) -> (r: TextModelBuilder<E>)
        ensures
            r == self.0,
    {
        self.0
    }

    /// The base builder, to read from.
    pub fn inner(&self) -> (r: &TextModelBuilder<E>)
        ensures
            *r == self.0,
    {
        &self.0
    }

    /// The base builder, to write to.
    pub fn inner_mut(&mut self) -> (r: &mut TextModelBuilder<E>)
        ensures
            *r == old(self).0,
            final(self).0 == *final(r),
    {
        &mut self.0
    }
}

impl<E: Engine> From<UqffTextModelBuilder<E>> for TextModelBuilder<E> {
    fn from(value: UqffTextModelBuilder<E>) -> (r: Self) {
        value.0
    }
}

impl<E: Engine> vstd::std_specs::convert::FromSpecImpl<UqffTextModelBuilder<E>> for TextModelBuilder<E> {
    open spec fn obeys_from_spec() -> bool {
        true
    }

    open spec fn from_spec(value: UqffTextModelBuilder<E>) -> Self {
        value.0
    }
}

} // verus!
