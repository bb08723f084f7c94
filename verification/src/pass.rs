//! Passes once they are compiled: the effect a pass draws with, next to the
//! pass itself.
use vstd::prelude::*;
use crate::builder::EffectInit;
use crate::effect::{retargeted, Effect, EffectResources, PipelineRequest, Target};
use crate::program::Program;

verus! {

/// A compiled pass: the effect it draws with and the pass.
#[derive(Clone, Debug)]
pub struct CompiledPass<R: EffectResources, P> {
    effect: Effect<R>,
    inner: P,
}

impl<R: EffectResources, P> CompiledPass<R, P> {
    /// The effect of the pass.
    pub closed spec fn spec_effect(&self) -> &Effect<R> {
        &self.effect
    }

    /// The pass.
    pub closed spec fn spec_inner(&self) -> P {
        self.inner
    }

    /// The pass `inner`, drawing with `effect`.
    pub fn new(effect: Effect<R>, inner: P) -> (c: CompiledPass<R, P>)
        ensures
            *c.spec_effect() == effect,
            c.spec_inner() == inner,
    {
        CompiledPass { effect, inner }
    }

    /// The effect the pass draws with.
    pub fn effect(&self) -> (e: &Effect<R>)
        ensures
            *e == *self.spec_effect(),
    {
        &self.effect
    }

    /// The pass and its effect, to be changed together when the pass is
    /// applied.
    pub fn parts_mut(&mut self) -> (parts: (&mut P, &mut Effect<R>))
        ensures
            *parts.0 == old(self).spec_inner(),
            *parts.1 == *old(self).spec_effect(),
            final(self).spec_inner() == *final(parts.0),
            *final(self).spec_effect() == *final(parts.1),
    {
        (&mut self.inner, &mut self.effect)
    }

    /// What to recreate the pipeline of the pass from on a reload, with the
    /// description `init` that the pass gives: see
    /// [`Effect::reload_request_with`].
    pub fn reload_request<'s>(
        &self,
        first: Option<&'s Program>,
        second: Option<&'s Program>,
        init: EffectInit<'s>,
    ) -> (req: Option<PipelineRequest<'s>>)
        requires
            self.spec_effect()@.prog.len() >= 2,
        ensures
            req is Some <==> (first is Some && second is Some),
            req matches Some(r) ==> {
                &&& r.stages matches crate::program::ShaderStages::Simple { vertex, pixel }
                &&& vertex@ == second->0.bytes()
                &&& pixel@ == first->0.bytes()
                &&& r.prim == crate::state::Primitive::TriangleList
                &&& r.rast == crate::state::default_rasterizer()
                &&& r.init@ == init@
            },
    {
        self.effect.reload_request_with(first, second, init)
    }

    /// Hands the outputs of a new target to the pass: it draws into them,
    /// blended and not, from now on.
    pub fn new_target(&mut self, target: &Target<R>)
        ensures
            retargeted(old(self).spec_effect()@, final(self).spec_effect()@, target),
            final(self).spec_inner() == old(self).spec_inner(),
    {
        self.effect.new_target(target);
    }
}

} // verus!
