//! Bounded production of module universes.

use vstd::prelude::*;

verus! {

use crate::builder::{
    spec_generated_shape, DefaultBodySynthesizer, ModuleBuilder,
};
use crate::file_format::{spec_self_id, VerifiedModule};

/// A wrapper around a `ModuleBuilder` producing a bounded sequence of
/// modules: each pull materializes one more module and decrements the
/// remaining count, yielding nothing once the count reaches zero. Later
/// modules can call into earlier ones. The sequence is finite and not
/// restartable.
pub struct ModuleGenerator {
    pub module_builder: ModuleBuilder<DefaultBodySynthesizer>,
    pub iters: u64,
}

impl ModuleGenerator {
    /// The generator is usable whenever its builder is.
    pub open spec fn wf(self) -> bool {
        self.module_builder.wf()
    }

    /// Create a generator producing exactly `iters` modules, each with
    /// tables of at least `table_size` entries, with no synthesis hook.
    pub fn new(table_size: usize, iters: u64) -> (r: ModuleGenerator)
        ensures
            r.wf(),
            r.iters == iters,
            r.module_builder.table_size == table_size,
            r.module_builder.known_modules@.len() == 0,
            r.module_builder.bytecode_gen is None,
    {
        ModuleGenerator { module_builder: ModuleBuilder::new(table_size, None), iters }
    }

    /// Produce one more module, or nothing once the configured count is
    /// exhausted.
    pub fn next(&mut self) -> (r: Option<VerifiedModule>)
        requires
            old(self).wf(),
        ensures
            final(self).wf(),
            final(self).module_builder.table_size == old(self).module_builder.table_size,
            old(self).iters == 0 ==> r is None && *final(self) == *old(self),
            old(self).iters > 0 ==> {
                let m = r.unwrap();
                &&& r is Some
                &&& final(self).iters == old(self).iters - 1
                &&& final(self).module_builder.known_modules@.len() == old(
                    self,
                ).module_builder.known_modules@.len() + 1
                &&& m.module.wf()
                &&& spec_generated_shape(
                    m.module.inner,
                    old(self).module_builder.known_modules@.len() as int,
                    old(self).module_builder.table_size as int,
                )
                &&& final(self).module_builder.known_modules@.last().id@ == spec_self_id(
                    m.module.inner,
                )
            },
    {
        if self.iters == 0 {
            None
        } else {
            self.iters = self.iters - 1;
            Some(self.module_builder.materialize())
        }
    }
}

} // verus!
