use module_gen::builder::{BodySynthesizer, DefaultBodySynthesizer, ModuleBuilder};
use module_gen::common::{MAX_FIELDS, MAX_STRING_SIZE};
use module_gen::file_format::{
    check_bounds, Bytecode, CompiledModuleMut, FunctionSignature, SignatureToken,
};
use module_gen::generator::ModuleGenerator;

/// A caller-supplied body synthesizer used to check that the hook replaces
/// the default filler.
struct RetOnly;

impl BodySynthesizer for RetOnly {
    fn synthesize(
        &self,
        _locals: &Vec<SignatureToken>,
        _signature: &FunctionSignature,
        _module: &CompiledModuleMut,
    ) -> Vec<Bytecode> {
        vec![Bytecode::Ret]
    }
}

#[test]
fn empty_universe_yields_nothing() {
    let mut gen = ModuleGenerator::new(3, 0);
    assert!(gen.next().is_none());
}

#[test]
fn universe_is_exactly_counted() {
    let mut gen = ModuleGenerator::new(1, 2);
    assert!(gen.next().is_some());
    assert!(gen.next().is_some());
    assert!(gen.next().is_none());
    assert!(gen.next().is_none());
}

#[test]
fn single_module_scenario_table_size_three() {
    // Table size 3, universe size 1, no hook: exactly 3 structs, each with
    // a field count in [1, MAX_FIELDS); exactly 3 local functions and no
    // external calls; identifier pool large enough for every name written.
    let mut gen = ModuleGenerator::new(3, 1);
    let m = gen.next().unwrap();
    let inner = &m.module.inner;
    assert_eq!(inner.struct_defs.len(), 3);
    assert_eq!(inner.struct_handles.len(), 3);
    for d in &inner.struct_defs {
        assert!(1 <= d.field_count && d.field_count < MAX_FIELDS);
    }
    assert_eq!(inner.function_defs.len(), 3);
    assert_eq!(inner.function_handles.len(), 3);
    for h in &inner.function_handles {
        assert_eq!(h.module, 0);
    }
    // 1 self name + 3 random identifiers + 3 struct names + 3 function names
    assert_eq!(inner.identifiers.len(), 10);
    assert!(inner.identifiers.len() >= 1 + 3 + 3);
    assert_eq!(inner.module_handles.len(), 1);
}

#[test]
fn second_module_scenario_table_size_two() {
    // Table size 2, universe size 2: when the second module is built the
    // registry holds exactly one prior module, and the second module gets 2
    // externally targeted function handles plus 2 local ones.
    let mut gen = ModuleGenerator::new(2, 2);
    let _first = gen.next().unwrap();
    assert_eq!(gen.module_builder.known_modules.len(), 1);
    let second = gen.next().unwrap();
    let inner = &second.module.inner;
    assert_eq!(inner.module_handles.len(), 2);
    assert_eq!(inner.function_handles.len(), 4);
    let external = inner.function_handles.iter().filter(|h| h.module != 0).count();
    let local = inner.function_handles.iter().filter(|h| h.module == 0).count();
    assert_eq!(external, 2);
    assert_eq!(local, 2);
}

#[test]
fn cross_call_ratio_over_larger_universe() {
    // Every module after the first carries exactly table_size woven
    // external handles.
    let mut gen = ModuleGenerator::new(4, 3);
    let first = gen.next().unwrap();
    assert_eq!(
        first.module.inner.function_handles.iter().filter(|h| h.module != 0).count(),
        0
    );
    for _ in 0..2 {
        let m = gen.next().unwrap();
        let external = m.module.inner.function_handles.iter().filter(|h| h.module != 0).count();
        assert_eq!(external, 4);
        assert_eq!(m.module.inner.function_handles.len(), 8);
    }
}

#[test]
fn every_generated_module_passes_bounds_recheck() {
    // Re-resolve every cross-table reference of every generated module.
    let mut gen = ModuleGenerator::new(3, 3);
    while let Some(m) = gen.next() {
        assert!(check_bounds(&m.module.inner));
        assert!(!m.module.inner.module_handles.is_empty());
        assert_eq!(m.module.inner.module_handles[0].address, 0);
        assert_eq!(m.module.inner.module_handles[0].name, 0);
    }
}

#[test]
fn registry_key_matches_module_identity() {
    let mut gen = ModuleGenerator::new(2, 2);
    let first = gen.next().unwrap();
    let second = gen.next().unwrap();
    // The registry key of each module is its own identity: handle 0
    // resolves to address-pool position 0 and identifier position 0.
    let entry = &gen.module_builder.known_modules[0];
    assert_eq!(entry.id.address.bytes, first.module.inner.address_pool[0].bytes);
    assert_eq!(entry.id.name.name, first.module.inner.identifiers[0].name);
    // The second module's non-self handle resolves to the first module's
    // identity: calls only reach modules finalized earlier.
    let inner = &second.module.inner;
    let h = inner.module_handles[1];
    assert_eq!(inner.address_pool[h.address].bytes, first.module.inner.address_pool[0].bytes);
    assert_eq!(inner.identifiers[h.name].name, first.module.inner.identifiers[0].name);
}

#[test]
fn same_seed_runs_are_identical() {
    // The builder always seeds its stream the same way, so two generators
    // with the same configuration produce byte-identical module sequences.
    let mut a = ModuleGenerator::new(3, 2);
    let mut b = ModuleGenerator::new(3, 2);
    loop {
        let ma = a.next();
        let mb = b.next();
        assert_eq!(ma, mb);
        if ma.is_none() {
            break;
        }
    }
}

#[test]
fn default_filler_body_is_used_without_hook() {
    let mut gen = ModuleGenerator::new(2, 1);
    let m = gen.next().unwrap();
    for d in &m.module.inner.function_defs {
        assert_eq!(
            d.code.code,
            vec![Bytecode::Sub, Bytecode::Sub, Bytecode::Add, Bytecode::Ret]
        );
        assert!(d.is_public);
        assert!(d.acquires_global_resources.is_empty());
    }
}

#[test]
fn hook_replaces_filler_body() {
    let mut builder = ModuleBuilder::new(2, Some(RetOnly));
    let m = builder.materialize_unverified();
    assert_eq!(m.inner.function_defs.len(), 2);
    for d in &m.inner.function_defs {
        assert_eq!(d.code.code, vec![Bytecode::Ret]);
    }
}

#[test]
fn table_size_zero_degrades_gracefully() {
    // A zero table size is a boundary, not an error: no structs, no
    // functions, no cross-calls, only the self identity.
    let mut gen = ModuleGenerator::new(0, 2);
    let first = gen.next().unwrap();
    let second = gen.next().unwrap();
    for m in [&first, &second] {
        assert_eq!(m.module.inner.struct_defs.len(), 0);
        assert_eq!(m.module.inner.function_handles.len(), 0);
        assert_eq!(m.module.inner.function_defs.len(), 0);
    }
    assert_eq!(second.module.inner.module_handles.len(), 2);
}

#[test]
fn pools_grow_monotonically_through_the_pipeline() {
    // Run the pipeline step by step and watch every pool's length: within
    // one materialize cycle no pool ever shrinks.
    let mut b: ModuleBuilder<DefaultBodySynthesizer> = ModuleBuilder::new(2, None);
    let lens = |m: &CompiledModuleMut| {
        vec![
            m.address_pool.len(),
            m.identifiers.len(),
            m.user_strings.len(),
            m.byte_array_pool.len(),
            m.type_signatures.len(),
            m.module_handles.len(),
            m.struct_handles.len(),
            m.struct_defs.len(),
            m.field_defs.len(),
            m.function_handles.len(),
            m.function_signatures.len(),
            m.locals_signatures.len(),
            m.function_defs.len(),
        ]
    };
    let mut prev = lens(&b.module);
    b.with_callee_modules();
    let mut step = lens(&b.module);
    assert!(prev.iter().zip(step.iter()).all(|(p, s)| p <= s));
    prev = step;
    b.with_account_addresses();
    step = lens(&b.module);
    assert!(prev.iter().zip(step.iter()).all(|(p, s)| p <= s));
    prev = step;
    b.with_identifiers();
    step = lens(&b.module);
    assert!(prev.iter().zip(step.iter()).all(|(p, s)| p <= s));
    prev = step;
    b.with_user_strings();
    step = lens(&b.module);
    assert!(prev.iter().zip(step.iter()).all(|(p, s)| p <= s));
    prev = step;
    b.with_bytearrays();
    step = lens(&b.module);
    assert!(prev.iter().zip(step.iter()).all(|(p, s)| p <= s));
    prev = step;
    b.with_structs();
    step = lens(&b.module);
    assert!(prev.iter().zip(step.iter()).all(|(p, s)| p <= s));
    prev = step;
    b.with_random_functions();
    step = lens(&b.module);
    assert!(prev.iter().zip(step.iter()).all(|(p, s)| p <= s));
}

#[test]
fn generated_identifiers_respect_length_bounds() {
    let mut gen = ModuleGenerator::new(4, 1);
    let m = gen.next().unwrap();
    for id in &m.module.inner.identifiers {
        let len = id.name.chars().count();
        assert!(len >= 1);
        assert!(len < MAX_STRING_SIZE + 7);
    }
    // the randomly drawn identifiers in positions 1..=4 obey the tighter bound
    for id in &m.module.inner.identifiers[1..5] {
        let len = id.name.chars().count();
        assert!((1..MAX_STRING_SIZE).contains(&len));
    }
}

#[test]
fn synthetic_names_are_sequential() {
    let mut gen = ModuleGenerator::new(1, 1);
    let m = gen.next().unwrap();
    // order: self name, 1 random identifier, 1 struct name, 1 function name
    let ids = &m.module.inner.identifiers;
    assert_eq!(ids.len(), 4);
    assert_eq!(ids[2].name, "struct0");
    assert_eq!(ids[3].name, "func0");
}

#[test]
fn woven_handles_copy_callee_names_and_signatures() {
    // Every externally targeted handle of a later module carries a name and
    // a signature copied from the module it calls into.
    let mut gen = ModuleGenerator::new(3, 2);
    let first = gen.next().unwrap();
    let second = gen.next().unwrap();
    let callee = &first.module.inner;
    let inner = &second.module.inner;
    for h in inner.function_handles.iter().filter(|h| h.module != 0) {
        let name = &inner.identifiers[h.name];
        let sig = &inner.function_signatures[h.signature];
        assert!(callee.identifiers.iter().any(|n| n == name));
        assert!(callee.function_signatures.iter().any(|s| s == sig));
    }
}

#[test]
fn materialize_registers_and_returns_the_module() {
    let mut b: ModuleBuilder<DefaultBodySynthesizer> = ModuleBuilder::new(2, None);
    let first = b.materialize();
    assert_eq!(b.known_modules.len(), 1);
    assert_eq!(b.known_modules[0].module, first.module);
    let second = b.materialize();
    assert_eq!(b.known_modules.len(), 2);
    assert_eq!(b.known_modules[1].module, second.module);
}

#[test]
fn display_renders_the_scratch_module() {
    let b: ModuleBuilder<DefaultBodySynthesizer> = ModuleBuilder::new(1, None);
    b.display();
}
