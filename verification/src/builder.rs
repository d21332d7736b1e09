//! The module builder: random, invariant-preserving construction of one
//! module at a time, against a growing registry of finalized modules.
//!
//! One `materialize` call runs the whole pipeline: seed the module-handle
//! table with the module's own identity and every known module, fill the
//! leaf pools, generate structs, weave cross-module calls, generate local
//! functions, freeze the result, and register it. Every step appends only,
//! so every index written earlier stays valid; cross-module calls resolve
//! only against modules finalized earlier, which keeps the call graph a
//! rooted DAG.

use std::io::Write;

use vstd::prelude::*;

verus! {

use crate::common::{
    ADDRESS_LENGTH, BYTE_ARRAY_MAX_SIZE, DEFAULT_MAX_STACK_SIZE, MAX_FIELDS,
    MAX_FUNCTION_CALL_SIZE, MAX_NUM_LOCALS, MAX_RETURN_TYPES_LENGTH, MAX_STRING_SIZE,
    MODULE_NAME_LENGTH,
};
use crate::file_format::{
    copy_vec, id_eq, lemma_view_eq_wf, module_view_eq, field_defs_ok, function_defs_ok, function_handles_ok, has_self_handle,
    module_handles_ok, module_wf, push_char, spec_handle_id, spec_self_id, struct_defs_ok,
    struct_handles_ok, AccountAddress, ByteArray, Bytecode, CodeUnit, CompiledModule,
    CompiledModuleMut, FieldDefinition, FunctionDefinition, FunctionHandle, FunctionSignature,
    Identifier, LocalsSignature, ModuleHandle, ModuleId, ModuleIdV, SignatureToken,
    StructDefinition, StructHandle, VerifiedModule,
};
use crate::rng::{rng_byte, rng_char, rng_coin, rng_from_seed, rng_range};

/// A strategy producing instruction bodies for generated functions.
///
/// A caller may supply its own implementation at construction time; when
/// none is supplied the fixed filler body is used. The hook receives the
/// locals of the function, its signature, and a snapshot of the module
/// generated so far, and returns the instruction sequence to store.
pub trait BodySynthesizer {
    fn synthesize(
        &self,
        locals: &Vec<SignatureToken>,
        signature: &FunctionSignature,
        module: &CompiledModuleMut,
    ) -> Vec<Bytecode>;
}

/// The fixed filler body stored when no synthesis hook is supplied:
/// non-empty, non-semantic.
pub open spec fn spec_filler_body() -> Seq<Bytecode> {
    seq![Bytecode::Sub, Bytecode::Sub, Bytecode::Add, Bytecode::Ret]
}

/// Build the fixed filler body.
pub fn filler_body() -> (r: Vec<Bytecode>)
    ensures
        r@ == spec_filler_body(),
{
    let mut r: Vec<Bytecode> = Vec::new();
    r.push(Bytecode::Sub);
    r.push(Bytecode::Sub);
    r.push(Bytecode::Add);
    r.push(Bytecode::Ret);
    proof {
        assert(r@ =~= spec_filler_body());
    }
    r
}

/// The synthesizer used when no hook is supplied.
pub struct DefaultBodySynthesizer;

impl BodySynthesizer for DefaultBodySynthesizer {
    fn synthesize(
        &self,
        locals: &Vec<SignatureToken>,
        signature: &FunctionSignature,
        module: &CompiledModuleMut,
    ) -> Vec<Bytecode> {
        filler_body()
    }
}

/// A finalized module in the registry, keyed by its identity. Entries are
/// only ever appended, in generation order, and never mutated.
pub struct KnownModule {
    pub id: ModuleId,
    pub module: CompiledModule,
}

/// What holds of every registry entry: the module is frozen well-formed,
/// the key is the module's own identity, and the module offers at least
/// `table_size` function handles for cross-call weaving to pick from.
pub open spec fn entry_wf(e: KnownModule, table_size: usize) -> bool {
    &&& e.module.wf()
    &&& e.id@ == spec_self_id(e.module.inner)
    &&& e.module.inner.function_handles@.len() >= table_size
}

/// Module-handle position `p` of `m` is in bounds and resolves to `id`.
pub open spec fn handle_resolves_to(m: CompiledModuleMut, p: int, id: ModuleIdV) -> bool {
    let h = m.module_handles@[p];
    &&& h.address < m.address_pool@.len()
    &&& h.name < m.identifiers@.len()
    &&& spec_handle_id(m, p) == id
}

/// `m` mentions the identity `id` through some non-self module handle.
pub open spec fn module_refs(m: CompiledModuleMut, id: ModuleIdV) -> bool {
    exists|p: int| 1 <= p < m.module_handles@.len() && handle_resolves_to(m, p, id)
}

/// Every identity mentioned by entry `k` belongs to an earlier entry: the
/// ordering constraint that keeps the universe's call graph acyclic.
pub open spec fn entry_refs_earlier(u: Seq<KnownModule>, k: int) -> bool {
    forall|id: ModuleIdV|
        module_refs(u[k].module.inner, id) ==> exists|j: int| 0 <= j < k && u[j].id@ == id
}

/// The registry invariant.
pub open spec fn universe_wf(u: Seq<KnownModule>, table_size: usize) -> bool {
    forall|k: int|
        0 <= k < u.len() ==> entry_wf(#[trigger] u[k], table_size) && entry_refs_earlier(u, k)
}

/// The module-handle table mirrors the registry: handle `p >= 1` resolves to
/// the identity of registry entry `p - 1`.
pub open spec fn handles_match_registry(m: CompiledModuleMut, u: Seq<KnownModule>) -> bool {
    &&& m.module_handles@.len() == 1 + u.len()
    &&& forall|p: int|
        1 <= p < m.module_handles@.len() ==> handle_resolves_to(m, p, #[trigger] u[p - 1].id@)
}

/// Function handle `i` of `m` is a woven cross-call: it points at a
/// non-self module handle that resolves to some registry entry, and its
/// name and signature are copies, by value, of those of some function
/// handle of that entry's module.
pub open spec fn is_woven_copy(m: CompiledModuleMut, i: int, u: Seq<KnownModule>) -> bool {
    let h = m.function_handles@[i];
    &&& h.name < m.identifiers@.len()
    &&& h.signature < m.function_signatures@.len()
    &&& 1 <= h.module < m.module_handles@.len()
    &&& exists|e: int, fi: int|
        #![trigger u[e].module.inner.function_handles@[fi]]
        {
            &&& 0 <= e < u.len()
            &&& handle_resolves_to(m, h.module as int, u[e].id@)
            &&& 0 <= fi < u[e].module.inner.function_handles@.len()
            &&& {
                let cfh = u[e].module.inner.function_handles@[fi];
                &&& cfh.name < u[e].module.inner.identifiers@.len()
                &&& cfh.signature < u[e].module.inner.function_signatures@.len()
                &&& m.identifiers@[h.name as int]@ == u[e].module.inner.identifiers@[cfh.name as int]@
                &&& m.function_signatures@[h.signature as int]@
                    == u[e].module.inner.function_signatures@[cfh.signature as int]@
            }
        }
}

/// Every pool of `b` extends the corresponding pool of `a`: construction is
/// append-only, so lengths never decrease and written entries never move.
pub open spec fn module_extends(a: CompiledModuleMut, b: CompiledModuleMut) -> bool {
    &&& a.address_pool@.is_prefix_of(b.address_pool@)
    &&& a.identifiers@.is_prefix_of(b.identifiers@)
    &&& a.user_strings@.is_prefix_of(b.user_strings@)
    &&& a.byte_array_pool@.is_prefix_of(b.byte_array_pool@)
    &&& a.type_signatures@.is_prefix_of(b.type_signatures@)
    &&& a.module_handles@.is_prefix_of(b.module_handles@)
    &&& a.struct_handles@.is_prefix_of(b.struct_handles@)
    &&& a.struct_defs@.is_prefix_of(b.struct_defs@)
    &&& a.field_defs@.is_prefix_of(b.field_defs@)
    &&& a.function_handles@.is_prefix_of(b.function_handles@)
    &&& a.function_signatures@.is_prefix_of(b.function_signatures@)
    &&& a.locals_signatures@.is_prefix_of(b.locals_signatures@)
    &&& a.function_defs@.is_prefix_of(b.function_defs@)
}

/// The primitive types every fresh module is seeded with.
pub open spec fn spec_primitive_tokens() -> Seq<SignatureToken> {
    seq![
        SignatureToken::Bool,
        SignatureToken::U64,
        SignatureToken::Str,
        SignatureToken::ByteArray,
        SignatureToken::Address,
    ]
}

/// A fresh module: empty but for the primitive type signatures.
pub open spec fn module_is_fresh(m: CompiledModuleMut) -> bool {
    &&& m.address_pool@.len() == 0
    &&& m.identifiers@.len() == 0
    &&& m.user_strings@.len() == 0
    &&& m.byte_array_pool@.len() == 0
    &&& m.type_signatures@ == spec_primitive_tokens()
    &&& m.module_handles@.len() == 0
    &&& m.struct_handles@.len() == 0
    &&& m.struct_defs@.len() == 0
    &&& m.field_defs@.len() == 0
    &&& m.function_handles@.len() == 0
    &&& m.function_signatures@.len() == 0
    &&& m.locals_signatures@.len() == 0
    &&& m.function_defs@.len() == 0
}

/// The decimal digits of `n`, most significant first.
pub open spec fn spec_decimal(n: int) -> Seq<char>
    decreases n,
{
    if n < 10 {
        seq![spec_digit_char(n)]
    } else {
        spec_decimal(n / 10).push(spec_digit_char(n % 10))
    }
}

/// The character for one decimal digit.
pub open spec fn spec_digit_char(d: int) -> char {
    (('0' as u8) + d) as char
}

/// The synthetic name of the `i`-th generated function.
pub open spec fn spec_func_name(i: int) -> Seq<char> {
    "func"@ + spec_decimal(i)
}

/// The synthetic name of the `i`-th generated struct.
pub open spec fn spec_struct_name(i: int) -> Seq<char> {
    "struct"@ + spec_decimal(i)
}

/// Append the decimal digits of `n` to `s`.
fn push_decimal(s: &mut String, n: usize)
    ensures
        final(s)@ == old(s)@ + spec_decimal(n as int),
    decreases n,
{
    if n >= 10 {
        push_decimal(s, n / 10);
        push_char(s, (('0' as u8) + ((n % 10) as u8)) as char);
    } else {
        push_char(s, (('0' as u8) + (n as u8)) as char);
    }
}

/// Build the synthetic identifier `prefix` + decimal `i`.
fn synthetic_name(prefix: &str, i: usize) -> (r: Identifier)
    ensures
        r@ == prefix@ + spec_decimal(i as int),
{
    let mut s = String::new();
    s.append(prefix);
    push_decimal(&mut s, i);
    proof {
        assert(s@ =~= prefix@ + spec_decimal(i as int));
    }
    Identifier { name: s }
}

/// Draw a random address of `ADDRESS_LENGTH` bytes.
fn random_address(rng: &mut rand::rngs::StdRng) -> (r: AccountAddress)
    ensures
        r@.len() == ADDRESS_LENGTH,
{
    let mut bytes: Vec<u8> = Vec::new();
    let mut i: usize = 0;
    while i < ADDRESS_LENGTH
        invariant
            i <= ADDRESS_LENGTH,
            bytes@.len() == i,
        decreases ADDRESS_LENGTH - i,
    {
        bytes.push(rng_byte(rng));
        i = i + 1;
    }
    AccountAddress { bytes }
}

/// Draw a random string of exactly `len` characters.
fn random_string(rng: &mut rand::rngs::StdRng, len: usize) -> (r: String)
    ensures
        r@.len() == len,
{
    let mut s = String::new();
    let mut i: usize = 0;
    while i < len
        invariant
            i <= len,
            s@.len() == i,
        decreases len - i,
    {
        push_char(&mut s, rng_char(rng));
        i = i + 1;
    }
    s
}

/// Draw a random identifier of exactly `len` characters; `len >= 1`, so
/// identifier construction always succeeds.
fn random_identifier(rng: &mut rand::rngs::StdRng, len: usize) -> (r: Identifier)
    requires
        len >= 1,
    ensures
        r@.len() == len,
        r.is_valid(),
{
    let s = random_string(rng, len);
    Identifier::new(s).unwrap()
}

/// Draw a random byte array of exactly `len` bytes.
fn random_byte_array(rng: &mut rand::rngs::StdRng, len: usize) -> (r: ByteArray)
    ensures
        r@.len() == len,
{
    let mut bytes: Vec<u8> = Vec::new();
    let mut i: usize = 0;
    while i < len
        invariant
            i <= len,
            bytes@.len() == i,
        decreases len - i,
    {
        bytes.push(rng_byte(rng));
        i = i + 1;
    }
    ByteArray { bytes }
}

/// Draw `n` random tokens from the given non-empty palette.
fn random_tokens(rng: &mut rand::rngs::StdRng, palette: &Vec<SignatureToken>, n: usize) -> (r: Vec<
    SignatureToken,
>)
    requires
        palette@.len() >= 1,
    ensures
        r@.len() == n,
{
    let mut r: Vec<SignatureToken> = Vec::new();
    let mut i: usize = 0;
    while i < n
        invariant
            i <= n,
            r@.len() == i,
            palette@.len() >= 1,
        decreases n - i,
    {
        let idx: usize = rng_range(rng, 0, palette.len());
        r.push(palette[idx]);
        i = i + 1;
    }
    r
}

/// Appending to pools never invalidates indices already written: each table
/// predicate is preserved when its own table is unchanged and every pool it
/// points into only grows.
pub proof fn lemma_extends_preserves_ok(a: CompiledModuleMut, b: CompiledModuleMut)
    requires
        module_extends(a, b),
    ensures
        module_handles_ok(a) && b.module_handles@ == a.module_handles@ ==> module_handles_ok(b),
        struct_handles_ok(a) && b.struct_handles@ == a.struct_handles@ ==> struct_handles_ok(b),
        struct_defs_ok(a) && b.struct_defs@ == a.struct_defs@ && b.field_defs@ == a.field_defs@
            ==> struct_defs_ok(b),
        field_defs_ok(a) && b.field_defs@ == a.field_defs@ ==> field_defs_ok(b),
        function_handles_ok(a) && b.function_handles@ == a.function_handles@
            ==> function_handles_ok(b),
        function_defs_ok(a) && b.function_defs@ == a.function_defs@ ==> function_defs_ok(b),
        has_self_handle(a) && b.module_handles@ == a.module_handles@ ==> has_self_handle(b),
{
}

/// Extension with an unchanged module-handle table keeps every handle
/// resolving to the same registry identity.
pub proof fn lemma_extends_preserves_match(
    a: CompiledModuleMut,
    b: CompiledModuleMut,
    u: Seq<KnownModule>,
)
    requires
        handles_match_registry(a, u),
        module_extends(a, b),
        b.module_handles@ == a.module_handles@,
    ensures
        handles_match_registry(b, u),
{
    assert forall|p: int| 1 <= p < b.module_handles@.len() implies handle_resolves_to(
        b,
        p,
        #[trigger] u[p - 1].id@,
    ) by {
        assert(handle_resolves_to(a, p, u[p - 1].id@));
        let h = a.module_handles@[p];
        assert(b.address_pool@[h.address as int] == a.address_pool@[h.address as int]);
        assert(b.identifiers@[h.name as int] == a.identifiers@[h.name as int]);
    }
}

/// The table shape of a module generated against a registry of `k` earlier
/// modules with table size `ts`: one module handle per known module plus
/// the self handle; `ts` woven external function handles when at least one
/// other module was known, else none; `ts` local functions, index-aligned
/// with their definitions; `ts` structs; and pools grown accordingly.
pub open spec fn spec_generated_shape(m: CompiledModuleMut, k: int, ts: int) -> bool {
    let w = if k >= 1 {
        ts
    } else {
        0int
    };
    &&& m.module_handles@.len() == 1 + k
    &&& m.function_handles@.len() == w + ts
    &&& (forall|i: int|
        0 <= i < w ==> 1 <= (#[trigger] m.function_handles@[i]).module < 1 + k)
    &&& (forall|i: int| w <= i < w + ts ==> (#[trigger] m.function_handles@[i]).module == 0)
    &&& m.struct_handles@.len() == ts
    &&& m.struct_defs@.len() == ts
    &&& (forall|i: int|
        0 <= i < ts ==> 1 <= (#[trigger] m.struct_defs@[i]).field_count < MAX_FIELDS)
    &&& m.function_defs@.len() == ts
    &&& (forall|i: int|
        0 <= i < ts ==> (#[trigger] m.function_defs@[i]).function == w + i
            && m.function_defs@[i].code.locals == i && m.function_defs@[i].is_public)
    &&& m.identifiers@.len() == 1 + k + 3 * ts + w
    &&& m.address_pool@.len() == 1 + k + ts
    &&& m.user_strings@.len() == ts
    &&& m.byte_array_pool@.len() == ts
    &&& m.locals_signatures@.len() == ts
    &&& m.function_signatures@.len() == w + ts
}

/// Appending to pools, with the module-handle table and the handle itself
/// unchanged, keeps a woven copy a woven copy.
pub proof fn lemma_extends_preserves_woven(
    a: CompiledModuleMut,
    b: CompiledModuleMut,
    u: Seq<KnownModule>,
    i: int,
)
    requires
        0 <= i < a.function_handles@.len(),
        is_woven_copy(a, i, u),
        module_extends(a, b),
        b.module_handles@ == a.module_handles@,
        b.function_handles@[i] == a.function_handles@[i],
    ensures
        is_woven_copy(b, i, u),
{
    let h = a.function_handles@[i];
    let (e, fi) = choose|e: int, fi: int|
        #![trigger u[e].module.inner.function_handles@[fi]]
        {
            &&& 0 <= e < u.len()
            &&& handle_resolves_to(a, h.module as int, u[e].id@)
            &&& 0 <= fi < u[e].module.inner.function_handles@.len()
            &&& {
                let cfh = u[e].module.inner.function_handles@[fi];
                &&& cfh.name < u[e].module.inner.identifiers@.len()
                &&& cfh.signature < u[e].module.inner.function_signatures@.len()
                &&& a.identifiers@[h.name as int]@ == u[e].module.inner.identifiers@[cfh.name as int]@
                &&& a.function_signatures@[h.signature as int]@
                    == u[e].module.inner.function_signatures@[cfh.signature as int]@
            }
        };
    let cfh = u[e].module.inner.function_handles@[fi];
    assert(b.identifiers@[h.name as int] == a.identifiers@[h.name as int]) by {
        assert(a.identifiers@[h.name as int] == b.identifiers@.subrange(
            0,
            a.identifiers@.len() as int,
        )[h.name as int]);
    }
    assert(b.function_signatures@[h.signature as int] == a.function_signatures@[h.signature
        as int]) by {
        assert(a.function_signatures@[h.signature as int] == b.function_signatures@.subrange(
            0,
            a.function_signatures@.len() as int,
        )[h.signature as int]);
    }
    let mh = a.module_handles@[h.module as int];
    assert(b.address_pool@[mh.address as int] == a.address_pool@[mh.address as int]) by {
        assert(a.address_pool@[mh.address as int] == b.address_pool@.subrange(
            0,
            a.address_pool@.len() as int,
        )[mh.address as int]);
    }
    assert(b.identifiers@[mh.name as int] == a.identifiers@[mh.name as int]) by {
        assert(a.identifiers@[mh.name as int] == b.identifiers@.subrange(
            0,
            a.identifiers@.len() as int,
        )[mh.name as int]);
    }
    assert(handle_resolves_to(b, h.module as int, u[e].id@));
    assert(u[e].module.inner.function_handles@[fi] == cfh);
}

/// A wrapper around the module under construction holding everything
/// generation needs: the source of randomness, the registry of modules
/// already finalized, the configured minimum table size, and the optional
/// body-synthesis hook.
pub struct ModuleBuilder<S: BodySynthesizer> {
    /// The source of randomness used across the modules generated.
    pub gen: rand::rngs::StdRng,
    /// The module currently being built.
    pub module: CompiledModuleMut,
    /// The minimum size of the tables in each generated module.
    pub table_size: usize,
    /// Modules previously finalized by this builder, keyed by identity, in
    /// generation order; cross-call weaving resolves against these.
    pub known_modules: Vec<KnownModule>,
    /// Body synthesis for generated function bodies, if a hook was supplied.
    pub bytecode_gen: Option<S>,
}

impl<S: BodySynthesizer> ModuleBuilder<S> {
    /// The registry invariant, tied to this builder's table size.
    pub open spec fn registry_wf(self) -> bool {
        universe_wf(self.known_modules@, self.table_size)
    }

    /// The builder invariant between `materialize` calls: a well-formed
    /// registry and a fresh scratch module.
    pub open spec fn wf(self) -> bool {
        &&& self.registry_wf()
        &&& module_is_fresh(self.module)
    }

    /// Configuration and registry are untouched.
    pub open spec fn same_config(self, b: ModuleBuilder<S>) -> bool {
        &&& b.table_size == self.table_size
        &&& b.known_modules == self.known_modules
        &&& b.bytecode_gen == self.bytecode_gen
    }

    /// An empty module seeded with the primitive type signatures, so struct
    /// and function generation can point at them.
    fn default_module_with_types() -> (m: CompiledModuleMut)
        ensures
            module_is_fresh(m),
    {
        let mut type_signatures: Vec<SignatureToken> = Vec::new();
        type_signatures.push(SignatureToken::Bool);
        type_signatures.push(SignatureToken::U64);
        type_signatures.push(SignatureToken::Str);
        type_signatures.push(SignatureToken::ByteArray);
        type_signatures.push(SignatureToken::Address);
        proof {
            assert(type_signatures@ =~= spec_primitive_tokens());
        }
        CompiledModuleMut {
            address_pool: Vec::new(),
            identifiers: Vec::new(),
            user_strings: Vec::new(),
            byte_array_pool: Vec::new(),
            type_signatures,
            module_handles: Vec::new(),
            struct_handles: Vec::new(),
            struct_defs: Vec::new(),
            field_defs: Vec::new(),
            function_handles: Vec::new(),
            function_signatures: Vec::new(),
            locals_signatures: Vec::new(),
            function_defs: Vec::new(),
        }
    }

    /// Create a module builder whose generated modules have tables of at
    /// least `table_size` entries, with an optional body-synthesis hook.
    pub fn new(table_size: usize, bytecode_gen: Option<S>) -> (r: ModuleBuilder<S>)
        ensures
            r.wf(),
            r.table_size == table_size,
            r.known_modules@.len() == 0,
            r.bytecode_gen == bytecode_gen,
    {
        ModuleBuilder {
            gen: rng_from_seed(0),
            module: Self::default_module_with_types(),
            table_size,
            known_modules: Vec::new(),
            bytecode_gen,
        }
    }

    /// Diagnostic dump of the module under construction; for debugging only,
    /// not part of the functional contract. Relies on `writeln` to standard
    /// output for the printing itself.
    #[verifier::external_body]
    pub fn display(&self) {
        let _ = writeln!(std::io::stdout(), "{:#?}", self.module);
    }
}


impl<S: BodySynthesizer> ModuleBuilder<S> {
    /// Append exactly `table_size` randomly drawn addresses to the address
    /// pool; no other state of the module changes.
    pub fn with_account_addresses(&mut self)
        ensures
            final(self).module.address_pool@.len() == old(self).module.address_pool@.len() + old(self).table_size,
            old(self).module.address_pool@.is_prefix_of(final(self).module.address_pool@),
            forall|j: int|
                old(self).module.address_pool@.len() <= j < final(self).module.address_pool@.len() ==> #[trigger] final(self).module.address_pool@[j]@.len()
                    == ADDRESS_LENGTH,
            final(self).module == (CompiledModuleMut {
                address_pool: final(self).module.address_pool,
                ..old(self).module
            }),
            old(self).same_config(*final(self)),
            module_extends(old(self).module, final(self).module),
    {
        let n: usize = self.table_size;
        let mut i: usize = 0;
        while i < n
            invariant
                i <= n,
                n == old(self).table_size,
                self.module.address_pool@.len() == old(self).module.address_pool@.len() + i,
                old(self).module.address_pool@.is_prefix_of(self.module.address_pool@),
                forall|j: int|
                    old(self).module.address_pool@.len() <= j < self.module.address_pool@.len()
                        ==> #[trigger] self.module.address_pool@[j]@.len() == ADDRESS_LENGTH,
                self.module == (CompiledModuleMut {
                    address_pool: self.module.address_pool,
                    ..old(self).module
                }),
                old(self).same_config(*self),
            decreases n - i,
        {
            let a = random_address(&mut self.gen);
            self.module.address_pool.push(a);
            i = i + 1;
        }
    }

    /// Append exactly `table_size` randomly generated identifiers, each of
    /// length in `[1, MAX_STRING_SIZE)`; no other state of the module
    /// changes. Identifier construction always succeeds because every
    /// generated length is at least one.
    pub fn with_identifiers(&mut self)
        ensures
            final(self).module.identifiers@.len() == old(self).module.identifiers@.len() + old(self).table_size,
            old(self).module.identifiers@.is_prefix_of(final(self).module.identifiers@),
            forall|j: int|
                old(self).module.identifiers@.len() <= j < final(self).module.identifiers@.len()
                    ==> 1 <= #[trigger] final(self).module.identifiers@[j]@.len()
                    < MAX_STRING_SIZE,
            final(self).module == (CompiledModuleMut {
                identifiers: final(self).module.identifiers,
                ..old(self).module
            }),
            old(self).same_config(*final(self)),
            module_extends(old(self).module, final(self).module),
    {
        let n: usize = self.table_size;
        let mut i: usize = 0;
        while i < n
            invariant
                i <= n,
                self.module.identifiers@.len() == old(self).module.identifiers@.len() + i,
                old(self).module.identifiers@.is_prefix_of(self.module.identifiers@),
                forall|j: int|
                    old(self).module.identifiers@.len() <= j < self.module.identifiers@.len()
                        ==> 1 <= #[trigger] self.module.identifiers@[j]@.len() < MAX_STRING_SIZE,
                self.module == (CompiledModuleMut {
                    identifiers: self.module.identifiers,
                    ..old(self).module
                }),
                old(self).same_config(*self),
            decreases n - i,
        {
            let len: usize = rng_range(&mut self.gen, 1, MAX_STRING_SIZE);
            let id = random_identifier(&mut self.gen, len);
            self.module.identifiers.push(id);
            i = i + 1;
        }
    }

    /// Append exactly `table_size` randomly generated user strings, each of
    /// length in `[1, MAX_STRING_SIZE)`; no other state of the module
    /// changes.
    pub fn with_user_strings(&mut self)
        ensures
            final(self).module.user_strings@.len() == old(self).module.user_strings@.len() + old(self).table_size,
            old(self).module.user_strings@.is_prefix_of(final(self).module.user_strings@),
            forall|j: int|
                old(self).module.user_strings@.len() <= j < final(self).module.user_strings@.len()
                    ==> 1 <= #[trigger] final(self).module.user_strings@[j]@.len()
                    < MAX_STRING_SIZE,
            final(self).module == (CompiledModuleMut {
                user_strings: final(self).module.user_strings,
                ..old(self).module
            }),
            old(self).same_config(*final(self)),
            module_extends(old(self).module, final(self).module),
    {
        let n: usize = self.table_size;
        let mut i: usize = 0;
        while i < n
            invariant
                i <= n,
                self.module.user_strings@.len() == old(self).module.user_strings@.len() + i,
                old(self).module.user_strings@.is_prefix_of(self.module.user_strings@),
                forall|j: int|
                    old(self).module.user_strings@.len() <= j < self.module.user_strings@.len()
                        ==> 1 <= #[trigger] self.module.user_strings@[j]@.len() < MAX_STRING_SIZE,
                self.module == (CompiledModuleMut {
                    user_strings: self.module.user_strings,
                    ..old(self).module
                }),
                old(self).same_config(*self),
            decreases n - i,
        {
            let len: usize = rng_range(&mut self.gen, 1, MAX_STRING_SIZE);
            let s = random_string(&mut self.gen, len);
            self.module.user_strings.push(s);
            i = i + 1;
        }
    }

    /// Append exactly `table_size` randomly drawn byte arrays, each of
    /// length in `[1, BYTE_ARRAY_MAX_SIZE)`; no other state of the module
    /// changes.
    pub fn with_bytearrays(&mut self)
        ensures
            final(self).module.byte_array_pool@.len() == old(self).module.byte_array_pool@.len()
                + old(self).table_size,
            old(self).module.byte_array_pool@.is_prefix_of(final(self).module.byte_array_pool@),
            forall|j: int|
                old(self).module.byte_array_pool@.len() <= j < final(self).module.byte_array_pool@.len() ==> 1 <= #[trigger] final(self).module.byte_array_pool@[j]@.len() < BYTE_ARRAY_MAX_SIZE,
            final(self).module == (CompiledModuleMut {
                byte_array_pool: final(self).module.byte_array_pool,
                ..old(self).module
            }),
            old(self).same_config(*final(self)),
            module_extends(old(self).module, final(self).module),
    {
        let n: usize = self.table_size;
        let mut i: usize = 0;
        while i < n
            invariant
                i <= n,
                self.module.byte_array_pool@.len() == old(self).module.byte_array_pool@.len() + i,
                old(self).module.byte_array_pool@.is_prefix_of(self.module.byte_array_pool@),
                forall|j: int|
                    old(self).module.byte_array_pool@.len() <= j < self.module.byte_array_pool@.len()
                        ==> 1 <= #[trigger] self.module.byte_array_pool@[j]@.len()
                        < BYTE_ARRAY_MAX_SIZE,
                self.module == (CompiledModuleMut {
                    byte_array_pool: self.module.byte_array_pool,
                    ..old(self).module
                }),
                old(self).same_config(*self),
            decreases n - i,
        {
            let len: usize = rng_range(&mut self.gen, 1, BYTE_ARRAY_MAX_SIZE);
            let b = random_byte_array(&mut self.gen, len);
            self.module.byte_array_pool.push(b);
            i = i + 1;
        }
    }
}


impl<S: BodySynthesizer> ModuleBuilder<S> {
    /// Seed the module-handle table of a fresh module: handle 0 names the
    /// module itself under a freshly drawn identity, and one handle per
    /// known module follows, in registry order, each resolving to that
    /// module's identity. This runs first in the pipeline, so cross-call
    /// weaving can later resolve every non-self handle in the registry.
    pub fn with_callee_modules(&mut self)
        requires
            old(self).module.module_handles@.len() == 0,
            old(self).module.identifiers@.len() == 0,
            old(self).module.address_pool@.len() == 0,
        ensures
            final(self).module.module_handles@.len() == 1 + old(self).known_modules@.len(),
            final(self).module.identifiers@.len() == 1 + old(self).known_modules@.len(),
            final(self).module.address_pool@.len() == 1 + old(self).known_modules@.len(),
            has_self_handle(final(self).module),
            final(self).module.identifiers@[0]@.len() == MODULE_NAME_LENGTH,
            final(self).module.address_pool@[0]@.len() == ADDRESS_LENGTH,
            handles_match_registry(final(self).module, old(self).known_modules@),
            module_handles_ok(final(self).module),
            final(self).module == (CompiledModuleMut {
                module_handles: final(self).module.module_handles,
                identifiers: final(self).module.identifiers,
                address_pool: final(self).module.address_pool,
                ..old(self).module
            }),
            old(self).same_config(*final(self)),
            module_extends(old(self).module, final(self).module),
    {
        let name = random_identifier(&mut self.gen, MODULE_NAME_LENGTH);
        let addr = random_address(&mut self.gen);
        self.module.identifiers.push(name);
        self.module.address_pool.push(addr);
        self.module.module_handles.push(ModuleHandle { address: 0, name: 0 });
        let k: usize = self.known_modules.len();
        let mut j: usize = 0;
        while j < k
            invariant
                j <= k,
                k == self.known_modules@.len(),
                self.known_modules == old(self).known_modules,
                self.module.module_handles@.len() == 1 + j,
                self.module.identifiers@.len() == 1 + j,
                self.module.address_pool@.len() == 1 + j,
                self.module.module_handles@[0] == (ModuleHandle { address: 0, name: 0 }),
                self.module.identifiers@[0]@.len() == MODULE_NAME_LENGTH,
                self.module.address_pool@[0]@.len() == ADDRESS_LENGTH,
                forall|p: int|
                    1 <= p <= j ==> #[trigger] self.module.module_handles@[p] == (ModuleHandle {
                        address: p as usize,
                        name: p as usize,
                    }),
                forall|p: int|
                    1 <= p <= j ==> #[trigger] self.module.address_pool@[p]@
                        == self.known_modules@[p - 1].id@.address,
                forall|p: int|
                    1 <= p <= j ==> #[trigger] self.module.identifiers@[p]@
                        == self.known_modules@[p - 1].id@.name,
                self.module == (CompiledModuleMut {
                    module_handles: self.module.module_handles,
                    identifiers: self.module.identifiers,
                    address_pool: self.module.address_pool,
                    ..old(self).module
                }),
                old(self).same_config(*self),
            decreases k - j,
        {
            let entry_addr = self.known_modules[j].id.address.clone();
            let entry_name = self.known_modules[j].id.name.clone();
            let idx: usize = self.module.address_pool.len();
            self.module.address_pool.push(entry_addr);
            self.module.identifiers.push(entry_name);
            self.module.module_handles.push(ModuleHandle { address: idx, name: idx });
            j = j + 1;
        }
        proof {
            assert forall|p: int| 1 <= p < self.module.module_handles@.len() implies
                handle_resolves_to(self.module, p, #[trigger] self.known_modules@[p - 1].id@) by {
                assert(self.module.module_handles@[p] == (ModuleHandle {
                    address: p as usize,
                    name: p as usize,
                }));
            }
        }
    }

    /// Append `num_fields` field definitions for struct `owner`: field `j`
    /// of the run is named by identifier-pool position `j` and typed by a
    /// random position of the type-signature pool.
    fn append_fields(&mut self, owner: usize, num_fields: usize)
        requires
            old(self).module.type_signatures@.len() >= 1,
            num_fields < old(self).module.identifiers@.len(),
        ensures
            final(self).module.field_defs@.len() == old(self).module.field_defs@.len()
                + num_fields,
            old(self).module.field_defs@.is_prefix_of(final(self).module.field_defs@),
            forall|j: int|
                old(self).module.field_defs@.len() <= j < final(self).module.field_defs@.len()
                    ==> {
                    let f = #[trigger] final(self).module.field_defs@[j];
                    &&& f.struct_handle == owner
                    &&& f.name == j - old(self).module.field_defs@.len()
                    &&& f.name < old(self).module.identifiers@.len()
                    &&& f.signature < old(self).module.type_signatures@.len()
                },
            final(self).module == (CompiledModuleMut {
                field_defs: final(self).module.field_defs,
                ..old(self).module
            }),
            old(self).same_config(*final(self)),
            module_extends(old(self).module, final(self).module),
    {
        let mut f: usize = 0;
        while f < num_fields
            invariant
                f <= num_fields,
                num_fields < old(self).module.identifiers@.len(),
                self.module.type_signatures@.len() >= 1,
                self.module.field_defs@.len() == old(self).module.field_defs@.len() + f,
                old(self).module.field_defs@.is_prefix_of(self.module.field_defs@),
                forall|j: int|
                    old(self).module.field_defs@.len() <= j < self.module.field_defs@.len() ==> {
                        let fd = #[trigger] self.module.field_defs@[j];
                        &&& fd.struct_handle == owner
                        &&& fd.name == j - old(self).module.field_defs@.len()
                        &&& fd.name < old(self).module.identifiers@.len()
                        &&& fd.signature < old(self).module.type_signatures@.len()
                    },
                self.module == (CompiledModuleMut {
                    field_defs: self.module.field_defs,
                    ..old(self).module
                }),
                old(self).same_config(*self),
            decreases num_fields - f,
        {
            let typ_idx: usize = rng_range(&mut self.gen, 0, self.module.type_signatures.len());
            self.module.field_defs.push(
                FieldDefinition { struct_handle: owner, name: f, signature: typ_idx },
            );
            f = f + 1;
        }
    }

    /// Generate `table_size` structs: reserve one synthetic name per struct
    /// up front, then emit one contiguous field-definition run per struct,
    /// then append one handle per struct. Every struct gets a field count in
    /// `[1, min(identifier pool length, MAX_FIELDS))` and a fair-coin
    /// resource flag; the identifier pool must be large enough that this
    /// range is non-empty once the struct names are reserved.
    #[verifier::rlimit(100)]
    pub fn with_structs(&mut self)
        requires
            old(self).module.module_handles@.len() >= 1,
            old(self).module.type_signatures@.len() >= 1,
            old(self).module.struct_handles@.len() == 0,
            old(self).module.struct_defs@.len() == 0,
            old(self).module.field_defs@.len() == 0,
            old(self).table_size >= 1 ==> old(self).module.identifiers@.len() + old(self).table_size >= 2,
        ensures
            final(self).module.identifiers@.len() == old(self).module.identifiers@.len() + old(self).table_size,
            old(self).module.identifiers@.is_prefix_of(final(self).module.identifiers@),
            forall|i: int|
                0 <= i < old(self).table_size ==> #[trigger] final(self).module.identifiers@[old(self).module.identifiers@.len() + i]@ == spec_struct_name(i),
            final(self).module.struct_handles@.len() == old(self).table_size,
            forall|i: int|
                0 <= i < old(self).table_size ==> (#[trigger] final(self).module.struct_handles@[i]).module == 0 && final(self).module.struct_handles@[i].name
                    == old(self).module.identifiers@.len() + i,
            final(self).module.struct_defs@.len() == old(self).table_size,
            forall|i: int|
                0 <= i < old(self).table_size ==> {
                    let d = #[trigger] final(self).module.struct_defs@[i];
                    &&& d.struct_handle == i
                    &&& 1 <= d.field_count < MAX_FIELDS
                    &&& d.fields + d.field_count <= final(self).module.field_defs@.len()
                },
            old(self).table_size == 0 ==> final(self).module.field_defs@.len() == 0,
            struct_handles_ok(final(self).module),
            struct_defs_ok(final(self).module),
            field_defs_ok(final(self).module),
            final(self).module == (CompiledModuleMut {
                identifiers: final(self).module.identifiers,
                struct_handles: final(self).module.struct_handles,
                struct_defs: final(self).module.struct_defs,
                field_defs: final(self).module.field_defs,
                ..old(self).module
            }),
            old(self).same_config(*final(self)),
            module_extends(old(self).module, final(self).module),
    {
        let n: usize = self.table_size;
        let offset: usize = self.module.identifiers.len();
        let mut i: usize = 0;
        while i < n
            invariant
                i <= n,
                n == old(self).table_size,
                offset == old(self).module.identifiers@.len(),
                self.module.identifiers@.len() == offset + i,
                old(self).module.identifiers@.is_prefix_of(self.module.identifiers@),
                forall|q: int|
                    0 <= q < i ==> #[trigger] self.module.identifiers@[offset + q]@
                        == spec_struct_name(q),
                self.module == (CompiledModuleMut {
                    identifiers: self.module.identifiers,
                    ..old(self).module
                }),
                old(self).same_config(*self),
            decreases n - i,
        {
            let name = synthetic_name("struct", i);
            self.module.identifiers.push(name);
            i = i + 1;
        }
        let mut s: usize = 0;
        while s < n
            invariant
                s <= n,
                n == old(self).table_size,
                n == self.table_size,
                offset == old(self).module.identifiers@.len(),
                self.module.identifiers@.len() == offset + n,
                n >= 1 ==> self.module.identifiers@.len() >= 2,
                old(self).module.identifiers@.is_prefix_of(self.module.identifiers@),
                forall|q: int|
                    0 <= q < n ==> #[trigger] self.module.identifiers@[offset + q]@
                        == spec_struct_name(q),
                self.module.type_signatures@.len() >= 1,
                self.module.struct_defs@.len() == s,
                forall|q: int|
                    0 <= q < s ==> {
                        let d = #[trigger] self.module.struct_defs@[q];
                        &&& d.struct_handle == q
                        &&& 1 <= d.field_count < MAX_FIELDS
                        &&& d.fields + d.field_count <= self.module.field_defs@.len()
                    },
                s == 0 ==> self.module.field_defs@.len() == 0,
                forall|j: int|
                    0 <= j < self.module.field_defs@.len() ==> {
                        let fd = #[trigger] self.module.field_defs@[j];
                        &&& fd.struct_handle < s
                        &&& fd.name < self.module.identifiers@.len()
                        &&& fd.signature < self.module.type_signatures@.len()
                    },
                self.module == (CompiledModuleMut {
                    identifiers: self.module.identifiers,
                    struct_defs: self.module.struct_defs,
                    field_defs: self.module.field_defs,
                    ..old(self).module
                }),
                old(self).same_config(*self),
            decreases n - s,
        {
            let id_len: usize = self.module.identifiers.len();
            let bound: usize = if id_len < MAX_FIELDS {
                id_len
            } else {
                MAX_FIELDS
            };
            let num_fields: usize = rng_range(&mut self.gen, 1, bound);
            let start: usize = self.module.field_defs.len();
            self.module.struct_defs.push(
                StructDefinition { struct_handle: s, field_count: num_fields, fields: start },
            );
            let ghost prev_fields = self.module.field_defs@;
            self.append_fields(s, num_fields);
            proof {
                assert(prev_fields =~= self.module.field_defs@.subrange(0, start as int));
                assert forall|j: int| 0 <= j < start implies self.module.field_defs@[j]
                    == prev_fields[j] by {
                    assert(prev_fields[j] == self.module.field_defs@.subrange(
                        0,
                        start as int,
                    )[j]);
                }
            }
            s = s + 1;
            proof {
                assert forall|j: int| 0 <= j < self.module.field_defs@.len() implies {
                    let fd = #[trigger] self.module.field_defs@[j];
                    &&& fd.struct_handle < s
                    &&& fd.name < self.module.identifiers@.len()
                    &&& fd.signature < self.module.type_signatures@.len()
                } by {
                    if j < start as int {
                        assert(self.module.field_defs@[j] == prev_fields[j]);
                    } else {
                        assert(self.module.field_defs@[j].struct_handle == s - 1);
                    }
                };
            }
        }
        let id_total: usize = self.module.identifiers.len();
        let mut h: usize = 0;
        while h < n
            invariant
                h <= n,
                n == old(self).table_size,
                n == self.table_size,
                offset == old(self).module.identifiers@.len(),
                self.module.identifiers@.len() == offset + n,
                id_total == offset + n,
                self.module.module_handles@.len() >= 1,
                old(self).module.identifiers@.is_prefix_of(self.module.identifiers@),
                forall|q: int|
                    0 <= q < n ==> #[trigger] self.module.identifiers@[offset + q]@
                        == spec_struct_name(q),
                self.module.struct_defs@.len() == n,
                forall|q: int|
                    0 <= q < n ==> {
                        let d = #[trigger] self.module.struct_defs@[q];
                        &&& d.struct_handle == q
                        &&& 1 <= d.field_count < MAX_FIELDS
                        &&& d.fields + d.field_count <= self.module.field_defs@.len()
                    },
                n == 0 ==> self.module.field_defs@.len() == 0,
                forall|j: int|
                    0 <= j < self.module.field_defs@.len() ==> {
                        let fd = #[trigger] self.module.field_defs@[j];
                        &&& fd.struct_handle < n
                        &&& fd.name < self.module.identifiers@.len()
                        &&& fd.signature < self.module.type_signatures@.len()
                    },
                self.module.struct_handles@.len() == h,
                forall|q: int|
                    0 <= q < h ==> (#[trigger] self.module.struct_handles@[q]).module == 0
                        && self.module.struct_handles@[q].name == offset + q,
                self.module == (CompiledModuleMut {
                    identifiers: self.module.identifiers,
                    struct_handles: self.module.struct_handles,
                    struct_defs: self.module.struct_defs,
                    field_defs: self.module.field_defs,
                    ..old(self).module
                }),
                old(self).same_config(*self),
            decreases n - h,
        {
            let is_res: bool = rng_coin(&mut self.gen);
            self.module.struct_handles.push(
                StructHandle { module: 0, name: offset + h, is_nominal_resource: is_res },
            );
            h = h + 1;
        }
    }
}

/// Find the first registry entry carrying the given identity.
fn lookup_known(mods: &Vec<KnownModule>, id: &ModuleId) -> (r: Option<usize>)
    ensures
        match r {
            Some(j) => j < mods@.len() && mods@[j as int].id@ == id@,
            None => forall|q: int| 0 <= q < mods@.len() ==> mods@[q].id@ != id@,
        },
{
    let mut j: usize = 0;
    while j < mods.len()
        invariant
            j <= mods@.len(),
            forall|q: int| 0 <= q < j ==> mods@[q].id@ != id@,
        decreases mods@.len() - j,
    {
        if id_eq(&mods[j].id, id) {
            return Some(j);
        }
        j = j + 1;
    }
    None
}

impl<S: BodySynthesizer> ModuleBuilder<S> {
    /// Weave cross-module calls. When at least one other module is known,
    /// repeat `table_size` times: pick a random non-self module handle,
    /// resolve its identity in the registry — the lookup cannot fail,
    /// because every non-self handle was seeded from the registry — pick a
    /// random function handle of the resolved callee, and copy its name and
    /// signature into the local pools behind a new function handle pointing
    /// at the external module. With fewer than two module handles this step
    /// is a no-op.
    #[verifier::rlimit(100)]
    pub fn with_cross_calls(&mut self)
        requires
            old(self).registry_wf(),
            handles_match_registry(old(self).module, old(self).known_modules@),
        ensures
            ({
                let w = if old(self).module.module_handles@.len() >= 2 {
                    old(self).table_size as int
                } else {
                    0int
                };
                &&& final(self).module.function_handles@.len() == old(self).module.function_handles@.len() + w
                &&& final(self).module.identifiers@.len() == old(self).module.identifiers@.len()
                    + w
                &&& final(self).module.function_signatures@.len() == old(self).module.function_signatures@.len() + w
            }),
            forall|i: int|
                old(self).module.function_handles@.len() <= i < final(self).module.function_handles@.len() ==> {
                    let h = #[trigger] final(self).module.function_handles@[i];
                    &&& 1 <= h.module < final(self).module.module_handles@.len()
                    &&& h.name == old(self).module.identifiers@.len() + (i - old(self).module.function_handles@.len())
                    &&& h.signature == old(self).module.function_signatures@.len() + (i - old(self).module.function_handles@.len())
                },
            forall|i: int|
                old(self).module.function_handles@.len() <= i < final(self).module.function_handles@.len() ==> is_woven_copy(
                    final(self).module,
                    i,
                    final(self).known_modules@,
                ),
            old(self).module.function_handles@.is_prefix_of(
                final(self).module.function_handles@,
            ),
            old(self).module.identifiers@.is_prefix_of(final(self).module.identifiers@),
            old(self).module.function_signatures@.is_prefix_of(
                final(self).module.function_signatures@,
            ),
            final(self).module == (CompiledModuleMut {
                function_handles: final(self).module.function_handles,
                identifiers: final(self).module.identifiers,
                function_signatures: final(self).module.function_signatures,
                ..old(self).module
            }),
            old(self).same_config(*final(self)),
            module_extends(old(self).module, final(self).module),
            handles_match_registry(final(self).module, final(self).known_modules@),
    {
        let module_table_size: usize = self.module.module_handles.len();
        if module_table_size < 2 {
            return;
        }
        let n: usize = self.table_size;
        let mut c: usize = 0;
        while c < n
            invariant
                c <= n,
                n == self.table_size,
                n == old(self).table_size,
                module_table_size == self.module.module_handles@.len(),
                module_table_size >= 2,
                universe_wf(self.known_modules@, self.table_size),
                handles_match_registry(self.module, self.known_modules@),
                self.known_modules == old(self).known_modules,
                self.bytecode_gen == old(self).bytecode_gen,
                self.module.function_handles@.len() == old(self).module.function_handles@.len() + c,
                self.module.identifiers@.len() == old(self).module.identifiers@.len() + c,
                self.module.function_signatures@.len() == old(self).module.function_signatures@.len() + c,
                old(self).module.function_handles@.is_prefix_of(self.module.function_handles@),
                old(self).module.identifiers@.is_prefix_of(self.module.identifiers@),
                old(self).module.function_signatures@.is_prefix_of(
                    self.module.function_signatures@,
                ),
                forall|i: int|
                    old(self).module.function_handles@.len() <= i
                        < self.module.function_handles@.len() ==> {
                        let h = #[trigger] self.module.function_handles@[i];
                        &&& 1 <= h.module < self.module.module_handles@.len()
                        &&& h.name == old(self).module.identifiers@.len() + (i - old(self).module.function_handles@.len())
                        &&& h.signature == old(self).module.function_signatures@.len() + (i
                            - old(self).module.function_handles@.len())
                    },
                forall|i: int|
                    old(self).module.function_handles@.len() <= i
                        < self.module.function_handles@.len() ==> is_woven_copy(
                        self.module,
                        i,
                        self.known_modules@,
                    ),
                self.module == (CompiledModuleMut {
                    function_handles: self.module.function_handles,
                    identifiers: self.module.identifiers,
                    function_signatures: self.module.function_signatures,
                    ..old(self).module
                }),
            decreases n - c,
        {
            let ghost prev = self.module;
            let non_self_idx: usize = rng_range(&mut self.gen, 1, module_table_size);
            let callee_handle: ModuleHandle = self.module.module_handles[non_self_idx];
            proof {
                assert(handle_resolves_to(
                    self.module,
                    non_self_idx as int,
                    self.known_modules@[non_self_idx as int - 1].id@,
                ));
            }
            let address = self.module.address_pool[callee_handle.address].clone();
            let name = self.module.identifiers[callee_handle.name].clone();
            let mid = ModuleId { address, name };
            let found = lookup_known(&self.known_modules, &mid);
            proof {
                assert(mid@ == self.known_modules@[non_self_idx as int - 1].id@);
            }
            let j: usize = found.unwrap();
            proof {
                assert(entry_wf(self.known_modules@[j as int], self.table_size));
            }
            let callee: &KnownModule = &self.known_modules[j];
            let callee_fh_len: usize = callee.module.inner.function_handles.len();
            let fidx: usize = rng_range(&mut self.gen, 0, callee_fh_len);
            let callee_fh: FunctionHandle = callee.module.inner.function_handles[fidx];
            proof {
                assert(function_handles_ok(callee.module.inner));
            }
            let callee_name: Identifier = callee.module.inner.identifiers[callee_fh.name].clone();
            let callee_sig: FunctionSignature = callee.module.inner.function_signatures[callee_fh.signature].clone();
            let name_idx: usize = self.module.identifiers.len();
            let sig_idx: usize = self.module.function_signatures.len();
            self.module.identifiers.push(callee_name);
            self.module.function_signatures.push(callee_sig);
            self.module.function_handles.push(
                FunctionHandle { module: non_self_idx, name: name_idx, signature: sig_idx },
            );
            c = c + 1;
            proof {
                assert forall|p: int| 1 <= p < self.module.module_handles@.len() implies
                    handle_resolves_to(self.module, p, #[trigger] self.known_modules@[p
                    - 1].id@) by {
                    assert(handle_resolves_to(prev, p, self.known_modules@[p - 1].id@));
                    let h = prev.module_handles@[p];
                    assert(self.module.identifiers@[h.name as int] == prev.identifiers@[h.name
                        as int]);
                }
                let new_i = self.module.function_handles@.len() - 1;
                assert forall|i: int|
                    old(self).module.function_handles@.len() <= i
                        < self.module.function_handles@.len() implies is_woven_copy(
                    self.module,
                    i,
                    self.known_modules@,
                ) by {
                    if i < new_i {
                        assert(prev.function_handles@[i] == self.module.function_handles@[i]);
                        lemma_extends_preserves_woven(prev, self.module, self.known_modules@, i);
                    } else {
                        let h = self.module.function_handles@[new_i];
                        assert(h == (FunctionHandle {
                            module: non_self_idx,
                            name: name_idx,
                            signature: sig_idx,
                        }));
                        assert(handle_resolves_to(
                            self.module,
                            non_self_idx as int,
                            self.known_modules@[non_self_idx as int - 1].id@,
                        ));
                        assert(self.known_modules@[j as int].id@
                            == self.known_modules@[non_self_idx as int - 1].id@);
                        let cfh = self.known_modules@[j as int].module.inner.function_handles@[fidx
                            as int];
                        assert(cfh == callee_fh);
                        assert(self.module.identifiers@[name_idx as int]@
                            == self.known_modules@[j as int].module.inner.identifiers@[cfh.name
                            as int]@);
                        assert(self.module.function_signatures@[sig_idx as int]@
                            == self.known_modules@[j as int].module.inner.function_signatures@[
                            cfh.signature as int]@);
                        assert(is_woven_copy(self.module, new_i, self.known_modules@));
                    }
                }
            }
        }
    }

    /// Append the given locally defined functions: per shape, one synthetic
    /// sequential name, one handle pointing at the module itself, the
    /// signature, the locals signature, and one public definition,
    /// index-aligned with the new handles, whose body comes from the
    /// synthesis hook or, without one, is the fixed filler.
    #[verifier::rlimit(100)]
    pub fn with_functions(&mut self, sigs: Vec<(Vec<SignatureToken>, FunctionSignature)>)
        ensures
            final(self).module.identifiers@.len() == old(self).module.identifiers@.len()
                + sigs@.len(),
            forall|i: int|
                0 <= i < sigs@.len() ==> #[trigger] final(self).module.identifiers@[old(self).module.identifiers@.len() + i]@ == spec_func_name(i),
            final(self).module.function_signatures@.len() == old(self).module.function_signatures@.len() + sigs@.len(),
            forall|i: int|
                0 <= i < sigs@.len() ==> #[trigger] final(self).module.function_signatures@[old(self).module.function_signatures@.len() + i]@ == sigs@[i].1@,
            final(self).module.locals_signatures@.len() == old(self).module.locals_signatures@.len() + sigs@.len(),
            forall|i: int|
                0 <= i < sigs@.len() ==> #[trigger] final(self).module.locals_signatures@[old(self).module.locals_signatures@.len() + i]@ == sigs@[i].0@,
            final(self).module.function_handles@.len() == old(self).module.function_handles@.len() + sigs@.len(),
            forall|i: int|
                0 <= i < sigs@.len() ==> #[trigger] final(self).module.function_handles@[old(self).module.function_handles@.len() + i] == (FunctionHandle {
                    module: 0,
                    name: (old(self).module.identifiers@.len() + i) as usize,
                    signature: (old(self).module.function_signatures@.len() + i) as usize,
                }),
            final(self).module.function_defs@.len() == old(self).module.function_defs@.len()
                + sigs@.len(),
            forall|i: int|
                0 <= i < sigs@.len() ==> {
                    let d = #[trigger] final(self).module.function_defs@[old(self).module.function_defs@.len() + i];
                    &&& d.function == old(self).module.function_handles@.len() + i
                    &&& d.is_public
                    &&& d.acquires_global_resources@.len() == 0
                    &&& d.code.locals == old(self).module.locals_signatures@.len() + i
                    &&& d.code.max_stack_size == DEFAULT_MAX_STACK_SIZE
                    &&& (old(self).bytecode_gen is None ==> d.code.code@ == spec_filler_body())
                },
            old(self).module.identifiers@.is_prefix_of(final(self).module.identifiers@),
            old(self).module.function_signatures@.is_prefix_of(
                final(self).module.function_signatures@,
            ),
            old(self).module.locals_signatures@.is_prefix_of(
                final(self).module.locals_signatures@,
            ),
            old(self).module.function_handles@.is_prefix_of(
                final(self).module.function_handles@,
            ),
            old(self).module.function_defs@.is_prefix_of(final(self).module.function_defs@),
            final(self).module == (CompiledModuleMut {
                identifiers: final(self).module.identifiers,
                function_signatures: final(self).module.function_signatures,
                locals_signatures: final(self).module.locals_signatures,
                function_handles: final(self).module.function_handles,
                function_defs: final(self).module.function_defs,
                ..old(self).module
            }),
            old(self).same_config(*final(self)),
            module_extends(old(self).module, final(self).module),
    {
        let n: usize = sigs.len();
        let id0: usize = self.module.identifiers.len();
        let fs0: usize = self.module.function_signatures.len();
        let ls0: usize = self.module.locals_signatures.len();
        let fh0: usize = self.module.function_handles.len();
        let fd0: usize = self.module.function_defs.len();
        let mut i: usize = 0;
        while i < n
            invariant
                i <= n,
                n == sigs@.len(),
                id0 == old(self).module.identifiers@.len(),
                fs0 == old(self).module.function_signatures@.len(),
                ls0 == old(self).module.locals_signatures@.len(),
                fh0 == old(self).module.function_handles@.len(),
                self.module.identifiers@.len() == id0 + i,
                self.module.function_signatures@.len() == fs0 + i,
                self.module.locals_signatures@.len() == ls0 + i,
                self.module.function_handles@.len() == fh0 + i,
                old(self).module.identifiers@.is_prefix_of(self.module.identifiers@),
                old(self).module.function_signatures@.is_prefix_of(
                    self.module.function_signatures@,
                ),
                old(self).module.locals_signatures@.is_prefix_of(
                    self.module.locals_signatures@,
                ),
                old(self).module.function_handles@.is_prefix_of(self.module.function_handles@),
                forall|q: int|
                    0 <= q < i ==> #[trigger] self.module.identifiers@[id0 + q]@
                        == spec_func_name(q),
                forall|q: int|
                    0 <= q < i ==> #[trigger] self.module.function_signatures@[fs0 + q]@
                        == sigs@[q].1@,
                forall|q: int|
                    0 <= q < i ==> #[trigger] self.module.locals_signatures@[ls0 + q]@
                        == sigs@[q].0@,
                forall|q: int|
                    0 <= q < i ==> #[trigger] self.module.function_handles@[fh0 + q]
                        == (FunctionHandle {
                        module: 0,
                        name: (id0 + q) as usize,
                        signature: (fs0 + q) as usize,
                    }),
                self.module == (CompiledModuleMut {
                    identifiers: self.module.identifiers,
                    function_signatures: self.module.function_signatures,
                    locals_signatures: self.module.locals_signatures,
                    function_handles: self.module.function_handles,
                    ..old(self).module
                }),
                old(self).same_config(*self),
            decreases n - i,
        {
            let name = synthetic_name("func", i);
            let name_idx: usize = self.module.identifiers.len();
            let sig_idx: usize = self.module.function_signatures.len();
            self.module.identifiers.push(name);
            self.module.function_signatures.push(sigs[i].1.clone());
            self.module.locals_signatures.push(LocalsSignature { tokens: copy_vec(&sigs[i].0) });
            self.module.function_handles.push(
                FunctionHandle { module: 0, name: name_idx, signature: sig_idx },
            );
            i = i + 1;
        }
        let fh_total: usize = self.module.function_handles.len();
        let ls_total: usize = self.module.locals_signatures.len();
        let mut d: usize = 0;
        while d < n
            invariant
                d <= n,
                n == sigs@.len(),
                id0 == old(self).module.identifiers@.len(),
                fs0 == old(self).module.function_signatures@.len(),
                ls0 == old(self).module.locals_signatures@.len(),
                fh0 == old(self).module.function_handles@.len(),
                fd0 == old(self).module.function_defs@.len(),
                fh_total == fh0 + n,
                ls_total == ls0 + n,
                self.module.identifiers@.len() == id0 + n,
                self.module.function_signatures@.len() == fs0 + n,
                self.module.locals_signatures@.len() == ls0 + n,
                self.module.function_handles@.len() == fh0 + n,
                self.module.function_defs@.len() == fd0 + d,
                old(self).module.identifiers@.is_prefix_of(self.module.identifiers@),
                old(self).module.function_signatures@.is_prefix_of(
                    self.module.function_signatures@,
                ),
                old(self).module.locals_signatures@.is_prefix_of(
                    self.module.locals_signatures@,
                ),
                old(self).module.function_handles@.is_prefix_of(self.module.function_handles@),
                old(self).module.function_defs@.is_prefix_of(self.module.function_defs@),
                forall|q: int|
                    0 <= q < n ==> #[trigger] self.module.identifiers@[id0 + q]@
                        == spec_func_name(q),
                forall|q: int|
                    0 <= q < n ==> #[trigger] self.module.function_signatures@[fs0 + q]@
                        == sigs@[q].1@,
                forall|q: int|
                    0 <= q < n ==> #[trigger] self.module.locals_signatures@[ls0 + q]@
                        == sigs@[q].0@,
                forall|q: int|
                    0 <= q < n ==> #[trigger] self.module.function_handles@[fh0 + q]
                        == (FunctionHandle {
                        module: 0,
                        name: (id0 + q) as usize,
                        signature: (fs0 + q) as usize,
                    }),
                forall|q: int|
                    0 <= q < d ==> {
                        let fd = #[trigger] self.module.function_defs@[fd0 + q];
                        &&& fd.function == fh0 + q
                        &&& fd.is_public
                        &&& fd.acquires_global_resources@.len() == 0
                        &&& fd.code.locals == ls0 + q
                        &&& fd.code.max_stack_size == DEFAULT_MAX_STACK_SIZE
                        &&& (old(self).bytecode_gen is None ==> fd.code.code@
                            == spec_filler_body())
                    },
                self.module == (CompiledModuleMut {
                    identifiers: self.module.identifiers,
                    function_signatures: self.module.function_signatures,
                    locals_signatures: self.module.locals_signatures,
                    function_handles: self.module.function_handles,
                    function_defs: self.module.function_defs,
                    ..old(self).module
                }),
                old(self).same_config(*self),
                self.bytecode_gen == old(self).bytecode_gen,
            decreases n - d,
        {
            let code: Vec<Bytecode> = match &self.bytecode_gen {
                Some(g) => g.synthesize(&sigs[d].0, &sigs[d].1, &self.module),
                None => filler_body(),
            };
            self.module.function_defs.push(
                FunctionDefinition {
                    function: fh0 + d,
                    is_public: true,
                    acquires_global_resources: Vec::new(),
                    code: CodeUnit {
                        max_stack_size: DEFAULT_MAX_STACK_SIZE,
                        locals: ls0 + d,
                        code,
                    },
                },
            );
            d = d + 1;
        }
    }
}


/// Modules equal in value mention the same identities: resolution reads only
/// pool lengths, handle entries, and entry views.
pub proof fn lemma_view_eq_refs(a: CompiledModuleMut, b: CompiledModuleMut, id: ModuleIdV)
    requires
        module_view_eq(a, b),
    ensures
        module_refs(a, id) == module_refs(b, id),
{
    if module_refs(a, id) {
        let p = choose|p: int| 1 <= p < a.module_handles@.len() && handle_resolves_to(a, p, id);
        let h = a.module_handles@[p];
        assert(b.address_pool@[h.address as int]@ == a.address_pool@[h.address as int]@);
        assert(b.identifiers@[h.name as int]@ == a.identifiers@[h.name as int]@);
        assert(handle_resolves_to(b, p, id));
    }
    if module_refs(b, id) {
        let p = choose|p: int| 1 <= p < b.module_handles@.len() && handle_resolves_to(b, p, id);
        let h = b.module_handles@[p];
        assert(a.address_pool@[h.address as int]@ == b.address_pool@[h.address as int]@);
        assert(a.identifiers@[h.name as int]@ == b.identifiers@[h.name as int]@);
        assert(handle_resolves_to(a, p, id));
    }
}

impl<S: BodySynthesizer> ModuleBuilder<S> {
    /// Draw `table_size` random function shapes over the primitive types,
    /// weave cross-module calls, then append the local functions — in that
    /// order, so call-target handles are already on the module when local
    /// bodies are synthesized.
    #[verifier::rlimit(100)]
    pub fn with_random_functions(&mut self)
        requires
            old(self).registry_wf(),
            handles_match_registry(old(self).module, old(self).known_modules@),
            old(self).module.function_handles@.len() == 0,
            old(self).module.function_signatures@.len() == 0,
            old(self).module.locals_signatures@.len() == 0,
            old(self).module.function_defs@.len() == 0,
        ensures
            ({
                let ts = old(self).table_size as int;
                let w = if old(self).module.module_handles@.len() >= 2 {
                    ts
                } else {
                    0int
                };
                &&& final(self).module.function_handles@.len() == w + ts
                &&& (forall|i: int|
                    0 <= i < w ==> 1 <= (#[trigger] final(self).module.function_handles@[i]).module
                        < final(self).module.module_handles@.len())
                &&& (forall|i: int|
                    w <= i < w + ts ==> (#[trigger] final(self).module.function_handles@[i]).module == 0)
                &&& final(self).module.function_signatures@.len() == w + ts
                &&& final(self).module.locals_signatures@.len() == ts
                &&& final(self).module.function_defs@.len() == ts
                &&& (forall|i: int|
                    0 <= i < ts ==> {
                        let d = #[trigger] final(self).module.function_defs@[i];
                        &&& d.function == w + i
                        &&& d.is_public
                        &&& d.code.locals == i
                        &&& (old(self).bytecode_gen is None ==> d.code.code@
                            == spec_filler_body())
                    })
                &&& final(self).module.identifiers@.len() == old(self).module.identifiers@.len()
                    + w + ts
            }),
            ({
                let ts = old(self).table_size as int;
                let w = if old(self).module.module_handles@.len() >= 2 {
                    ts
                } else {
                    0int
                };
                forall|i: int|
                    0 <= i < w ==> is_woven_copy(
                        final(self).module,
                        i,
                        final(self).known_modules@,
                    )
            }),
            function_handles_ok(final(self).module),
            function_defs_ok(final(self).module),
            final(self).module == (CompiledModuleMut {
                identifiers: final(self).module.identifiers,
                function_signatures: final(self).module.function_signatures,
                locals_signatures: final(self).module.locals_signatures,
                function_handles: final(self).module.function_handles,
                function_defs: final(self).module.function_defs,
                ..old(self).module
            }),
            old(self).same_config(*final(self)),
            module_extends(old(self).module, final(self).module),
            handles_match_registry(final(self).module, final(self).known_modules@),
    {
        let n: usize = self.table_size;
        let mut palette: Vec<SignatureToken> = Vec::new();
        palette.push(SignatureToken::Bool);
        palette.push(SignatureToken::U64);
        palette.push(SignatureToken::Str);
        palette.push(SignatureToken::ByteArray);
        palette.push(SignatureToken::Address);
        let mut shapes: Vec<(Vec<SignatureToken>, FunctionSignature)> = Vec::new();
        let mut i: usize = 0;
        while i < n
            invariant
                i <= n,
                n == self.table_size,
                shapes@.len() == i,
                palette@.len() == 5,
                self.module == old(self).module,
                old(self).same_config(*self),
            decreases n - i,
        {
            let num_locals: usize = rng_range(&mut self.gen, 1, MAX_NUM_LOCALS);
            let num_args: usize = rng_range(&mut self.gen, 1, MAX_FUNCTION_CALL_SIZE);
            let num_rets: usize = rng_range(&mut self.gen, 1, MAX_RETURN_TYPES_LENGTH);
            let locals = random_tokens(&mut self.gen, &palette, num_locals);
            let args = random_tokens(&mut self.gen, &palette, num_args);
            let rets = random_tokens(&mut self.gen, &palette, num_rets);
            shapes.push((locals, FunctionSignature { arg_types: args, return_types: rets }));
            i = i + 1;
        }
        self.with_cross_calls();
        let ghost mid = *self;
        let ghost shapes_view = shapes@;
        self.with_functions(shapes);
        proof {
            let w = mid.module.function_handles@.len() as int;
            let ts = self.table_size as int;
            assert(shapes_view.len() == ts);
            assert forall|q: int| 0 <= q < w implies self.module.function_handles@[q]
                == mid.module.function_handles@[q] by {
                assert(mid.module.function_handles@[q] == self.module.function_handles@.subrange(
                    0,
                    w,
                )[q]);
            }
            lemma_extends_preserves_match(mid.module, self.module, self.known_modules@);
            assert forall|i: int| 0 <= i < w implies is_woven_copy(
                self.module,
                i,
                self.known_modules@,
            ) by {
                assert(is_woven_copy(mid.module, i, mid.known_modules@));
                lemma_extends_preserves_woven(mid.module, self.module, self.known_modules@, i);
            }
            assert(self.module.function_handles@.len() == w + ts);
            assert forall|i: int| w <= i < w + ts implies {
                let h = #[trigger] self.module.function_handles@[i];
                &&& h.module == 0
                &&& h.name < self.module.identifiers@.len()
                &&& h.signature < self.module.function_signatures@.len()
            } by {
                let q = i - w;
                assert(self.module.function_handles@[w + q] == (FunctionHandle {
                    module: 0,
                    name: (mid.module.identifiers@.len() + q) as usize,
                    signature: (mid.module.function_signatures@.len() + q) as usize,
                }));
            }
            assert forall|i: int| 0 <= i < w implies {
                let h = #[trigger] self.module.function_handles@[i];
                &&& 1 <= h.module < self.module.module_handles@.len()
                &&& h.name < self.module.identifiers@.len()
                &&& h.signature < self.module.function_signatures@.len()
            } by {
                assert(self.module.function_handles@[i] == mid.module.function_handles@[i]);
            }
            assert(function_handles_ok(self.module));
            assert forall|i: int| 0 <= i < ts implies {
                let d = #[trigger] self.module.function_defs@[i];
                &&& d.function == w + i
                &&& d.is_public
                &&& d.code.locals == i
                &&& d.function < self.module.function_handles@.len()
                &&& d.code.locals < self.module.locals_signatures@.len()
                &&& (mid.bytecode_gen is None ==> d.code.code@ == spec_filler_body())
            } by {
                assert(self.module.function_defs@.len() == ts);
                let d2 = self.module.function_defs@[0 + i];
                assert(d2.function == w + i && d2.is_public && d2.code.locals == 0 + i);
            }
            assert(function_defs_ok(self.module));
        }
    }

    /// Build one module and freeze it: seed the module-handle table, fill
    /// the leaf pools, generate structs, weave cross-module calls, generate
    /// local functions, bounds-check and freeze the result, register it
    /// under its own identity, and swap in a fresh scratch module. The
    /// returned module satisfies the structural invariant; its cross-module
    /// references all resolve to modules registered before this call.
    #[verifier::rlimit(100)]
    pub fn materialize_unverified(&mut self) -> (m: CompiledModule)
        requires
            old(self).wf(),
        ensures
            final(self).wf(),
            final(self).table_size == old(self).table_size,
            final(self).bytecode_gen == old(self).bytecode_gen,
            final(self).known_modules@.len() == old(self).known_modules@.len() + 1,
            final(self).known_modules@.subrange(0, old(self).known_modules@.len() as int) == old(self).known_modules@,
            module_view_eq(final(self).known_modules@.last().module.inner, m.inner),
            final(self).known_modules@.last().id@ == spec_self_id(m.inner),
            m.wf(),
            spec_generated_shape(
                m.inner,
                old(self).known_modules@.len() as int,
                old(self).table_size as int,
            ),
            ({
                let ts = old(self).table_size as int;
                let w = if old(self).known_modules@.len() >= 1 {
                    ts
                } else {
                    0int
                };
                forall|i: int|
                    0 <= i < w ==> is_woven_copy(m.inner, i, old(self).known_modules@)
            }),
            old(self).bytecode_gen is None ==> forall|i: int|
                0 <= i < old(self).table_size ==> (#[trigger] m.inner.function_defs@[i]).code.code@
                    == spec_filler_body(),
            module_is_fresh(final(self).module),
    {
        self.with_callee_modules();
        let ghost m1 = self.module;
        self.with_account_addresses();
        let ghost m2 = self.module;
        proof {
            lemma_extends_preserves_ok(m1, m2);
            lemma_extends_preserves_match(m1, m2, self.known_modules@);
        }
        self.with_identifiers();
        let ghost m3 = self.module;
        proof {
            lemma_extends_preserves_ok(m2, m3);
            lemma_extends_preserves_match(m2, m3, self.known_modules@);
        }
        self.with_user_strings();
        let ghost m4 = self.module;
        proof {
            lemma_extends_preserves_ok(m3, m4);
            lemma_extends_preserves_match(m3, m4, self.known_modules@);
        }
        self.with_bytearrays();
        let ghost m5 = self.module;
        proof {
            lemma_extends_preserves_ok(m4, m5);
            lemma_extends_preserves_match(m4, m5, self.known_modules@);
        }
        self.with_structs();
        let ghost m6 = self.module;
        proof {
            lemma_extends_preserves_ok(m5, m6);
            lemma_extends_preserves_match(m5, m6, self.known_modules@);
        }
        self.with_random_functions();
        let ghost m7 = self.module;
        proof {
            lemma_extends_preserves_ok(m6, m7);
            assert(module_wf(self.module));
        }
        let mut finished = Self::default_module_with_types();
        core::mem::swap(&mut self.module, &mut finished);
        let frozen = CompiledModule::freeze(finished).unwrap();
        let id = frozen.self_id();
        let registered = frozen.clone();
        proof {
            lemma_view_eq_wf(frozen.inner, registered.inner);
        }
        let ghost old_u = self.known_modules@;
        self.known_modules.push(KnownModule { id, module: registered });
        proof {
            let u = self.known_modules@;
            assert(old_u =~= u.subrange(0, old_u.len() as int));
            let k = old_u.len() as int;
            let e = u[k];
            assert(entry_wf(e, self.table_size));
            assert forall|id2: ModuleIdV| module_refs(e.module.inner, id2) implies exists|j: int|
                0 <= j < k && u[j].id@ == id2 by {
                lemma_view_eq_refs(frozen.inner, e.module.inner, id2);
                assert(module_refs(frozen.inner, id2));
                let p = choose|p: int|
                    1 <= p < frozen.inner.module_handles@.len() && handle_resolves_to(
                        frozen.inner,
                        p,
                        id2,
                    );
                assert(handle_resolves_to(frozen.inner, p, old_u[p - 1].id@));
                assert(u[p - 1].id@ == id2);
            }
            assert(entry_refs_earlier(u, k));
            assert forall|q: int| 0 <= q < u.len() implies entry_wf(#[trigger] u[q], self.table_size)
                && entry_refs_earlier(u, q) by {
                if q < k {
                    assert(u[q] == old_u[q]);
                    assert(entry_wf(old_u[q], self.table_size));
                    assert forall|id2: ModuleIdV| module_refs(u[q].module.inner, id2) implies
                        exists|j: int| 0 <= j < q && u[j].id@ == id2 by {
                        let j = choose|j: int| 0 <= j < q && old_u[j].id@ == id2;
                        assert(u[j].id@ == id2);
                    }
                }
            }
            assert(universe_wf(u, self.table_size));
        }
        frozen
    }

    /// Build one module and return it tagged as verified without running
    /// any verifier over it: the caller explicitly accepts an unverified
    /// artifact. The module and registry guarantees are exactly those of
    /// `materialize_unverified`.
    pub fn materialize(&mut self) -> (m: VerifiedModule)
        requires
            old(self).wf(),
        ensures
            final(self).wf(),
            final(self).table_size == old(self).table_size,
            final(self).bytecode_gen == old(self).bytecode_gen,
            final(self).known_modules@.len() == old(self).known_modules@.len() + 1,
            final(self).known_modules@.subrange(0, old(self).known_modules@.len() as int) == old(self).known_modules@,
            module_view_eq(final(self).known_modules@.last().module.inner, m.module.inner),
            final(self).known_modules@.last().id@ == spec_self_id(m.module.inner),
            m.module.wf(),
            spec_generated_shape(
                m.module.inner,
                old(self).known_modules@.len() as int,
                old(self).table_size as int,
            ),
            ({
                let ts = old(self).table_size as int;
                let w = if old(self).known_modules@.len() >= 1 {
                    ts
                } else {
                    0int
                };
                forall|i: int|
                    0 <= i < w ==> is_woven_copy(m.module.inner, i, old(self).known_modules@)
            }),
            old(self).bytecode_gen is None ==> forall|i: int|
                0 <= i < old(self).table_size ==> (#[trigger] m.module.inner.function_defs@[
                i]).code.code@ == spec_filler_body(),
            module_is_fresh(final(self).module),
    {
        let module = self.materialize_unverified();
        VerifiedModule::bypass_verification(module)
    }
}

} // verus!
