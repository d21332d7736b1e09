//! The container-format tables that the generator populates.
//!
//! A module is an aggregate of append-only pools; every entry that refers to
//! another pool does so by integer position. `bounds_ok` states the single
//! structural invariant the generator maintains: every stored index is
//! strictly less than the length of the pool it points into. Type-formal
//! lists of the format are not represented: generation of generic structs
//! and functions is out of scope, so they would always be empty.

use vstd::prelude::*;

verus! {

/// An account address: a fixed-length byte string naming the account under
/// which a module is published.
#[derive(Debug, PartialEq, Eq)]
pub struct AccountAddress {
    pub bytes: Vec<u8>,
}

impl View for AccountAddress {
    type V = Seq<u8>;

    open spec fn view(&self) -> Seq<u8> {
        self.bytes@
    }
}

/// A name stored in the identifier pool. Identifiers are drawn from the full
/// character domain; the only validity requirement is non-emptiness.
#[derive(Debug, PartialEq, Eq)]
pub struct Identifier {
    pub name: String,
}

impl View for Identifier {
    type V = Seq<char>;

    open spec fn view(&self) -> Seq<char> {
        self.name@
    }
}

impl Identifier {
    /// A legal identifier is non-empty.
    pub open spec fn is_valid(self) -> bool {
        self@.len() >= 1
    }

    /// Construct an identifier, rejecting exactly the empty string.
    pub fn new(name: String) -> (r: Option<Identifier>)
        ensures
            match r {
                Some(id) => id@ == name@ && name@.len() >= 1,
                None => name@.len() == 0,
            },
    {
        if name.as_str().is_empty() {
            None
        } else {
            Some(Identifier { name })
        }
    }
}

/// An entry of the byte-array pool.
#[derive(Debug, PartialEq, Eq)]
pub struct ByteArray {
    pub bytes: Vec<u8>,
}

impl View for ByteArray {
    type V = Seq<u8>;

    open spec fn view(&self) -> Seq<u8> {
        self.bytes@
    }
}

/// The fully qualified identity of a module: the address it is published
/// under together with its name.
#[derive(Debug, PartialEq, Eq)]
pub struct ModuleId {
    pub address: AccountAddress,
    pub name: Identifier,
}

/// The mathematical value of a `ModuleId`.
pub struct ModuleIdV {
    pub address: Seq<u8>,
    pub name: Seq<char>,
}

impl View for ModuleId {
    type V = ModuleIdV;

    open spec fn view(&self) -> ModuleIdV {
        ModuleIdV { address: self.address@, name: self.name@ }
    }
}

/// The primitive value types a generated module can mention.
#[derive(Clone, Copy, Debug, PartialEq, Eq)]
pub enum SignatureToken {
    Bool,
    U64,
    Str,
    ByteArray,
    Address,
}

/// A single instruction of a generated function body. Bodies are not
/// semantically meaningful; branch targets are offsets into the body itself,
/// not into any module table.
#[derive(Clone, Copy, Debug, PartialEq, Eq)]
pub enum Bytecode {
    Add,
    Sub,
    Ret,
    BrTrue(usize),
    BrFalse(usize),
    Branch(usize),
}

/// A reference to a module: positions in the address and identifier pools.
/// Index 0 of the module-handle table always denotes the module under
/// construction itself.
#[derive(Clone, Copy, Debug, PartialEq, Eq)]
pub struct ModuleHandle {
    /// Position in the address pool.
    pub address: usize,
    /// Position in the identifier pool.
    pub name: usize,
}

/// A reference to a struct: owning module, name, and resource flag.
#[derive(Clone, Copy, Debug, PartialEq, Eq)]
pub struct StructHandle {
    /// Position in the module-handle table.
    pub module: usize,
    /// Position in the identifier pool.
    pub name: usize,
    /// Whether the struct is a nominal resource.
    pub is_nominal_resource: bool,
}

/// A struct definition: its handle and the contiguous run of its fields in
/// the field-definition table.
#[derive(Clone, Copy, Debug, PartialEq, Eq)]
pub struct StructDefinition {
    /// Position in the struct-handle table.
    pub struct_handle: usize,
    /// Number of fields of this struct.
    pub field_count: usize,
    /// Position in the field-definition table where the fields start.
    pub fields: usize,
}

/// A field definition: owning struct, name, and type.
#[derive(Clone, Copy, Debug, PartialEq, Eq)]
pub struct FieldDefinition {
    /// Position in the struct-handle table.
    pub struct_handle: usize,
    /// Position in the identifier pool.
    pub name: usize,
    /// Position in the type-signature pool.
    pub signature: usize,
}

/// A reference to a function: owning module, name, and signature.
#[derive(Clone, Copy, Debug, PartialEq, Eq)]
pub struct FunctionHandle {
    /// Position in the module-handle table.
    pub module: usize,
    /// Position in the identifier pool.
    pub name: usize,
    /// Position in the function-signature pool.
    pub signature: usize,
}

/// Argument and return types of a function.
#[derive(Debug, PartialEq, Eq)]
pub struct FunctionSignature {
    pub arg_types: Vec<SignatureToken>,
    pub return_types: Vec<SignatureToken>,
}

/// The mathematical value of a `FunctionSignature`.
pub struct FunctionSignatureV {
    pub arg_types: Seq<SignatureToken>,
    pub return_types: Seq<SignatureToken>,
}

impl View for FunctionSignature {
    type V = FunctionSignatureV;

    open spec fn view(&self) -> FunctionSignatureV {
        FunctionSignatureV { arg_types: self.arg_types@, return_types: self.return_types@ }
    }
}

/// The types of a function's local slots.
#[derive(Debug, PartialEq, Eq)]
pub struct LocalsSignature {
    pub tokens: Vec<SignatureToken>,
}

impl View for LocalsSignature {
    type V = Seq<SignatureToken>;

    open spec fn view(&self) -> Seq<SignatureToken> {
        self.tokens@
    }
}

/// The body of a function: its locals, a fixed stack bound, and code.
#[derive(Debug, PartialEq, Eq)]
pub struct CodeUnit {
    /// Fixed maximum stack size.
    pub max_stack_size: usize,
    /// Position in the locals-signature pool.
    pub locals: usize,
    /// The instruction sequence.
    pub code: Vec<Bytecode>,
}

/// The mathematical value of a `CodeUnit`.
pub struct CodeUnitV {
    pub max_stack_size: usize,
    pub locals: usize,
    pub code: Seq<Bytecode>,
}

impl View for CodeUnit {
    type V = CodeUnitV;

    open spec fn view(&self) -> CodeUnitV {
        CodeUnitV { max_stack_size: self.max_stack_size, locals: self.locals, code: self.code@ }
    }
}

/// A function definition: its handle, visibility, acquired resources, and
/// body. Generated definitions are always public and acquire nothing.
#[derive(Debug, PartialEq, Eq)]
pub struct FunctionDefinition {
    /// Position in the function-handle table.
    pub function: usize,
    /// Whether the function is public; generated definitions always are.
    pub is_public: bool,
    /// Positions in the struct-definition table of acquired resources;
    /// generation leaves this empty.
    pub acquires_global_resources: Vec<usize>,
    /// The function's body.
    pub code: CodeUnit,
}

/// The mathematical value of a `FunctionDefinition`.
pub struct FunctionDefinitionV {
    pub function: usize,
    pub is_public: bool,
    pub acquires_global_resources: Seq<usize>,
    pub code: CodeUnitV,
}

impl View for FunctionDefinition {
    type V = FunctionDefinitionV;

    open spec fn view(&self) -> FunctionDefinitionV {
        FunctionDefinitionV {
            function: self.function,
            is_public: self.is_public,
            acquires_global_resources: self.acquires_global_resources@,
            code: self.code@,
        }
    }
}

/// A module under construction: the mutable aggregate of all pools.
/// All mutation during generation is append-only.
#[derive(Debug, PartialEq, Eq)]
pub struct CompiledModuleMut {
    pub address_pool: Vec<AccountAddress>,
    pub identifiers: Vec<Identifier>,
    pub user_strings: Vec<String>,
    pub byte_array_pool: Vec<ByteArray>,
    pub type_signatures: Vec<SignatureToken>,
    pub module_handles: Vec<ModuleHandle>,
    pub struct_handles: Vec<StructHandle>,
    pub struct_defs: Vec<StructDefinition>,
    pub field_defs: Vec<FieldDefinition>,
    pub function_handles: Vec<FunctionHandle>,
    pub function_signatures: Vec<FunctionSignature>,
    pub locals_signatures: Vec<LocalsSignature>,
    pub function_defs: Vec<FunctionDefinition>,
}

/// Pointwise view equality of two pools.
pub open spec fn pools_view_eq<T: View>(a: Seq<T>, b: Seq<T>) -> bool {
    &&& a.len() == b.len()
    &&& forall|i: int| #![auto] 0 <= i < a.len() ==> a[i]@ == b[i]@
}

/// Two modules hold the same mathematical value: every pool has the same
/// length and the same entries, compared by view where entries own storage.
pub open spec fn module_view_eq(a: CompiledModuleMut, b: CompiledModuleMut) -> bool {
    &&& pools_view_eq(a.address_pool@, b.address_pool@)
    &&& pools_view_eq(a.identifiers@, b.identifiers@)
    &&& pools_view_eq(a.user_strings@, b.user_strings@)
    &&& pools_view_eq(a.byte_array_pool@, b.byte_array_pool@)
    &&& a.type_signatures@ == b.type_signatures@
    &&& a.module_handles@ == b.module_handles@
    &&& a.struct_handles@ == b.struct_handles@
    &&& a.struct_defs@ == b.struct_defs@
    &&& a.field_defs@ == b.field_defs@
    &&& a.function_handles@ == b.function_handles@
    &&& pools_view_eq(a.function_signatures@, b.function_signatures@)
    &&& pools_view_eq(a.locals_signatures@, b.locals_signatures@)
    &&& pools_view_eq(a.function_defs@, b.function_defs@)
}

/// Copy a vector of plain copyable values.
pub fn copy_vec<T: Copy>(v: &Vec<T>) -> (r: Vec<T>)
    ensures
        r@ == v@,
{
    let mut r: Vec<T> = Vec::new();
    let mut i: usize = 0;
    while i < v.len()
        invariant
            i <= v.len(),
            r@ == v@.subrange(0, i as int),
        decreases v.len() - i,
    {
        r.push(v[i]);
        i = i + 1;
        proof {
            assert(r@ =~= v@.subrange(0, i as int));
        }
    }
    proof {
        assert(v@.subrange(0, v.len() as int) =~= v@);
    }
    r
}

/// Decide equality of two byte strings.
pub fn bytes_eq(a: &Vec<u8>, b: &Vec<u8>) -> (r: bool)
    ensures
        r == (a@ == b@),
{
    if a.len() != b.len() {
        return false;
    }
    let mut i: usize = 0;
    while i < a.len()
        invariant
            i <= a.len(),
            a@.len() == b@.len(),
            forall|j: int| 0 <= j < i ==> a@[j] == b@[j],
        decreases a.len() - i,
    {
        if a[i] != b[i] {
            return false;
        }
        i = i + 1;
    }
    proof {
        assert(a@ =~= b@);
    }
    true
}

impl Clone for AccountAddress {
    fn clone(&self) -> (res: Self)
        ensures
            res@ == self@,
    {
        AccountAddress { bytes: copy_vec(&self.bytes) }
    }
}

impl Clone for Identifier {
    fn clone(&self) -> (res: Self)
        ensures
            res == *self,
    {
        Identifier { name: self.name.clone() }
    }
}

impl Clone for ByteArray {
    fn clone(&self) -> (res: Self)
        ensures
            res@ == self@,
    {
        ByteArray { bytes: copy_vec(&self.bytes) }
    }
}

impl Clone for ModuleId {
    fn clone(&self) -> (res: Self)
        ensures
            res@ == self@,
    {
        ModuleId { address: self.address.clone(), name: self.name.clone() }
    }
}

impl Clone for FunctionSignature {
    fn clone(&self) -> (res: Self)
        ensures
            res@ == self@,
    {
        FunctionSignature {
            arg_types: copy_vec(&self.arg_types),
            return_types: copy_vec(&self.return_types),
        }
    }
}

impl Clone for LocalsSignature {
    fn clone(&self) -> (res: Self)
        ensures
            res@ == self@,
    {
        LocalsSignature { tokens: copy_vec(&self.tokens) }
    }
}

impl Clone for CodeUnit {
    fn clone(&self) -> (res: Self)
        ensures
            res@ == self@,
    {
        CodeUnit {
            max_stack_size: self.max_stack_size,
            locals: self.locals,
            code: copy_vec(&self.code),
        }
    }
}

impl Clone for FunctionDefinition {
    fn clone(&self) -> (res: Self)
        ensures
            res@ == self@,
    {
        FunctionDefinition {
            function: self.function,
            is_public: self.is_public,
            acquires_global_resources: copy_vec(&self.acquires_global_resources),
            code: self.code.clone(),
        }
    }
}

/// Decide equality of two module identities.
pub fn id_eq(a: &ModuleId, b: &ModuleId) -> (r: bool)
    ensures
        r == (a@ == b@),
{
    bytes_eq(&a.address.bytes, &b.address.bytes) && a.name.name == b.name.name
}

/// Every module handle points inside the address and identifier pools.
pub open spec fn module_handles_ok(m: CompiledModuleMut) -> bool {
    forall|i: int|
        0 <= i < m.module_handles@.len() ==> {
            let h = #[trigger] m.module_handles@[i];
            h.address < m.address_pool@.len() && h.name < m.identifiers@.len()
        }
}

/// Every struct handle points inside the module-handle table and the
/// identifier pool.
pub open spec fn struct_handles_ok(m: CompiledModuleMut) -> bool {
    forall|i: int|
        0 <= i < m.struct_handles@.len() ==> {
            let h = #[trigger] m.struct_handles@[i];
            h.module < m.module_handles@.len() && h.name < m.identifiers@.len()
        }
}

/// Every struct definition points at a struct handle and at a contiguous,
/// in-bounds run of field definitions.
pub open spec fn struct_defs_ok(m: CompiledModuleMut) -> bool {
    forall|i: int|
        0 <= i < m.struct_defs@.len() ==> {
            let d = #[trigger] m.struct_defs@[i];
            d.struct_handle < m.struct_handles@.len() && d.fields + d.field_count
                <= m.field_defs@.len()
        }
}

/// Every field definition points at a struct handle, a name, and a type.
pub open spec fn field_defs_ok(m: CompiledModuleMut) -> bool {
    forall|i: int|
        0 <= i < m.field_defs@.len() ==> {
            let f = #[trigger] m.field_defs@[i];
            f.struct_handle < m.struct_handles@.len() && f.name < m.identifiers@.len()
                && f.signature < m.type_signatures@.len()
        }
}

/// Every function handle points at a module handle, a name, and a signature.
pub open spec fn function_handles_ok(m: CompiledModuleMut) -> bool {
    forall|i: int|
        0 <= i < m.function_handles@.len() ==> {
            let h = #[trigger] m.function_handles@[i];
            h.module < m.module_handles@.len() && h.name < m.identifiers@.len() && h.signature
                < m.function_signatures@.len()
        }
}

/// Every function definition points at a function handle and at a locals
/// signature.
pub open spec fn function_defs_ok(m: CompiledModuleMut) -> bool {
    forall|i: int|
        0 <= i < m.function_defs@.len() ==> {
            let d = #[trigger] m.function_defs@[i];
            d.function < m.function_handles@.len() && d.code.locals < m.locals_signatures@.len()
        }
}

/// The structural invariant of a generated module: every index stored in any
/// table is strictly less than the length of the table it refers to.
pub open spec fn bounds_ok(m: CompiledModuleMut) -> bool {
    &&& module_handles_ok(m)
    &&& struct_handles_ok(m)
    &&& struct_defs_ok(m)
    &&& field_defs_ok(m)
    &&& function_handles_ok(m)
    &&& function_defs_ok(m)
}

/// Module-handle index 0 exists and names the module itself through
/// position 0 of the address and identifier pools.
pub open spec fn has_self_handle(m: CompiledModuleMut) -> bool {
    &&& m.module_handles@.len() >= 1
    &&& m.module_handles@[0] == (ModuleHandle { address: 0, name: 0 })
}

/// A finished module is bounds-correct and carries its own handle.
pub open spec fn module_wf(m: CompiledModuleMut) -> bool {
    &&& bounds_ok(m)
    &&& has_self_handle(m)
}

/// The identity that module-handle `p` of `m` resolves to.
pub open spec fn spec_handle_id(m: CompiledModuleMut, p: int) -> ModuleIdV {
    let h = m.module_handles@[p];
    ModuleIdV { address: m.address_pool@[h.address as int]@, name: m.identifiers@[h.name as int]@ }
}

/// The identity of the module itself: what handle 0 resolves to.
pub open spec fn spec_self_id(m: CompiledModuleMut) -> ModuleIdV {
    spec_handle_id(m, 0)
}

fn check_module_handles(m: &CompiledModuleMut) -> (r: bool)
    ensures
        r == module_handles_ok(*m),
{
    let mut i: usize = 0;
    while i < m.module_handles.len()
        invariant
            i <= m.module_handles@.len(),
            forall|j: int|
                0 <= j < i ==> {
                    let h = #[trigger] m.module_handles@[j];
                    h.address < m.address_pool@.len() && h.name < m.identifiers@.len()
                },
        decreases m.module_handles@.len() - i,
    {
        let h = m.module_handles[i];
        if h.address >= m.address_pool.len() || h.name >= m.identifiers.len() {
            return false;
        }
        i = i + 1;
    }
    true
}

fn check_struct_handles(m: &CompiledModuleMut) -> (r: bool)
    ensures
        r == struct_handles_ok(*m),
{
    let mut i: usize = 0;
    while i < m.struct_handles.len()
        invariant
            i <= m.struct_handles@.len(),
            forall|j: int|
                0 <= j < i ==> {
                    let h = #[trigger] m.struct_handles@[j];
                    h.module < m.module_handles@.len() && h.name < m.identifiers@.len()
                },
        decreases m.struct_handles@.len() - i,
    {
        let h = m.struct_handles[i];
        if h.module >= m.module_handles.len() || h.name >= m.identifiers.len() {
            return false;
        }
        i = i + 1;
    }
    true
}

fn check_struct_defs(m: &CompiledModuleMut) -> (r: bool)
    ensures
        r == struct_defs_ok(*m),
{
    let mut i: usize = 0;
    while i < m.struct_defs.len()
        invariant
            i <= m.struct_defs@.len(),
            forall|j: int|
                0 <= j < i ==> {
                    let d = #[trigger] m.struct_defs@[j];
                    d.struct_handle < m.struct_handles@.len() && d.fields + d.field_count
                        <= m.field_defs@.len()
                },
        decreases m.struct_defs@.len() - i,
    {
        let d = m.struct_defs[i];
        if d.struct_handle >= m.struct_handles.len() {
            return false;
        }
        if d.fields > m.field_defs.len() || m.field_defs.len() - d.fields < d.field_count {
            return false;
        }
        i = i + 1;
    }
    true
}

fn check_field_defs(m: &CompiledModuleMut) -> (r: bool)
    ensures
        r == field_defs_ok(*m),
{
    let mut i: usize = 0;
    while i < m.field_defs.len()
        invariant
            i <= m.field_defs@.len(),
            forall|j: int|
                0 <= j < i ==> {
                    let f = #[trigger] m.field_defs@[j];
                    f.struct_handle < m.struct_handles@.len() && f.name < m.identifiers@.len()
                        && f.signature < m.type_signatures@.len()
                },
        decreases m.field_defs@.len() - i,
    {
        let f = m.field_defs[i];
        if f.struct_handle >= m.struct_handles.len() || f.name >= m.identifiers.len()
            || f.signature >= m.type_signatures.len() {
            return false;
        }
        i = i + 1;
    }
    true
}

fn check_function_handles(m: &CompiledModuleMut) -> (r: bool)
    ensures
        r == function_handles_ok(*m),
{
    let mut i: usize = 0;
    while i < m.function_handles.len()
        invariant
            i <= m.function_handles@.len(),
            forall|j: int|
                0 <= j < i ==> {
                    let h = #[trigger] m.function_handles@[j];
                    h.module < m.module_handles@.len() && h.name < m.identifiers@.len()
                        && h.signature < m.function_signatures@.len()
                },
        decreases m.function_handles@.len() - i,
    {
        let h = m.function_handles[i];
        if h.module >= m.module_handles.len() || h.name >= m.identifiers.len()
            || h.signature >= m.function_signatures.len() {
            return false;
        }
        i = i + 1;
    }
    true
}

fn check_function_defs(m: &CompiledModuleMut) -> (r: bool)
    ensures
        r == function_defs_ok(*m),
{
    let mut i: usize = 0;
    while i < m.function_defs.len()
        invariant
            i <= m.function_defs@.len(),
            forall|j: int|
                0 <= j < i ==> {
                    let d = #[trigger] m.function_defs@[j];
                    d.function < m.function_handles@.len() && d.code.locals
                        < m.locals_signatures@.len()
                },
        decreases m.function_defs@.len() - i,
    {
        if m.function_defs[i].function >= m.function_handles.len()
            || m.function_defs[i].code.locals >= m.locals_signatures.len() {
            return false;
        }
        i = i + 1;
    }
    true
}

/// Re-resolve every cross-table reference of `m` and report whether all of
/// them land strictly inside the table they point into.
pub fn check_bounds(m: &CompiledModuleMut) -> (r: bool)
    ensures
        r == bounds_ok(*m),
{
    check_module_handles(m) && check_struct_handles(m) && check_struct_defs(m)
        && check_field_defs(m) && check_function_handles(m) && check_function_defs(m)
}

/// A frozen, bounds-checked module. Once constructed it is never mutated;
/// the registry of known modules holds only values of this type.
#[derive(Debug, PartialEq, Eq)]
pub struct CompiledModule {
    pub inner: CompiledModuleMut,
}

impl CompiledModule {
    /// The invariant every frozen module satisfies.
    pub open spec fn wf(self) -> bool {
        module_wf(self.inner)
    }

    /// Freeze a module, succeeding exactly when every stored index is valid
    /// and handle 0 names the module itself.
    pub fn freeze(m: CompiledModuleMut) -> (r: Option<CompiledModule>)
        ensures
            match r {
                Some(cm) => cm.inner == m && module_wf(m),
                None => !module_wf(m),
            },
    {
        let self_handle_ok = m.module_handles.len() >= 1 && m.module_handles[0].address == 0
            && m.module_handles[0].name == 0;
        if self_handle_ok && check_bounds(&m) {
            Some(CompiledModule { inner: m })
        } else {
            None
        }
    }

    /// The identity of this module: what handle 0 resolves to.
    pub fn self_id(&self) -> (r: ModuleId)
        requires
            self.wf(),
        ensures
            r@ == spec_self_id(self.inner),
    {
        ModuleId {
            address: self.inner.address_pool[0].clone(),
            name: self.inner.identifiers[0].clone(),
        }
    }
}

impl Clone for CompiledModule {
    fn clone(&self) -> (res: Self)
        ensures
            module_view_eq(self.inner, res.inner),
    {
        CompiledModule { inner: self.inner.clone() }
    }
}

/// A module tagged as having passed verification. The tag can only be
/// applied by explicitly bypassing the verifier, so a value of this type
/// records that its holder accepted an unverified artifact.
#[derive(Debug, PartialEq, Eq)]
pub struct VerifiedModule {
    pub module: CompiledModule,
}

impl VerifiedModule {
    /// Wrap a frozen module without running any verifier over it. For use
    /// only where the caller accepts an artifact that was never verified.
    pub fn bypass_verification(module: CompiledModule) -> (r: VerifiedModule)
        ensures
            r.module == module,
    {
        VerifiedModule { module }
    }
}


fn copy_identifiers(v: &Vec<Identifier>) -> (r: Vec<Identifier>)
    ensures
        r@ == v@,
{
    let mut r: Vec<Identifier> = Vec::new();
    let mut i: usize = 0;
    while i < v.len()
        invariant
            i <= v.len(),
            r@ == v@.subrange(0, i as int),
        decreases v.len() - i,
    {
        r.push(v[i].clone());
        i = i + 1;
        proof {
            assert(r@ =~= v@.subrange(0, i as int));
        }
    }
    proof {
        assert(v@.subrange(0, v.len() as int) =~= v@);
    }
    r
}

fn copy_strings(v: &Vec<String>) -> (r: Vec<String>)
    ensures
        r@ == v@,
{
    let mut r: Vec<String> = Vec::new();
    let mut i: usize = 0;
    while i < v.len()
        invariant
            i <= v.len(),
            r@ == v@.subrange(0, i as int),
        decreases v.len() - i,
    {
        r.push(v[i].clone());
        i = i + 1;
        proof {
            assert(r@ =~= v@.subrange(0, i as int));
        }
    }
    proof {
        assert(v@.subrange(0, v.len() as int) =~= v@);
    }
    r
}

fn copy_addresses(v: &Vec<AccountAddress>) -> (r: Vec<AccountAddress>)
    ensures
        pools_view_eq(r@, v@),
{
    let mut r: Vec<AccountAddress> = Vec::new();
    let mut i: usize = 0;
    while i < v.len()
        invariant
            i <= v.len(),
            r@.len() == i,
            forall|j: int| #![auto] 0 <= j < i ==> r@[j]@ == v@[j]@,
        decreases v.len() - i,
    {
        r.push(v[i].clone());
        i = i + 1;
    }
    r
}

fn copy_byte_arrays(v: &Vec<ByteArray>) -> (r: Vec<ByteArray>)
    ensures
        pools_view_eq(r@, v@),
{
    let mut r: Vec<ByteArray> = Vec::new();
    let mut i: usize = 0;
    while i < v.len()
        invariant
            i <= v.len(),
            r@.len() == i,
            forall|j: int| #![auto] 0 <= j < i ==> r@[j]@ == v@[j]@,
        decreases v.len() - i,
    {
        r.push(v[i].clone());
        i = i + 1;
    }
    r
}

fn copy_function_signatures(v: &Vec<FunctionSignature>) -> (r: Vec<FunctionSignature>)
    ensures
        pools_view_eq(r@, v@),
{
    let mut r: Vec<FunctionSignature> = Vec::new();
    let mut i: usize = 0;
    while i < v.len()
        invariant
            i <= v.len(),
            r@.len() == i,
            forall|j: int| #![auto] 0 <= j < i ==> r@[j]@ == v@[j]@,
        decreases v.len() - i,
    {
        r.push(v[i].clone());
        i = i + 1;
    }
    r
}

fn copy_locals_signatures(v: &Vec<LocalsSignature>) -> (r: Vec<LocalsSignature>)
    ensures
        pools_view_eq(r@, v@),
{
    let mut r: Vec<LocalsSignature> = Vec::new();
    let mut i: usize = 0;
    while i < v.len()
        invariant
            i <= v.len(),
            r@.len() == i,
            forall|j: int| #![auto] 0 <= j < i ==> r@[j]@ == v@[j]@,
        decreases v.len() - i,
    {
        r.push(v[i].clone());
        i = i + 1;
    }
    r
}

fn copy_function_defs(v: &Vec<FunctionDefinition>) -> (r: Vec<FunctionDefinition>)
    ensures
        pools_view_eq(r@, v@),
{
    let mut r: Vec<FunctionDefinition> = Vec::new();
    let mut i: usize = 0;
    while i < v.len()
        invariant
            i <= v.len(),
            r@.len() == i,
            forall|j: int| #![auto] 0 <= j < i ==> r@[j]@ == v@[j]@,
        decreases v.len() - i,
    {
        r.push(v[i].clone());
        i = i + 1;
    }
    r
}

impl Clone for CompiledModuleMut {
    fn clone(&self) -> (res: Self)
        ensures
            module_view_eq(*self, res),
    {
        CompiledModuleMut {
            address_pool: copy_addresses(&self.address_pool),
            identifiers: copy_identifiers(&self.identifiers),
            user_strings: copy_strings(&self.user_strings),
            byte_array_pool: copy_byte_arrays(&self.byte_array_pool),
            type_signatures: copy_vec(&self.type_signatures),
            module_handles: copy_vec(&self.module_handles),
            struct_handles: copy_vec(&self.struct_handles),
            struct_defs: copy_vec(&self.struct_defs),
            field_defs: copy_vec(&self.field_defs),
            function_handles: copy_vec(&self.function_handles),
            function_signatures: copy_function_signatures(&self.function_signatures),
            locals_signatures: copy_locals_signatures(&self.locals_signatures),
            function_defs: copy_function_defs(&self.function_defs),
        }
    }
}

/// Two modules equal in value satisfy the structural invariant together:
/// the invariant depends only on pool lengths and index-carrying entries.
pub proof fn lemma_view_eq_wf(a: CompiledModuleMut, b: CompiledModuleMut)
    requires
        module_view_eq(a, b),
    ensures
        bounds_ok(a) == bounds_ok(b),
        has_self_handle(a) == has_self_handle(b),
        module_wf(a) == module_wf(b),
        has_self_handle(a) && a.address_pool@.len() >= 1 && a.identifiers@.len() >= 1
            ==> spec_self_id(a) == spec_self_id(b),
{
    assert(module_handles_ok(a) == module_handles_ok(b));
    assert(struct_handles_ok(a) == struct_handles_ok(b));
    assert(struct_defs_ok(a) == struct_defs_ok(b));
    assert(field_defs_ok(a) == field_defs_ok(b));
    assert(function_handles_ok(a) == function_handles_ok(b));
    assert(function_defs_ok(a) == function_defs_ok(b));
}

/// Relies on `String::push`: appends exactly the given character to the end
/// of the string.
#[verifier::external_body]
pub(crate) fn push_char(s: &mut String, c: char)
    ensures
        final(s)@ == old(s)@.push(c),
{
    s.push(c);
}

} // verus!
