//! Bounds shared by every generation step.

use vstd::prelude::*;

verus! {

/// Number of bytes in an account address.
pub const ADDRESS_LENGTH: usize = 32;

/// Exclusive upper bound on the length of a generated identifier or
/// user string; generated lengths are drawn from `[1, MAX_STRING_SIZE)`.
pub const MAX_STRING_SIZE: usize = 100;

/// Exclusive upper bound on the length of a generated byte array;
/// generated lengths are drawn from `[1, BYTE_ARRAY_MAX_SIZE)`.
pub const BYTE_ARRAY_MAX_SIZE: usize = 64;

/// Exclusive upper bound on the number of fields of a generated struct.
pub const MAX_FIELDS: usize = 10;

/// Exclusive upper bound on the number of locals of a generated function.
pub const MAX_NUM_LOCALS: usize = 10;

/// Exclusive upper bound on the number of arguments of a generated function.
pub const MAX_FUNCTION_CALL_SIZE: usize = 8;

/// Exclusive upper bound on the number of return types of a generated
/// function.
pub const MAX_RETURN_TYPES_LENGTH: usize = 4;

/// Length of the randomly drawn name of a generated module.
pub const MODULE_NAME_LENGTH: usize = 10;

/// Fixed maximum stack size recorded in every generated code unit.
pub const DEFAULT_MAX_STACK_SIZE: usize = 20;

} // verus!
