use vstd::prelude::*;
use crate::address::Address;
use crate::harness::AptosBB;
use crate::ident::{identifier_is_valid, is_valid_move_identifier};
use move_core_types::language_storage::TypeTag;

verus! {

/// Why a fully qualified function reference was rejected: module and function
/// names must satisfy the Move identifier rule. A malformed name is a caller
/// programming error, reported as an explicit error rather than as an
/// execution outcome.
#[derive(Clone, Copy, PartialEq, Eq, Structural, Debug)]
pub enum IdentifierError {
    InvalidModuleName,
    InvalidFunctionName,
}

/// A validated read-only call: the engine executes it against the pinned
/// state without submitting a transaction. It never touches the overlay or
/// the Sequence Ledger.
pub struct ViewFunctionRequest {
    pub module_address: Address,
    pub module_name: String,
    pub function_name: String,
    pub ty_args: Vec<TypeTag>,
    pub args: Vec<Vec<u8>>,
}

impl AptosBB {
    /// Validates the fully qualified function reference and composes the
    /// read-only call for the engine. Fails exactly on a malformed module or
    /// function name — the module name is checked first — and never mutates
    /// the session.
    pub fn execute_view_function(
        &self,
        module: Address,
        module_name: String,
        function: String,
        ty_args: Vec<TypeTag>,
        args: Vec<Vec<u8>>,
    ) -> (r: Result<ViewFunctionRequest, IdentifierError>)
        ensures
            !is_valid_move_identifier(module_name@) ==> (r matches Err(e) && e
                == IdentifierError::InvalidModuleName),
            is_valid_move_identifier(module_name@) && !is_valid_move_identifier(function@) ==> (
            r matches Err(e) && e == IdentifierError::InvalidFunctionName),
            is_valid_move_identifier(module_name@) && is_valid_move_identifier(function@) ==> (
            r matches Ok(v) && v.module_address == module && v.module_name == module_name
                && v.function_name == function && v.ty_args == ty_args && v.args == args),
    {
        if !identifier_is_valid(module_name.as_str()) {
            return Err(IdentifierError::InvalidModuleName);
        }
        if !identifier_is_valid(function.as_str()) {
            return Err(IdentifierError::InvalidFunctionName);
        }
        Ok(ViewFunctionRequest { module_address: module, module_name, function_name: function, ty_args, args })
    }
}

} // verus!
