use vstd::prelude::*;
use crate::address::Address;
use move_core_types::language_storage::TypeTag;

verus! {

/// Declares move_core_types::language_storage::TypeTag for Verus. The harness
/// never reads inside a type argument: payloads carry them through untouched.
#[verifier::external_type_specification]
#[verifier::external_body]
pub struct ExTypeTag(TypeTag);

/// The artifacts of a successfully built package: its serialized package
/// metadata and the compiled bytes of each module, in package order.
pub struct BuiltPackageArtifacts {
    pub metadata_bytes: Vec<u8>,
    pub module_code: Vec<Vec<u8>>,
}

/// The operation a transaction asks the execution engine to perform: publish
/// a compiled package, or call an entry function of a published module.
pub enum Payload {
    ModulePublish {
        metadata_bytes: Vec<u8>,
        module_code: Vec<Vec<u8>>,
    },
    EntryFunctionCall {
        module_address: Address,
        module_name: String,
        function_name: String,
        ty_args: Vec<TypeTag>,
        args: Vec<Vec<u8>>,
    },
}

} // verus!
