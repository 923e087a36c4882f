//! Symbolic names for the dictionaries that encoder and decoder share.
use vstd::prelude::*;
use vstd::string::StringSliceAdditionalSpecFns;

verus! {

/// Byte strings that recur in Stylus programs: the WebAssembly header, the
/// host module's name and the names of the host functions a program imports.
pub const STYLUS_PROGRAM_DICTIONARY: &'static str = "\0asm\u{1}\0\0\0vm_hooksuser_entrypointread_argswrite_resultpay_for_memory_growstorage_load_bytes32storage_cache_bytes32storage_flush_cachemsg_valuemsg_sendermsg_reentrantcall_contractdelegate_call_contractstatic_call_contractcreate1create2read_return_datareturn_data_sizeemit_logaccount_balanceaccount_codeaccount_code_sizeaccount_codehashblock_basefeeblock_coinbaseblock_gas_limitblock_numberblock_timestampchainidcontract_addressevm_gas_leftevm_ink_lefttx_gas_pricetx_ink_pricetx_originexit_earlynative_keccak256memory__data_end__heap_base";

/// Which dictionary a stream is encoded against. Decoding must name the same
/// one that encoding did.
#[derive(PartialEq, Eq, Structural, Debug, Clone, Copy)]
pub enum Dictionary {
    Empty,
    StylusProgram,
}

impl Dictionary {
    /// The dictionary's content, or `None` for no dictionary.
    pub open spec fn content(self) -> Option<Seq<u8>> {
        match self {
            Dictionary::Empty => None,
            Dictionary::StylusProgram => Some(STYLUS_PROGRAM_DICTIONARY.spec_bytes()),
        }
    }

    /// The bytes handed to the codec: no dictionary counts as an empty one.
    pub open spec fn bytes(self) -> Seq<u8> {
        match self.content() {
            Some(b) => b,
            None => Seq::empty(),
        }
    }

    pub fn slice(&self) -> (r: Option<&'static [u8]>)
        ensures
            r matches Some(b) ==> self.content() == Some(b@),
            r is None ==> self.content() is None,
    {
        match self {
            Dictionary::Empty => None,
            Dictionary::StylusProgram => Some(STYLUS_PROGRAM_DICTIONARY.as_bytes()),
        }
    }
}

} // verus!
