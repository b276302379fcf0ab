//! Module naming: the module a session compiles into is named after the
//! source file, made unique by the hex digest of the file's full path.

use vstd::prelude::*;
use vstd::string::StringExecFns;
use crypto::digest::Digest;
use crate::context::{spec_create_module, Compiler};
use crate::diag::CompileError;

verus! {

/// The lower-case hex text of the SHA-256 digest of a string's bytes:
/// a function of the characters alone.
pub uninterp spec fn sha256_hex_of(s: Seq<char>) -> Seq<char>;

/// Relies on rust-crypto's `Sha256`: `input_str` feeds the string's
/// bytes to the digest and `result_str` is the hex text of the 256-bit
/// result, so the answer is sixty-four hex characters determined by the
/// input characters alone.
#[verifier::external_body]
fn sha256_hex(s: &str) -> (r: String)
    ensures
        r@ == sha256_hex_of(s@),
        r@.len() == 64,
{
    let mut h = crypto::sha2::Sha256::new();
    h.input_str(s);
    h.result_str()
}

/// The module name a source file gets: its file name, then the hex
/// digest of its full path.
pub fn module_name_for(file_name: &str, full_path: &str) -> (r: String)
    ensures
        r@ == file_name@ + sha256_hex_of(full_path@),
{
    let mut out = String::from_str(file_name);
    let hex = sha256_hex(full_path);
    out.append(hex.as_str());
    out
}

impl Compiler {
    /// Create the module for a source file, naming it by the file's name
    /// and the digest of its full path.
    pub fn initialize_module_for_file(&mut self, file_name: &str, full_path: &str) -> (r: Result<
        (),
        CompileError,
    >)
        ensures
            final(self)@ == spec_create_module(
                old(self)@,
                file_name@ + sha256_hex_of(full_path@),
            ).0,
            crate::context::unit_outcome(
                r,
                spec_create_module(old(self)@, file_name@ + sha256_hex_of(full_path@)).1,
            ),
            old(self)@.wf() ==> final(self)@.wf(),
    {
        let name = module_name_for(file_name, full_path);
        self.create_module(name)
    }
}

} // verus!
