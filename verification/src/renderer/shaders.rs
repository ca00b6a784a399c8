use vstd::prelude::*;

use crate::error::HobbyError;

verus! {

/// The precompiled shader programs a pipeline can be built from.
#[derive(PartialEq, Eq, Structural, Debug, Clone, Copy)]
pub enum ShaderSet {
    Basic,
}

/// The compiled SPIR-V files of a shader set: vertex stage, then fragment stage.
pub fn get_shader_file_names(shader_set: ShaderSet) -> (r: (String, String))
    ensures
        r.0@ == "basic.vert.spv"@,
        r.1@ == "basic.frag.spv"@,
{
    match shader_set {
        ShaderSet::Basic => (String::from_str("basic.vert.spv"), String::from_str("basic.frag.spv")),
    }
}

/// The SPIR-V magic number.
pub const SPIRV_MAGIC: u32 = 0x07230203;

/// Word `i` of `bytes` read least significant byte first.
pub open spec fn le_word(bytes: Seq<u8>, i: int) -> int {
    bytes[4 * i] + bytes[4 * i + 1] * 0x100 + bytes[4 * i + 2] * 0x10000 + bytes[4 * i + 3]
        * 0x1000000
}

/// Word `i` of `bytes` read most significant byte first.
pub open spec fn be_word(bytes: Seq<u8>, i: int) -> int {
    bytes[4 * i + 3] + bytes[4 * i + 2] * 0x100 + bytes[4 * i + 1] * 0x10000 + bytes[4 * i]
        * 0x1000000
}

/// Whether the code starts with the magic number written least significant byte first.
pub open spec fn spirv_little_endian(bytes: Seq<u8>) -> bool {
    bytes.len() >= 4 && le_word(bytes, 0) == SPIRV_MAGIC
}

/// Whether the code starts with the magic number written most significant byte first.
pub open spec fn spirv_big_endian(bytes: Seq<u8>) -> bool {
    bytes.len() >= 4 && be_word(bytes, 0) == SPIRV_MAGIC
}

/// Whether bytes form a SPIR-V word stream: whole words, starting with the magic number
/// in either byte order.
pub open spec fn spirv_well_formed(bytes: Seq<u8>) -> bool {
    bytes.len() % 4 == 0 && (spirv_little_endian(bytes) || spirv_big_endian(bytes))
}

/// The words of a SPIR-V stream, each read in the byte order its magic number shows.
pub open spec fn spirv_words(bytes: Seq<u8>) -> Seq<u32> {
    Seq::new(
        (bytes.len() / 4) as nat,
        |i: int|
            if spirv_little_endian(bytes) {
                le_word(bytes, i) as u32
            } else {
                be_word(bytes, i) as u32
            },
    )
}

#[verifier::external_type_specification]
#[verifier::external_body]
pub struct ExIoError(std::io::Error);

/// Calls `ash::util::read_spv` on the bytes, through an in-memory cursor. The contract
/// states what its source shows: the call fails unless the length is a multiple of four
/// and the first word is the magic number in one of the two byte orders; otherwise it
/// returns the words, reading each in the byte order of the magic number (it reads
/// native words and swaps them all when the first one is the swapped magic number).
#[verifier::external_body]
fn read_spv(bytes: &[u8]) -> (r: Result<Vec<u32>, std::io::Error>)
    ensures
        r is Ok <==> spirv_well_formed(bytes@),
        r matches Ok(words) ==> words@ == spirv_words(bytes@),
{
    ash::util::read_spv(&mut std::io::Cursor::new(bytes))
}

/// Decodes compiled shader code into SPIR-V words.
pub fn decode_spirv(bytes: &Vec<u8>) -> (r: Result<Vec<u32>, HobbyError>)
    ensures
        r is Ok <==> spirv_well_formed(bytes@),
        r matches Ok(words) ==> words@ == spirv_words(bytes@),
        r matches Err(e) ==> e == HobbyError::InvalidSpirv,
{
    match read_spv(bytes.as_slice()) {
        Ok(words) => Ok(words),
        Err(_) => Err(HobbyError::InvalidSpirv),
    }
}

/// Decoded shader code is whole words, and its first word is the SPIR-V magic number,
/// whatever byte order the code was written in.
pub proof fn lemma_spirv_starts_with_magic(bytes: Seq<u8>)
    requires
        spirv_well_formed(bytes),
    ensures
        spirv_words(bytes).len() * 4 == bytes.len(),
        spirv_words(bytes)[0] == SPIRV_MAGIC,
{
}

} // verus!
