use vstd::prelude::*;

use crate::error::SetupError;

verus! {

/// Word `i` of a SPIR-V blob, read as four little-endian bytes.
pub open spec fn word_at(code: Seq<u8>, i: int) -> int {
    code[4 * i] + 256 * code[4 * i + 1] + 65536 * code[4 * i + 2] + 16777216 * code[4 * i + 3]
}

/// Turns a precompiled shader blob into the 32-bit words a shader module is made from,
/// refusing a blob whose length is not a multiple of four.
pub fn decode_shader_code(code: &[u8]) -> (r: Result<Vec<u32>, SetupError>)
    ensures
        code@.len() % 4 != 0 ==> r == Err::<Vec<u32>, SetupError>(SetupError::InvalidShaderCode),
        code@.len() % 4 == 0 ==> r is Ok && r->Ok_0@.len() == code@.len() / 4 && forall|i: int|
            0 <= i < r->Ok_0@.len() ==> #[trigger] r->Ok_0@[i] == word_at(code@, i),
{
    if code.len() % 4 != 0 {
        return Err(SetupError::InvalidShaderCode);
    }
    let len = code.len();
    let n = len / 4;
    let mut words: Vec<u32> = Vec::new();
    let mut i: usize = 0;
    while i < n
        invariant
            len == code@.len(),
            n == code@.len() / 4,
            code@.len() % 4 == 0,
            i <= n,
            words@.len() == i,
            forall|j: int| 0 <= j < i ==> #[trigger] words@[j] == word_at(code@, j),
        decreases n - i,
    {
        assert(4 * i + 3 < code@.len()) by (nonlinear_arith)
            requires
                i < n,
                n == code@.len() / 4,
        ;
        let b0 = code[4 * i] as u32;
        let b1 = code[4 * i + 1] as u32;
        let b2 = code[4 * i + 2] as u32;
        let b3 = code[4 * i + 3] as u32;
        let w = b0 + 256 * b1 + 65536 * b2 + 16777216 * b3;
        words.push(w);
        i = i + 1;
    }
    Ok(words)
}

} // verus!
