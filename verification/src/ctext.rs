//! Texts on their way to the engine.
//!
//! The engine reads a text as the bytes up to the first zero byte. A text that
//! holds a zero byte would arrive cut short, so it is refused here, before any
//! call is made.

use crate::errors::{outcome, ErrorModel, GdalError};
use vstd::prelude::*;
use vstd::string::StringSliceAdditionalSpecFns;
use vstd::utf8::{
    char_is_scalar, char_u32_cast, encode_scalar, encode_utf8, has_width_1_encoding, is_scalar,
    last_continuation_byte, leading_byte_width_1, leading_byte_width_2, leading_byte_width_3,
    leading_byte_width_4, second_last_continuation_byte, third_last_continuation_byte,
};

verus! {

/// `at` is the index of the first zero byte of `bytes`.
pub open spec fn is_first_nul(bytes: Seq<u8>, at: int) -> bool {
    &&& 0 <= at < bytes.len()
    &&& bytes[at] == 0u8
    &&& forall|j: int| 0 <= j < at ==> bytes[j] != 0u8
}

/// The index of the first zero byte of `bytes`, where there is one.
pub open spec fn first_nul(bytes: Seq<u8>) -> int {
    choose|at: int| is_first_nul(bytes, at)
}

/// The error with which `bytes` that hold a zero byte are refused: it names
/// the place of the first one.
pub open spec fn refusal(bytes: Seq<u8>) -> ErrorModel {
    ErrorModel::FfiNulError { position: first_nul(bytes) as nat }
}

/// What marshaling `bytes` gives: the bytes themselves where none of them is
/// zero, else the place of the first zero byte.
pub open spec fn marshal_outcome(bytes: Seq<u8>) -> Result<Seq<u8>, ErrorModel> {
    if bytes.contains(0u8) {
        Err(refusal(bytes))
    } else {
        Ok(bytes)
    }
}

/// A text as the engine takes it: its UTF-8 bytes, none of them zero, and one
/// zero byte that ends them.
#[derive(Debug)]
pub struct CText {
    bytes: Vec<u8>,
}

impl View for CText {
    type V = Seq<u8>;

    /// The bytes of the text, without the zero byte that ends the buffer.
    closed spec fn view(&self) -> Seq<u8> {
        self.bytes@.drop_last()
    }
}

impl CText {
    #[verifier::type_invariant]
    spec fn well_formed(self) -> bool {
        &&& self.bytes@.len() >= 1
        &&& self.bytes@.last() == 0u8
        &&& !self.bytes@.drop_last().contains(0u8)
    }

    /// Marshals `text`. Fails exactly where the text holds the character NUL,
    /// and then says where the first zero byte of its encoding is.
    pub fn new(text: &str) -> (r: Result<CText, GdalError>)
        ensures
            outcome(r) == marshal_outcome(text.spec_bytes()),
            r is Err <==> text@.contains('\0'),
    {
        let source = text.as_bytes();
        let mut bytes: Vec<u8> = Vec::new();
        let mut i: usize = 0;
        while i < source.len()
            invariant
                i <= source.len(),
                source@ == text.spec_bytes(),
                bytes@ == source@.take(i as int),
                forall|j: int| 0 <= j < i ==> source@[j] != 0u8,
            decreases source.len() - i,
        {
            let b = source[i];
            if b == 0 {
                proof {
                    lemma_first_nul_is_unique(source@, i as int);
                    lemma_nul_byte_is_nul_char(text@);
                }
                return Err(GdalError::FfiNulError { position: i });
            }
            bytes.push(b);
            assert(bytes@ == source@.take(i + 1));
            i += 1;
        }
        proof {
            assert(source@.take(i as int) == source@);
            lemma_nul_byte_is_nul_char(text@);
        }
        bytes.push(0);
        assert(bytes@.drop_last() == source@);
        Ok(CText { bytes })
    }

    /// The buffer to hand to the engine: the text, then one zero byte.
    pub fn as_bytes_with_nul(&self) -> (buffer: &[u8])
        ensures
            buffer@ == self@.push(0u8),
            !self@.contains(0u8),
    {
        proof {
            use_type_invariant(self);
            assert(self.bytes@ == self.bytes@.drop_last().push(0u8));
        }
        self.bytes.as_slice()
    }
}

/// A sequence has at most one first zero byte.
pub proof fn lemma_first_nul_is_unique(bytes: Seq<u8>, at: int)
    requires
        is_first_nul(bytes, at),
    ensures
        bytes.contains(0u8),
        first_nul(bytes) == at,
{
    let k = first_nul(bytes);
    assert(is_first_nul(bytes, k));
    if k < at {
        assert(bytes[k] != 0u8);
    } else if at < k {
        assert(bytes[at] != 0u8);
    }
}

/// The encoding of one character holds a zero byte exactly if the character
/// is NUL.
proof fn lemma_scalar_with_nul(scalar: u32)
    requires
        is_scalar(scalar),
    ensures
        encode_scalar(scalar).contains(0u8) <==> scalar == 0,
{
    let bytes = encode_scalar(scalar);
    assert(leading_byte_width_2(scalar) != 0u8 && leading_byte_width_3(scalar) != 0u8
        && leading_byte_width_4(scalar) != 0u8 && last_continuation_byte(scalar) != 0u8
        && second_last_continuation_byte(scalar) != 0u8 && third_last_continuation_byte(scalar)
        != 0u8) by {
        assert(0xC0u8 | ((scalar >> 6) & 0x1F) as u8 != 0u8) by (bit_vector);
        assert(0xE0u8 | ((scalar >> 12) & 0x0F) as u8 != 0u8) by (bit_vector);
        assert(0xF0u8 | ((scalar >> 18) & 0x7) as u8 != 0u8) by (bit_vector);
        assert(0x80u8 | (scalar & 0x3F) as u8 != 0u8) by (bit_vector);
        assert(0x80u8 | ((scalar >> 6) & 0x3F) as u8 != 0u8) by (bit_vector);
        assert(0x80u8 | ((scalar >> 12) & 0x3F) as u8 != 0u8) by (bit_vector);
    }
    if has_width_1_encoding(scalar) {
        assert(((scalar & 0x7F) as u8 == 0u8) <==> scalar == 0) by (bit_vector)
            requires
                scalar <= 0x7F,
        ;
        assert(bytes[0] == leading_byte_width_1(scalar));
        if scalar == 0 {
            assert(bytes[0] == 0u8);
        }
    }
    if bytes.contains(0u8) {
        let i = choose|i: int| 0 <= i < bytes.len() && bytes[i] == 0u8;
        assert(bytes[i] == 0u8);
    }
}

/// The UTF-8 encoding of a text holds a zero byte exactly if the text holds
/// the character NUL: no other character has a zero byte in its encoding. So
/// marshaling refuses the texts with a NUL in them, and no others.
pub proof fn lemma_nul_byte_is_nul_char(chars: Seq<char>)
    ensures
        encode_utf8(chars).contains(0u8) <==> chars.contains('\0'),
    decreases chars.len(),
{
    if chars.len() == 0 {
    } else {
        let head = encode_scalar(chars[0] as u32);
        let rest = chars.drop_first();
        let tail = encode_utf8(rest);
        let bytes = encode_utf8(chars);
        assert(bytes == head + tail);
        char_is_scalar(chars[0]);
        lemma_scalar_with_nul(chars[0] as u32);
        lemma_nul_byte_is_nul_char(rest);
        assert((chars[0] as u32 == 0) <==> chars[0] == '\0') by {
            assert('\0' as u32 == 0);
            if chars[0] as u32 == 0 {
                char_u32_cast(chars[0], 0);
                char_u32_cast('\0', 0);
            }
        }
        if bytes.contains(0u8) {
            let i = choose|i: int| 0 <= i < bytes.len() && bytes[i] == 0u8;
            if i < head.len() {
                assert(head[i] == 0u8);
                assert(chars[0] == '\0');
            } else {
                assert(tail[i - head.len()] == 0u8);
                let k = choose|k: int| 0 <= k < rest.len() && rest[k] == '\0';
                assert(chars[k + 1] == '\0');
            }
        }
        if chars.contains('\0') {
            let k = choose|k: int| 0 <= k < chars.len() && chars[k] == '\0';
            if k == 0 {
                let i = choose|i: int| 0 <= i < head.len() && head[i] == 0u8;
                assert(bytes[i] == 0u8);
            } else {
                assert(rest[k - 1] == '\0');
                let i = choose|i: int| 0 <= i < tail.len() && tail[i] == 0u8;
                assert(bytes[head.len() + i] == 0u8);
            }
        }
    }
}

} // verus!
