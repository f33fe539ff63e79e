//! Text as the operating system takes it: a byte buffer that ends in a zero
//! byte.

use vstd::prelude::*;
use vstd::slice::slice_to_vec;
use vstd::string::StringSliceAdditionalSpecFns;

verus! {

/// `bytes` followed by one terminating zero byte.
pub open spec fn null_terminated(bytes: Seq<u8>) -> Seq<u8> {
    bytes.push(0u8)
}

/// What a reader of zero-terminated text takes from `buffer`: the bytes in
/// front of its first zero byte, or all of it where it holds none.
pub open spec fn text_read_from(buffer: Seq<u8>) -> Seq<u8>
    decreases buffer.len(),
{
    if buffer.len() == 0 || buffer[0] == 0u8 {
        Seq::empty()
    } else {
        seq![buffer[0]] + text_read_from(buffer.drop_first())
    }
}

/// Copies the bytes of `text` into a fresh buffer one byte longer and
/// terminates it with a zero byte.
pub fn null_terminated_bytes(text: &str) -> (buffer: Vec<u8>)
    ensures
        buffer@ == null_terminated(text.spec_bytes()),
{
    let mut buffer = slice_to_vec(text.as_bytes());
    buffer.push(0u8);
    buffer
}

/// What is read from a buffer never holds a zero byte and is never longer
/// than the buffer.
proof fn lemma_text_read_is_zero_free(buffer: Seq<u8>)
    ensures
        !text_read_from(buffer).contains(0u8),
        text_read_from(buffer).len() <= buffer.len(),
    decreases buffer.len(),
{
    if buffer.len() == 0 || buffer[0] == 0u8 {
    } else {
        let rest = text_read_from(buffer.drop_first());
        lemma_text_read_is_zero_free(buffer.drop_first());
        let read = seq![buffer[0]] + rest;
        assert forall|i: int| 0 <= i < read.len() implies read[i] != 0u8 by {
            if i > 0 {
                assert(read[i] == rest[i - 1]);
                assert(rest.contains(rest[i - 1]));
            }
        }
    }
}

/// A terminated buffer reads back as the text it was made from exactly when
/// that text holds no zero byte itself; a zero byte inside the text cuts the
/// reading short.
pub proof fn law_terminated_text_reads_back(bytes: Seq<u8>)
    ensures
        text_read_from(null_terminated(bytes)) == bytes <==> !bytes.contains(0u8),
    decreases bytes.len(),
{
    let buffer = null_terminated(bytes);
    lemma_text_read_is_zero_free(buffer);
    if bytes.len() == 0 {
        assert(text_read_from(buffer) =~= bytes);
        assert(!bytes.contains(0u8));
    } else if bytes[0] == 0u8 {
        assert(bytes.contains(0u8));
        assert(text_read_from(buffer).len() == 0);
    } else {
        let tail = bytes.drop_first();
        assert(buffer.drop_first() =~= null_terminated(tail));
        law_terminated_text_reads_back(tail);
        if !bytes.contains(0u8) {
            assert forall|i: int| 0 <= i < tail.len() implies tail[i] != 0u8 by {
                assert(bytes.contains(bytes[i + 1]));
            }
            assert(text_read_from(buffer) =~= bytes);
        }
    }
}

} // verus!
