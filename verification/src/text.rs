//! Text that the compositor hands over as a C string.
//!
//! The compositor owns the memory of such a string and may free it at any
//! time, so the text is copied out at once. A null pointer is no error: it
//! stands for text that is not there, and reads as the empty string.

use vstd::prelude::*;
use vstd::slice::slice_subrange;
use vstd::utf8::{decode_utf8, valid_utf8};

verus! {

/// The bytes of `bytes` that stand before its first NUL; all of them where it
/// holds none.
pub open spec fn until_nul(bytes: Seq<u8>) -> Seq<u8>
    decreases bytes.len(),
{
    if bytes.len() == 0 || bytes[0] == 0 {
        Seq::empty()
    } else {
        seq![bytes[0]] + until_nul(bytes.drop_first())
    }
}

/// `until_nul` cuts at the first place that holds a NUL, or not at all.
pub proof fn lemma_until_nul(bytes: Seq<u8>, end: int)
    requires
        0 <= end <= bytes.len(),
        forall|i: int| 0 <= i < end ==> bytes[i] != 0,
        end == bytes.len() || bytes[end] == 0,
    ensures
        until_nul(bytes) == bytes.take(end),
    decreases end,
{
    if end == 0 {
        assert(bytes.take(0) =~= Seq::<u8>::empty());
    } else {
        let rest = bytes.drop_first();
        assert forall|i: int| 0 <= i < end - 1 implies rest[i] != 0 by {
            assert(rest[i] == bytes[i + 1]);
        }
        lemma_until_nul(rest, end - 1);
        assert(bytes.take(end) =~= seq![bytes[0]] + rest.take(end - 1));
    }
}

/// The text that std's lossy decoding makes of `bytes`.
pub uninterp spec fn utf8_lossy(bytes: Seq<u8>) -> Seq<char>;

/// Calls std's `String::from_utf8_lossy` and takes the result as an owned
/// string. Its result is a function of the bytes alone, named `utf8_lossy`.
/// Of that text std documents one thing in few words, which is stated here:
/// bytes that are valid UTF-8 give the text that they encode. What replaces
/// an invalid sequence is not stated.
#[verifier::external_body]
fn decode_lossy(bytes: &[u8]) -> (text: String)
    ensures
        text@ == utf8_lossy(bytes@),
        valid_utf8(bytes@) ==> text@ == decode_utf8(bytes@),
{
    String::from_utf8_lossy(bytes).into_owned()
}

/// The text at a C string pointer: nothing for the null pointer, else what the
/// bytes before the terminator decode to.
pub open spec fn text_at(raw: Option<Seq<u8>>) -> Seq<char> {
    match raw {
        None => Seq::empty(),
        Some(bytes) => utf8_lossy(until_nul(bytes)),
    }
}

/// How many bytes of `bytes` stand before its first NUL.
pub fn len_until_nul(bytes: &[u8]) -> (end: usize)
    ensures
        end <= bytes@.len(),
        until_nul(bytes@) == bytes@.take(end as int),
        forall|i: int| 0 <= i < end ==> bytes@[i] != 0,
        end == bytes@.len() || bytes@[end as int] == 0,
{
    let mut end: usize = 0;
    while end < bytes.len() && bytes[end] != 0
        invariant
            end <= bytes@.len(),
            forall|i: int| 0 <= i < end ==> bytes@[i] != 0,
        decreases bytes@.len() - end,
    {
        end += 1;
    }
    proof {
        lemma_until_nul(bytes@, end as int);
    }
    end
}

/// Copies the text at a C string pointer into an owned string. `raw` is what
/// the pointer refers to: `None` for the null pointer, else the bytes there. A
/// NUL among them ends the text.
pub fn pointer_to_string(raw: Option<&[u8]>) -> (text: String)
    ensures
        text@ == text_at(
            match raw {
                None => None,
                Some(bytes) => Some(bytes@),
            },
        ),
        raw is None ==> text@.len() == 0,
        raw matches Some(bytes) ==> (valid_utf8(until_nul(bytes@)) ==> text@ == decode_utf8(
            until_nul(bytes@),
        )),
{
    match raw {
        None => String::new(),
        Some(bytes) => {
            let end = len_until_nul(bytes);
            assert(bytes@.subrange(0, end as int) == bytes@.take(end as int));
            decode_lossy(slice_subrange(bytes, 0, end))
        },
    }
}

} // verus!
