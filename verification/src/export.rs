//! String export: turns an internal byte string into a null-terminated
//! buffer whose ownership crosses the boundary to the caller, and takes such
//! a buffer back when the caller releases it.
//!
//! Export fails, yielding no buffer, when the text holds an embedded null
//! byte; a native caller reading the buffer stops at the terminator, so the
//! exported text must be null-free.

use vstd::prelude::*;

verus! {

/// Whether the byte string holds a null byte anywhere.
pub open spec fn has_nul(s: Seq<u8>) -> bool {
    exists|i: int| 0 <= i < s.len() && s[i] == 0
}

/// A null-terminated buffer owned by the caller from export until release:
/// the exported text followed by a single terminating null byte.
#[derive(Clone, Debug)]
pub struct ExportedString {
    pub bytes: Vec<u8>,
}

impl ExportedString {
    /// A well-formed exported buffer ends with the terminator and holds no
    /// other null byte, so a reader that stops at the first null sees
    /// exactly the exported text.
    pub open spec fn wf(self) -> bool {
        &&& self.bytes@.len() >= 1
        &&& self.bytes@.last() == 0
        &&& !has_nul(self.text())
    }

    /// The exported text: everything before the terminator.
    pub open spec fn text(self) -> Seq<u8> {
        self.bytes@.take(self.bytes@.len() - 1)
    }
}

/// Allocate a caller-owned, null-terminated buffer holding `text`'s bytes.
/// Fails, returning no buffer, exactly when `text` holds an embedded null
/// byte.
pub fn export(text: &Vec<u8>) -> (r: Option<ExportedString>)
    ensures
        match r {
            Some(b) => {
                &&& !has_nul(text@)
                &&& b.bytes@ == text@.push(0u8)
                &&& b.wf()
                &&& b.text() == text@
            },
            None => has_nul(text@),
        },
{
    let n = text.len();
    let mut out: Vec<u8> = Vec::new();
    let mut i: usize = 0;
    while i < n
        invariant
            n == text@.len(),
            0 <= i <= n,
            out@ == text@.take(i as int),
            !has_nul(text@.take(i as int)),
        decreases n - i,
    {
        let byte = text[i];
        if byte == 0 {
            assert(text@[i as int] == 0);
            return None;
        }
        out.push(byte);
        i += 1;
        assert(out@ == text@.take(i as int));
        assert forall|j: int| 0 <= j < i implies text@.take(i as int)[j] != 0 by {
            if j < i - 1 {
                assert(text@.take(i - 1)[j] == text@[j]);
            }
        }
    }
    assert(text@.take(n as int) == text@);
    out.push(0);
    let b = ExportedString { bytes: out };
    proof {
        assert(b.bytes@ == text@.push(0u8));
        assert(b.text() == text@.push(0u8).take(text@.len() as int));
        assert(b.text() =~= text@);
    }
    Some(b)
}

/// Read an exported buffer back the way a native caller does: the bytes
/// before the terminator, which are exactly the exported text.
pub fn read_exported(b: &ExportedString) -> (r: Vec<u8>)
    requires
        b.wf(),
    ensures
        r@ == b.text(),
{
    let n = b.bytes.len();
    let mut out: Vec<u8> = Vec::new();
    let mut i: usize = 0;
    while i < n - 1
        invariant
            b.wf(),
            n == b.bytes@.len(),
            1 <= n,
            0 <= i <= n - 1,
            out@ == b.text().take(i as int),
        decreases n - i,
    {
        let byte = b.bytes[i];
        out.push(byte);
        proof {
            assert(b.text()[i as int] == b.bytes@[i as int]);
            assert(out@ =~= b.text().take(i + 1));
        }
        i += 1;
    }
    proof {
        assert(out@ =~= b.text());
    }
    out
}

/// Take an exported buffer back from the caller and free its storage. The
/// buffer's lifecycle ends here: export, use, release exactly once.
pub fn release(_buffer: ExportedString) {
}

/// Export round-trips: a buffer exported from null-free text is well
/// formed — null-terminated, with the original text, byte for byte, before
/// the terminator — so reading it back yields the text unchanged.
pub proof fn lemma_export_round_trip(text: Seq<u8>, b: ExportedString)
    requires
        !has_nul(text),
        b.bytes@ == text.push(0u8),
    ensures
        b.wf(),
        b.text() == text,
{
    assert(b.text() =~= text);
}

} // verus!
