//! What passes between the library and the runtime about a device: the
//! names that the runtime is given, and the references that it gives back.

use vstd::prelude::*;

verus! {

/// The runtime's reference to a constructed device. It says nothing by
/// itself and is good only as long as the device exists.
#[derive(Debug, Clone, Copy, PartialEq, Eq, Structural)]
pub struct DeviceHandle {
    raw: u64,
}

impl DeviceHandle {
    pub closed spec fn spec_raw(self) -> u64 {
        self.raw
    }

    pub fn new(raw: u64) -> (handle: Self)
        ensures
            handle.spec_raw() == raw,
    {
        DeviceHandle { raw }
    }

    pub fn raw(&self) -> (raw: u64)
        ensures
            raw == self.spec_raw(),
    {
        self.raw
    }
}

/// Whether a text can be handed to the runtime as a name: the runtime
/// reads names as C strings, so a name holds no NUL.
pub open spec fn spec_nul_free(text: Seq<char>) -> bool {
    forall|i: int| 0 <= i < text.len() ==> text[i] != '\0'
}

pub fn nul_free(text: &str) -> (free: bool)
    ensures
        free == spec_nul_free(text@),
{
    for c in it: text.chars()
        invariant
            it.seq() == text@,
            forall|i: int| 0 <= i < it.index() ==> text@[i] != '\0',
    {
        if c == '\0' {
            return false;
        }
    }
    true
}

/// A text made of two names is a name.
pub proof fn lemma_nul_free_joined(head: Seq<char>, tail: Seq<char>)
    requires
        spec_nul_free(head),
        spec_nul_free(tail),
    ensures
        spec_nul_free(head + tail),
{
    assert forall|i: int| 0 <= i < (head + tail).len() implies (head + tail)[i] != '\0' by {
        if i >= head.len() {
            assert((head + tail)[i] == tail[i - head.len()]);
        }
    }
}

} // verus!
