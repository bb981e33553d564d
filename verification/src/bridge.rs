use vstd::prelude::*;

use crate::error::PluginError;
use crate::utf8::Utf8Text;
use crate::utf8::is_valid_utf8;
use crate::utf8::lemma_valid_utf8_concat;

verus! {

/// One request over the invoke bridge: which host function to call, by
/// module and name, and its string-encoded argument payload. All three are
/// caller-owned, validated text; the request is built fresh for each call
/// and not retained.
pub struct InvokeRequest {
    pub module: Utf8Text,
    pub name: Utf8Text,
    pub args: Utf8Text,
}

impl InvokeRequest {
    /// All three strings of the request are well-formed text.
    pub open spec fn wf(self) -> bool {
        self.module.wf() && self.name.wf() && self.args.wf()
    }

    /// Assemble a request from its three strings.
    pub fn new(module: Utf8Text, name: Utf8Text, args: Utf8Text) -> (r: InvokeRequest)
        requires
            module.wf(),
            name.wf(),
            args.wf(),
        ensures
            r.module == module,
            r.name == name,
            r.args == args,
            r.wf(),
    {
        InvokeRequest { module, name, args }
    }
}

/// The host's reply to a cross-boundary call: the address of the two-word
/// descriptor it returned, and the two words read out of it, which designate
/// the result buffer in the guest's linear memory. Both the descriptor and
/// the payload buffer are allocations the bridge must release.
pub struct ResponseDescriptor {
    /// Where the two-word descriptor itself sits.
    pub descriptor_ptr: u32,
    /// First word: where the result payload sits.
    pub payload_ptr: u32,
    /// Second word: how many bytes the result payload holds.
    pub payload_len: u32,
}

/// The record of the releases handed to the guest allocator on the bridge's
/// behalf: each entry is a released address, in release order. A log is
/// well-formed when no address appears twice — the allocator's contract
/// forbids a double release.
pub struct ReleaseLog {
    released: Vec<u32>,
}

impl View for ReleaseLog {
    type V = Seq<u32>;

    closed spec fn view(&self) -> Seq<u32> {
        self.released@
    }
}

impl ReleaseLog {
    /// No address is ever released twice.
    pub open spec fn wf(self) -> bool {
        forall|i: int, j: int| 0 <= i < j < self@.len() ==> self@[i] != self@[j]
    }

    /// An empty log: nothing released yet.
    pub fn new() -> (r: ReleaseLog)
        ensures
            r@ == Seq::<u32>::empty(),
            r.wf(),
    {
        ReleaseLog { released: Vec::new() }
    }

    /// Record one release of `ptr`. An address may only ever be released
    /// once, so `ptr` must not already stand in the log.
    pub fn release(&mut self, ptr: u32)
        requires
            old(self).wf(),
            !old(self)@.contains(ptr),
        ensures
            final(self)@ == old(self)@.push(ptr),
            final(self).wf(),
    {
        proof {
            assert(forall|i: int| 0 <= i < self@.len() ==> self@[i] != ptr);
        }
        self.released.push(ptr);
    }

    /// How many releases were made.
    pub fn len(&self) -> (n: usize)
        ensures
            n == self@.len(),
    {
        self.released.len()
    }

    /// The `k`-th released address.
    pub fn entry(&self, k: usize) -> (ptr: u32)
        requires
            k < self@.len(),
        ensures
            ptr == self@[k as int],
    {
        self.released[k]
    }

    /// Whether `ptr` was released.
    pub fn was_released(&self, ptr: u32) -> (r: bool)
        ensures
            r == self@.contains(ptr),
    {
        let n: usize = self.released.len();
        let mut k: usize = 0;
        while k < n
            invariant
                k <= n,
                n == self@.len(),
                forall|m: int| 0 <= m < k ==> self@[m] != ptr,
            decreases n - k,
        {
            if self.released[k] == ptr {
                return true;
            }
            k = k + 1;
        }
        false
    }
}

/// Finish one cross-boundary invoke, given the descriptor words the host
/// returned and the payload bytes copied out of the designated buffer: take
/// ownership of the payload as text, then release the payload allocation and
/// then the descriptor allocation — payload first, since freeing the
/// descriptor first would make the payload pointer inaccessible — each
/// exactly once. A payload that is not well-formed UTF-8 is fatal before
/// anything is released.
pub fn complete_invoke(desc: &ResponseDescriptor, payload: Vec<u8>, log: &mut ReleaseLog) -> (r:
    Result<Utf8Text, PluginError>)
    requires
        old(log).wf(),
        !old(log)@.contains(desc.payload_ptr),
        !old(log)@.contains(desc.descriptor_ptr),
        desc.payload_ptr != desc.descriptor_ptr,
        payload@.len() == desc.payload_len,
    ensures
        final(log).wf(),
        is_valid_utf8(payload@) ==> r is Ok && r->Ok_0@ == payload@ && r->Ok_0.wf()
            && final(log)@ == old(log)@.push(desc.payload_ptr).push(desc.descriptor_ptr),
        !is_valid_utf8(payload@) ==> r == Err::<Utf8Text, PluginError>(PluginError::InvalidUtf8)
            && final(log)@ == old(log)@,
{
    match Utf8Text::from_bytes(payload) {
        Ok(text) => {
            log.release(desc.payload_ptr);
            log.release(desc.descriptor_ptr);
            Ok(text)
        },
        Err(e) => Err(e),
    }
}

/// The payload a host dispatcher that echoes its arguments sends back: the
/// three request strings joined with "/" (the byte 0x2F).
pub open spec fn echo_payload(module: Seq<u8>, name: Seq<u8>, args: Seq<u8>) -> Seq<u8> {
    module + seq![0x2Fu8] + name + seq![0x2Fu8] + args
}

/// law: the invoke bridge round-trips an echoing dispatcher. The echoed
/// payload is itself well-formed UTF-8 for any request, so by the contract
/// of `complete_invoke` the bridge returns exactly
/// module + "/" + name + "/" + args.
pub proof fn lemma_invoke_round_trip(req: InvokeRequest)
    requires
        req.wf(),
    ensures
        is_valid_utf8(echo_payload(req.module@, req.name@, req.args@)),
{
    let slash: Seq<u8> = seq![0x2Fu8];
    assert(is_valid_utf8(slash)) by {
        assert(slash[0] == 0x2Fu8);
        assert(is_valid_utf8(Seq::<u8>::empty()));
        assert(slash.skip(1) =~= Seq::<u8>::empty());
    }
    lemma_valid_utf8_concat(req.module@, slash);
    lemma_valid_utf8_concat(req.module@ + slash, req.name@);
    lemma_valid_utf8_concat(req.module@ + slash + req.name@, slash);
    lemma_valid_utf8_concat(req.module@ + slash + req.name@ + slash, req.args@);
}

} // verus!
