//! Identifiers of compute instances, and their textual form.

use vstd::prelude::*;

verus! {

/// Longest identifier the orchestrator assigns, in bytes.
pub const MAX_ID_BYTES: usize = 29;

/// An opaque identifier of a compute instance, held as its raw bytes.
/// Immutable once assigned by the orchestrator; used both as "the instance
/// being created" and as "the instance receiving code".
pub struct InstanceId {
    bytes: Vec<u8>,
}

impl View for InstanceId {
    type V = Seq<u8>;

    closed spec fn view(&self) -> Seq<u8> {
        self.bytes@
    }
}

/// The textual form of an identifier, as the orchestrator's ecosystem
/// renders it; it depends on the identifier's bytes alone.
pub uninterp spec fn text_of(bytes: Seq<u8>) -> Seq<char>;

/// Relies on candid's `Principal`: `from_slice` accepts any slice of at
/// most 29 bytes (it panics above that), and `to_text` renders the
/// identifier's canonical textual form, computed from those bytes alone.
#[verifier::external_body]
fn principal_text(bytes: &Vec<u8>) -> (r: String)
    requires
        bytes@.len() <= MAX_ID_BYTES,
    ensures
        r@ == text_of(bytes@),
{
    candid::Principal::from_slice(bytes.as_slice()).to_text()
}

/// Copies a byte vector.
pub(crate) fn copy_bytes(v: &Vec<u8>) -> (r: Vec<u8>)
    ensures
        r@ == v@,
{
    let mut r: Vec<u8> = Vec::new();
    let mut i: usize = 0;
    while i < v.len()
        invariant
            i <= v@.len(),
            r@ == v@.subrange(0, i as int),
        decreases v@.len() - i,
    {
        r.push(v[i]);
        assert(r@ =~= v@.subrange(0, i + 1));
        i = i + 1;
    }
    proof {
        assert(r@ =~= v@);
    }
    r
}

impl InstanceId {
    /// Valid identifiers never exceed the orchestrator's bound.
    pub open spec fn wf(&self) -> bool {
        self@.len() <= MAX_ID_BYTES
    }

    /// Accepts the raw bytes of an identifier, rejecting over-long values.
    pub fn from_bytes(bytes: Vec<u8>) -> (r: Option<InstanceId>)
        ensures
            bytes@.len() <= MAX_ID_BYTES ==> (r matches Some(id) && id@ == bytes@ && id.wf()),
            bytes@.len() > MAX_ID_BYTES ==> r is None,
    {
        if bytes.len() <= MAX_ID_BYTES {
            Some(InstanceId { bytes })
        } else {
            None
        }
    }

    /// The identifier's raw bytes.
    pub fn as_bytes(&self) -> (r: &Vec<u8>)
        ensures
            r@ == self@,
    {
        &self.bytes
    }

    /// A second copy of this identifier.
    pub fn duplicate(&self) -> (r: InstanceId)
        ensures
            r@ == self@,
    {
        InstanceId { bytes: copy_bytes(&self.bytes) }
    }

    /// The textual form of this identifier.
    pub fn to_text(&self) -> (r: String)
        requires
            self.wf(),
        ensures
            r@ == text_of(self@),
    {
        principal_text(&self.bytes)
    }
}

} // verus!
