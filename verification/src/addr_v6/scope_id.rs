use vstd::prelude::*;

verus! {

/// The numeric identifier of the link that an IPv6 address belongs to.
#[derive(Debug, PartialEq, Eq, Hash, Clone, Copy)]
pub struct ScopeId(u32);

impl View for ScopeId {
    type V = u32;

    closed spec fn view(&self) -> u32 {
        self.0
    }
}

impl From<u32> for ScopeId {
    fn from(val: u32) -> (r: Self) {
        ScopeId(val)
    }
}

impl vstd::std_specs::convert::FromSpecImpl<u32> for ScopeId {
    open spec fn obeys_from_spec() -> bool {
        true
    }

    closed spec fn from_spec(v: u32) -> ScopeId {
        ScopeId(v)
    }
}

impl From<ScopeId> for u32 {
    fn from(val: ScopeId) -> (r: Self) {
        val.0
    }
}

impl vstd::std_specs::convert::FromSpecImpl<ScopeId> for u32 {
    open spec fn obeys_from_spec() -> bool {
        true
    }

    open spec fn from_spec(v: ScopeId) -> u32 {
        v@
    }
}

/// Turning a number into a scope identifier and back gives the number again.
pub proof fn lemma_scope_id_roundtrip(v: u32)
    ensures
        <u32 as vstd::std_specs::convert::FromSpec<ScopeId>>::from_spec(
            <ScopeId as vstd::std_specs::convert::FromSpec<u32>>::from_spec(v),
        ) == v,
{
}

} // verus!
