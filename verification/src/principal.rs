use vstd::prelude::*;

verus! {

/// The most bytes that a principal can have.
pub const PRINCIPAL_MAX_LENGTH_IN_BYTES: usize = 29;

/// The identity of a canister or a user: up to 29 bytes.
#[derive(Debug, PartialEq, Eq, Hash)]
pub struct Principal {
    bytes: Vec<u8>,
}

impl View for Principal {
    type V = Seq<u8>;

    closed spec fn view(&self) -> Seq<u8> {
        self.bytes@
    }
}

/// The bytes of two byte slices are the same.
pub fn bytes_eq(a: &[u8], b: &[u8]) -> (r: bool)
    ensures
        r == (a@ == b@),
{
    if a.len() != b.len() {
        return false;
    }
    let mut i: usize = 0;
    while i < a.len()
        invariant
            a@.len() == b@.len(),
            i <= a@.len(),
            forall|j: int| 0 <= j < i ==> a@[j] == b@[j],
        decreases a@.len() - i,
    {
        if a[i] != b[i] {
            return false;
        }
        i = i + 1;
    }
    assert(a@ =~= b@);
    true
}

impl Principal {
    #[verifier::type_invariant]
    spec fn inv(self) -> bool {
        self.bytes@.len() <= PRINCIPAL_MAX_LENGTH_IN_BYTES
    }

    /// The principal with the given bytes.
    pub fn from_slice(slice: &[u8]) -> (p: Principal)
        requires
            slice@.len() <= PRINCIPAL_MAX_LENGTH_IN_BYTES,
        ensures
            p@ == slice@,
    {
        let mut bytes: Vec<u8> = Vec::new();
        let mut i: usize = 0;
        while i < slice.len()
            invariant
                i <= slice@.len(),
                bytes@ == slice@.subrange(0, i as int),
            decreases slice@.len() - i,
        {
            bytes.push(slice[i]);
            i = i + 1;
        }
        assert(bytes@ =~= slice@);
        Principal { bytes }
    }

    /// The bytes of this principal.
    pub fn as_slice(&self) -> (s: &[u8])
        ensures
            s@ == self@,
            s@.len() <= PRINCIPAL_MAX_LENGTH_IN_BYTES,
    {
        proof {
            use_type_invariant(self);
        }
        self.bytes.as_slice()
    }

    /// The principal of the management canister: no bytes.
    pub fn management_canister() -> (p: Principal)
        ensures
            p@ == Seq::<u8>::empty(),
    {
        Principal { bytes: Vec::new() }
    }

    /// The anonymous principal: the single byte 4.
    pub fn anonymous() -> (p: Principal)
        ensures
            p@ == seq![4u8],
    {
        let mut bytes: Vec<u8> = Vec::new();
        bytes.push(4u8);
        Principal { bytes }
    }

    /// This principal and `other` are the same.
    pub fn same_as(&self, other: &Principal) -> (r: bool)
        ensures
            r == (self@ == other@),
    {
        bytes_eq(self.bytes.as_slice(), other.bytes.as_slice())
    }

    /// A copy of this principal.
    pub fn copy(&self) -> (p: Principal)
        ensures
            p@ == self@,
    {
        proof {
            use_type_invariant(self);
        }
        Principal::from_slice(self.bytes.as_slice())
    }
}

impl Clone for Principal {
    fn clone(&self) -> (p: Principal)
        ensures
            p@ == self@,
    {
        self.copy()
    }
}

/// The list holds a principal with the bytes `p`.
pub open spec fn principals_contain(list: Seq<Principal>, p: Seq<u8>) -> bool {
    exists|i: int| 0 <= i < list.len() && #[trigger] list[i]@ == p
}

/// Whether the list holds a principal equal to `p`.
pub fn principals_contain_exec(list: &Vec<Principal>, p: &Principal) -> (r: bool)
    ensures
        r == principals_contain(list@, p@),
{
    let mut i: usize = 0;
    while i < list.len()
        invariant
            i <= list@.len(),
            forall|j: int| 0 <= j < i ==> list@[j]@ != p@,
        decreases list@.len() - i,
    {
        if list[i].same_as(p) {
            assert(list@[i as int]@ == p@);
            return true;
        }
        i = i + 1;
    }
    false
}

/// The bytes of each principal of a list.
pub open spec fn principals_view(s: Seq<Principal>) -> Seq<Seq<u8>> {
    s.map_values(|p: Principal| p@)
}

/// A copy of a list of principals.
pub fn copy_principals(list: &Vec<Principal>) -> (r: Vec<Principal>)
    ensures
        r@.len() == list@.len(),
        forall|i: int| 0 <= i < list@.len() ==> #[trigger] r@[i]@ == list@[i]@,
{
    let mut r: Vec<Principal> = Vec::new();
    let mut i: usize = 0;
    while i < list.len()
        invariant
            i <= list@.len(),
            r@.len() == i,
            forall|j: int| 0 <= j < i ==> #[trigger] r@[j]@ == list@[j]@,
        decreases list@.len() - i,
    {
        r.push(list[i].copy());
        i = i + 1;
    }
    r
}

/// The thirty bytes that stand for a principal: its length, its bytes, then zeros.
pub open spec fn spec_principal_thirty_bytes(p: Seq<u8>) -> Seq<u8> {
    seq![p.len() as u8] + p + Seq::new((29 - p.len()) as nat, |i: int| 0u8)
}

/// Writes a principal into thirty bytes: its length first, then its bytes, then zeros.
pub fn principal_as_thirty_bytes(p: &Principal) -> (bytes: [u8; 30])
    ensures
        bytes@ == spec_principal_thirty_bytes(p@),
{
    let mut bytes: [u8; 30] = [0; 30];
    let p_bytes: &[u8] = p.as_slice();
    bytes[0] = p_bytes.len() as u8;
    let mut i: usize = 0;
    while i < p_bytes.len()
        invariant
            p_bytes@ == p@,
            p_bytes@.len() <= 29,
            i <= p_bytes@.len(),
            bytes@.len() == 30,
            bytes@[0] == p_bytes@.len() as u8,
            forall|j: int| 0 <= j < i ==> bytes@[1 + j] == p_bytes@[j],
            forall|j: int| 1 + p_bytes@.len() <= j < 30 ==> bytes@[j] == 0,
        decreases p_bytes@.len() - i,
    {
        bytes[1 + i] = p_bytes[i];
        i = i + 1;
    }
    assert(bytes@ =~= spec_principal_thirty_bytes(p@));
    bytes
}

/// Reads a principal back out of thirty bytes: as many bytes after the first as the first
/// byte says.
pub fn thirty_bytes_as_principal(bytes: &[u8; 30]) -> (p: Principal)
    requires
        bytes@[0] <= 29,
    ensures
        p@ == bytes@.subrange(1, 1 + bytes@[0] as int),
{
    let len: usize = bytes[0] as usize;
    let mut v: Vec<u8> = Vec::new();
    let mut i: usize = 0;
    while i < len
        invariant
            len == bytes@[0],
            len <= 29,
            i <= len,
            v@ == bytes@.subrange(1, 1 + i as int),
        decreases len - i,
    {
        v.push(bytes[1 + i]);
        i = i + 1;
        assert(v@ =~= bytes@.subrange(1, 1 + i as int));
    }
    Principal::from_slice(v.as_slice())
}

/// Reading back the thirty bytes of a principal gives the same principal.
pub proof fn lemma_thirty_bytes_round_trip(p: Seq<u8>)
    requires
        p.len() <= PRINCIPAL_MAX_LENGTH_IN_BYTES,
    ensures
        spec_principal_thirty_bytes(p).len() == 30,
        spec_principal_thirty_bytes(p)[0] <= 29,
        spec_principal_thirty_bytes(p).subrange(1, 1 + spec_principal_thirty_bytes(p)[0] as int) == p,
{
    let b = spec_principal_thirty_bytes(p);
    assert(b.subrange(1, 1 + p.len() as int) =~= p);
}

/// A subaccount of a ledger account: thirty-two bytes.
pub struct IcpIdSub(pub [u8; 32]);

/// The identifier of an account on the ICP ledger: thirty-two bytes.
pub struct IcpId(pub [u8; 32]);

/// The subaccount of a principal: its thirty bytes, then two zeros.
pub open spec fn spec_principal_subaccount(p: Seq<u8>) -> Seq<u8> {
    spec_principal_thirty_bytes(p) + seq![0u8, 0u8]
}

/// The ledger subaccount that belongs to a principal.
pub fn principal_icp_subaccount(principal: &Principal) -> (sub: IcpIdSub)
    ensures
        sub.0@ == spec_principal_subaccount(principal@),
{
    IcpIdSub(principal_token_subaccount(principal))
}

/// The token-ledger subaccount that belongs to a principal.
pub fn principal_token_subaccount(principal: &Principal) -> (sub: [u8; 32])
    ensures
        sub@ == spec_principal_subaccount(principal@),
{
    let thirty: [u8; 30] = principal_as_thirty_bytes(principal);
    let mut sub_bytes: [u8; 32] = [0u8; 32];
    let mut i: usize = 0;
    while i < 30
        invariant
            i <= 30,
            sub_bytes@.len() == 32,
            forall|j: int| 0 <= j < i ==> sub_bytes@[j] == thirty@[j],
            forall|j: int| 30 <= j < 32 ==> sub_bytes@[j] == 0,
        decreases 30 - i,
    {
        sub_bytes[i] = thirty[i];
        i = i + 1;
    }
    assert(sub_bytes@ =~= spec_principal_subaccount(principal@));
    sub_bytes
}

/// The account identifier that the ICP ledger computes for an owner and a subaccount.
pub uninterp spec fn account_identifier(owner: Seq<u8>, subaccount: Seq<u8>) -> Seq<u8>;

/// Calls `ic_ledger_types::AccountIdentifier::new` on the owner and the subaccount, and hands
/// back its thirty-two bytes. Trusted to give the same bytes for the same owner and
/// subaccount; nothing more is claimed of them.
#[verifier::external_body]
fn icp_account_identifier(owner: &Principal, subaccount: &IcpIdSub) -> (id: IcpId)
    requires
        owner@.len() <= PRINCIPAL_MAX_LENGTH_IN_BYTES,
    ensures
        id.0@ == account_identifier(owner@, subaccount.0@),
{
    let owner = candid::Principal::from_slice(owner.bytes.as_slice());
    let id = ic_ledger_types::AccountIdentifier::new(&owner, &ic_ledger_types::Subaccount(subaccount.0));
    let mut bytes: [u8; 32] = [0u8; 32];
    bytes.copy_from_slice(id.as_ref());
    IcpId(bytes)
}

/// The bytes of the principal of the cycles-minting canister of the Internet Computer.
pub open spec fn spec_cycles_minting_canister_id() -> Seq<u8> {
    seq![0u8, 0, 0, 0, 0, 0, 0, 4, 1, 1]
}

/// The principal `ic_ledger_types::MAINNET_CYCLES_MINTING_CANISTER_ID`, which that crate's
/// source writes as the ten bytes of `spec_cycles_minting_canister_id`.
#[verifier::external_body]
fn cycles_minting_canister_id() -> (p: Principal)
    ensures
        p@ == spec_cycles_minting_canister_id(),
{
    Principal { bytes: ic_ledger_types::MAINNET_CYCLES_MINTING_CANISTER_ID.as_slice().to_vec() }
}

/// The ledger account of the cycles-minting canister with the subaccount of `owner`: where
/// ICP is sent for the cycles-minting canister to make cycles for `owner`.
pub fn cycles_minting_canister_icp_id(owner: &Principal) -> (id: IcpId)
    ensures
        id.0@ == account_identifier(spec_cycles_minting_canister_id(), spec_principal_subaccount(owner@)),
{
    let sub: IcpIdSub = principal_icp_subaccount(owner);
    let cmc: Principal = cycles_minting_canister_id();
    proof {
        use_type_invariant(&cmc);
    }
    icp_account_identifier(&cmc, &sub)
}

/// The ledger account of a user: the subaccount of the user under the CTS.
pub fn user_icp_id(cts_id: &Principal, user_id: &Principal) -> (id: IcpId)
    ensures
        id.0@ == account_identifier(cts_id@, spec_principal_subaccount(user_id@)),
{
    let sub: IcpIdSub = principal_icp_subaccount(user_id);
    proof {
        use_type_invariant(cts_id);
    }
    icp_account_identifier(cts_id, &sub)
}

} // verus!
