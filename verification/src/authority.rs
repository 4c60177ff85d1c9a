use vstd::prelude::*;

verus! {

/// What the runtime's program-derived-address search returns for a
/// namespace tag and asset seed pair under a program id: the custodial
/// address and its bump, or nothing in the statistically negligible case
/// that no bump yields a valid address.  The search is a pure function of
/// its inputs, which is what makes the authority reproducible: the same
/// tag, asset and program always name the same custodian.
pub uninterp spec fn derived_authority(tag: Seq<u8>, asset: Seq<u8>, program: Seq<u8>) -> Option<
    (Seq<u8>, u8),
>;

/// Relies on Pubkey::try_find_program_address (solana-pubkey): the bump
/// search depends only on the seeds and the program id, and on the host
/// path it returns None instead of panicking when the seeds are unusable.
#[verifier::external_body]
fn find_authority(tag: &Vec<u8>, asset: &[u8; 32], program: &[u8; 32]) -> (r: Option<
    ([u8; 32], u8),
>)
    ensures
        match r {
            Some(p) => derived_authority(tag@, asset@, program@) == Some((p.0@, p.1)),
            None => derived_authority(tag@, asset@, program@) is None,
        },
{
    let program_id = anchor_lang::solana_program::pubkey::Pubkey::new_from_array(*program);
    let found = anchor_lang::solana_program::pubkey::Pubkey::try_find_program_address(
        &[tag.as_slice(), asset],
        &program_id,
    );
    found.map(|p| (p.0.to_bytes(), p.1))
}

/// The namespace tag under which order escrow authorities are derived:
/// the bytes of "order".
pub open spec fn order_tag() -> Seq<u8> {
    seq![111u8, 114u8, 100u8, 101u8, 114u8]
}

/// The namespace tag under which auction escrow authorities are derived:
/// the bytes of "auction".
pub open spec fn auction_tag() -> Seq<u8> {
    seq![97u8, 117u8, 99u8, 116u8, 105u8, 111u8, 110u8]
}

/// Derive the escrow authority that owns an order's vault for `asset`
/// under `program`.
pub fn order_authority(asset: &[u8; 32], program: &[u8; 32]) -> (r: Option<([u8; 32], u8)>)
    ensures
        match r {
            Some(p) => derived_authority(order_tag(), asset@, program@) == Some((p.0@, p.1)),
            None => derived_authority(order_tag(), asset@, program@) is None,
        },
{
    let tag: Vec<u8> = vec![111u8, 114u8, 100u8, 101u8, 114u8];
    proof {
        assert(tag@ =~= order_tag());
    }
    find_authority(&tag, asset, program)
}

/// Derive the escrow authority that owns an auction's vault for `asset`
/// under `program`.
pub fn auction_authority(asset: &[u8; 32], program: &[u8; 32]) -> (r: Option<([u8; 32], u8)>)
    ensures
        match r {
            Some(p) => derived_authority(auction_tag(), asset@, program@) == Some((p.0@, p.1)),
            None => derived_authority(auction_tag(), asset@, program@) is None,
        },
{
    let tag: Vec<u8> = vec![97u8, 117u8, 99u8, 116u8, 105u8, 111u8, 110u8];
    proof {
        assert(tag@ =~= auction_tag());
    }
    find_authority(&tag, asset, program)
}

/// Byte-wise equality of two 32-byte addresses.
fn bytes32_eq(x: &[u8; 32], y: &[u8; 32]) -> (r: bool)
    ensures
        r == (x@ == y@),
{
    let mut i: usize = 0;
    while i < 32
        invariant
            i <= 32,
            forall|j: int| 0 <= j < i ==> x@[j] == y@[j],
        decreases 32 - i,
    {
        if x[i] != y[i] {
            return false;
        }
        i += 1;
    }
    proof {
        assert(x@ =~= y@);
    }
    true
}

/// The verification routine a transfer collaborator runs before releasing
/// order escrow: a presented `(address, bump)` pair is accepted exactly
/// when it is what derivation yields for the asset under the program.
pub fn check_order_authority(asset: &[u8; 32], program: &[u8; 32], address: &[u8; 32], bump: u8) -> (r:
    bool)
    ensures
        r == (derived_authority(order_tag(), asset@, program@) == Some((address@, bump))),
{
    match order_authority(asset, program) {
        Some(p) => {
            let ok = bytes32_eq(&p.0, address);
            ok && p.1 == bump
        },
        None => false,
    }
}

/// The verification routine for auction escrow, as for orders.
pub fn check_auction_authority(
    asset: &[u8; 32],
    program: &[u8; 32],
    address: &[u8; 32],
    bump: u8,
) -> (r: bool)
    ensures
        r == (derived_authority(auction_tag(), asset@, program@) == Some((address@, bump))),
{
    match auction_authority(asset, program) {
        Some(p) => {
            let ok = bytes32_eq(&p.0, address);
            ok && p.1 == bump
        },
        None => false,
    }
}

} // verus!
