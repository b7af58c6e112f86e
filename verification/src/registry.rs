use vstd::prelude::*;

use crate::error::TransferError;
use crate::identity::Identity;

verus! {

/// The hook's durable administrative record: the allow-list registry.
///
/// One instance lives at a fixed well-known derived address.  Its
/// `authority` is set once at creation and is the only identity allowed
/// to mutate the record; `is_on` is a one-way kill-switch for allow-list
/// enforcement; `fee` and `treasury_wallet` are set once at creation
/// (`fee` is stored for the caller's convention and does not scale the
/// companion transfer); `white_list` is the append-only member list of
/// destination accounts permitted to receive the asset.  Duplicate
/// members are permitted by design.
#[derive(Debug)]
pub struct WhiteList {
    /// The owner identity: the only caller admin operations accept.
    pub authority: Identity,
    /// Whether allow-list enforcement is in force.
    pub is_on: bool,
    /// An 8-bit fee rate, stored but not applied by the hook itself.
    pub fee: u8,
    /// The identity that receives fee proceeds.
    pub treasury_wallet: Identity,
    /// The destination accounts permitted while enforcement is on.
    pub white_list: Vec<Identity>,
}

/// The mathematical value of a registry: its fields with the member
/// list as a sequence.
pub ghost struct RegistryView {
    pub authority: Identity,
    pub is_on: bool,
    pub fee: u8,
    pub treasury_wallet: Identity,
    pub members: Seq<Identity>,
}

impl View for WhiteList {
    type V = RegistryView;

    open spec fn view(&self) -> RegistryView {
        RegistryView {
            authority: self.authority,
            is_on: self.is_on,
            fee: self.fee,
            treasury_wallet: self.treasury_wallet,
            members: self.white_list@,
        }
    }
}

impl RegistryView {
    /// Whether the registry lets a transfer reach `destination`: either
    /// enforcement is off, or the destination is a member.
    pub open spec fn permits(self, destination: Identity) -> bool {
        !self.is_on || self.members.contains(destination)
    }
}

/// The registry a creation call leaves behind: owned by its creator,
/// enforcement on, member list empty.
pub open spec fn fresh_registry(owner: Identity, fee: u8, treasury_wallet: Identity) -> RegistryView {
    RegistryView {
        authority: owner,
        is_on: true,
        fee,
        treasury_wallet,
        members: Seq::empty(),
    }
}

/// What enrolling `candidate` under `signer` does to a registry: the
/// registry afterwards, and the outcome handed back.
pub open spec fn enroll_spec(
    registry: RegistryView,
    signer: Identity,
    candidate: Identity,
) -> (RegistryView, Result<(), TransferError>) {
    if signer != registry.authority {
        (registry, Err(TransferError::Unauthorized))
    } else {
        (
            RegistryView { members: registry.members.push(candidate), ..registry },
            Ok(()),
        )
    }
}

/// What disabling enforcement under `signer` does to a registry.
pub open spec fn disable_spec(
    registry: RegistryView,
    signer: Identity,
) -> (RegistryView, Result<(), TransferError>) {
    if signer != registry.authority {
        (registry, Err(TransferError::Unauthorized))
    } else {
        (RegistryView { is_on: false, ..registry }, Ok(()))
    }
}

/// Appends `new_account` to the member list.  Only the registry's
/// authority may call this; any other signer is refused and the
/// registry is left untouched.  Duplicates are appended, not rejected.
pub fn add_to_whitelist(
    registry: &mut WhiteList,
    signer: Identity,
    new_account: Identity,
) -> (r: Result<(), TransferError>)
    ensures
        (final(registry)@, r) == enroll_spec(old(registry)@, signer, new_account),
{
    if signer != registry.authority {
        return Err(TransferError::Unauthorized);
    }
    registry.white_list.push(new_account);
    Ok(())
}

/// Turns allow-list enforcement off.  Only the registry's authority may
/// call this; any other signer is refused and the registry is left
/// untouched.  Disabling twice is a no-op, not an error, and there is
/// no operation that turns enforcement back on.
pub fn turn_off_whitelist(registry: &mut WhiteList, signer: Identity) -> (r: Result<
    (),
    TransferError,
>)
    ensures
        (final(registry)@, r) == disable_spec(old(registry)@, signer),
{
    if signer != registry.authority {
        return Err(TransferError::Unauthorized);
    }
    registry.is_on = false;
    Ok(())
}

/// The one storage slot at the registry's fixed well-known address:
/// empty until the registry is created, filled exactly once.
pub struct RegistrySlot {
    /// The registry, once created.
    pub stored: Option<WhiteList>,
}

impl RegistrySlot {
    /// The slot before anything was created at the well-known address.
    pub fn empty() -> (r: RegistrySlot)
        ensures
            r.stored is None,
    {
        RegistrySlot { stored: None }
    }
}

/// Creates the registry and lays out the auxiliary-account plan: the
/// one-time setup call.  The slot at the well-known address must still
/// be empty; a second creation is refused with `AlreadyExists` and
/// changes nothing.  On success the registry belongs to `payer` with
/// enforcement on and no members, and the call hands back the byte
/// image to persist at the plan's own well-known address, sized
/// exactly as `plan::meta_list_size` reserves for one entry.
pub fn initialize_extra_account_meta_list(
    slot: &mut RegistrySlot,
    payer: Identity,
    fee: u8,
    treasury_wallet: Identity,
) -> (r: Result<Vec<u8>, TransferError>)
    ensures
        old(slot).stored is Some ==> r == Err::<Vec<u8>, TransferError>(
            TransferError::AlreadyExists,
        ) && final(slot).stored == old(slot).stored,
        old(slot).stored is None ==> {
            &&& final(slot).stored matches Some(reg) && reg@ == fresh_registry(
                payer,
                fee,
                treasury_wallet,
            )
            &&& r matches Ok(image) && image@ == crate::plan::registry_plan_image()
        },
{
    if slot.stored.is_some() {
        return Err(TransferError::AlreadyExists);
    }
    let registry = WhiteList {
        authority: payer,
        is_on: true,
        fee,
        treasury_wallet,
        white_list: Vec::new(),
    };
    slot.stored = Some(registry);
    let plan = crate::plan::extra_account_metas();
    proof {
        crate::plan::lemma_registry_plan_bytes(plan@);
    }
    let image = crate::plan::encode_extra_account_meta_list(&plan).unwrap();
    Ok(image)
}

/// Law: only the stored authority may enroll a member or disable
/// enforcement; under any other signer both operations refuse with
/// `Unauthorized` and leave the registry exactly as it was.
pub proof fn lemma_admin_requires_authority(
    registry: RegistryView,
    signer: Identity,
    candidate: Identity,
)
    requires
        signer != registry.authority,
    ensures
        enroll_spec(registry, signer, candidate) == (
            registry,
            Err::<(), TransferError>(TransferError::Unauthorized),
        ),
        disable_spec(registry, signer) == (
            registry,
            Err::<(), TransferError>(TransferError::Unauthorized),
        ),
{
}

} // verus!
