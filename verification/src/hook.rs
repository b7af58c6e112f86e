use vstd::prelude::*;

use spl_token_2022::extension::transfer_hook::TransferHookAccount;
use spl_token_2022::extension::BaseStateWithExtensions;
use spl_token_2022::extension::PodStateWithExtensions;
use spl_token_2022::pod::PodAccount;

use crate::error::TransferError;
use crate::identity::Identity;
use crate::registry::RegistryView;
use crate::registry::WhiteList;

verus! {

/// The companion-asset holding accounts resolved for one transfer.
#[derive(Clone, Copy, Debug, PartialEq, Eq, Structural)]
pub struct CompanionAccounts {
    /// The holding account controlled by the transfer's owner.
    pub owner_holding: Identity,
    /// The delegate identity's relay holding account.
    pub delegate_holding: Identity,
    /// The treasury's holding account.
    pub treasury_holding: Identity,
}

/// A secondary transfer the hook orders on success: `amount` of the
/// companion asset moved from the owner's holding account to the
/// delegate's relay account, authorized by the delegate identity's
/// fixed derivation proof rather than a private key.  The amount equals
/// the primary amount, one for one: the registry's fee rate is stored
/// but deliberately not applied here.
#[derive(Clone, Copy, Debug, PartialEq, Eq, Structural)]
pub struct DelegatedTransfer {
    /// The account the companion asset leaves.
    pub from: Identity,
    /// The account the companion asset reaches.
    pub to: Identity,
    /// How much of the companion asset moves.
    pub amount: u64,
}

/// Everything one hook invocation consumes, assembled by the caller
/// from the accounts the auxiliary-account plan had it resolve, and
/// never persisted.
pub struct TransferContext {
    /// The raw data of the source holding account, extensions included.
    pub source_data: Vec<u8>,
    /// The address of the destination holding account.
    pub destination: Identity,
    /// The asset-mint descriptor.
    pub mint: Identity,
    /// The owner identity of the source account.
    pub owner: Identity,
    /// The amount of the primary transfer.
    pub amount: u64,
    /// The companion-asset accounts, where a companion transfer is
    /// configured.
    pub companion: Option<CompanionAccounts>,
}

/// The mathematical value of a transfer context.
pub ghost struct TransferContextView {
    pub source_data: Seq<u8>,
    pub destination: Identity,
    pub mint: Identity,
    pub owner: Identity,
    pub amount: u64,
    pub companion: Option<CompanionAccounts>,
}

impl View for TransferContext {
    type V = TransferContextView;

    open spec fn view(&self) -> TransferContextView {
        TransferContextView {
            source_data: self.source_data@,
            destination: self.destination,
            mint: self.mint,
            owner: self.owner,
            amount: self.amount,
            companion: self.companion,
        }
    }
}

/// The transfer-in-flight flag a holding account's data carries in its
/// transfer-hook extension, as a function of the raw bytes: `None`
/// where the data is not a well-formed holding account with that
/// extension.
pub uninterp spec fn transferring_flag_of(account_data: Seq<u8>) -> Option<bool>;

/// Relies on spl_token_2022's `PodStateWithExtensions::unpack` and
/// `BaseStateWithExtensions::get_extension` to parse a holding
/// account's raw data and read the transfer-hook extension's
/// `transferring` flag; the outcome is a function of the bytes alone.
#[verifier::external_body]
fn read_transferring_flag(account_data: &Vec<u8>) -> (r: Option<bool>)
    ensures
        r == transferring_flag_of(account_data@),
{
    match PodStateWithExtensions::<PodAccount>::unpack(account_data.as_slice()) {
        Ok(state) => match state.get_extension::<TransferHookAccount>() {
            Ok(extension) => Some(bool::from(extension.transferring)),
            Err(_) => None,
        },
        Err(_) => None,
    }
}

/// What the transfer-in-flight check concludes from the source
/// account's data.
pub open spec fn check_is_transferring_spec(source_data: Seq<u8>) -> Result<(), TransferError> {
    match transferring_flag_of(source_data) {
        Some(true) => Ok(()),
        Some(false) => Err(TransferError::NotTransferring),
        None => Err(TransferError::InvalidAccountData),
    }
}

/// Refuses a call whose source account is not in the middle of an
/// asset-layer transfer: the defense against direct invocation of the
/// hook outside a genuine transfer.
pub fn check_is_transferring(source_data: &Vec<u8>) -> (r: Result<(), TransferError>)
    ensures
        r == check_is_transferring_spec(source_data@),
{
    match read_transferring_flag(source_data) {
        Some(true) => Ok(()),
        Some(false) => Err(TransferError::NotTransferring),
        None => Err(TransferError::InvalidAccountData),
    }
}

/// The secondary transfer a successful invocation orders: the primary
/// amount, one for one, from the owner's holding account to the
/// delegate's relay account; nothing where no companion transfer is
/// configured.
pub open spec fn companion_transfer(ctx: TransferContextView) -> Option<DelegatedTransfer> {
    match ctx.companion {
        None => None,
        Some(c) => Some(
            DelegatedTransfer { from: c.owner_holding, to: c.delegate_holding, amount: ctx.amount },
        ),
    }
}

/// The hook's whole decision as a function of the request and the
/// registry: the transfer-in-flight check, then the allow-list check,
/// then the companion transfer.
pub open spec fn transfer_hook_spec(ctx: TransferContextView, registry: RegistryView) -> Result<
    Option<DelegatedTransfer>,
    TransferError,
> {
    match check_is_transferring_spec(ctx.source_data) {
        Err(e) => Err(e),
        Ok(_) => {
            if !registry.permits(ctx.destination) {
                Err(TransferError::NotWhitelisted)
            } else {
                Ok(companion_transfer(ctx))
            }
        },
    }
}

/// Whether `x` stands in the member list.
fn is_member(list: &Vec<Identity>, x: &Identity) -> (r: bool)
    ensures
        r == list@.contains(*x),
{
    let mut i: usize = 0;
    while i < list.len()
        invariant
            i <= list@.len(),
            forall|k: int| 0 <= k < i ==> list@[k] != *x,
        decreases list@.len() - i,
    {
        if list[i] == *x {
            proof {
                assert(list@[i as int] == *x);
            }
            return true;
        }
        i += 1;
    }
    false
}

/// The hook itself, invoked by the asset layer in the middle of every
/// transfer of the governed asset.  Two checks stand in series: the
/// source account must be inside an asset-layer transfer, and while
/// enforcement is on the destination must be a member of the allow-list.
/// On success the hook orders the companion transfer; it mutates
/// nothing itself.
pub fn transfer_hook(ctx: &TransferContext, registry: &WhiteList) -> (r: Result<
    Option<DelegatedTransfer>,
    TransferError,
>)
    ensures
        r == transfer_hook_spec(ctx@, registry@),
{
    match check_is_transferring(&ctx.source_data) {
        Err(e) => {
            return Err(e);
        },
        Ok(_) => {},
    }
    if registry.is_on && !is_member(&registry.white_list, &ctx.destination) {
        return Err(TransferError::NotWhitelisted);
    }
    match &ctx.companion {
        None => Ok(None),
        Some(c) => Ok(
            Some(
                DelegatedTransfer {
                    from: c.owner_holding,
                    to: c.delegate_holding,
                    amount: ctx.amount,
                },
            ),
        ),
    }
}

/// Law: a call whose source account is not inside an asset-layer
/// transfer is refused with `NotTransferring`, whatever the registry
/// holds and whoever the destination is.
pub proof fn lemma_hook_requires_transfer_in_flight(
    ctx: TransferContextView,
    registry: RegistryView,
)
    requires
        transferring_flag_of(ctx.source_data) == Some(false),
    ensures
        transfer_hook_spec(ctx, registry) == Err::<Option<DelegatedTransfer>, TransferError>(
            TransferError::NotTransferring,
        ),
{
}

/// Law: while enforcement is on, a destination outside the member list
/// is refused with `NotWhitelisted`.
pub proof fn lemma_hook_enforces_allow_list(ctx: TransferContextView, registry: RegistryView)
    requires
        transferring_flag_of(ctx.source_data) == Some(true),
        registry.is_on,
        !registry.members.contains(ctx.destination),
    ensures
        transfer_hook_spec(ctx, registry) == Err::<Option<DelegatedTransfer>, TransferError>(
            TransferError::NotWhitelisted,
        ),
{
}

/// Law: once enforcement is off, every destination is admitted,
/// member or not, and the hook orders the companion transfer.
pub proof fn lemma_disabled_hook_admits_all(ctx: TransferContextView, registry: RegistryView)
    requires
        transferring_flag_of(ctx.source_data) == Some(true),
        !registry.is_on,
    ensures
        transfer_hook_spec(ctx, registry) == Ok::<Option<DelegatedTransfer>, TransferError>(
            companion_transfer(ctx),
        ),
{
}

/// Law: a destination the authority has just enrolled is admitted by
/// the hook, and the companion transfer it orders moves exactly the
/// primary amount from the owner's holding account to the delegate's.
pub proof fn lemma_enrolled_destination_admitted(
    registry: RegistryView,
    ctx: TransferContextView,
    companion: CompanionAccounts,
)
    requires
        transferring_flag_of(ctx.source_data) == Some(true),
        ctx.companion == Some(companion),
    ensures
        transfer_hook_spec(
            ctx,
            crate::registry::enroll_spec(registry, registry.authority, ctx.destination).0,
        ) == Ok::<Option<DelegatedTransfer>, TransferError>(
            Some(
                DelegatedTransfer {
                    from: companion.owner_holding,
                    to: companion.delegate_holding,
                    amount: ctx.amount,
                },
            ),
        ),
{
    let enrolled = crate::registry::enroll_spec(registry, registry.authority, ctx.destination).0;
    assert(enrolled.members[enrolled.members.len() - 1] == ctx.destination);
    assert(enrolled.members.contains(ctx.destination));
}

} // verus!

