use vstd::prelude::*;

use vstd::bytes::lemma_auto_spec_u128_to_from_le_bytes;
use vstd::bytes::lemma_auto_spec_u32_to_from_le_bytes;
use vstd::bytes::spec_u128_to_le_bytes;
use vstd::bytes::spec_u32_to_le_bytes;
use vstd::bytes::u128_to_le_bytes;
use vstd::bytes::u32_to_le_bytes;

use crate::identity::Identity;
use crate::instruction::execute_discriminator;

verus! {

/// One seed of a derived address: a literal byte string, a slice of the
/// instruction data, or the address of an account standing earlier in
/// the same call.
pub enum SeedSpec {
    /// A fixed label.
    Literal { bytes: Vec<u8> },
    /// `length` bytes of the instruction data starting at `index`.
    InstructionArg { index: u8, length: u8 },
    /// The address of the account at position `index` of the call.
    AccountAddress { index: u8 },
}

/// The wire form of one seed: a one-byte kind tag followed by the
/// seed's own bytes.
pub open spec fn seed_config(s: SeedSpec) -> Seq<u8> {
    match s {
        SeedSpec::Literal { bytes } => seq![1u8, bytes@.len() as u8] + bytes@,
        SeedSpec::InstructionArg { index, length } => seq![2u8, index, length],
        SeedSpec::AccountAddress { index } => seq![3u8, index],
    }
}

/// The wire forms of a seed list, one after the other.
pub open spec fn seeds_config(seeds: Seq<SeedSpec>) -> Seq<u8>
    decreases seeds.len(),
{
    if seeds.len() == 0 {
        Seq::empty()
    } else {
        seeds_config(seeds.drop_last()) + seed_config(seeds.last())
    }
}

/// A seed list is declarable only while its packed form fits the
/// 32-byte configuration field.
pub open spec fn seeds_fit(seeds: Seq<SeedSpec>) -> bool {
    seeds_config(seeds).len() <= 32
}

pub open spec fn zero_bytes(n: nat) -> Seq<u8> {
    Seq::new(n, |i: int| 0u8)
}

/// The 32-byte address configuration of a derived account: the packed
/// seeds, zero-padded to the right.
pub open spec fn address_config(seeds: Seq<SeedSpec>) -> Seq<u8>
    recommends
        seeds_fit(seeds),
{
    seeds_config(seeds) + zero_bytes((32 - seeds_config(seeds).len()) as nat)
}

proof fn lemma_seeds_config_take_succ(seeds: Seq<SeedSpec>, i: int)
    requires
        0 <= i < seeds.len(),
    ensures
        seeds_config(seeds.take(i + 1)) == seeds_config(seeds.take(i)) + seed_config(seeds[i]),
{
    assert(seeds.take(i + 1).drop_last() =~= seeds.take(i));
    assert(seeds.take(i + 1).last() == seeds[i]);
}

proof fn lemma_seeds_config_len_mono(seeds: Seq<SeedSpec>, i: int)
    requires
        0 <= i <= seeds.len(),
    ensures
        seeds_config(seeds.take(i)).len() <= seeds_config(seeds).len(),
    decreases seeds.len() - i,
{
    if i == seeds.len() {
        assert(seeds.take(i) =~= seeds);
    } else {
        lemma_seeds_config_take_succ(seeds, i);
        lemma_seeds_config_len_mono(seeds, i + 1);
    }
}

/// Packs a seed list into the 32-byte address configuration, or refuses
/// a list whose packed form does not fit the field.
#[verifier::loop_isolation(false)]
pub fn pack_address_config(seeds: &Vec<SeedSpec>) -> (r: Option<Vec<u8>>)
    ensures
        seeds_fit(seeds@) ==> (r matches Some(v) && v@ == address_config(seeds@)),
        !seeds_fit(seeds@) ==> r is None,
{
    let mut out: Vec<u8> = Vec::new();
    let mut i: usize = 0;
    while i < seeds.len()
        invariant
            i <= seeds@.len(),
            out@ == seeds_config(seeds@.take(i as int)),
            out@.len() <= 32,
        decreases seeds@.len() - i,
    {
        proof {
            lemma_seeds_config_take_succ(seeds@, i as int);
            lemma_seeds_config_len_mono(seeds@, i as int + 1);
        }
        match &seeds[i] {
            SeedSpec::Literal { bytes } => {
                if bytes.len() > 30 || out.len() + 2 + bytes.len() > 32 {
                    return None;
                }
                out.push(1);
                out.push(bytes.len() as u8);
                let ghost prefix = out@;
                let mut j: usize = 0;
                while j < bytes.len()
                    invariant
                        j <= bytes@.len(),
                        out@ == prefix + bytes@.take(j as int),
                    decreases bytes@.len() - j,
                {
                    out.push(bytes[j]);
                    proof {
                        assert(prefix + bytes@.take(j as int + 1) =~= (prefix + bytes@.take(
                            j as int,
                        )).push(bytes@[j as int]));
                    }
                    j += 1;
                }
                proof {
                    assert(bytes@.take(bytes@.len() as int) =~= bytes@);
                    assert(out@ =~= seeds_config(seeds@.take(i as int + 1)));
                }
            },
            SeedSpec::InstructionArg { index, length } => {
                if out.len() + 3 > 32 {
                    return None;
                }
                out.push(2);
                out.push(*index);
                out.push(*length);
                proof {
                    assert(out@ =~= seeds_config(seeds@.take(i as int + 1)));
                }
            },
            SeedSpec::AccountAddress { index } => {
                if out.len() + 2 > 32 {
                    return None;
                }
                out.push(3);
                out.push(*index);
                proof {
                    assert(out@ =~= seeds_config(seeds@.take(i as int + 1)));
                }
            },
        }
        i += 1;
    }
    proof {
        assert(seeds@.take(seeds@.len() as int) =~= seeds@);
    }
    let ghost config = seeds_config(seeds@);
    while out.len() < 32
        invariant
            config.len() <= out@.len() <= 32,
            out@.subrange(0, config.len() as int) == config,
            forall|k: int| config.len() <= k < out@.len() ==> out@[k] == 0u8,
        decreases 32 - out.len(),
    {
        out.push(0);
    }
    proof {
        assert(out@ =~= address_config(seeds@));
    }
    Some(out)
}

/// One entry of the auxiliary-account plan: an account the hook needs
/// beyond the four mandatory transfer accounts and the plan's own
/// record, either at a fixed literal address or at an address derived
/// from seeds.
pub enum AccountDescriptor {
    /// An account at a known literal address (an external address or a
    /// program identity).
    LiteralAddress { address: Identity, is_signer: bool, is_writable: bool },
    /// An account whose address is derived from the given seeds.
    DerivedAddress { seeds: Vec<SeedSpec>, is_signer: bool, is_writable: bool },
}

pub open spec fn bool_byte(b: bool) -> u8 {
    if b {
        1u8
    } else {
        0u8
    }
}

/// The 32 bytes of an address, low half first, each half little-endian.
pub open spec fn identity_bytes(id: Identity) -> Seq<u8> {
    spec_u128_to_le_bytes(id.lo) + spec_u128_to_le_bytes(id.hi)
}

pub open spec fn entry_fits(e: AccountDescriptor) -> bool {
    match e {
        AccountDescriptor::LiteralAddress { .. } => true,
        AccountDescriptor::DerivedAddress { seeds, .. } => seeds_fit(seeds@),
    }
}

/// The fixed 35-byte wire form of one plan entry: a one-byte kind tag,
/// the 32-byte address configuration, and the signer and writable flags.
pub open spec fn entry_bytes(e: AccountDescriptor) -> Seq<u8>
    recommends
        entry_fits(e),
{
    match e {
        AccountDescriptor::LiteralAddress { address, is_signer, is_writable } => seq![0u8]
            + identity_bytes(address) + seq![bool_byte(is_signer), bool_byte(is_writable)],
        AccountDescriptor::DerivedAddress { seeds, is_signer, is_writable } => seq![1u8]
            + address_config(seeds@) + seq![bool_byte(is_signer), bool_byte(is_writable)],
    }
}

/// Encodes one plan entry into its 35-byte wire form.
pub fn encode_entry(e: &AccountDescriptor) -> (r: Option<Vec<u8>>)
    ensures
        entry_fits(*e) ==> (r matches Some(v) && v@ == entry_bytes(*e) && v@.len() == 35),
        !entry_fits(*e) ==> r is None,
{
    match e {
        AccountDescriptor::LiteralAddress { address, is_signer, is_writable } => {
            let mut v: Vec<u8> = Vec::new();
            v.push(0);
            let mut lo = u128_to_le_bytes(address.lo);
            v.append(&mut lo);
            let mut hi = u128_to_le_bytes(address.hi);
            v.append(&mut hi);
            v.push(if *is_signer { 1 } else { 0 });
            v.push(if *is_writable { 1 } else { 0 });
            proof {
                assert(v@ =~= entry_bytes(*e));
            }
            Some(v)
        },
        AccountDescriptor::DerivedAddress { seeds, is_signer, is_writable } => {
            match pack_address_config(seeds) {
                None => None,
                Some(mut config) => {
                    let mut v: Vec<u8> = Vec::new();
                    v.push(1);
                    v.append(&mut config);
                    v.push(if *is_signer { 1 } else { 0 });
                    v.push(if *is_writable { 1 } else { 0 });
                    proof {
                        assert(v@ =~= entry_bytes(*e));
                    }
                    Some(v)
                },
            }
        },
    }
}

/// A plan is declarable only while each entry fits its wire form and
/// the counts below fit their fields.
pub open spec fn plan_fits(plan: Seq<AccountDescriptor>) -> bool {
    &&& forall|i: int| 0 <= i < plan.len() ==> entry_fits(#[trigger] plan[i])
    &&& 4 + 35 * plan.len() <= u32::MAX
    &&& 16 + 35 * plan.len() <= usize::MAX
}

/// The wire forms of the plan's entries, one after the other.
pub open spec fn entries_bytes(plan: Seq<AccountDescriptor>) -> Seq<u8>
    decreases plan.len(),
{
    if plan.len() == 0 {
        Seq::empty()
    } else {
        entries_bytes(plan.drop_last()) + entry_bytes(plan.last())
    }
}

/// The fixed header of the persisted plan: the transfer-execution tag,
/// the byte length of the list that follows the header, and the entry
/// count, the lengths little-endian.
pub open spec fn meta_list_header(n: int) -> Seq<u8> {
    execute_discriminator() + spec_u32_to_le_bytes((4 + 35 * n) as u32) + spec_u32_to_le_bytes(
        n as u32,
    )
}

/// The full persisted image of the auxiliary-account plan, exactly as
/// the resolver must find it at the plan's well-known address.
pub open spec fn meta_list_bytes(plan: Seq<AccountDescriptor>) -> Seq<u8>
    recommends
        plan_fits(plan),
{
    meta_list_header(plan.len() as int) + entries_bytes(plan)
}

proof fn lemma_entries_bytes_take_succ(plan: Seq<AccountDescriptor>, i: int)
    requires
        0 <= i < plan.len(),
    ensures
        entries_bytes(plan.take(i + 1)) == entries_bytes(plan.take(i)) + entry_bytes(plan[i]),
{
    assert(plan.take(i + 1).drop_last() =~= plan.take(i));
    assert(plan.take(i + 1).last() == plan[i]);
}

/// Encodes a whole plan into the byte image persisted at the plan's
/// well-known address, or refuses a plan that does not fit.
#[verifier::loop_isolation(false)]
pub fn encode_extra_account_meta_list(plan: &Vec<AccountDescriptor>) -> (r: Option<Vec<u8>>)
    ensures
        plan_fits(plan@) ==> (r matches Some(v) && v@ == meta_list_bytes(plan@)),
        !plan_fits(plan@) ==> r is None,
{
    let n: u128 = plan.len() as u128;
    if 4 + 35 * n > u32::MAX as u128 || 16 + 35 * n > usize::MAX as u128 {
        return None;
    }
    let tlv_len: u32 = (4 + 35 * n) as u32;
    let count: u32 = n as u32;
    let mut out: Vec<u8> = Vec::new();
    out.push(105);
    out.push(37);
    out.push(101);
    out.push(197);
    out.push(75);
    out.push(251);
    out.push(102);
    out.push(26);
    let mut len_bytes = u32_to_le_bytes(tlv_len);
    out.append(&mut len_bytes);
    let mut count_bytes = u32_to_le_bytes(count);
    out.append(&mut count_bytes);
    proof {
        assert(out@ =~= meta_list_header(plan@.len() as int));
    }
    let mut i: usize = 0;
    while i < plan.len()
        invariant
            i <= plan@.len(),
            forall|k: int| 0 <= k < i ==> entry_fits(#[trigger] plan@[k]),
            out@ == meta_list_header(plan@.len() as int) + entries_bytes(plan@.take(i as int)),
        decreases plan@.len() - i,
    {
        match encode_entry(&plan[i]) {
            None => {
                return None;
            },
            Some(mut eb) => {
                out.append(&mut eb);
                proof {
                    lemma_entries_bytes_take_succ(plan@, i as int);
                    assert(out@ =~= meta_list_header(plan@.len() as int) + entries_bytes(
                        plan@.take(i as int + 1),
                    ));
                }
            },
        }
        i += 1;
    }
    proof {
        assert(plan@.take(plan@.len() as int) =~= plan@);
    }
    Some(out)
}

/// How much storage the persisted plan image needs for the given entry
/// count: the header and 35 bytes an entry.
pub fn meta_list_size(num_entries: usize) -> (r: Option<usize>)
    ensures
        r matches Some(s) ==> s == 16 + 35 * (num_entries as int),
        r is Some <==> 16 + 35 * (num_entries as int) <= usize::MAX,
{
    let n: u128 = num_entries as u128;
    let total: u128 = 16 + 35 * n;
    if total > usize::MAX as u128 {
        None
    } else {
        Some(total as usize)
    }
}

proof fn lemma_entry_bytes_len(e: AccountDescriptor)
    requires
        entry_fits(e),
    ensures
        entry_bytes(e).len() == 35,
{
    lemma_auto_spec_u128_to_from_le_bytes();
}

proof fn lemma_entries_bytes_len(plan: Seq<AccountDescriptor>)
    requires
        forall|i: int| 0 <= i < plan.len() ==> entry_fits(#[trigger] plan[i]),
    ensures
        entries_bytes(plan).len() == 35 * plan.len(),
    decreases plan.len(),
{
    if plan.len() > 0 {
        lemma_entry_bytes_len(plan.last());
        lemma_entries_bytes_len(plan.drop_last());
    }
}

/// Law: the persisted plan image is exactly as long as the storage the
/// size computation reserves for it: the header and 35 bytes an entry.
pub proof fn lemma_meta_list_len(plan: Seq<AccountDescriptor>)
    requires
        plan_fits(plan),
    ensures
        meta_list_bytes(plan).len() == 16 + 35 * plan.len(),
{
    lemma_auto_spec_u32_to_from_le_bytes();
    lemma_entries_bytes_len(plan);
}

/// The label under which the registry's well-known address is derived.
pub open spec fn registry_seed() -> Seq<u8> {
    seq![119u8, 104u8, 105u8, 116u8, 101u8, 95u8, 108u8, 105u8, 115u8, 116u8]
}

/// Whether `e` declares the allow-list registry: the writable,
/// non-signing account at the address derived from the fixed label.
pub open spec fn is_registry_entry(e: AccountDescriptor) -> bool {
    &&& e matches AccountDescriptor::DerivedAddress { seeds, is_signer, is_writable }
    &&& seeds@.len() == 1
    &&& seeds@[0] matches SeedSpec::Literal { bytes } && bytes@ == registry_seed()
    &&& is_signer == false
    &&& is_writable == true
}

/// Whether `plan` is the hook's auxiliary-account plan: one entry, the
/// registry.
pub open spec fn is_auxiliary_account_plan(plan: Seq<AccountDescriptor>) -> bool {
    plan.len() == 1 && is_registry_entry(plan[0])
}

/// The one persisted image every auxiliary-account plan encodes to.
pub open spec fn registry_plan_image() -> Seq<u8> {
    meta_list_header(1) + (seq![1u8] + (seq![1u8, 10u8] + registry_seed() + zero_bytes(20))
        + seq![0u8, 1u8])
}

/// The hook's auxiliary-account plan: beyond the four mandatory
/// transfer accounts and the plan's own record, the hook needs exactly
/// one extra account, the allow-list registry, writable so that reading
/// hosts can pass it through unchanged.
pub fn extra_account_metas() -> (r: Vec<AccountDescriptor>)
    ensures
        is_auxiliary_account_plan(r@),
        plan_fits(r@),
{
    let mut seed_bytes: Vec<u8> = Vec::new();
    seed_bytes.push(119);
    seed_bytes.push(104);
    seed_bytes.push(105);
    seed_bytes.push(116);
    seed_bytes.push(101);
    seed_bytes.push(95);
    seed_bytes.push(108);
    seed_bytes.push(105);
    seed_bytes.push(115);
    seed_bytes.push(116);
    proof {
        assert(seed_bytes@ =~= registry_seed());
    }
    let mut seeds: Vec<SeedSpec> = Vec::new();
    seeds.push(SeedSpec::Literal { bytes: seed_bytes });
    let mut plan: Vec<AccountDescriptor> = Vec::new();
    plan.push(AccountDescriptor::DerivedAddress { seeds, is_signer: false, is_writable: true });
    proof {
        lemma_registry_plan_bytes(plan@);
    }
    plan
}

/// Law: the auxiliary-account plan fits, and its persisted image is one
/// fixed byte string; in particular any two plans that declare the
/// registry encode byte-identically.
pub proof fn lemma_registry_plan_bytes(plan: Seq<AccountDescriptor>)
    requires
        is_auxiliary_account_plan(plan),
    ensures
        plan_fits(plan),
        meta_list_bytes(plan) == registry_plan_image(),
        meta_list_bytes(plan).len() == 51,
{
    let e = plan[0];
    match e {
        AccountDescriptor::DerivedAddress { seeds, is_signer, is_writable } => {
            let s0 = seeds@[0];
            assert(seeds@.drop_last() =~= Seq::<SeedSpec>::empty());
            assert(seeds@.last() == s0);
            match s0 {
                SeedSpec::Literal { bytes } => {
                    assert(seed_config(s0) =~= seq![1u8, 10u8] + registry_seed());
                    assert(seeds_config(Seq::<SeedSpec>::empty()) =~= Seq::<u8>::empty());
                    assert(seeds_config(seeds@) =~= seq![1u8, 10u8] + registry_seed());
                    assert(seeds_fit(seeds@));
                    assert(address_config(seeds@) =~= seq![1u8, 10u8] + registry_seed()
                        + zero_bytes(20));
                    assert(entry_bytes(e) =~= seq![1u8] + (seq![1u8, 10u8] + registry_seed()
                        + zero_bytes(20)) + seq![0u8, 1u8]);
                },
                _ => {
                    assert(false);
                },
            }
        },
        _ => {
            assert(false);
        },
    }
    assert(plan.drop_last() =~= Seq::<AccountDescriptor>::empty());
    assert(plan.last() == e);
    assert(entries_bytes(Seq::<AccountDescriptor>::empty()) =~= Seq::<u8>::empty());
    assert(entries_bytes(plan) =~= entry_bytes(e));
    assert(meta_list_bytes(plan) =~= registry_plan_image());
    lemma_meta_list_len(plan);
}

} // verus!
