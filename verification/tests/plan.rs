use spl_tlv_account_resolution::account::ExtraAccountMeta;
use spl_tlv_account_resolution::seeds::Seed;
use spl_tlv_account_resolution::state::ExtraAccountMetaList;
use spl_transfer_hook_interface::instruction::ExecuteInstruction;
use spl_transfer_hook_interface::instruction::TransferHookInstruction;

use what_transfer_hook::error::TransferError;
use what_transfer_hook::identity::Identity;
use what_transfer_hook::instruction::fallback;
use what_transfer_hook::plan::encode_entry;
use what_transfer_hook::plan::encode_extra_account_meta_list;
use what_transfer_hook::plan::extra_account_metas;
use what_transfer_hook::plan::meta_list_size;
use what_transfer_hook::plan::pack_address_config;
use what_transfer_hook::plan::AccountDescriptor;
use what_transfer_hook::plan::SeedSpec;

fn plan_image() -> Vec<u8> {
    let plan = extra_account_metas();
    encode_extra_account_meta_list(&plan).unwrap()
}

#[test]
fn plan_is_deterministic_and_sized_exactly() {
    let first = plan_image();
    let second = plan_image();
    assert_eq!(first, second);
    assert_eq!(Some(first.len()), meta_list_size(extra_account_metas().len()));
    assert_eq!(first.len(), 51);
}

#[test]
fn plan_image_matches_the_host_resolvers_layout() {
    let metas = vec![ExtraAccountMeta::new_with_seeds(
        &[Seed::Literal { bytes: "white_list".as_bytes().to_vec() }],
        false,
        true,
    )
    .unwrap()];
    let len = ExtraAccountMetaList::size_of(metas.len()).unwrap();
    let mut host_image = vec![0u8; len];
    ExtraAccountMetaList::init::<ExecuteInstruction>(&mut host_image, &metas).unwrap();
    assert_eq!(plan_image(), host_image);
}

#[test]
fn meta_list_size_matches_the_host_computation() {
    for n in [0usize, 1, 2, 17] {
        assert_eq!(meta_list_size(n), Some(ExtraAccountMetaList::size_of(n).unwrap()));
    }
}

#[test]
fn literal_address_entry_encodes_the_address_bytes() {
    let entry = AccountDescriptor::LiteralAddress {
        address: Identity { hi: 0x0201, lo: 0x0403 },
        is_signer: true,
        is_writable: false,
    };
    let bytes = encode_entry(&entry).unwrap();
    assert_eq!(bytes.len(), 35);
    assert_eq!(bytes[0], 0);
    let mut expected_address = [0u8; 32];
    expected_address[0] = 0x03;
    expected_address[1] = 0x04;
    expected_address[16] = 0x01;
    expected_address[17] = 0x02;
    assert_eq!(&bytes[1..33], &expected_address);
    assert_eq!(bytes[33], 1);
    assert_eq!(bytes[34], 0);
}

#[test]
fn derived_entry_matches_the_host_seed_packing() {
    let seeds = vec![
        SeedSpec::Literal { bytes: b"hook".to_vec() },
        SeedSpec::InstructionArg { index: 8, length: 8 },
        SeedSpec::AccountAddress { index: 3 },
    ];
    let entry = AccountDescriptor::DerivedAddress { seeds, is_signer: false, is_writable: true };
    let ours = encode_entry(&entry).unwrap();
    let host = ExtraAccountMeta::new_with_seeds(
        &[
            Seed::Literal { bytes: b"hook".to_vec() },
            Seed::InstructionData { index: 8, length: 8 },
            Seed::AccountKey { index: 3 },
        ],
        false,
        true,
    )
    .unwrap();
    assert_eq!(ours[0], host.discriminator);
    assert_eq!(&ours[1..33], &host.address_config);
    assert_eq!(ours[33], 0);
    assert_eq!(ours[34], 1);
}

#[test]
fn oversized_seeds_are_refused() {
    let seeds = vec![SeedSpec::Literal { bytes: vec![7u8; 31] }];
    assert_eq!(pack_address_config(&seeds), None);
    let seeds = vec![
        SeedSpec::Literal { bytes: vec![7u8; 20] },
        SeedSpec::Literal { bytes: vec![8u8; 20] },
    ];
    assert_eq!(pack_address_config(&seeds), None);
    let seeds = vec![SeedSpec::Literal { bytes: vec![7u8; 30] }];
    assert_eq!(pack_address_config(&seeds).map(|v| v.len()), Some(32));
}

#[test]
fn fallback_unpacks_the_execution_instruction() {
    let packed = TransferHookInstruction::Execute { amount: 42 }.pack();
    assert_eq!(fallback(&packed), Ok(42));
    let packed = TransferHookInstruction::Execute { amount: u64::MAX }.pack();
    assert_eq!(fallback(&packed), Ok(u64::MAX));
}

#[test]
fn fallback_refuses_other_instructions() {
    let packed = TransferHookInstruction::UpdateExtraAccountMetaList {
        extra_account_metas: Vec::new(),
    }
    .pack();
    assert_eq!(fallback(&packed), Err(TransferError::InvalidInstruction));
    assert_eq!(fallback(&vec![0u8; 16]), Err(TransferError::InvalidInstruction));
    let mut truncated = TransferHookInstruction::Execute { amount: 42 }.pack();
    truncated.truncate(12);
    assert_eq!(fallback(&truncated), Err(TransferError::InvalidInstruction));
    assert_eq!(fallback(&Vec::new()), Err(TransferError::InvalidInstruction));
}

#[test]
fn fallback_agrees_with_the_host_unpacker() {
    let data = TransferHookInstruction::Execute { amount: 7 }.pack();
    match TransferHookInstruction::unpack(&data).unwrap() {
        TransferHookInstruction::Execute { amount } => assert_eq!(fallback(&data), Ok(amount)),
        _ => panic!("expected an execution instruction"),
    }
}
