use anchor_lang::prelude::Pubkey;
use crowdfunding_ledger::derivation::find_program_address;
use crowdfunding_ledger::derivation::find_project_address;
use crowdfunding_ledger::derivation::make_project_seeds;
use crowdfunding_ledger::derivation::DerivedAddress;
use crowdfunding_ledger::derivation::MAX_SEEDS;
use crowdfunding_ledger::derivation::MAX_SEED_LEN;
use crowdfunding_ledger::identity::Identity;

fn id(fill: u8) -> Identity {
    Identity::new([fill; 32])
}

#[test]
fn identity_equality_goes_by_bytes() {
    let mut bytes = [7u8; 32];
    assert_eq!(Identity::new(bytes), id(7));
    bytes[31] = 8;
    assert_ne!(Identity::new(bytes), id(7));
    bytes[31] = 7;
    bytes[0] = 0;
    assert_ne!(Identity::new(bytes), id(7));
}

#[test]
fn identity_to_vec_keeps_order() {
    let mut bytes = [0u8; 32];
    for (i, b) in bytes.iter_mut().enumerate() {
        *b = i as u8;
    }
    let expected: Vec<u8> = (0u8..32).collect();
    assert_eq!(Identity::new(bytes).to_vec(), expected);
}

#[test]
fn project_seeds_are_tag_title_creator() {
    let seeds = make_project_seeds("Library", &id(1));
    assert_eq!(seeds.len(), 3);
    assert_eq!(seeds[0], b"project".to_vec());
    assert_eq!(seeds[1], b"Library".to_vec());
    assert_eq!(seeds[2], vec![1u8; 32]);
}

#[test]
fn project_seeds_take_the_title_as_utf8() {
    let seeds = make_project_seeds("Bücher", &id(1));
    assert_eq!(seeds[1], "Bücher".as_bytes().to_vec());
    assert_eq!(seeds[1].len(), 7);
}

#[test]
fn derivation_is_deterministic() {
    let first = find_project_address("Library", &id(1), &id(9));
    let second = find_project_address("Library", &id(1), &id(9));
    assert!(first.is_some());
    assert_eq!(first, second);
}

#[test]
fn derivation_agrees_with_the_runtime() {
    let creator = Pubkey::new_from_array([1u8; 32]);
    let program = Pubkey::new_from_array([9u8; 32]);
    let (address, bump) =
        Pubkey::find_program_address(&[b"project", b"Library", creator.as_ref()], &program);
    let found = find_project_address("Library", &id(1), &id(9));
    assert_eq!(
        found,
        Some(DerivedAddress { address: Identity::new(address.to_bytes()), bump })
    );
}

#[test]
fn derived_address_is_off_the_curve_and_rebuilds_from_its_bump() {
    let found = find_project_address("Library", &id(1), &id(9)).unwrap();
    let key = Pubkey::new_from_array(found.address.bytes);
    assert!(!key.is_on_curve());
    let creator = [1u8; 32];
    let rebuilt = Pubkey::create_program_address(
        &[b"project", b"Library", &creator, &[found.bump]],
        &Pubkey::new_from_array([9u8; 32]),
    )
    .unwrap();
    assert_eq!(rebuilt, key);
}

#[test]
fn derivation_depends_on_every_seed_and_on_the_program() {
    let base = find_project_address("Library", &id(1), &id(9)).unwrap();
    let other_title = find_project_address("Librarz", &id(1), &id(9)).unwrap();
    let other_creator = find_project_address("Library", &id(2), &id(9)).unwrap();
    let other_program = find_project_address("Library", &id(1), &id(8)).unwrap();
    assert_ne!(base.address, other_title.address);
    assert_ne!(base.address, other_creator.address);
    assert_ne!(base.address, other_program.address);
    assert_ne!(base.address, id(1));
    assert_ne!(base.address, id(9));
}

#[test]
fn title_of_32_bytes_has_an_address() {
    let title = "a".repeat(MAX_SEED_LEN);
    assert!(find_project_address(&title, &id(1), &id(9)).is_some());
}

#[test]
fn title_of_33_bytes_has_no_address() {
    let title = "a".repeat(MAX_SEED_LEN + 1);
    assert_eq!(find_project_address(&title, &id(1), &id(9)), None);
}

#[test]
fn empty_title_has_an_address() {
    assert!(find_project_address("", &id(1), &id(9)).is_some());
}

#[test]
fn general_derivation_agrees_with_the_runtime() {
    let seeds = vec![b"vault".to_vec(), vec![3u8, 4u8]];
    let program = Pubkey::new_from_array([5u8; 32]);
    let (address, bump) = Pubkey::find_program_address(&[b"vault", &[3u8, 4u8]], &program);
    assert_eq!(
        find_program_address(&seeds, &id(5)),
        Some(DerivedAddress { address: Identity::new(address.to_bytes()), bump })
    );
}

#[test]
fn no_seeds_still_derive() {
    let seeds: Vec<Vec<u8>> = Vec::new();
    let program = Pubkey::new_from_array([5u8; 32]);
    let (address, bump) = Pubkey::find_program_address(&[], &program);
    assert_eq!(
        find_program_address(&seeds, &id(5)),
        Some(DerivedAddress { address: Identity::new(address.to_bytes()), bump })
    );
}

#[test]
fn fifteen_seeds_derive_and_sixteen_do_not() {
    let fifteen: Vec<Vec<u8>> = (0..MAX_SEEDS - 1).map(|i| vec![i as u8]).collect();
    assert!(find_program_address(&fifteen, &id(5)).is_some());
    let sixteen: Vec<Vec<u8>> = (0..MAX_SEEDS).map(|i| vec![i as u8]).collect();
    assert_eq!(find_program_address(&sixteen, &id(5)), None);
}

#[test]
fn overlong_seed_does_not_derive() {
    let seeds = vec![b"vault".to_vec(), vec![0u8; MAX_SEED_LEN + 1]];
    assert_eq!(find_program_address(&seeds, &id(5)), None);
    let seeds = vec![b"vault".to_vec(), vec![0u8; MAX_SEED_LEN]];
    assert!(find_program_address(&seeds, &id(5)).is_some());
}
