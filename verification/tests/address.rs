use anchor_lang::prelude::Pubkey;
use will_management::{will_address, Identity};

fn program() -> Identity {
    Identity::new([11u8; 32])
}

fn creator() -> Identity {
    Identity::new([1u8; 32])
}

#[test]
fn address_is_the_program_address_of_creator_and_name() {
    let program_key = Pubkey::new_from_array([11u8; 32]);
    for name in ["", "house", "a name of thirty-two bytes, yes!"] {
        let (expected, bump) =
            Pubkey::find_program_address(&[&[1u8; 32], name.as_bytes()], &program_key);
        let (address, found_bump) = will_address(&creator(), name, &program()).unwrap();
        assert_eq!(address.to_bytes(), expected.to_bytes());
        assert_eq!(found_bump, bump);
    }
}

#[test]
fn address_is_none_of_its_inputs() {
    let (address, _) = will_address(&creator(), "house", &program()).unwrap();
    assert!(address != creator());
    assert!(address != program());
    assert_ne!(&address.to_bytes()[..5], "house".as_bytes());
}

#[test]
fn address_is_off_the_curve() {
    let (address, _) = will_address(&creator(), "house", &program()).unwrap();
    assert!(!Pubkey::new_from_array(address.to_bytes()).is_on_curve());
}

#[test]
fn same_creator_and_name_give_the_same_address() {
    let first = will_address(&creator(), "house", &program()).unwrap();
    let second = will_address(&Identity::new([1u8; 32]), &String::from("house"), &program()).unwrap();
    assert!(first.0 == second.0);
    assert_eq!(first.1, second.1);
}

#[test]
fn another_creator_name_or_program_gives_another_address() {
    let (base, _) = will_address(&creator(), "house", &program()).unwrap();
    let (other_creator, _) =
        will_address(&Identity::new([2u8; 32]), "house", &program()).unwrap();
    let (other_name, _) = will_address(&creator(), "boat", &program()).unwrap();
    let (other_program, _) =
        will_address(&creator(), "house", &Identity::new([12u8; 32])).unwrap();
    assert!(base != other_creator);
    assert!(base != other_name);
    assert!(base != other_program);
}

#[test]
fn name_of_32_bytes_has_an_address_and_of_33_bytes_has_none() {
    let name = "n".repeat(32);
    assert!(will_address(&creator(), &name, &program()).is_some());
    let name = "n".repeat(33);
    assert!(will_address(&creator(), &name, &program()).is_none());
    let name = "n".repeat(100);
    assert!(will_address(&creator(), &name, &program()).is_none());
}

#[test]
fn name_is_measured_in_bytes_for_the_address() {
    let name = "é".repeat(16);
    assert_eq!(name.len(), 32);
    assert!(will_address(&creator(), &name, &program()).is_some());
    let name = "é".repeat(17);
    assert_eq!(name.chars().count(), 17);
    assert!(will_address(&creator(), &name, &program()).is_none());
}
