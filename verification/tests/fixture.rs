use cross_chain_messaging::fixture::{
    create_proof_fixture, fixture_file_name, prefixed_hex, ProofFixture,
};
use cross_chain_messaging::program::commit_public_values;
use cross_chain_messaging::service::ProofSystem;

#[test]
fn hex_text_is_lower_case_with_two_digits_per_byte() {
    assert_eq!(prefixed_hex(&[]), "0x");
    assert_eq!(prefixed_hex(&[0]), "0x00");
    assert_eq!(prefixed_hex(&[1, 2, 3, 15, 16]), "0x0102030f10");
    assert_eq!(prefixed_hex(&[0xf9, 0xb4, 0xca]), "0xf9b4ca");
    assert_eq!(prefixed_hex(&[0xab, 0xcd, 0xef, 0x09, 0x90, 0xff]), "0xabcdef0990ff");
    assert_eq!(prefixed_hex(b"Hello world!"), "0x48656c6c6f20776f726c6421");
}

#[test]
fn hex_text_covers_every_byte_value() {
    let digits = b"0123456789abcdef";
    for byte in 0..=255u8 {
        let expected = format!(
            "0x{}{}",
            digits[(byte / 16) as usize] as char,
            digits[(byte % 16) as usize] as char
        );
        assert_eq!(prefixed_hex(&[byte]), expected);
    }
}

#[test]
fn fixture_file_is_named_after_the_proof_system() {
    assert_eq!(fixture_file_name(ProofSystem::Plonk), "proof_fixture_Plonk.json");
    assert_eq!(fixture_file_name(ProofSystem::Groth16), "proof_fixture_Groth16.json");
}

#[test]
fn fixture_spells_out_the_proof() {
    let public_values = commit_public_values(b"hello", 1, 2).unwrap();
    let fixture =
        create_proof_fixture(&public_values, &[0xde, 0xad, 0xbe, 0xef], "0x00ab".to_string())
            .unwrap();
    let zeros = "0".repeat(56);
    assert_eq!(
        fixture,
        ProofFixture {
            message_hash: "0x2cf24dba5fb0a30e26e83b2ac5b9e29e1b161e5c1fa7425e73043362938b9824"
                .to_string(),
            source_chain_id: 1,
            destination_chain_id: 2,
            vkey: "0x00ab".to_string(),
            public_values: format!(
                "0x2cf24dba5fb0a30e26e83b2ac5b9e29e1b161e5c1fa7425e73043362938b9824{}00000001{}00000002",
                zeros, zeros
            ),
            proof: "0xdeadbeef".to_string(),
        }
    );
}

#[test]
fn fixture_reads_public_values_without_validation() {
    let mut public_values = commit_public_values(b"hello", 7, 8).unwrap();
    public_values[33] = 0xee;
    public_values.extend_from_slice(&[1, 2, 3]);
    let fixture = create_proof_fixture(&public_values, &[], String::new()).unwrap();
    assert_eq!(fixture.source_chain_id, 7);
    assert_eq!(fixture.destination_chain_id, 8);
    assert_eq!(fixture.proof, "0x");
    assert_eq!(fixture.vkey, "");
    assert_eq!(fixture.public_values, prefixed_hex(&public_values));
    assert_eq!(fixture.public_values.len(), 2 + 2 * 99);
}

#[test]
fn no_fixture_for_short_public_values() {
    let public_values = commit_public_values(b"hello", 1, 2).unwrap();
    assert_eq!(create_proof_fixture(&public_values[..95], &[1], String::new()), None);
    assert_eq!(create_proof_fixture(&[], &[1], String::new()), None);
}
