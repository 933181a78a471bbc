use secret_account::account::AccountError;
use secret_account::signature::{
    recover_signer, signer_address, signing_message, split_signature, verify, Recovery,
    SIGNATURE_LENGTH,
};

fn digest_ending_in(address: [u8; 20]) -> [u8; 32] {
    let mut digest = [0x11u8; 32];
    digest[12..].copy_from_slice(&address);
    digest
}

#[test]
fn signing_message_frames_address_and_label() {
    let address = [0xAAu8; 20];
    let mut expected = vec![0, 0, 0, 0, 0, 0, 0, 20];
    expected.extend_from_slice(&address);
    expected.extend_from_slice(&[0, 0, 0, 0, 0, 0, 0, 21]);
    expected.extend_from_slice(b"Authentication by you");
    assert_eq!(signing_message(&address, "Authentication by you"), expected);
}

#[test]
fn signing_message_depends_on_the_label() {
    let address = [1u8; 20];
    assert_ne!(signing_message(&address, "a"), signing_message(&address, "b"));
    assert_eq!(
        signing_message(&address, ""),
        [&[0u8, 0, 0, 0, 0, 0, 0, 20][..], &address[..], &[0u8; 8][..]].concat()
    );
}

#[test]
fn signature_length_is_65() {
    assert_eq!(SIGNATURE_LENGTH, 65);
}

#[test]
fn split_signature_parts_a_signature_of_65_bytes() {
    let mut signature = Vec::new();
    for i in 0..65u8 {
        signature.push(i);
    }
    let (value, recovery_id) = split_signature(&signature).unwrap();
    assert_eq!(&value[..], &signature[..64]);
    assert_eq!(recovery_id, 64);
}

#[test]
fn split_signature_refuses_other_lengths() {
    assert_eq!(split_signature(&[]), Err(AccountError::MalformedSignature));
    assert_eq!(split_signature(&[0u8; 64]), Err(AccountError::MalformedSignature));
    assert_eq!(split_signature(&[0u8; 66]), Err(AccountError::MalformedSignature));
}

#[test]
fn signer_address_is_the_last_20_bytes_of_the_digest() {
    let mut digest = [0u8; 32];
    for i in 0..32 {
        digest[i] = i as u8;
    }
    let mut expected = [0u8; 20];
    for i in 0..20 {
        expected[i] = (12 + i) as u8;
    }
    assert_eq!(signer_address(&digest), expected);
}

fn recovery(message: Vec<u8>, signature: &[u8], key_digest: Option<[u8; 32]>) -> Recovery {
    Recovery { message, signature: signature.to_vec(), key_digest }
}

const LABEL: &str = "Authentication by you";

#[test]
fn recover_signer_names_the_signer() {
    let address = [0xABu8; 20];
    let report = recovery(Vec::new(), &[0u8; 65], Some(digest_ending_in(address)));
    assert_eq!(recover_signer(&report), Ok(address));
}

#[test]
fn recover_signer_reports_a_malformed_signature() {
    let digest = Some(digest_ending_in([0xABu8; 20]));
    assert_eq!(
        recover_signer(&recovery(Vec::new(), &[0u8; 64], digest)),
        Err(AccountError::MalformedSignature)
    );
    assert_eq!(
        recover_signer(&recovery(Vec::new(), &[0u8; 66], digest)),
        Err(AccountError::MalformedSignature)
    );
    assert_eq!(
        recover_signer(&recovery(Vec::new(), &[], digest)),
        Err(AccountError::MalformedSignature)
    );
    assert_eq!(
        recover_signer(&recovery(Vec::new(), &[0u8; 65], None)),
        Err(AccountError::MalformedSignature)
    );
}

#[test]
fn verify_accepts_the_signer_of_the_canonical_message() {
    let address = [0xAAu8; 20];
    let sig = [7u8; 65];
    let report =
        recovery(signing_message(&address, LABEL), &sig, Some(digest_ending_in(address)));
    assert!(verify(&address, &address, LABEL, &sig, &report));
}

#[test]
fn verify_tells_signer_and_bound_address_apart() {
    let signer = [0xAAu8; 20];
    let bound = [0xBBu8; 20];
    let sig = [7u8; 65];
    let report =
        recovery(signing_message(&bound, "Transfer"), &sig, Some(digest_ending_in(signer)));
    assert!(verify(&signer, &bound, "Transfer", &sig, &report));
    assert!(!verify(&bound, &bound, "Transfer", &sig, &report));
    assert!(!verify(&signer, &signer, "Transfer", &sig, &report));
}

#[test]
fn verify_refuses_another_signer() {
    let address = [0xAAu8; 20];
    let sig = [7u8; 65];
    let mut other = address;
    other[19] = 0xAB;
    let by_other = recovery(signing_message(&address, LABEL), &sig, Some(digest_ending_in(other)));
    assert!(!verify(&address, &address, LABEL, &sig, &by_other));
    let mut leading = [0u8; 32];
    leading[..20].copy_from_slice(&address);
    let misplaced = recovery(signing_message(&address, LABEL), &sig, Some(leading));
    assert!(!verify(&address, &address, LABEL, &sig, &misplaced));
}

#[test]
fn verify_refuses_a_recovery_on_another_message() {
    let address = [0xAAu8; 20];
    let sig = [7u8; 65];
    let digest = Some(digest_ending_in(address));
    let other_label = recovery(signing_message(&address, "Authentication by me"), &sig, digest);
    let other_address = recovery(signing_message(&[0xBBu8; 20], LABEL), &sig, digest);
    let unframed = recovery([&address[..], LABEL.as_bytes()].concat(), &sig, digest);
    assert!(!verify(&address, &address, LABEL, &sig, &other_label));
    assert!(!verify(&address, &address, LABEL, &sig, &other_address));
    assert!(!verify(&address, &address, LABEL, &sig, &unframed));
}

#[test]
fn verify_refuses_a_recovery_on_another_signature() {
    let address = [0xAAu8; 20];
    let mut other_sig = [7u8; 65];
    other_sig[64] = 8;
    let report =
        recovery(signing_message(&address, LABEL), &other_sig, Some(digest_ending_in(address)));
    assert!(!verify(&address, &address, LABEL, &[7u8; 65], &report));
    assert!(verify(&address, &address, LABEL, &other_sig, &report));
}

#[test]
fn verify_refuses_a_malformed_signature_without_failing() {
    let address = [0xAAu8; 20];
    let digest = Some(digest_ending_in(address));
    for sig in [&[][..], &[7u8; 64][..], &[7u8; 66][..]] {
        let report = recovery(signing_message(&address, LABEL), sig, digest);
        assert!(!verify(&address, &address, LABEL, sig, &report));
    }
    let failed = recovery(signing_message(&address, LABEL), &[7u8; 65], None);
    assert!(!verify(&address, &address, LABEL, &[7u8; 65], &failed));
}
