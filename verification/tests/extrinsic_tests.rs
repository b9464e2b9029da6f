use vote_session::account::Account;
use vote_session::errors::{AssemblyError, SigningError, SigningFlowError};
use vote_session::extrinsic::{assemble, complete_signing};
use vote_session::payload::Era;
use vote_session::signature::{parse_signature, Signature, SignatureScheme};

fn account(ty: SignatureScheme) -> Account {
    Account {
        name: "alice".to_string(),
        source: "extension".to_string(),
        ty,
        address: "5addr".to_string(),
        public_key: vec![0x11; 32],
    }
}

fn call_data() -> Vec<u8> {
    hex::decode("14004d0400810010a5d4e80000000000000000000000").unwrap()
}

fn sr_signature() -> Signature {
    Signature { scheme: SignatureScheme::Sr25519, bytes: vec![0x22; 64] }
}

#[test]
fn parse_signature_reads_each_scheme() {
    let mut ed = vec![0u8];
    ed.extend(vec![0x33; 64]);
    let s = parse_signature(&ed).unwrap();
    assert_eq!(s.scheme, SignatureScheme::Ed25519);
    assert_eq!(s.bytes, vec![0x33; 64]);

    let mut sr = vec![1u8];
    sr.extend(vec![0x44; 64]);
    assert_eq!(parse_signature(&sr).unwrap().scheme, SignatureScheme::Sr25519);

    let mut ec = vec![2u8];
    ec.extend(vec![0x55; 65]);
    let s = parse_signature(&ec).unwrap();
    assert_eq!(s.scheme, SignatureScheme::Ecdsa);
    assert_eq!(s.bytes.len(), 65);
}

#[test]
fn parse_signature_rejects_bad_layouts() {
    assert!(matches!(parse_signature(&vec![]), Err(SigningError::MalformedSignature)));
    assert!(matches!(parse_signature(&vec![9u8; 65]), Err(SigningError::MalformedSignature)));
    // right tag, wrong length
    let mut short = vec![1u8];
    short.extend(vec![0x44; 63]);
    assert!(matches!(parse_signature(&short), Err(SigningError::MalformedSignature)));
    let mut long = vec![2u8];
    long.extend(vec![0x55; 66]);
    assert!(matches!(parse_signature(&long), Err(SigningError::MalformedSignature)));
}

#[test]
fn assemble_exact_wire_bytes() {
    let x = assemble(
        call_data(),
        5,
        Era::Immortal,
        0,
        account(SignatureScheme::Sr25519),
        sr_signature(),
    )
    .unwrap();
    let mut expected = vec![0xF1u8, 0x01, 0x84, 0x00];
    expected.extend(vec![0x11; 32]);
    expected.push(0x01);
    expected.extend(vec![0x22; 64]);
    expected.extend(vec![0x00, 0x14, 0x00]);
    expected.extend(call_data());
    assert_eq!(x.encoded(), &expected);
    assert_eq!(x.render_hex(), format!("0x{}", hex::encode(&expected)));
}

#[test]
fn assemble_hex_rendering_deterministic() {
    let make = || {
        assemble(
            call_data(),
            5,
            Era::Immortal,
            0,
            account(SignatureScheme::Sr25519),
            sr_signature(),
        )
        .unwrap()
    };
    assert_eq!(make().render_hex(), make().render_hex());
}

#[test]
fn assemble_refuses_scheme_mismatch() {
    let r = assemble(
        call_data(),
        5,
        Era::Immortal,
        0,
        account(SignatureScheme::Ed25519),
        sr_signature(),
    );
    assert!(matches!(r, Err(AssemblyError::SchemeMismatch)));
}

#[test]
fn submission_consumes_the_extrinsic() {
    let x = assemble(
        call_data(),
        5,
        Era::Immortal,
        0,
        account(SignatureScheme::Sr25519),
        sr_signature(),
    )
    .unwrap();
    let wire = x.into_bytes();
    // `x` is gone now: the only way to submit is the value just taken,
    // and no second submission can be built from the moved extrinsic.
    assert_eq!(wire[0], 0xF1);
}

#[test]
fn complete_signing_happy_path() {
    let reply = format!("0x01{}", "22".repeat(64));
    let x = complete_signing(
        call_data(),
        5,
        Era::Immortal,
        0,
        account(SignatureScheme::Sr25519),
        &reply,
    )
    .unwrap();
    assert_eq!(x.signature.scheme, SignatureScheme::Sr25519);
    assert_eq!(x.signature.bytes, vec![0x22; 64]);
    assert_eq!(x.nonce, 5);
    assert!(x.render_hex().starts_with("0xf10184"));
}

#[test]
fn complete_signing_rejects_malformed_text() {
    let acc = account(SignatureScheme::Sr25519);
    let no_prefix = "012222";
    let r = complete_signing(call_data(), 5, Era::Immortal, 0, acc.clone(), no_prefix);
    assert!(matches!(r, Err(SigningFlowError::Signing(SigningError::MalformedText))));

    let odd = "0x012";
    let r = complete_signing(call_data(), 5, Era::Immortal, 0, acc.clone(), odd);
    assert!(matches!(r, Err(SigningFlowError::Signing(SigningError::MalformedText))));

    let not_hex = "0x01zz";
    let r = complete_signing(call_data(), 5, Era::Immortal, 0, acc.clone(), not_hex);
    assert!(matches!(r, Err(SigningFlowError::Signing(SigningError::MalformedText))));

    let empty = "";
    let r = complete_signing(call_data(), 5, Era::Immortal, 0, acc, empty);
    assert!(matches!(r, Err(SigningFlowError::Signing(SigningError::MalformedText))));
}

#[test]
fn complete_signing_rejects_malformed_signature() {
    // valid hex, but no signature layout: wrong tag
    let reply = format!("0x09{}", "22".repeat(64));
    let r = complete_signing(
        call_data(),
        5,
        Era::Immortal,
        0,
        account(SignatureScheme::Sr25519),
        &reply,
    );
    assert!(matches!(r, Err(SigningFlowError::Signing(SigningError::MalformedSignature))));
}

#[test]
fn complete_signing_rejects_scheme_mismatch() {
    // an sr25519-tagged signature for an ed25519 account
    let reply = format!("0x01{}", "22".repeat(64));
    let r = complete_signing(
        call_data(),
        5,
        Era::Immortal,
        0,
        account(SignatureScheme::Ed25519),
        &reply,
    );
    assert!(matches!(
        r,
        Err(SigningFlowError::Assembly(AssemblyError::SchemeMismatch))
    ));
}
