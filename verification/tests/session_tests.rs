use vote_session::account::Account;
use vote_session::conviction::Conviction;
use vote_session::encoder::{encode_call, CallAction, CallSchema, CallShape, VoteIntent};
use vote_session::errors::SubmissionError;
use vote_session::extrinsic::complete_signing;
use vote_session::payload::{build_payload, ChainIdentity, Era};
use vote_session::session::{Command, Message, SigningStage, SubmittingStage, VoteComponent};
use vote_session::signature::SignatureScheme;
use vote_session::submission::ChainEvent;

fn identity() -> ChainIdentity {
    ChainIdentity {
        genesis_hash: vec![0xAA; 32],
        spec_version: 1,
        transaction_version: 2,
        signed_extensions: vec!["CheckNonce".to_string()],
        vote_schema: CallSchema {
            pallet_index: 20,
            call_index: 0,
            shape: CallShape::ConvictionVoteStandard,
        },
        remark_schema: CallSchema {
            pallet_index: 0,
            call_index: 0,
            shape: CallShape::SystemRemark,
        },
    }
}

fn account() -> Account {
    Account {
        name: "alice".to_string(),
        source: "extension".to_string(),
        ty: SignatureScheme::Sr25519,
        address: "5addr".to_string(),
        public_key: vec![0x11; 32],
    }
}

fn expected_call(balance_units: u128, conviction: Conviction) -> Vec<u8> {
    let intent = VoteIntent {
        referendum_id: 275,
        aye: true,
        balance: balance_units * 1_000_000_000_000,
        conviction,
    };
    encode_call(&identity().vote_schema, &CallAction::Vote(intent)).unwrap()
}

fn ready_session() -> VoteComponent {
    let (mut c, _) = VoteComponent::create(275);
    c.update(Message::OnlineClientCreated(identity()));
    c
}

/// Runs the whole signing round-trip up to the pending-submission stage.
fn signed_session() -> VoteComponent {
    let mut c = ready_session();
    c.update(Message::RequestAccounts);
    c.update(Message::ReceivedAccounts(vec![account()]));
    let cmd = c.update(Message::SignWithAccount(0));
    let call_data = match cmd {
        Command::RequestSignature { call_data, .. } => call_data,
        _ => panic!("expected a signature request"),
    };
    let reply = format!("0x01{}", "22".repeat(64));
    let xt = complete_signing(call_data, 5, Era::Immortal, 0, account(), &reply).unwrap();
    let sig = xt.signature.clone();
    c.update(Message::ReceivedSignature(sig, xt));
    c
}

#[test]
fn create_starts_fresh() {
    let (c, cmd) = VoteComponent::create(275);
    assert!(matches!(cmd, Command::CreateClient));
    assert!(matches!(c.stage, SigningStage::CreatingOnlineClient));
    assert_eq!(c.balance, 100);
    assert_eq!(c.conviction, Conviction::Lock1X);
    assert!(c.vote_call_bytes.is_empty());
    assert!(c.identity.is_none());
}

#[test]
fn client_creation_enters_balance_stage_with_default_vote() {
    let c = ready_session();
    assert!(matches!(c.stage, SigningStage::EnterBalance));
    assert_eq!(c.balance, 1);
    assert_eq!(c.conviction, Conviction::Lock1X);
    assert_eq!(c.vote_call_bytes, expected_call(1, Conviction::Lock1X));
}

#[test]
fn balance_change_recomputes_call_data() {
    let mut c = ready_session();
    c.update(Message::ChangeBalance("7".to_string()));
    assert_eq!(c.balance, 7);
    assert_eq!(c.vote_call_bytes, expected_call(7, Conviction::Lock1X));
}

#[test]
fn balance_change_falls_back_to_100_on_bad_text() {
    let mut c = ready_session();
    c.update(Message::ChangeBalance("not a number".to_string()));
    assert_eq!(c.balance, 100);
    assert_eq!(c.vote_call_bytes, expected_call(100, Conviction::Lock1X));
}

#[test]
fn balance_change_accepts_plus_prefixed_text() {
    let mut c = ready_session();
    c.update(Message::ChangeBalance("+5".to_string()));
    assert_eq!(c.balance, 5);
    assert_eq!(c.vote_call_bytes, expected_call(5, Conviction::Lock1X));
    // a lone plus sign is no number: the fallback applies
    c.update(Message::ChangeBalance("+".to_string()));
    assert_eq!(c.balance, 100);
}

#[test]
fn conviction_change_recomputes_call_data() {
    let mut c = ready_session();
    c.update(Message::ChangeConviction(Conviction::Lock4X));
    assert_eq!(c.conviction, Conviction::Lock4X);
    assert_eq!(c.vote_call_bytes, expected_call(1, Conviction::Lock4X));
}

#[test]
fn call_data_recomputation_is_deterministic() {
    let mut c1 = ready_session();
    let mut c2 = ready_session();
    for c in [&mut c1, &mut c2] {
        c.update(Message::ChangeBalance("42".to_string()));
        c.update(Message::ChangeConviction(Conviction::Lock2X));
    }
    assert_eq!(c1.vote_call_bytes, c2.vote_call_bytes);
}

#[test]
fn message_change_recomputes_remark_call() {
    let mut c = ready_session();
    c.update(Message::ChangeMessage("hi".to_string()));
    assert_eq!(c.message, "hi");
    assert_eq!(c.remark_call_bytes, vec![0u8, 0, 8, 104, 105]);
    // the vote call data is untouched
    assert_eq!(c.vote_call_bytes, expected_call(1, Conviction::Lock1X));
}

#[test]
fn changes_before_client_exists_are_discarded() {
    let (mut c, _) = VoteComponent::create(275);
    c.update(Message::ChangeBalance("7".to_string()));
    c.update(Message::ChangeMessage("hi".to_string()));
    assert_eq!(c.balance, 100);
    assert_eq!(c.message, "");
    assert!(matches!(c.stage, SigningStage::CreatingOnlineClient));
}

#[test]
fn requesting_accounts_issues_fetch() {
    let mut c = ready_session();
    let cmd = c.update(Message::RequestAccounts);
    assert!(matches!(cmd, Command::FetchAccounts));
    assert!(matches!(c.stage, SigningStage::RequestingAccounts));
}

#[test]
fn accounts_arriving_unrequested_are_discarded() {
    let mut c = ready_session();
    let cmd = c.update(Message::ReceivedAccounts(vec![account()]));
    assert!(matches!(cmd, Command::Nothing));
    assert!(matches!(c.stage, SigningStage::EnterBalance));
}

#[test]
fn out_of_range_account_index_changes_nothing() {
    let mut c = ready_session();
    c.update(Message::RequestAccounts);
    c.update(Message::ReceivedAccounts(vec![account()]));
    let cmd = c.update(Message::SignWithAccount(1));
    assert!(matches!(cmd, Command::Nothing));
    match &c.stage {
        SigningStage::SelectAccount(accounts) => assert_eq!(accounts.len(), 1),
        _ => panic!("selection stage must survive an out-of-range index"),
    }
    assert_eq!(c.balance, 1);
    assert_eq!(c.conviction, Conviction::Lock1X);
}

#[test]
fn choosing_an_account_requests_its_signature() {
    let mut c = ready_session();
    c.update(Message::RequestAccounts);
    c.update(Message::ReceivedAccounts(vec![account()]));
    let cmd = c.update(Message::SignWithAccount(0));
    match cmd {
        Command::RequestSignature { signer, call_data } => {
            assert_eq!(signer.name, "alice");
            assert_eq!(call_data, expected_call(1, Conviction::Lock1X));
        },
        _ => panic!("expected a signature request"),
    }
    match &c.stage {
        SigningStage::Signing(a) => assert_eq!(a.name, "alice"),
        _ => panic!("expected the signing stage"),
    }
}

#[test]
fn signature_for_wrong_stage_is_discarded() {
    let mut c = ready_session();
    let reply = format!("0x01{}", "22".repeat(64));
    let xt = complete_signing(
        expected_call(1, Conviction::Lock1X),
        5,
        Era::Immortal,
        0,
        account(),
        &reply,
    )
    .unwrap();
    let sig = xt.signature.clone();
    let cmd = c.update(Message::ReceivedSignature(sig, xt));
    assert!(matches!(cmd, Command::Nothing));
    assert!(matches!(c.stage, SigningStage::EnterBalance));
}

#[test]
fn signature_for_wrong_signer_is_discarded() {
    let mut c = ready_session();
    c.update(Message::RequestAccounts);
    c.update(Message::ReceivedAccounts(vec![account()]));
    c.update(Message::SignWithAccount(0));
    let mut other = account();
    other.name = "bob".to_string();
    let reply = format!("0x01{}", "22".repeat(64));
    let xt = complete_signing(
        expected_call(1, Conviction::Lock1X),
        5,
        Era::Immortal,
        0,
        other,
        &reply,
    )
    .unwrap();
    let sig = xt.signature.clone();
    c.update(Message::ReceivedSignature(sig, xt));
    assert!(matches!(c.stage, SigningStage::Signing(_)));
}

#[test]
fn accepted_signature_reaches_pending_submission() {
    let c = signed_session();
    match &c.stage {
        SigningStage::SigningSuccess { signer_account, signed_extrinsic_hex, submitting_stage, .. } => {
            assert_eq!(signer_account.name, "alice");
            assert!(signed_extrinsic_hex.starts_with("0x"));
            assert!(matches!(submitting_stage, SubmittingStage::Initial { .. }));
        },
        _ => panic!("expected signing success"),
    }
}

#[test]
fn submission_is_single_shot() {
    let mut c = signed_session();
    let cmd = c.update(Message::SubmitSigned);
    let xt = match cmd {
        Command::Submit(xt) => xt,
        _ => panic!("expected submission"),
    };
    match &c.stage {
        SigningStage::SigningSuccess { submitting_stage, .. } => {
            assert!(matches!(submitting_stage, SubmittingStage::Submitting));
        },
        _ => panic!("expected signing success"),
    }
    // the extrinsic now lives only in `xt`; submitting again yields nothing
    let cmd = c.update(Message::SubmitSigned);
    assert!(matches!(cmd, Command::Nothing));
    match &c.stage {
        SigningStage::SigningSuccess { submitting_stage, .. } => {
            assert!(matches!(submitting_stage, SubmittingStage::Submitting));
        },
        _ => panic!("expected signing success"),
    }
    // submission consumes the moved value
    let _wire = xt.into_bytes();
}

#[test]
fn finalization_resolves_submission() {
    let mut c = signed_session();
    c.update(Message::SubmitSigned);
    c.update(Message::ExtrinsicFinalized {
        remark_event: ChainEvent { pallet_index: 0, variant_index: 0, data: vec![9] },
    });
    match &c.stage {
        SigningStage::SigningSuccess { submitting_stage, .. } => match submitting_stage {
            SubmittingStage::Success { remark_event } => assert_eq!(remark_event.data, vec![9]),
            _ => panic!("expected submission success"),
        },
        _ => panic!("expected signing success"),
    }
}

#[test]
fn finalization_before_submitting_is_discarded() {
    let mut c = signed_session();
    c.update(Message::ExtrinsicFinalized {
        remark_event: ChainEvent { pallet_index: 0, variant_index: 0, data: vec![] },
    });
    match &c.stage {
        SigningStage::SigningSuccess { submitting_stage, .. } => {
            assert!(matches!(submitting_stage, SubmittingStage::Initial { .. }));
        },
        _ => panic!("expected signing success"),
    }
}

#[test]
fn submission_failure_is_surfaced() {
    let mut c = signed_session();
    c.update(Message::SubmitSigned);
    c.update(Message::ExtrinsicFailed(SubmissionError::EventNotFound));
    match &c.stage {
        SigningStage::SigningSuccess { submitting_stage, .. } => {
            assert!(matches!(submitting_stage, SubmittingStage::Error(SubmissionError::EventNotFound)));
        },
        _ => panic!("expected signing success"),
    }
}

#[test]
fn errors_keep_balance_and_conviction() {
    let mut c = ready_session();
    c.update(Message::ChangeBalance("7".to_string()));
    c.update(Message::ChangeConviction(Conviction::Lock2X));
    c.update(Message::Error("signing failed: scheme mismatch".to_string()));
    match &c.stage {
        SigningStage::Error(m) => assert_eq!(m, "signing failed: scheme mismatch"),
        _ => panic!("expected the error stage"),
    }
    assert_eq!(c.balance, 7);
    assert_eq!(c.conviction, Conviction::Lock2X);
    assert_eq!(c.vote_call_bytes, expected_call(7, Conviction::Lock2X));
}

#[test]
fn balance_overflow_is_surfaced_not_applied() {
    let mut c = ready_session();
    // parses, but cannot be scaled to smallest units within 128 bits
    c.update(Message::ChangeBalance("340282366920938463463374608".to_string()));
    assert!(matches!(c.stage, SigningStage::Error(_)));
    assert_eq!(c.balance, 1);
    assert_eq!(c.vote_call_bytes, expected_call(1, Conviction::Lock1X));
}

#[test]
fn finalized_block_line_keeps_newest_only() {
    let mut c = ready_session();
    c.update(Message::PushFinalizedBlock("block 1".to_string()));
    c.update(Message::PushFinalizedBlock("block 2".to_string()));
    assert_eq!(c.finalized_blocks, vec!["block 2"]);
    let cmd = c.update(Message::SubscribeFinalizedBlock);
    assert!(matches!(cmd, Command::SubscribeFinalized));
}

#[test]
fn is_selected_marks_current_conviction() {
    let c = ready_session();
    assert_eq!(c.is_selected(Conviction::Lock1X), "selected");
    assert_eq!(c.is_selected(Conviction::Lock2X), "");
}

#[test]
fn end_to_end_vote_flow() {
    // intent: referendum 275, one unit, single-period lock
    let mut c = ready_session();
    let call = c.vote_call_bytes.clone();
    assert_eq!(call, expected_call(1, Conviction::Lock1X));

    // the payload the signer sees: nonce 5, tip 0, immortal era
    let payload = build_payload(&call, 5, &identity(), 0, Era::Immortal, &account().address)
        .unwrap();
    assert_eq!(payload.nonce_hex, "0x0000000000000005");
    assert_eq!(payload.tip_hex, "0x00");
    assert_eq!(payload.version, 4);

    // a signature of the declared scheme: assembly succeeds, rendering is
    // deterministic in the parts
    let reply = format!("0x01{}", "22".repeat(64));
    let x1 = complete_signing(call.clone(), 5, Era::Immortal, 0, account(), &reply).unwrap();
    let x2 = complete_signing(call.clone(), 5, Era::Immortal, 0, account(), &reply).unwrap();
    assert_eq!(x1.render_hex(), x2.render_hex());

    // the session takes the result through to pending submission
    c.update(Message::RequestAccounts);
    c.update(Message::ReceivedAccounts(vec![account()]));
    c.update(Message::SignWithAccount(0));
    let hex = x1.render_hex();
    let sig = x1.signature.clone();
    c.update(Message::ReceivedSignature(sig, x1));
    match &c.stage {
        SigningStage::SigningSuccess { signed_extrinsic_hex, .. } => {
            assert_eq!(signed_extrinsic_hex, &hex);
        },
        _ => panic!("expected signing success"),
    }
}

#[test]
fn shape_mismatched_metadata_is_surfaced() {
    let (mut c, _) = VoteComponent::create(275);
    let mut id = identity();
    id.vote_schema.shape = CallShape::SystemRemark;
    c.update(Message::OnlineClientCreated(id));
    assert!(matches!(c.stage, SigningStage::Error(_)));
    assert_eq!(c.balance, 100);
}
