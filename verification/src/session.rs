//! The top-level voting session: one state machine that owns all mutable
//! session state and sequences encoding, signing, assembly, and
//! submission in response to external events.  Each call of `update`
//! consumes one message and returns the command the surrounding runtime
//! must perform; completions that no longer continue the current stage
//! are discarded rather than misapplied.

use vstd::prelude::*;
use vstd::string::StringExecFns;
use vstd::utf8::encode_utf8;
use crate::account::{Account, same_account};
use crate::conviction::Conviction;
use crate::encoder::{CallAction, CallShape, VoteIntent, encode_call, spec_vote_call, spec_remark_call, clone_bytes};
use crate::errors::SubmissionError;
use crate::extrinsic::SignedExtrinsic;
use crate::payload::{ChainIdentity, spec_hex_0x};
use crate::signature::Signature;
use crate::submission::ChainEvent;
use crate::text::{all_digits, digits_val, parse_u128, strip_plus};

verus! {

/// Smallest chain units per user-entered unit.
pub const PLANCK_PER_UNIT: u128 = 1000000000000;

/// Where a session stands in the signing flow.  Exactly one stage is
/// active at a time, and it determines which data is meaningful.
pub enum SigningStage {
    /// Terminal for the current attempt; a new attempt starts a fresh
    /// sub-flow.
    Error(String),
    CreatingOnlineClient,
    EnterMessage,
    EnterBalance,
    RequestingAccounts,
    SelectAccount(Vec<Account>),
    Signing(Account),
    SigningSuccess {
        signer_account: Account,
        signature: Signature,
        signed_extrinsic_hex: String,
        submitting_stage: SubmittingStage,
    },
}

/// Where the submission sub-flow stands once a signature has arrived.
pub enum SubmittingStage {
    /// The signed extrinsic waits here; submission moves it out, so the
    /// same value cannot be submitted twice.
    Initial { signed_extrinsic: SignedExtrinsic },
    Submitting,
    Success { remark_event: ChainEvent },
    Error(SubmissionError),
}

/// One external event the session consumes.
pub enum Message {
    Error(String),
    OnlineClientCreated(ChainIdentity),
    ChangeMessage(String),
    ChangeBalance(String),
    ChangeConviction(Conviction),
    RequestAccounts,
    ReceivedAccounts(Vec<Account>),
    /// The index of the chosen account in the offered list.
    SignWithAccount(usize),
    ReceivedSignature(Signature, SignedExtrinsic),
    SubmitSigned,
    ExtrinsicFinalized { remark_event: ChainEvent },
    ExtrinsicFailed(SubmissionError),
    SubscribeFinalizedBlock,
    PushFinalizedBlock(String),
}

/// What the surrounding runtime must do after a transition.  Each command
/// wraps one external round-trip whose completion comes back as a
/// message.
pub enum Command {
    Nothing,
    CreateClient,
    FetchAccounts,
    RequestSignature { signer: Account, call_data: Vec<u8> },
    /// Carries the extrinsic out of the session by value: submission
    /// consumes it.
    Submit(SignedExtrinsic),
    SubscribeFinalized,
}

/// The session state.
pub struct VoteComponent {
    /// Text of the optional remark call.
    pub message: String,
    pub conviction: Conviction,
    /// User-entered vote value, in whole units.
    pub balance: u128,
    pub remark_call_bytes: Vec<u8>,
    pub vote_call_bytes: Vec<u8>,
    /// Chain facts, present once the client exists.
    pub identity: Option<ChainIdentity>,
    pub stage: SigningStage,
    /// The informational finalized-block line, newest only.
    pub finalized_blocks: Vec<String>,
    pub referendum_id: u32,
}

/// The vote intent a session with these settings encodes.
pub open spec fn spec_intent(referendum_id: u32, value: u128, conviction: Conviction) -> VoteIntent {
    VoteIntent {
        referendum_id,
        aye: true,
        balance: (value * PLANCK_PER_UNIT) as u128,
        conviction,
    }
}

/// The balance a text input denotes: the decimal value of an optionally
/// `+`-prefixed digit run when it fits, and the fallback of 100 units
/// otherwise.
pub open spec fn spec_balance_input(text: Seq<char>) -> u128 {
    let digits = strip_plus(encode_utf8(text));
    if all_digits(digits) && digits_val(digits) <= u128::MAX {
        digits_val(digits) as u128
    } else {
        100
    }
}

impl VoteComponent {
    /// The cached vote call data always encodes the current intent: every
    /// balance or conviction change recomputes it synchronously, and a
    /// change that cannot be encoded leaves intent and cache untouched.
    pub open spec fn wf(&self) -> bool {
        match self.identity {
            Some(id) => id.vote_schema.shape == CallShape::ConvictionVoteStandard ==> {
                &&& self.balance * PLANCK_PER_UNIT <= u128::MAX
                &&& self.vote_call_bytes@ == spec_vote_call(
                    id.vote_schema,
                    spec_intent(self.referendum_id, self.balance, self.conviction),
                )
            },
            None => true,
        }
    }
}

/// Intent state (balance, conviction, cached vote call data) unchanged.
pub open spec fn keeps_intent(pre: VoteComponent, post: VoteComponent) -> bool {
    &&& post.balance == pre.balance
    &&& post.conviction == pre.conviction
    &&& post.vote_call_bytes == pre.vote_call_bytes
}

/// Remark state unchanged.
pub open spec fn keeps_message(pre: VoteComponent, post: VoteComponent) -> bool {
    &&& post.message == pre.message
    &&& post.remark_call_bytes == pre.remark_call_bytes
}

/// Environment (chain identity, block line, configuration) unchanged.
pub open spec fn keeps_env(pre: VoteComponent, post: VoteComponent) -> bool {
    &&& post.identity == pre.identity
    &&& post.finalized_blocks == pre.finalized_blocks
    &&& post.referendum_id == pre.referendum_id
}

/// Nothing observable changed.
pub open spec fn unchanged(pre: VoteComponent, post: VoteComponent) -> bool {
    &&& keeps_intent(pre, post)
    &&& keeps_message(pre, post)
    &&& keeps_env(pre, post)
    &&& post.stage == pre.stage
}

/// What applying a vote change must do: on an encodable value, intent and
/// cache move together and the stage stays; otherwise the failure is
/// surfaced as the error stage and intent and cache stay.
pub open spec fn set_vote_rel(
    pre: VoteComponent,
    post: VoteComponent,
    id: ChainIdentity,
    value: u128,
    conviction: Conviction,
) -> bool {
    if id.vote_schema.shape == CallShape::ConvictionVoteStandard && value * PLANCK_PER_UNIT
        <= u128::MAX {
        &&& post.balance == value
        &&& post.conviction == conviction
        &&& post.vote_call_bytes@ == spec_vote_call(
            id.vote_schema,
            spec_intent(pre.referendum_id, value, conviction),
        )
        &&& post.stage == pre.stage
    } else {
        &&& keeps_intent(pre, post)
        &&& post.stage matches SigningStage::Error(m) && m@ == "call data could not be encoded"@
    }
}

/// What applying a remark change must do.
pub open spec fn set_message_rel(
    pre: VoteComponent,
    post: VoteComponent,
    id: ChainIdentity,
    text: String,
) -> bool {
    if id.remark_schema.shape == CallShape::SystemRemark {
        &&& post.message == text
        &&& post.remark_call_bytes@ == spec_remark_call(id.remark_schema, encode_utf8(text@))
        &&& post.stage == pre.stage
    } else {
        &&& keeps_message(pre, post)
        &&& post.stage matches SigningStage::Error(m) && m@ == "call data could not be encoded"@
    }
}

/// The complete transition relation of the session: what one `update`
/// call does for every message in every state.
pub open spec fn step_rel(
    pre: VoteComponent,
    msg: Message,
    post: VoteComponent,
    cmd: Command,
) -> bool {
    match msg {
        Message::Error(text) => {
            &&& keeps_intent(pre, post)
            &&& keeps_message(pre, post)
            &&& keeps_env(pre, post)
            &&& post.stage == SigningStage::Error(text)
            &&& cmd is Nothing
        },
        Message::OnlineClientCreated(id) => {
            &&& keeps_message(pre, post)
            &&& post.identity == Some(id)
            &&& post.finalized_blocks == pre.finalized_blocks
            &&& post.referendum_id == pre.referendum_id
            &&& cmd is Nothing
            &&& if id.vote_schema.shape == CallShape::ConvictionVoteStandard {
                &&& post.balance == 1
                &&& post.conviction == Conviction::Lock1X
                &&& post.vote_call_bytes@ == spec_vote_call(
                    id.vote_schema,
                    spec_intent(pre.referendum_id, 1, Conviction::Lock1X),
                )
                &&& post.stage is EnterBalance
            } else {
                &&& keeps_intent(pre, post)
                &&& post.stage matches SigningStage::Error(m) && m@
                    == "call data could not be encoded"@
            }
        },
        Message::ChangeMessage(text) => match pre.identity {
            Some(id) => {
                &&& keeps_intent(pre, post)
                &&& keeps_env(pre, post)
                &&& set_message_rel(pre, post, id, text)
                &&& cmd is Nothing
            },
            None => unchanged(pre, post) && cmd is Nothing,
        },
        Message::ChangeBalance(text) => match pre.identity {
            Some(id) => {
                &&& keeps_message(pre, post)
                &&& keeps_env(pre, post)
                &&& set_vote_rel(pre, post, id, spec_balance_input(text@), pre.conviction)
                &&& cmd is Nothing
            },
            None => unchanged(pre, post) && cmd is Nothing,
        },
        Message::ChangeConviction(conviction) => match pre.identity {
            Some(id) => {
                &&& keeps_message(pre, post)
                &&& keeps_env(pre, post)
                &&& set_vote_rel(pre, post, id, pre.balance, conviction)
                &&& cmd is Nothing
            },
            None => unchanged(pre, post) && cmd is Nothing,
        },
        Message::RequestAccounts => {
            &&& keeps_intent(pre, post)
            &&& keeps_message(pre, post)
            &&& keeps_env(pre, post)
            &&& post.stage is RequestingAccounts
            &&& cmd is FetchAccounts
        },
        Message::ReceivedAccounts(accounts) => {
            if pre.stage is RequestingAccounts {
                &&& keeps_intent(pre, post)
                &&& keeps_message(pre, post)
                &&& keeps_env(pre, post)
                &&& post.stage == SigningStage::SelectAccount(accounts)
                &&& cmd is Nothing
            } else {
                unchanged(pre, post) && cmd is Nothing
            }
        },
        Message::SignWithAccount(i) => match pre.stage {
            SigningStage::SelectAccount(accounts) => {
                if (i as int) < accounts@.len() {
                    &&& keeps_intent(pre, post)
                    &&& keeps_message(pre, post)
                    &&& keeps_env(pre, post)
                    &&& post.stage matches SigningStage::Signing(a) && same_account(
                        &a,
                        &accounts@[i as int],
                    )
                    &&& cmd matches Command::RequestSignature { signer, call_data }
                        && same_account(&signer, &accounts@[i as int]) && call_data@
                        == pre.vote_call_bytes@
                } else {
                    unchanged(pre, post) && cmd is Nothing
                }
            },
            _ => unchanged(pre, post) && cmd is Nothing,
        },
        Message::ReceivedSignature(sig, xt) => match pre.stage {
            SigningStage::Signing(a) => {
                if same_account(&a, &xt.signer) {
                    &&& keeps_intent(pre, post)
                    &&& keeps_message(pre, post)
                    &&& keeps_env(pre, post)
                    &&& post.stage matches SigningStage::SigningSuccess {
                        signer_account,
                        signature,
                        signed_extrinsic_hex,
                        submitting_stage,
                    } && same_account(&signer_account, &a) && signature == sig
                        && signed_extrinsic_hex@ == spec_hex_0x(xt.bytes@) && submitting_stage
                        == (SubmittingStage::Initial { signed_extrinsic: xt })
                    &&& cmd is Nothing
                } else {
                    unchanged(pre, post) && cmd is Nothing
                }
            },
            _ => unchanged(pre, post) && cmd is Nothing,
        },
        Message::SubmitSigned => match pre.stage {
            SigningStage::SigningSuccess {
                signer_account: sa,
                signature: sg,
                signed_extrinsic_hex: hx,
                submitting_stage: SubmittingStage::Initial { signed_extrinsic: x },
            } => {
                &&& keeps_intent(pre, post)
                &&& keeps_message(pre, post)
                &&& keeps_env(pre, post)
                &&& post.stage matches SigningStage::SigningSuccess {
                    signer_account,
                    signature,
                    signed_extrinsic_hex,
                    submitting_stage,
                } && signer_account == sa && signature == sg && signed_extrinsic_hex == hx
                    && submitting_stage is Submitting
                &&& cmd == Command::Submit(x)
            },
            _ => unchanged(pre, post) && cmd is Nothing,
        },
        Message::ExtrinsicFinalized { remark_event } => match pre.stage {
            SigningStage::SigningSuccess {
                signer_account: sa,
                signature: sg,
                signed_extrinsic_hex: hx,
                submitting_stage: SubmittingStage::Submitting,
            } => {
                &&& keeps_intent(pre, post)
                &&& keeps_message(pre, post)
                &&& keeps_env(pre, post)
                &&& post.stage matches SigningStage::SigningSuccess {
                    signer_account,
                    signature,
                    signed_extrinsic_hex,
                    submitting_stage,
                } && signer_account == sa && signature == sg && signed_extrinsic_hex == hx
                    && submitting_stage == (SubmittingStage::Success { remark_event })
                &&& cmd is Nothing
            },
            _ => unchanged(pre, post) && cmd is Nothing,
        },
        Message::ExtrinsicFailed(err) => match pre.stage {
            SigningStage::SigningSuccess {
                signer_account: sa,
                signature: sg,
                signed_extrinsic_hex: hx,
                submitting_stage: SubmittingStage::Submitting,
            } => {
                &&& keeps_intent(pre, post)
                &&& keeps_message(pre, post)
                &&& keeps_env(pre, post)
                &&& post.stage matches SigningStage::SigningSuccess {
                    signer_account,
                    signature,
                    signed_extrinsic_hex,
                    submitting_stage,
                } && signer_account == sa && signature == sg && signed_extrinsic_hex == hx
                    && submitting_stage == SubmittingStage::Error(err)
                &&& cmd is Nothing
            },
            _ => unchanged(pre, post) && cmd is Nothing,
        },
        Message::SubscribeFinalizedBlock => {
            &&& unchanged(pre, post)
            &&& cmd is SubscribeFinalized
        },
        Message::PushFinalizedBlock(line) => {
            &&& keeps_intent(pre, post)
            &&& keeps_message(pre, post)
            &&& post.identity == pre.identity
            &&& post.referendum_id == pre.referendum_id
            &&& post.stage == pre.stage
            &&& post.finalized_blocks@ == seq![line]
            &&& cmd is Nothing
        },
    }
}

impl VoteComponent {
    /// A fresh session for the given referendum.  The returned command
    /// asks the runtime to create the chain client whose completion
    /// arrives as `OnlineClientCreated`.
    pub fn create(referendum_id: u32) -> (r: (VoteComponent, Command))
        ensures
            r.0.wf(),
            r.0.message@ == ""@,
            r.0.conviction == Conviction::Lock1X,
            r.0.balance == 100,
            r.0.remark_call_bytes@ == Seq::<u8>::empty(),
            r.0.vote_call_bytes@ == Seq::<u8>::empty(),
            r.0.identity is None,
            r.0.stage is CreatingOnlineClient,
            r.0.finalized_blocks@ == Seq::<String>::empty(),
            r.0.referendum_id == referendum_id,
            r.1 is CreateClient,
    {
        let component = VoteComponent {
            message: <String as StringExecFns>::from_str(""),
            conviction: Conviction::Lock1X,
            balance: 100,
            remark_call_bytes: Vec::new(),
            vote_call_bytes: Vec::new(),
            identity: None,
            stage: SigningStage::CreatingOnlineClient,
            finalized_blocks: Vec::new(),
            referendum_id,
        };
        (component, Command::CreateClient)
    }

    /// Applies a vote change: recomputes the cached call data from the
    /// new value and conviction, or surfaces the failure.
    fn set_vote(&mut self, value: u128, conviction: Conviction)
        requires
            old(self).identity is Some,
        ensures
            keeps_message(*old(self), *final(self)),
            keeps_env(*old(self), *final(self)),
            set_vote_rel(*old(self), *final(self), old(self).identity->0, value, conviction),
    {
        let schema = match &self.identity {
            Some(id) => id.vote_schema,
            None => {
                proof {
                    assert(false);
                }
                crate::encoder::CallSchema {
                    pallet_index: 0,
                    call_index: 0,
                    shape: CallShape::ConvictionVoteStandard,
                }
            },
        };
        match value.checked_mul(PLANCK_PER_UNIT) {
            Some(scaled) => {
                let intent = VoteIntent {
                    referendum_id: self.referendum_id,
                    aye: true,
                    balance: scaled,
                    conviction,
                };
                match encode_call(&schema, &CallAction::Vote(intent)) {
                    Ok(bytes) => {
                        self.balance = value;
                        self.conviction = conviction;
                        self.vote_call_bytes = bytes;
                    },
                    Err(_) => {
                        self.stage = SigningStage::Error(
                            <String as StringExecFns>::from_str("call data could not be encoded"),
                        );
                    },
                }
            },
            None => {
                self.stage = SigningStage::Error(
                    <String as StringExecFns>::from_str("call data could not be encoded"),
                );
            },
        }
    }

    /// Applies a remark change: recomputes the cached remark call data
    /// from the new text, or surfaces the failure.
    fn set_message(&mut self, text: String)
        requires
            old(self).identity is Some,
        ensures
            keeps_intent(*old(self), *final(self)),
            keeps_env(*old(self), *final(self)),
            set_message_rel(*old(self), *final(self), old(self).identity->0, text),
    {
        let schema = match &self.identity {
            Some(id) => id.remark_schema,
            None => {
                proof {
                    assert(false);
                }
                crate::encoder::CallSchema {
                    pallet_index: 0,
                    call_index: 0,
                    shape: CallShape::SystemRemark,
                }
            },
        };
        let bytes = vstd::slice::slice_to_vec(text.as_str().as_bytes());
        match encode_call(&schema, &CallAction::Remark(bytes)) {
            Ok(call) => {
                self.remark_call_bytes = call;
                self.message = text;
            },
            Err(_) => {
                self.stage = SigningStage::Error(
                    <String as StringExecFns>::from_str("call data could not be encoded"),
                );
            },
        }
    }

    /// The CSS class marking the currently chosen conviction.
    pub fn is_selected(&self, conviction: Conviction) -> (r: String)
        ensures
            r@ == if self.conviction == conviction {
                "selected"@
            } else {
                ""@
            },
    {
        if self.conviction == conviction {
            <String as StringExecFns>::from_str("selected")
        } else {
            <String as StringExecFns>::from_str("")
        }
    }

    /// Consumes one message and performs the transition `step_rel`
    /// describes, returning the command the runtime must run next.
    pub fn update(&mut self, msg: Message) -> (cmd: Command)
        requires
            old(self).wf(),
        ensures
            final(self).wf(),
            step_rel(*old(self), msg, *final(self), cmd),
    {
        match msg {
            Message::Error(text) => {
                self.stage = SigningStage::Error(text);
                Command::Nothing
            },
            Message::OnlineClientCreated(identity) => {
                self.identity = Some(identity);
                self.stage = SigningStage::EnterBalance;
                self.set_vote(1, Conviction::Lock1X);
                Command::Nothing
            },
            Message::ChangeMessage(text) => {
                if self.identity.is_some() {
                    self.set_message(text);
                }
                Command::Nothing
            },
            Message::ChangeBalance(text) => {
                if self.identity.is_some() {
                    let value = match parse_u128(text.as_str().as_bytes()) {
                        Some(v) => v,
                        None => 100,
                    };
                    let conviction = self.conviction;
                    self.set_vote(value, conviction);
                }
                Command::Nothing
            },
            Message::ChangeConviction(conviction) => {
                if self.identity.is_some() {
                    let value = self.balance;
                    self.set_vote(value, conviction);
                }
                Command::Nothing
            },
            Message::RequestAccounts => {
                self.stage = SigningStage::RequestingAccounts;
                Command::FetchAccounts
            },
            Message::ReceivedAccounts(accounts) => {
                let requesting = match &self.stage {
                    SigningStage::RequestingAccounts => true,
                    _ => false,
                };
                if requesting {
                    self.stage = SigningStage::SelectAccount(accounts);
                }
                Command::Nothing
            },
            Message::SignWithAccount(i) => {
                let mut chosen: Option<Account> = None;
                match &self.stage {
                    SigningStage::SelectAccount(accounts) => {
                        if i < accounts.len() {
                            chosen = Some(accounts[i].clone());
                        }
                    },
                    _ => {},
                }
                match chosen {
                    Some(account) => {
                        let signer = account.clone();
                        let call_data = clone_bytes(&self.vote_call_bytes);
                        self.stage = SigningStage::Signing(account);
                        Command::RequestSignature { signer, call_data }
                    },
                    None => Command::Nothing,
                }
            },
            Message::ReceivedSignature(signature, signed_extrinsic) => {
                let mut holder: Option<Account> = None;
                match &self.stage {
                    SigningStage::Signing(account) => {
                        if account.same_as(&signed_extrinsic.signer) {
                            holder = Some(account.clone());
                        }
                    },
                    _ => {},
                }
                match holder {
                    Some(signer_account) => {
                        let signed_extrinsic_hex = signed_extrinsic.render_hex();
                        self.stage = SigningStage::SigningSuccess {
                            signer_account,
                            signature,
                            signed_extrinsic_hex,
                            submitting_stage: SubmittingStage::Initial { signed_extrinsic },
                        };
                        Command::Nothing
                    },
                    None => Command::Nothing,
                }
            },
            Message::SubmitSigned => {
                let mut stage = SigningStage::CreatingOnlineClient;
                core::mem::swap(&mut self.stage, &mut stage);
                match stage {
                    SigningStage::SigningSuccess {
                        signer_account,
                        signature,
                        signed_extrinsic_hex,
                        submitting_stage,
                    } => match submitting_stage {
                        SubmittingStage::Initial { signed_extrinsic } => {
                            self.stage = SigningStage::SigningSuccess {
                                signer_account,
                                signature,
                                signed_extrinsic_hex,
                                submitting_stage: SubmittingStage::Submitting,
                            };
                            Command::Submit(signed_extrinsic)
                        },
                        other => {
                            self.stage = SigningStage::SigningSuccess {
                                signer_account,
                                signature,
                                signed_extrinsic_hex,
                                submitting_stage: other,
                            };
                            Command::Nothing
                        },
                    },
                    other => {
                        self.stage = other;
                        Command::Nothing
                    },
                }
            },
            Message::ExtrinsicFinalized { remark_event } => {
                let mut stage = SigningStage::CreatingOnlineClient;
                core::mem::swap(&mut self.stage, &mut stage);
                match stage {
                    SigningStage::SigningSuccess {
                        signer_account,
                        signature,
                        signed_extrinsic_hex,
                        submitting_stage,
                    } => match submitting_stage {
                        SubmittingStage::Submitting => {
                            self.stage = SigningStage::SigningSuccess {
                                signer_account,
                                signature,
                                signed_extrinsic_hex,
                                submitting_stage: SubmittingStage::Success { remark_event },
                            };
                            Command::Nothing
                        },
                        other => {
                            self.stage = SigningStage::SigningSuccess {
                                signer_account,
                                signature,
                                signed_extrinsic_hex,
                                submitting_stage: other,
                            };
                            Command::Nothing
                        },
                    },
                    other => {
                        self.stage = other;
                        Command::Nothing
                    },
                }
            },
            Message::ExtrinsicFailed(err) => {
                let mut stage = SigningStage::CreatingOnlineClient;
                core::mem::swap(&mut self.stage, &mut stage);
                match stage {
                    SigningStage::SigningSuccess {
                        signer_account,
                        signature,
                        signed_extrinsic_hex,
                        submitting_stage,
                    } => match submitting_stage {
                        SubmittingStage::Submitting => {
                            self.stage = SigningStage::SigningSuccess {
                                signer_account,
                                signature,
                                signed_extrinsic_hex,
                                submitting_stage: SubmittingStage::Error(err),
                            };
                            Command::Nothing
                        },
                        other => {
                            self.stage = SigningStage::SigningSuccess {
                                signer_account,
                                signature,
                                signed_extrinsic_hex,
                                submitting_stage: other,
                            };
                            Command::Nothing
                        },
                    },
                    other => {
                        self.stage = other;
                        Command::Nothing
                    },
                }
            },
            Message::SubscribeFinalizedBlock => Command::SubscribeFinalized,
            Message::PushFinalizedBlock(line) => {
                self.finalized_blocks.insert(0, line);
                if self.finalized_blocks.len() > 1 {
                    self.finalized_blocks.truncate(1);
                }
                proof {
                    assert(self.finalized_blocks@ =~= seq![line]);
                }
                Command::Nothing
            },
        }
    }
}

/// Choosing an index at or past the end of the offered account list
/// changes nothing reachable from the selection stage: state and command
/// are exactly as before.
pub proof fn lemma_select_out_of_range_unchanged(
    pre: VoteComponent,
    accounts: Vec<Account>,
    i: usize,
    post: VoteComponent,
    cmd: Command,
)
    requires
        pre.stage == SigningStage::SelectAccount(accounts),
        accounts@.len() <= i,
        step_rel(pre, Message::SignWithAccount(i), post, cmd),
    ensures
        unchanged(pre, post),
        cmd is Nothing,
{
}

/// A signature arriving while the session is not in the exact signing
/// stage that requested it, for that signer, transitions nothing.
pub proof fn lemma_stale_signature_ignored(
    pre: VoteComponent,
    sig: Signature,
    xt: SignedExtrinsic,
    post: VoteComponent,
    cmd: Command,
)
    requires
        step_rel(pre, Message::ReceivedSignature(sig, xt), post, cmd),
        !(pre.stage matches SigningStage::Signing(a) && same_account(&a, &xt.signer)),
    ensures
        unchanged(pre, post),
        cmd is Nothing,
{
}

/// Submission is single-shot.  From the pending stage, `SubmitSigned`
/// hands the extrinsic out by value and leaves the stage submitting; the
/// value itself is consumed by submission.
pub proof fn lemma_submit_consumes(
    pre: VoteComponent,
    x: SignedExtrinsic,
    post: VoteComponent,
    cmd: Command,
)
    requires
        pre.stage matches SigningStage::SigningSuccess {
            submitting_stage: SubmittingStage::Initial { signed_extrinsic },
            ..
        } && signed_extrinsic == x,
        step_rel(pre, Message::SubmitSigned, post, cmd),
    ensures
        cmd == Command::Submit(x),
        post.stage matches SigningStage::SigningSuccess {
            submitting_stage: SubmittingStage::Submitting,
            ..
        },
{
}

/// Once submission has taken the extrinsic, no later transition brings
/// the session back to a pending submission, except the arrival of a
/// fresh signature with a new extrinsic: the submitted value itself,
/// moved out by `SubmitSigned` and consumed by value, can never be
/// submitted again.
pub proof fn lemma_submitted_never_pending_again(
    pre: VoteComponent,
    post: VoteComponent,
    cmd: Command,
    msg: Message,
    post2: VoteComponent,
    cmd2: Command,
)
    requires
        pre.stage matches SigningStage::SigningSuccess {
            submitting_stage: SubmittingStage::Initial { .. },
            ..
        },
        step_rel(pre, Message::SubmitSigned, post, cmd),
        step_rel(post, msg, post2, cmd2),
        !(msg matches Message::ReceivedSignature(_, _)),
    ensures
        !(post2.stage matches SigningStage::SigningSuccess {
            submitting_stage: SubmittingStage::Initial { .. },
            ..
        }),
{
}

/// An extrinsic waits for submission only where its signature delivered
/// it: a transition whose result holds a pending extrinsic either kept
/// the very value that was already pending, or is the arrival of that
/// extrinsic's own signature.  Together with `lemma_submit_consumes` and
/// the by-value hand-off, one signed extrinsic can reach submission at
/// most once.
pub proof fn lemma_pending_only_from_signature(
    pre: VoteComponent,
    msg: Message,
    post: VoteComponent,
    cmd: Command,
    x: SignedExtrinsic,
)
    requires
        step_rel(pre, msg, post, cmd),
        post.stage matches SigningStage::SigningSuccess {
            submitting_stage: SubmittingStage::Initial { signed_extrinsic },
            ..
        } && signed_extrinsic == x,
    ensures
        (pre.stage matches SigningStage::SigningSuccess {
            submitting_stage: SubmittingStage::Initial { signed_extrinsic },
            ..
        } && signed_extrinsic == x) || (msg matches Message::ReceivedSignature(sig, xt) && xt
            == x),
{
}

} // verus!
