//! The state machine of transaction signing.
//!
//! The host sends the inputs (with the paths to sign them with and what their
//! signatures commit to), then the input commitments a second time, then the
//! outputs, and finally asks for the signatures one by one. The context keeps
//! the summary shown for review, the signature targets and the first pass's
//! input commitments; of the bytes that the transaction hash covers it keeps
//! only their model. Hashing, the review screens and signing are done by the
//! caller: each step hands out the bytes to hash next and says which review
//! screens come next.

use vstd::prelude::*;

use crate::codec::{encode_as_compact, spec_compact_u32, spec_le_bytes, u32_to_le_bytes};
use crate::derivation::{
    check_derivation_path_for_tx_signing, spec_full_path, spec_path_ok,
    CompressedDerivationPathForTxSigning, DERIV_PATH_LEN_FOR_TX_SIGNING,
};
use crate::encoding::{
    encode_commitment, encode_tx_input, encode_tx_output, spec_encode_commitment,
    spec_encode_tx_input, spec_encode_tx_output,
};
use crate::messages::{
    spec_input_and_commitment, InputAddressPath, SignTxNextReq, SignTxStartReq, Signature,
    TransactionVersion, TxInputData, TxInputSignatureResponse, TxInputWithAdditionalInfo,
};
use crate::primitives::{
    push_bytes, CoinType, OrderAccountCommand, SighashInputCommitment, TxOutput,
};
use crate::status::StatusWord;
use crate::summary::{
    records_input_command, spec_process_input, spec_process_output, InputCommand, SummaryView,
    TxSummaryCollector,
};

verus! {

/// The signature hash mode that signs all inputs and outputs.
pub const SIG_HASH_TYPE_ALL: u8 = 1;

/// The transaction version byte of version 1.
pub const TX_VERSION_1: u8 = 1;

/// The number of inputs above which a spinner is shown while they are processed.
pub const MANY_INPUTS: u32 = 5;

/// The start of the bytes that a version 1 transaction hash covers: the hash
/// mode, the version, sixteen zero flag bytes and the number of inputs.
pub open spec fn spec_tx_header(num_inputs: u32) -> Seq<u8> {
    seq![SIG_HASH_TYPE_ALL, TX_VERSION_1] + Seq::new(16, |i: int| 0u8) + spec_le_bytes(
        num_inputs as nat,
        4,
    )
}

/// A key to sign an input with. An input has one target per key (several for
/// multisig, none for a pseudo-input such as filling an order).
#[derive(Clone, Copy, Debug)]
pub struct SigTarget {
    pub path: CompressedDerivationPathForTxSigning,
    pub input_idx: u32,
    pub multisig_idx: Option<u32>,
}

/// A path can sign a transaction input on a network.
pub open spec fn spec_target_ok(path: Seq<u32>, coin: CoinType) -> bool {
    spec_path_ok(path, coin) && path.len() == DERIV_PATH_LEN_FOR_TX_SIGNING
}

/// The target of an input's address path.
pub open spec fn spec_target(addr: InputAddressPath, input_idx: u32) -> SigTarget {
    SigTarget {
        path: CompressedDerivationPathForTxSigning {
            account_index: addr.path.0@[2],
            addr_purpose: addr.path.0@[3],
            addr_index: addr.path.0@[4],
        },
        input_idx,
        multisig_idx: addr.multisig_idx,
    }
}

/// Every address path of an input can sign on the network.
pub open spec fn spec_targets_ok(addrs: Seq<InputAddressPath>, coin: CoinType) -> bool {
    forall|i: int| 0 <= i < addrs.len() ==> spec_target_ok(#[trigger] addrs[i].path.0@, coin)
}

/// The targets of an input's address paths, in their order.
pub open spec fn spec_targets(addrs: Seq<InputAddressPath>, input_idx: u32) -> Seq<SigTarget> {
    Seq::new(addrs.len(), |i: int| spec_target(addrs[i], input_idx))
}

impl SigTarget {
    /// The target of an address path for the input `input_idx`; `InvalidPath`
    /// unless the path is one for signing on the network.
    pub fn new(addr: &InputAddressPath, input_idx: u32, coin_type: CoinType) -> (r: Result<
        SigTarget,
        StatusWord,
    >)
        ensures
            r is Ok <==> spec_target_ok(addr.path.0@, coin_type),
            r matches Ok(t) ==> t == spec_target(*addr, input_idx),
            r is Err ==> r == Err::<SigTarget, StatusWord>(StatusWord::InvalidPath),
    {
        let path = check_derivation_path_for_tx_signing(addr.path.as_ref(), coin_type)?;
        Ok(SigTarget { path, input_idx, multisig_idx: addr.multisig_idx })
    }
}

/// What the first request tells of a transaction.
#[derive(Clone, Copy, Debug)]
pub struct TxMetadata {
    pub coin_type: CoinType,
    pub num_inputs: u32,
    pub num_outputs: u32,
}

/// The phase of signing a transaction.
#[derive(Clone, Copy, Debug, PartialEq, Eq, Structural)]
pub enum TxPhase {
    ProcessingInputs,
    ProcessingInputCommitments,
    ProcessingOutputs,
    Signing,
    Finished,
}

/// What a signing context holds. `parsed` counts the requests of the current
/// phase (inputs, commitments or outputs) or the signatures produced;
/// `tx_bytes` are the bytes the transaction hash covers so far;
/// `commitments` the commitments of the current pass over the inputs and
/// `expected_commitments` those of the first pass.
pub struct TxView {
    pub phase: TxPhase,
    pub metadata: TxMetadata,
    pub parsed: nat,
    pub tx_bytes: Seq<u8>,
    pub commitments: Seq<u8>,
    pub expected_commitments: Seq<u8>,
    pub summary: SummaryView,
    pub sig_targets: Seq<SigTarget>,
}

/// `s` starts with `p`.
pub open spec fn spec_starts_with(s: Seq<u8>, p: Seq<u8>) -> bool {
    p.len() <= s.len() && forall|i: int| 0 <= i < p.len() ==> #[trigger] s[i] == p[i]
}

/// What holds of every state the signing contexts reach: the hashed bytes
/// start with the header of the transaction, there is an input,
/// every target signs one of the inputs (one already seen while inputs come
/// in), after the inputs there is something to sign, and the counter stays
/// below the number of items of its phase.
pub open spec fn spec_inv(v: TxView) -> bool {
    &&& v.phase != TxPhase::Finished ==> v.metadata.num_inputs > 0
    &&& v.phase != TxPhase::Finished ==> spec_starts_with(
        v.tx_bytes,
        spec_tx_header(v.metadata.num_inputs),
    )
    &&& v.phase != TxPhase::Finished ==> forall|i: int|
        0 <= i < v.sig_targets.len() ==> #[trigger] v.sig_targets[i].input_idx
            < v.metadata.num_inputs
    &&& v.phase == TxPhase::ProcessingInputs ==> {
        &&& v.parsed < v.metadata.num_inputs
        &&& forall|i: int|
            0 <= i < v.sig_targets.len() ==> #[trigger] v.sig_targets[i].input_idx < v.parsed
    }
    &&& v.phase == TxPhase::ProcessingInputCommitments ==> {
        &&& v.parsed < v.metadata.num_inputs
        &&& v.sig_targets.len() > 0
    }
    &&& v.phase == TxPhase::ProcessingOutputs ==> {
        &&& v.parsed < v.metadata.num_outputs
        &&& v.sig_targets.len() > 0
    }
    &&& v.phase == TxPhase::Signing ==> v.parsed < v.sig_targets.len()
}

/// Signing while the inputs come in.
pub struct TxInputsProcessingContext {
    metadata: TxMetadata,
    tx_bytes: Ghost<Seq<u8>>,
    input_commitments: Vec<u8>,
    summary: TxSummaryCollector,
    sig_targets: Vec<SigTarget>,
    num_inputs_parsed: u32,
}

/// Signing while the input commitments come in a second time. Those of this
/// pass are compared with the first pass's as they come: `matched` bytes of
/// them have matched so far, unless `mismatch` is set.
pub struct TxInputCommitmentsProcessingContext {
    metadata: TxMetadata,
    tx_bytes: Ghost<Seq<u8>>,
    input_commitments: Ghost<Seq<u8>>,
    matched: usize,
    mismatch: bool,
    expected_input_commitments: Vec<u8>,
    summary: TxSummaryCollector,
    sig_targets: Vec<SigTarget>,
    num_inputs_parsed: u32,
}

/// Signing while the outputs come in.
pub struct TxOutputsProcessingContext {
    metadata: TxMetadata,
    tx_bytes: Ghost<Seq<u8>>,
    summary: TxSummaryCollector,
    sig_targets: Vec<SigTarget>,
    num_outputs_parsed: u32,
}

/// Signing once the user approved the transaction.
pub struct TxSigningContext {
    metadata: TxMetadata,
    tx_bytes: Ghost<Seq<u8>>,
    sig_targets: Vec<SigTarget>,
    num_sigs_produced: usize,
}

/// The state of signing a transaction.
pub enum TxProcessingContext {
    ProcessingInputs(Box<TxInputsProcessingContext>),
    ProcessingInputCommitments(Box<TxInputCommitmentsProcessingContext>),
    ProcessingOutputs(Box<TxOutputsProcessingContext>),
    Signing(Box<TxSigningContext>),
    Finished,
}

impl TxInputsProcessingContext {
    /// What the context holds.
    pub closed spec fn view(&self) -> TxView {
        TxView {
            phase: TxPhase::ProcessingInputs,
            metadata: self.metadata,
            parsed: self.num_inputs_parsed as nat,
            tx_bytes: self.tx_bytes@,
            commitments: self.input_commitments@,
            expected_commitments: Seq::empty(),
            summary: self.summary@,
            sig_targets: self.sig_targets@,
        }
    }

    /// The summary's totals are in order and the state is one signing reaches.
    pub closed spec fn wf(&self) -> bool {
        self.summary.wf() && spec_inv(self.view())
    }

    /// The account command that the inputs recorded so far.
    pub closed spec fn input_command_view(&self) -> Option<InputCommand> {
        self.summary.input_command_view()
    }
}

impl TxInputCommitmentsProcessingContext {
    /// What the context holds.
    pub closed spec fn view(&self) -> TxView {
        TxView {
            phase: TxPhase::ProcessingInputCommitments,
            metadata: self.metadata,
            parsed: self.num_inputs_parsed as nat,
            tx_bytes: self.tx_bytes@,
            commitments: self.input_commitments@,
            expected_commitments: self.expected_input_commitments@,
            summary: self.summary@,
            sig_targets: self.sig_targets@,
        }
    }

    /// The summary's totals are in order, the state is one signing reaches,
    /// and the comparison so far is right: no mismatch exactly when this
    /// pass's commitments begin the first pass's, and then `matched` counts them.
    pub closed spec fn wf(&self) -> bool {
        &&& self.summary.wf()
        &&& spec_inv(self.view())
        &&& !self.mismatch <==> spec_starts_with(
            self.expected_input_commitments@,
            self.input_commitments@,
        )
        &&& !self.mismatch ==> self.matched == self.input_commitments@.len()
    }

    /// The account command that the inputs recorded.
    pub closed spec fn input_command_view(&self) -> Option<InputCommand> {
        self.summary.input_command_view()
    }
}

impl TxOutputsProcessingContext {
    /// What the context holds.
    pub closed spec fn view(&self) -> TxView {
        TxView {
            phase: TxPhase::ProcessingOutputs,
            metadata: self.metadata,
            parsed: self.num_outputs_parsed as nat,
            tx_bytes: self.tx_bytes@,
            commitments: Seq::empty(),
            expected_commitments: Seq::empty(),
            summary: self.summary@,
            sig_targets: self.sig_targets@,
        }
    }

    /// The summary's totals are in order and the state is one signing reaches.
    pub closed spec fn wf(&self) -> bool {
        self.summary.wf() && spec_inv(self.view())
    }

    /// The account command that the inputs recorded.
    pub closed spec fn input_command_view(&self) -> Option<InputCommand> {
        self.summary.input_command_view()
    }

    /// The network of the transaction.
    pub fn coin_type(&self) -> (r: CoinType)
        ensures
            r == self.view().metadata.coin_type,
    {
        self.metadata.coin_type
    }

    /// The summary collected so far.
    pub fn summary(&self) -> (r: &TxSummaryCollector)
        ensures
            r@ == self.view().summary,
            r.input_command_view() == self.input_command_view(),
            self.wf() ==> r.wf(),
    {
        &self.summary
    }
}

impl TxSigningContext {
    /// What the context holds.
    pub closed spec fn view(&self) -> TxView {
        TxView {
            phase: TxPhase::Signing,
            metadata: self.metadata,
            parsed: self.num_sigs_produced as nat,
            tx_bytes: self.tx_bytes@,
            commitments: Seq::empty(),
            expected_commitments: Seq::empty(),
            summary: SummaryView {
                tx_type: None,
                inputs: Map::empty(),
                outputs: Map::empty(),
            },
            sig_targets: self.sig_targets@,
        }
    }

    /// The state is one signing reaches.
    pub closed spec fn wf(&self) -> bool {
        spec_inv(self.view())
    }
}

/// The context that starts signing a transaction.
pub open spec fn spec_new_view(req: SignTxStartReq) -> TxView {
    TxView {
        phase: TxPhase::ProcessingInputs,
        metadata: TxMetadata {
            coin_type: req.coin,
            num_inputs: req.num_inputs,
            num_outputs: req.num_outputs,
        },
        parsed: 0,
        tx_bytes: spec_tx_header(req.num_inputs),
        commitments: Seq::empty(),
        expected_commitments: Seq::empty(),
        summary: SummaryView { tx_type: None, inputs: Map::empty(), outputs: Map::empty() },
        sig_targets: Seq::empty(),
    }
}

/// The bytes that the transaction hash begins with: the caller hashes them
/// when signing starts, before the bytes that the steps hand out.
pub fn tx_header(num_inputs: u32) -> (r: Vec<u8>)
    ensures
        r@ == spec_tx_header(num_inputs),
{
    let mut out: Vec<u8> = Vec::new();
    out.push(SIG_HASH_TYPE_ALL);
    out.push(TX_VERSION_1);
    let mut i: usize = 0;
    while i < 16
        invariant
            i <= 16,
            out@ == seq![SIG_HASH_TYPE_ALL, TX_VERSION_1] + Seq::new(i as nat, |j: int| 0u8),
        decreases 16 - i,
    {
        out.push(0u8);
        i += 1;
        proof {
            assert(Seq::new(i as nat, |j: int| 0u8) =~= Seq::new((i - 1) as nat, |j: int| 0u8).push(
                0u8,
            ));
        }
    }
    let le = u32_to_le_bytes(num_inputs);
    push_bytes(&mut out, &le);
    assert(out@ =~= spec_tx_header(num_inputs));
    out
}

/// A spinner is shown while signing, and while the inputs and their
/// commitments come in when there are more than a few of them.
pub open spec fn spec_spinner_shown(v: TxView) -> bool {
    ||| v.phase == TxPhase::Signing
    ||| (v.phase == TxPhase::ProcessingInputs || v.phase == TxPhase::ProcessingInputCommitments)
        && v.metadata.num_inputs > MANY_INPUTS
}

/// The view of a finished context.
pub open spec fn finished_view() -> TxView {
    TxView {
        phase: TxPhase::Finished,
        metadata: TxMetadata { coin_type: CoinType::Mainnet, num_inputs: 0, num_outputs: 0 },
        parsed: 0,
        tx_bytes: Seq::empty(),
        commitments: Seq::empty(),
        expected_commitments: Seq::empty(),
        summary: SummaryView { tx_type: None, inputs: Map::empty(), outputs: Map::empty() },
        sig_targets: Seq::empty(),
    }
}

impl TxProcessingContext {
    /// What the context holds.
    pub open spec fn view(&self) -> TxView {
        match self {
            TxProcessingContext::ProcessingInputs(c) => c.view(),
            TxProcessingContext::ProcessingInputCommitments(c) => c.view(),
            TxProcessingContext::ProcessingOutputs(c) => c.view(),
            TxProcessingContext::Signing(c) => c.view(),
            TxProcessingContext::Finished => finished_view(),
        }
    }

    /// The context is one that signing reaches.
    pub open spec fn wf(&self) -> bool {
        match self {
            TxProcessingContext::ProcessingInputs(c) => c.wf(),
            TxProcessingContext::ProcessingInputCommitments(c) => c.wf(),
            TxProcessingContext::ProcessingOutputs(c) => c.wf(),
            TxProcessingContext::Signing(c) => c.wf(),
            TxProcessingContext::Finished => true,
        }
    }

    /// The account command that the inputs recorded, while the summary is held.
    pub closed spec fn input_command_view(&self) -> Option<InputCommand> {
        match self {
            TxProcessingContext::ProcessingInputs(c) => c.input_command_view(),
            TxProcessingContext::ProcessingInputCommitments(c) => c.input_command_view(),
            TxProcessingContext::ProcessingOutputs(c) => c.input_command_view(),
            _ => None,
        }
    }

    /// The phase of a context is the one its variant names, and a finished
    /// context is always one that signing reaches.
    pub proof fn lemma_phase(&self)
        ensures
            self.view().phase == match self {
                TxProcessingContext::ProcessingInputs(_) => TxPhase::ProcessingInputs,
                TxProcessingContext::ProcessingInputCommitments(_) => {
                    TxPhase::ProcessingInputCommitments
                },
                TxProcessingContext::ProcessingOutputs(_) => TxPhase::ProcessingOutputs,
                TxProcessingContext::Signing(_) => TxPhase::Signing,
                TxProcessingContext::Finished => TxPhase::Finished,
            },
            self is Finished ==> self.wf(),
    {
    }

    /// The invariant of reachable states holds of a well-formed context.
    pub proof fn lemma_wf_inv(&self)
        requires
            self.wf(),
        ensures
            spec_inv(self.view()),
    {
    }

    /// Starts signing a transaction; `TxWithZeroInputs` for one without inputs.
    pub fn new(req: SignTxStartReq) -> (r: Result<TxProcessingContext, StatusWord>)
        ensures
            r is Err <==> req.num_inputs == 0,
            r is Err ==> r == Err::<TxProcessingContext, StatusWord>(StatusWord::TxWithZeroInputs),
            r matches Ok(c) ==> c.wf() && c.view() == spec_new_view(req),
            r matches Ok(c) ==> c.input_command_view() is None,
    {
        if req.num_inputs == 0 {
            return Err(StatusWord::TxWithZeroInputs);
        }
        match req.version {
            TransactionVersion::V1 => {
                let summary = TxSummaryCollector::new();
                let ctx = TxInputsProcessingContext {
                    metadata: TxMetadata {
                        coin_type: req.coin,
                        num_inputs: req.num_inputs,
                        num_outputs: req.num_outputs,
                    },
                    tx_bytes: Ghost(spec_tx_header(req.num_inputs)),
                    input_commitments: Vec::new(),
                    summary,
                    sig_targets: Vec::new(),
                    num_inputs_parsed: 0,
                };
                proof {
                    assert(ctx.view().summary.inputs =~= Map::empty());
                    assert(ctx.view().summary.outputs =~= Map::empty());
                }
                Ok(TxProcessingContext::ProcessingInputs(Box::new(ctx)))
            },
        }
    }

    /// The text of the spinner to show in this state, if any: while signing,
    /// and while the inputs and their commitments come in when there are
    /// more than a few of them.
    pub fn show_spinner(&self) -> (r: Option<&'static str>)
        ensures
            r is Some <==> spec_spinner_shown(self.view()),
            self.view().phase == TxPhase::Signing ==> r == Some("Signing..."),
            self.view().phase != TxPhase::Signing && r is Some ==> r == Some(
                "Processing transaction...",
            ),
    {
        let num_inputs = match self {
            TxProcessingContext::ProcessingInputs(c) => c.metadata.num_inputs,
            TxProcessingContext::ProcessingInputCommitments(c) => c.metadata.num_inputs,
            TxProcessingContext::Signing(_) => {
                return Some("Signing...");
            },
            TxProcessingContext::ProcessingOutputs(_) | TxProcessingContext::Finished => {
                return None;
            },
        };
        if num_inputs > MANY_INPUTS {
            Some("Processing transaction...")
        } else {
            None
        }
    }

    /// Whether all signatures were returned.
    pub fn finished(&self) -> (r: bool)
        ensures
            r <==> self.view().phase == TxPhase::Finished,
    {
        match self {
            TxProcessingContext::Finished => true,
            _ => false,
        }
    }
}

/// The summary a context shows once it no longer holds one.
pub open spec fn empty_summary() -> SummaryView {
    SummaryView { tx_type: None, inputs: Map::empty(), outputs: Map::empty() }
}

/// An order fill (of the order commands the application supports): a
/// pseudo-input that is never signed.
pub open spec fn spec_is_fill_order(inp: TxInputWithAdditionalInfo) -> bool {
    inp matches TxInputWithAdditionalInfo::OrderAccountCommand(
        OrderAccountCommand::FillOrder(_, _),
        _,
    )
}

/// Whether an input fills an order.
pub fn is_v1_fill_order_input(input: &TxInputWithAdditionalInfo) -> (r: bool)
    ensures
        r == spec_is_fill_order(*input),
{
    match input {
        TxInputWithAdditionalInfo::OrderAccountCommand(cmd, _) => match cmd {
            OrderAccountCommand::FillOrder(_, _) => true,
            OrderAccountCommand::FreezeOrder(_) | OrderAccountCommand::ConcludeOrder(_) => false,
        },
        TxInputWithAdditionalInfo::Utxo(_, _)
        | TxInputWithAdditionalInfo::Account(_)
        | TxInputWithAdditionalInfo::AccountCommand(_, _) => false,
    }
}

/// The encoding of the transaction input that an input request carries.
pub open spec fn spec_input_bytes(inp: TxInputWithAdditionalInfo) -> Seq<u8> {
    spec_encode_tx_input(spec_input_and_commitment(inp).0)
}

/// The encoding of what the signature of an input request's input commits to.
pub open spec fn spec_commitment_bytes(inp: TxInputWithAdditionalInfo) -> Seq<u8> {
    spec_encode_commitment(spec_input_and_commitment(inp).1)
}

/// The context after an input, or why it is refused: a signature asked for
/// an order fill, a path that cannot sign, an input the summary refuses, or,
/// after the last input, nothing to sign at all. The input's encoding goes
/// into the hashed bytes, its commitment's encoding into the first pass's
/// commitments.
pub open spec fn spec_handle_input(v: TxView, d: TxInputData) -> Result<TxView, StatusWord> {
    let encoded_input = spec_input_bytes(d.input);
    let encoded_commitment = spec_commitment_bytes(d.input);
    if spec_is_fill_order(d.input) && d.addresses@.len() > 0 {
        Err(StatusWord::FillOrderSigRequested)
    } else if !spec_targets_ok(d.addresses@, v.metadata.coin_type) {
        Err(StatusWord::InvalidPath)
    } else {
        let (summary, res) = spec_process_input(v.summary, d.input);
        match res {
            Err(e) => Err(e),
            Ok(_) => {
                let targets = v.sig_targets + spec_targets(d.addresses@, v.parsed as u32);
                let parsed = v.parsed + 1;
                let tx_bytes = v.tx_bytes + encoded_input;
                let commitments = v.commitments + encoded_commitment;
                if parsed < v.metadata.num_inputs {
                    Ok(
                        TxView {
                            parsed: parsed as nat,
                            tx_bytes,
                            commitments,
                            summary,
                            sig_targets: targets,
                            ..v
                        },
                    )
                } else if targets.len() == 0 {
                    Err(StatusWord::NothingToSign)
                } else {
                    Ok(
                        TxView {
                            phase: TxPhase::ProcessingInputCommitments,
                            parsed: 0,
                            tx_bytes: tx_bytes + spec_le_bytes(v.metadata.num_inputs as nat, 4),
                            commitments: Seq::empty(),
                            expected_commitments: commitments,
                            summary,
                            sig_targets: targets,
                            ..v
                        },
                    )
                }
            },
        }
    }
}

/// The signature targets of an input's address paths, or `InvalidPath`.
fn collect_sig_targets(addresses: &Vec<InputAddressPath>, input_idx: u32, coin: CoinType) -> (r:
    Result<Vec<SigTarget>, StatusWord>)
    ensures
        r is Ok <==> spec_targets_ok(addresses@, coin),
        r matches Ok(t) ==> t@ == spec_targets(addresses@, input_idx),
        r is Err ==> r == Err::<Vec<SigTarget>, StatusWord>(StatusWord::InvalidPath),
{
    let mut out: Vec<SigTarget> = Vec::new();
    let mut i: usize = 0;
    while i < addresses.len()
        invariant
            i <= addresses@.len(),
            out@ == spec_targets(addresses@.subrange(0, i as int), input_idx),
            forall|j: int| 0 <= j < i ==> spec_target_ok(#[trigger] addresses@[j].path.0@, coin),
        decreases addresses@.len() - i,
    {
        let t = SigTarget::new(&addresses[i], input_idx, coin);
        match t {
            Ok(t) => {
                out.push(t);
                i += 1;
                proof {
                    assert(out@ =~= spec_targets(addresses@.subrange(0, i as int), input_idx));
                }
            },
            Err(e) => {
                return Err(e);
            },
        }
    }
    proof {
        assert(addresses@.subrange(0, i as int) =~= addresses@);
    }
    Ok(out)
}

/// Appends targets to a vector.
fn append_targets(targets: &mut Vec<SigTarget>, more: Vec<SigTarget>)
    ensures
        final(targets)@ == old(targets)@ + more@,
{
    let mut i: usize = 0;
    while i < more.len()
        invariant
            i <= more@.len(),
            targets@ == old(targets)@ + more@.subrange(0, i as int),
        decreases more@.len() - i,
    {
        targets.push(more[i]);
        i += 1;
        proof {
            assert(more@.subrange(0, i as int) =~= more@.subrange(0, (i - 1) as int).push(
                more@[i - 1],
            ));
        }
    }
    proof {
        assert(more@.subrange(0, more@.len() as int) =~= more@);
    }
}

/// Handles an input: records its targets, summary and commitment and moves
/// on, to the commitments after the last input. It hands out the bytes to
/// hash: the input's encoding, and after the last input their number.
pub fn handle_input(input_data: TxInputData, ctx: Box<TxInputsProcessingContext>) -> (r: Result<
    (TxProcessingContext, Vec<u8>),
    StatusWord,
>)
    requires
        ctx.wf(),
    ensures
        match r {
            Ok((c, hashed)) => {
                &&& c.wf()
                &&& spec_handle_input(ctx.view(), input_data) == Ok::<TxView, StatusWord>(c.view())
                &&& c.view().tx_bytes == ctx.view().tx_bytes + hashed@
            },
            Err(e) => spec_handle_input(ctx.view(), input_data) == Err::<TxView, StatusWord>(e),
        },
        r matches Ok((c, _)) ==> match input_data.input {
            TxInputWithAdditionalInfo::Utxo(_, _) => c.input_command_view()
                == ctx.input_command_view(),
            _ => c.input_command_view() matches Some(cmd) && records_input_command(
                input_data.input,
                cmd,
            ),
        },
{
    let mut ctx = ctx;
    if is_v1_fill_order_input(&input_data.input) && input_data.addresses.len() > 0 {
        return Err(StatusWord::FillOrderSigRequested);
    }
    let targets = collect_sig_targets(
        &input_data.addresses,
        ctx.num_inputs_parsed,
        ctx.metadata.coin_type,
    )?;
    let ghost old_view = ctx.view();
    append_targets(&mut ctx.sig_targets, targets);
    ctx.summary.process_input(&input_data.input)?;
    let TxInputData { input, addresses: _ } = input_data;
    let (tx_input, commitment) = input.into_input_and_commitment();
    let encoded_commitment = encode_commitment(&commitment);
    let encoded_input = encode_tx_input(&tx_input);
    push_bytes(&mut ctx.input_commitments, encoded_commitment.as_slice());
    let mut hashed = encoded_input;
    ctx.tx_bytes = Ghost(ctx.tx_bytes@ + hashed@);
    proof {
        assert forall|i: int| 0 <= i < ctx.sig_targets@.len() implies (
        #[trigger] ctx.sig_targets@[i]).input_idx <= old_view.parsed by {
            if i >= old_view.sig_targets.len() {
                assert(ctx.sig_targets@[i] == spec_targets(
                    input_data.addresses@,
                    old_view.parsed as u32,
                )[i - old_view.sig_targets.len()]);
            }
        }
    }
    ctx.num_inputs_parsed = ctx.num_inputs_parsed + 1;
    if ctx.num_inputs_parsed < ctx.metadata.num_inputs {
        return Ok((TxProcessingContext::ProcessingInputs(ctx), hashed));
    }
    if ctx.sig_targets.len() == 0 {
        return Err(StatusWord::NothingToSign);
    }
    let le = u32_to_le_bytes(ctx.metadata.num_inputs);
    push_bytes(&mut hashed, &le);
    ctx.tx_bytes = Ghost(ctx.tx_bytes@ + le@);
    assert(ctx.tx_bytes@ =~= old_view.tx_bytes + hashed@);
    let TxInputsProcessingContext {
        metadata,
        tx_bytes,
        input_commitments,
        summary,
        sig_targets,
        num_inputs_parsed: _,
    } = *ctx;
    let next = TxInputCommitmentsProcessingContext {
        metadata,
        tx_bytes,
        input_commitments: Ghost(Seq::empty()),
        matched: 0,
        mismatch: false,
        expected_input_commitments: input_commitments,
        summary,
        sig_targets,
        num_inputs_parsed: 0,
    };
    Ok((TxProcessingContext::ProcessingInputCommitments(Box::new(next)), hashed))
}

/// The review screens the caller shows before answering a request.
pub enum TxReview {
    /// None.
    Nothing,
    /// Open the review, then show the input command of the outputs context's
    /// summary, if it has one.
    Start,
    /// Ask the user to approve the transaction with the fees of this summary.
    Approve(TxSummaryCollector),
    /// Open the review, show the summary's input command if it has one, and
    /// ask the user to approve the transaction with the summary's fees.
    StartAndApprove(TxSummaryCollector),
}

impl TxReview {
    /// The review is opened.
    pub open spec fn starts(&self) -> bool {
        self is Start || self is StartAndApprove
    }

    /// The summary of the approval screen, if there is one.
    pub open spec fn approval(&self) -> Option<SummaryView> {
        match self {
            TxReview::Approve(s) => Some(s@),
            TxReview::StartAndApprove(s) => Some(s@),
            _ => None,
        }
    }

    /// The summary handed out, if any, keeps its totals in order.
    pub open spec fn wf(&self) -> bool {
        match self {
            TxReview::Approve(s) => s.wf(),
            TxReview::StartAndApprove(s) => s.wf(),
            _ => true,
        }
    }
}

/// The context after an input commitment of the second pass, whose encoding
/// goes into the hashed bytes and the commitments of this pass. After the
/// last one the commitments must equal those of the first pass, else
/// `DifferentInputCommitmentHash`; the number of outputs follows, and the
/// outputs come next, or, without outputs, signing.
pub open spec fn spec_handle_input_commitment(v: TxView, c: SighashInputCommitment) -> Result<
    TxView,
    StatusWord,
> {
    let encoded_commitment = spec_encode_commitment(c);
    let commitments = v.commitments + encoded_commitment;
    let tx_bytes = v.tx_bytes + encoded_commitment;
    let parsed = v.parsed + 1;
    if parsed < v.metadata.num_inputs {
        Ok(TxView { parsed: parsed as nat, tx_bytes, commitments, ..v })
    } else if commitments != v.expected_commitments {
        Err(StatusWord::DifferentInputCommitmentHash)
    } else if v.metadata.num_outputs > 0 {
        Ok(
            TxView {
                phase: TxPhase::ProcessingOutputs,
                parsed: 0,
                tx_bytes: tx_bytes + spec_compact_u32(v.metadata.num_outputs),
                commitments: Seq::empty(),
                expected_commitments: Seq::empty(),
                ..v
            },
        )
    } else {
        Ok(
            TxView {
                phase: TxPhase::Signing,
                parsed: 0,
                tx_bytes: tx_bytes + spec_compact_u32(v.metadata.num_outputs),
                commitments: Seq::empty(),
                expected_commitments: Seq::empty(),
                summary: empty_summary(),
                ..v
            },
        )
    }
}

/// The review after an input commitment: none before the last; then the
/// review opens, and without outputs the approval follows.
pub open spec fn spec_review_after_commitment(v: TxView, review: TxReview) -> bool {
    if v.parsed + 1 < v.metadata.num_inputs {
        review is Nothing
    } else if v.metadata.num_outputs > 0 {
        review is Start
    } else {
        review is StartAndApprove && review.approval() == Some(v.summary)
    }
}

/// Appending `e` to `p` keeps it a beginning of `s` exactly when `p` is one
/// and `e` stands in `s` right after it.
proof fn lemma_extend_prefix(s: Seq<u8>, p: Seq<u8>, e: Seq<u8>)
    ensures
        spec_starts_with(s, p + e) <==> spec_starts_with(s, p) && p.len() + e.len() <= s.len()
            && s.subrange(p.len() as int, (p.len() + e.len()) as int) == e,
{
    if spec_starts_with(s, p + e) {
        assert forall|i: int| 0 <= i < p.len() implies #[trigger] s[i] == p[i] by {
            assert((p + e)[i] == p[i]);
        }
        assert(s.subrange(p.len() as int, (p.len() + e.len()) as int) =~= e) by {
            assert forall|i: int| 0 <= i < e.len() implies s.subrange(
                p.len() as int,
                (p.len() + e.len()) as int,
            )[i] == e[i] by {
                assert((p + e)[p.len() + i] == e[i]);
            }
        }
    }
    if spec_starts_with(s, p) && p.len() + e.len() <= s.len() && s.subrange(
        p.len() as int,
        (p.len() + e.len()) as int,
    ) == e {
        assert forall|i: int| 0 <= i < (p + e).len() implies #[trigger] s[i] == (p + e)[i] by {
            if i >= p.len() {
                assert(s.subrange(p.len() as int, (p.len() + e.len()) as int)[i - p.len()] == s[i]);
            }
        }
    }
}

/// Whether `b` stands in `a` at `pos`.
fn stands_at(a: &[u8], pos: usize, b: &[u8]) -> (r: bool)
    requires
        pos <= a@.len(),
    ensures
        r <==> pos + b@.len() <= a@.len() && a@.subrange(pos as int, pos + b@.len()) == b@,
{
    if b.len() > a.len() - pos {
        return false;
    }
    let mut i: usize = 0;
    while i < b.len()
        invariant
            pos + b@.len() <= a@.len(),
            a@.len() == a.len(),
            i <= b@.len(),
            forall|j: int| 0 <= j < i ==> a@[pos + j] == b@[j],
        decreases b@.len() - i,
    {
        if a[pos + i] != b[i] {
            assert(a@.subrange(pos as int, pos + b@.len())[i as int] != b@[i as int]);
            return false;
        }
        i += 1;
    }
    assert(a@.subrange(pos as int, pos + b@.len()) =~= b@);
    true
}

/// Handles an input commitment of the second pass and compares it with the
/// first pass's. It hands out the bytes to hash: the commitment's encoding,
/// and after the last commitment the number of outputs.
pub fn handle_input_commitment(
    ctx: Box<TxInputCommitmentsProcessingContext>,
    commitment: &SighashInputCommitment,
) -> (r: Result<(TxReview, TxProcessingContext, Vec<u8>), StatusWord>)
    requires
        ctx.wf(),
    ensures
        match r {
            Ok((review, c, hashed)) => {
                &&& c.wf()
                &&& c.view().tx_bytes == ctx.view().tx_bytes + hashed@
                &&& review.wf()
                &&& spec_handle_input_commitment(ctx.view(), *commitment) == Ok::<
                    TxView,
                    StatusWord,
                >(c.view())
                &&& spec_review_after_commitment(ctx.view(), review)
                &&& c.view().phase != TxPhase::Signing ==> c.input_command_view()
                    == ctx.input_command_view()
                &&& review matches TxReview::StartAndApprove(s) ==> s.input_command_view()
                    == ctx.input_command_view()
            },
            Err(e) => spec_handle_input_commitment(ctx.view(), *commitment) == Err::<
                TxView,
                StatusWord,
            >(e),
        },
{
    let mut ctx = ctx;
    let ghost old_view = ctx.view();
    let mut hashed = encode_commitment(commitment);
    proof {
        lemma_extend_prefix(old_view.expected_commitments, old_view.commitments, hashed@);
    }
    if !ctx.mismatch {
        let found = stands_at(
            ctx.expected_input_commitments.as_slice(),
            ctx.matched,
            hashed.as_slice(),
        );
        if found {
            let expected_len = ctx.expected_input_commitments.len();
            assert(ctx.matched + hashed@.len() <= expected_len);
            ctx.matched = ctx.matched + hashed.len();
        } else {
            ctx.mismatch = true;
        }
    }
    ctx.input_commitments = Ghost(ctx.input_commitments@ + hashed@);
    ctx.tx_bytes = Ghost(ctx.tx_bytes@ + hashed@);
    ctx.num_inputs_parsed = ctx.num_inputs_parsed + 1;
    if ctx.num_inputs_parsed < ctx.metadata.num_inputs {
        return Ok((TxReview::Nothing, TxProcessingContext::ProcessingInputCommitments(ctx), hashed));
    }
    if ctx.mismatch || ctx.matched != ctx.expected_input_commitments.len() {
        proof {
            if ctx.input_commitments@ == ctx.expected_input_commitments@ {
                assert(spec_starts_with(ctx.expected_input_commitments@, ctx.input_commitments@));
            }
        }
        return Err(StatusWord::DifferentInputCommitmentHash);
    }
    proof {
        assert(ctx.input_commitments@ =~= ctx.expected_input_commitments@);
    }
    let compact = encode_as_compact(ctx.metadata.num_outputs);
    push_bytes(&mut hashed, compact.as_slice());
    ctx.tx_bytes = Ghost(ctx.tx_bytes@ + compact@);
    assert(ctx.tx_bytes@ =~= old_view.tx_bytes + hashed@);
    let TxInputCommitmentsProcessingContext {
        metadata,
        tx_bytes,
        input_commitments: _,
        matched: _,
        mismatch: _,
        expected_input_commitments: _,
        summary,
        sig_targets,
        num_inputs_parsed: _,
    } = *ctx;
    if metadata.num_outputs > 0 {
        let next = TxOutputsProcessingContext {
            metadata,
            tx_bytes,
            summary,
            sig_targets,
            num_outputs_parsed: 0,
        };
        Ok((TxReview::Start, TxProcessingContext::ProcessingOutputs(Box::new(next)), hashed))
    } else {
        let next = TxSigningContext { metadata, tx_bytes, sig_targets, num_sigs_produced: 0 };
        Ok(
            (
                TxReview::StartAndApprove(summary),
                TxProcessingContext::Signing(Box::new(next)),
                hashed,
            ),
        )
    }
}

/// The context after an output, whose encoding goes into the hashed bytes,
/// or the error of the summary refusing it; after the last output comes
/// signing.
pub open spec fn spec_handle_output(v: TxView, out: TxOutput) -> Result<TxView, StatusWord> {
    let encoded_output = spec_encode_tx_output(out);
    let (summary, res) = spec_process_output(v.summary, out);
    match res {
        Err(e) => Err(e),
        Ok(_) => {
            let tx_bytes = v.tx_bytes + encoded_output;
            if v.parsed + 1 < v.metadata.num_outputs {
                Ok(TxView { parsed: v.parsed + 1, tx_bytes, summary, ..v })
            } else {
                Ok(
                    TxView {
                        phase: TxPhase::Signing,
                        parsed: 0,
                        tx_bytes,
                        summary: empty_summary(),
                        ..v
                    },
                )
            }
        },
    }
}

/// The review after an output (which the caller showed before): none but
/// after the last, where the approval shows the summary with that output.
pub open spec fn spec_review_after_output(v: TxView, out: TxOutput, review: TxReview) -> bool {
    if v.parsed + 1 < v.metadata.num_outputs {
        review is Nothing
    } else {
        review is Approve && review.approval() == Some(spec_process_output(v.summary, out).0)
    }
}

/// Handles an output that the user was shown. It hands out the output's
/// encoding to hash.
pub fn handle_output(output: &TxOutput, ctx: Box<TxOutputsProcessingContext>) -> (r: Result<
    (TxReview, TxProcessingContext, Vec<u8>),
    StatusWord,
>)
    requires
        ctx.wf(),
    ensures
        match r {
            Ok((review, c, hashed)) => {
                &&& c.wf()
                &&& c.view().tx_bytes == ctx.view().tx_bytes + hashed@
                &&& review.wf()
                &&& spec_handle_output(ctx.view(), *output) == Ok::<
                    TxView,
                    StatusWord,
                >(c.view())
                &&& spec_review_after_output(ctx.view(), *output, review)
                &&& c.view().phase != TxPhase::Signing ==> c.input_command_view()
                    == ctx.input_command_view()
                &&& review matches TxReview::Approve(s) ==> s.input_command_view()
                    == ctx.input_command_view()
            },
            Err(e) => spec_handle_output(ctx.view(), *output) == Err::<
                TxView,
                StatusWord,
            >(e),
        },
{
    let mut ctx = ctx;
    ctx.summary.process_output(output)?;
    let hashed = encode_tx_output(output);
    ctx.tx_bytes = Ghost(ctx.tx_bytes@ + hashed@);
    if ctx.num_outputs_parsed < ctx.metadata.num_outputs - 1 {
        ctx.num_outputs_parsed = ctx.num_outputs_parsed + 1;
        return Ok((TxReview::Nothing, TxProcessingContext::ProcessingOutputs(ctx), hashed));
    }
    let TxOutputsProcessingContext { metadata, tx_bytes, summary, sig_targets, num_outputs_parsed: _ } =
        *ctx;
    let next = TxSigningContext { metadata, tx_bytes, sig_targets, num_sigs_produced: 0 };
    Ok((TxReview::Approve(summary), TxProcessingContext::Signing(Box::new(next)), hashed))
}

/// A signature to make: the full path of the key, which input it signs (and
/// for which multisig key), and whether more signatures follow.
#[derive(Clone, Copy, Debug)]
pub struct PendingSignature {
    pub path: [u32; 5],
    pub input_idx: u32,
    pub multisig_idx: Option<u32>,
    pub has_next: bool,
}

impl PendingSignature {
    /// The answer that carries the signature made for this target.
    pub fn into_response(self, signature: Signature) -> (r: TxInputSignatureResponse)
        ensures
            r.signature == signature,
            r.input_idx == self.input_idx,
            r.multisig_idx == self.multisig_idx,
            r.has_next == self.has_next,
    {
        TxInputSignatureResponse {
            signature,
            input_idx: self.input_idx,
            multisig_idx: self.multisig_idx,
            has_next: self.has_next,
        }
    }
}

/// The signature to make next is for the target the counter points at; more
/// follow unless it is the last target.
pub open spec fn spec_pending_for(v: TxView, p: PendingSignature) -> bool {
    let t = v.sig_targets[v.parsed as int];
    &&& p.path@ == spec_full_path(t.path, v.metadata.coin_type)
    &&& p.input_idx == t.input_idx
    &&& p.multisig_idx == t.multisig_idx
    &&& p.has_next == (v.parsed + 1 < v.sig_targets.len())
}

/// The context after handing out the next signature: the next target, or
/// finished after the last; `WrongContext` when no target is left.
pub open spec fn spec_next_signature(v: TxView) -> Result<TxView, StatusWord> {
    if v.parsed >= v.sig_targets.len() {
        Err(StatusWord::WrongContext)
    } else if v.parsed + 1 < v.sig_targets.len() {
        Ok(TxView { parsed: v.parsed + 1, ..v })
    } else {
        Ok(finished_view())
    }
}

impl TxSigningContext {
    /// The next signature to make, and the context after it.
    pub fn compute_signature_and_append(self: Box<Self>) -> (r: Result<
        (PendingSignature, TxProcessingContext),
        StatusWord,
    >)
        requires
            self.wf(),
        ensures
            match r {
                Ok((p, c)) => {
                    &&& c.wf()
                    &&& spec_next_signature(self.view()) == Ok::<TxView, StatusWord>(c.view())
                    &&& spec_pending_for(self.view(), p)
                },
                Err(e) => spec_next_signature(self.view()) == Err::<TxView, StatusWord>(e),
            },
    {
        let mut ctx = self;
        if ctx.num_sigs_produced >= ctx.sig_targets.len() {
            return Err(StatusWord::WrongContext);
        }
        let target = ctx.sig_targets[ctx.num_sigs_produced];
        let path = target.path.to_full_path(ctx.metadata.coin_type);
        let has_next = ctx.num_sigs_produced + 1 < ctx.sig_targets.len();
        let pending = PendingSignature {
            path,
            input_idx: target.input_idx,
            multisig_idx: target.multisig_idx,
            has_next,
        };
        if has_next {
            ctx.num_sigs_produced = ctx.num_sigs_produced + 1;
            Ok((pending, TxProcessingContext::Signing(ctx)))
        } else {
            Ok((pending, TxProcessingContext::Finished))
        }
    }
}

/// What the caller does before answering a request: hash the bytes handed
/// out, show the review screens and answer `TxNext`; or make a signature and
/// answer with it.
pub enum TxStep {
    Next(TxReview, Vec<u8>),
    Sign(PendingSignature),
}

/// The context after a request, or why it is refused. A request of another
/// phase is `WrongContext`; a signature after the last one is
/// `TxAlreadyFinished`.
pub open spec fn spec_sign_tx_next(req: SignTxNextReq, v: TxView) -> Result<TxView, StatusWord> {
    match req {
        SignTxNextReq::ProcessInput(d) => if v.phase == TxPhase::ProcessingInputs {
            spec_handle_input(v, *d)
        } else {
            Err(StatusWord::WrongContext)
        },
        SignTxNextReq::ProcessInputCommitment(d) => if v.phase
            == TxPhase::ProcessingInputCommitments {
            spec_handle_input_commitment(v, d.commitment)
        } else {
            Err(StatusWord::WrongContext)
        },
        SignTxNextReq::ProcessOutput(o) => if v.phase == TxPhase::ProcessingOutputs {
            spec_handle_output(v, o.output)
        } else {
            Err(StatusWord::WrongContext)
        },
        SignTxNextReq::ReturnNextSignature => if v.phase == TxPhase::Signing {
            spec_next_signature(v)
        } else if v.phase == TxPhase::Finished {
            Err(StatusWord::TxAlreadyFinished)
        } else {
            Err(StatusWord::WrongContext)
        },
    }
}

/// The step a request leads to: a signature for the next target when one is
/// asked for, else the review screens of its phase.
pub open spec fn spec_step_for(req: SignTxNextReq, v: TxView, step: TxStep) -> bool {
    match req {
        SignTxNextReq::ReturnNextSignature => step matches TxStep::Sign(p) && spec_pending_for(
            v,
            p,
        ),
        SignTxNextReq::ProcessInput(_) => step matches TxStep::Next(rv, _) && rv is Nothing,
        SignTxNextReq::ProcessInputCommitment(_) => step matches TxStep::Next(rv, _)
            && spec_review_after_commitment(v, rv),
        SignTxNextReq::ProcessOutput(o) => step matches TxStep::Next(rv, _)
            && spec_review_after_output(v, o.output, rv),
    }
}

/// Handles a request that continues signing a transaction.
pub fn handle_sign_tx(req: SignTxNextReq, ctx: TxProcessingContext) -> (r: Result<
    (TxStep, TxProcessingContext),
    StatusWord,
>)
    requires
        ctx.wf(),
    ensures
        match r {
            Ok((step, c)) => {
                &&& c.wf()
                &&& spec_sign_tx_next(req, ctx.view()) == Ok::<TxView, StatusWord>(c.view())
                &&& spec_step_for(req, ctx.view(), step)
                &&& step matches TxStep::Next(rv, hashed) ==> rv.wf() && c.view().tx_bytes
                    == ctx.view().tx_bytes + hashed@
            },
            Err(e) => spec_sign_tx_next(req, ctx.view()) == Err::<TxView, StatusWord>(e),
        },
{
    match (req, ctx) {
        (SignTxNextReq::ProcessInput(data), TxProcessingContext::ProcessingInputs(c)) => {
            let (next, hashed) = handle_input(*data, c)?;
            Ok((TxStep::Next(TxReview::Nothing, hashed), next))
        },
        (
            SignTxNextReq::ProcessInputCommitment(data),
            TxProcessingContext::ProcessingInputCommitments(c),
        ) => {
            let (review, next, hashed) = handle_input_commitment(c, &data.commitment)?;
            Ok((TxStep::Next(review, hashed), next))
        },
        (SignTxNextReq::ProcessOutput(data), TxProcessingContext::ProcessingOutputs(c)) => {
            let (review, next, hashed) = handle_output(&data.output, c)?;
            Ok((TxStep::Next(review, hashed), next))
        },
        (SignTxNextReq::ReturnNextSignature, TxProcessingContext::Signing(c)) => {
            let (pending, next) = c.compute_signature_and_append()?;
            Ok((TxStep::Sign(pending), next))
        },
        (SignTxNextReq::ReturnNextSignature, TxProcessingContext::Finished) => {
            Err(StatusWord::TxAlreadyFinished)
        },
        _ => Err(StatusWord::WrongContext),
    }
}

/// The user's answer to the review screens of a request: the context goes
/// on only if the user accepted them; a refusal is `Deny` and drops the
/// context, so a refused transaction is never signed.
pub fn after_review(ctx: TxProcessingContext, approved: bool) -> (r: Result<
    TxProcessingContext,
    StatusWord,
>)
    ensures
        r is Ok <==> approved,
        r matches Ok(c) ==> c == ctx,
        r is Err ==> r == Err::<TxProcessingContext, StatusWord>(StatusWord::Deny),
{
    if approved {
        Ok(ctx)
    } else {
        Err(StatusWord::Deny)
    }
}

/// The context after asking for `n` signatures in a row.
pub open spec fn spec_after_signatures(v: TxView, n: nat) -> Result<TxView, StatusWord>
    decreases n,
{
    if n == 0 {
        Ok(v)
    } else {
        match spec_after_signatures(v, (n - 1) as nat) {
            Ok(w) => spec_sign_tx_next(SignTxNextReq::ReturnNextSignature, w),
            Err(e) => Err(e),
        }
    }
}

/// Once the user approved a transaction, asking for signatures yields one
/// for each target in turn: before the last the context waits for the next,
/// after the last it is finished, and one more request is answered
/// `TxAlreadyFinished`.
pub proof fn lemma_signing_yields_each_target(v: TxView, n: nat)
    requires
        v.phase == TxPhase::Signing,
        v.parsed == 0,
        spec_inv(v),
        n <= v.sig_targets.len(),
    ensures
        n < v.sig_targets.len() ==> spec_after_signatures(v, n) == Ok::<TxView, StatusWord>(
            TxView { parsed: n, ..v },
        ),
        n == v.sig_targets.len() ==> spec_after_signatures(v, n) == Ok::<TxView, StatusWord>(
            finished_view(),
        ),
        n == v.sig_targets.len() ==> spec_after_signatures(v, n + 1) == Err::<TxView, StatusWord>(
            StatusWord::TxAlreadyFinished,
        ),
    decreases n,
{
    if n > 0 {
        lemma_signing_yields_each_target(v, (n - 1) as nat);
    }
    if n == v.sig_targets.len() {
        assert(spec_after_signatures(v, n + 1) == Err::<TxView, StatusWord>(
            StatusWord::TxAlreadyFinished,
        ));
    }
}

/// The context after feeding inputs one after another.
pub open spec fn spec_feed_inputs(v: TxView, inputs: Seq<TxInputData>) -> Result<
    TxView,
    StatusWord,
>
    decreases inputs.len(),
{
    if inputs.len() == 0 {
        Ok(v)
    } else {
        match spec_feed_inputs(v, inputs.drop_last()) {
            Ok(w) => spec_handle_input(w, inputs.last()),
            Err(e) => Err(e),
        }
    }
}

/// The encodings of the transaction inputs of input requests, one after another.
pub open spec fn spec_inputs_bytes(inputs: Seq<TxInputData>) -> Seq<u8>
    decreases inputs.len(),
{
    if inputs.len() == 0 {
        Seq::empty()
    } else {
        spec_inputs_bytes(inputs.drop_last()) + spec_input_bytes(inputs.last().input)
    }
}

/// The encodings of the commitments of input requests, one after another.
pub open spec fn spec_first_pass_commitments(inputs: Seq<TxInputData>) -> Seq<u8>
    decreases inputs.len(),
{
    if inputs.len() == 0 {
        Seq::empty()
    } else {
        spec_first_pass_commitments(inputs.drop_last()) + spec_commitment_bytes(
            inputs.last().input,
        )
    }
}

/// The targets of inputs, in order: each input's address paths, for the
/// input's position.
pub open spec fn spec_all_targets(inputs: Seq<TxInputData>) -> Seq<SigTarget>
    decreases inputs.len(),
{
    if inputs.len() == 0 {
        Seq::empty()
    } else {
        spec_all_targets(inputs.drop_last()) + spec_targets(
            inputs.last().addresses@,
            (inputs.len() - 1) as u32,
        )
    }
}

/// Inputs accepted from the start of signing leave, in order, a signature
/// target for each of their address paths, and the hashed bytes are the
/// header followed by the inputs' encodings; once the last input is in, the
/// number of inputs follows and the first pass's commitments are what the
/// second pass must repeat.
pub proof fn lemma_inputs_make_targets(req: SignTxStartReq, inputs: Seq<TxInputData>, w: TxView)
    requires
        req.num_inputs > 0,
        inputs.len() <= req.num_inputs,
        spec_feed_inputs(spec_new_view(req), inputs) == Ok::<TxView, StatusWord>(w),
    ensures
        w.sig_targets == spec_all_targets(inputs),
        w.metadata == spec_new_view(req).metadata,
        inputs.len() < req.num_inputs ==> {
            &&& w.phase == TxPhase::ProcessingInputs
            &&& w.parsed == inputs.len()
            &&& w.tx_bytes == spec_tx_header(req.num_inputs) + spec_inputs_bytes(inputs)
            &&& w.commitments == spec_first_pass_commitments(inputs)
        },
        inputs.len() == req.num_inputs ==> {
            &&& w.phase == TxPhase::ProcessingInputCommitments
            &&& w.parsed == 0
            &&& w.tx_bytes == spec_tx_header(req.num_inputs) + spec_inputs_bytes(inputs)
                + spec_le_bytes(req.num_inputs as nat, 4)
            &&& w.expected_commitments == spec_first_pass_commitments(inputs)
            &&& w.commitments == Seq::<u8>::empty()
        },
    decreases inputs.len(),
{
    let v = spec_new_view(req);
    if inputs.len() == 0 {
        assert(spec_tx_header(req.num_inputs) + spec_inputs_bytes(inputs) =~= spec_tx_header(
            req.num_inputs,
        ));
    } else {
        let n = inputs.len();
        let w0 = spec_feed_inputs(v, inputs.drop_last())->Ok_0;
        lemma_inputs_make_targets(req, inputs.drop_last(), w0);
        assert(spec_tx_header(req.num_inputs) + spec_inputs_bytes(inputs) =~= spec_tx_header(
            req.num_inputs,
        ) + spec_inputs_bytes(inputs.drop_last()) + spec_input_bytes(inputs.last().input));
        assert(w0.parsed == n - 1);
        assert((w0.parsed as u32) == (n - 1) as u32);
    }
}

/// Signing begins only together with the approval screen: a request that
/// leads from another phase into signing hands out the summary to approve.
pub proof fn lemma_signing_needs_approval(
    req: SignTxNextReq,
    v: TxView,
    step: TxStep,
    w: TxView,
)
    requires
        v.phase != TxPhase::Signing,
        spec_sign_tx_next(req, v) == Ok::<TxView, StatusWord>(w),
        spec_step_for(req, v, step),
        w.phase == TxPhase::Signing,
    ensures
        step matches TxStep::Next(rv, _) && rv.approval() is Some,
{
}

/// The context after feeding commitments of the second pass one after another.
pub open spec fn spec_feed_commitments(v: TxView, commitments: Seq<SighashInputCommitment>) -> Result<
    TxView,
    StatusWord,
>
    decreases commitments.len(),
{
    if commitments.len() == 0 {
        Ok(v)
    } else {
        match spec_feed_commitments(v, commitments.drop_last()) {
            Ok(w) => spec_handle_input_commitment(w, commitments.last()),
            Err(e) => Err(e),
        }
    }
}

/// The encodings of commitments, one after another.
pub open spec fn spec_commitments_bytes(commitments: Seq<SighashInputCommitment>) -> Seq<u8>
    decreases commitments.len(),
{
    if commitments.len() == 0 {
        Seq::empty()
    } else {
        spec_commitments_bytes(commitments.drop_last()) + spec_encode_commitment(
            commitments.last(),
        )
    }
}

/// The second pass over the inputs appends each commitment's encoding to the
/// hashed bytes; once all are in it is accepted exactly when it repeats the
/// first pass, and the number of outputs follows.
pub proof fn lemma_commitments_pass(v: TxView, commitments: Seq<SighashInputCommitment>, w: TxView)
    requires
        v.phase == TxPhase::ProcessingInputCommitments,
        v.metadata.num_inputs > 0,
        v.parsed == 0,
        v.commitments == Seq::<u8>::empty(),
        commitments.len() <= v.metadata.num_inputs,
        spec_feed_commitments(v, commitments) == Ok::<TxView, StatusWord>(w),
    ensures
        w.metadata == v.metadata,
        w.sig_targets == v.sig_targets,
        commitments.len() < v.metadata.num_inputs ==> {
            &&& w.phase == TxPhase::ProcessingInputCommitments
            &&& w.parsed == commitments.len()
            &&& w.tx_bytes == v.tx_bytes + spec_commitments_bytes(commitments)
            &&& w.commitments == spec_commitments_bytes(commitments)
            &&& w.expected_commitments == v.expected_commitments
            &&& w.summary == v.summary
        },
        commitments.len() == v.metadata.num_inputs ==> {
            &&& spec_commitments_bytes(commitments) == v.expected_commitments
            &&& w.parsed == 0
            &&& w.tx_bytes == v.tx_bytes + spec_commitments_bytes(commitments) + spec_compact_u32(
                v.metadata.num_outputs,
            )
            &&& v.metadata.num_outputs > 0 ==> w.phase == TxPhase::ProcessingOutputs && w.summary
                == v.summary
            &&& v.metadata.num_outputs == 0 ==> w.phase == TxPhase::Signing
        },
    decreases commitments.len(),
{
    if commitments.len() == 0 {
        assert(v.tx_bytes + spec_commitments_bytes(commitments) =~= v.tx_bytes);
    } else {
        let w0 = spec_feed_commitments(v, commitments.drop_last())->Ok_0;
        lemma_commitments_pass(v, commitments.drop_last(), w0);
        assert(v.tx_bytes + spec_commitments_bytes(commitments) =~= v.tx_bytes
            + spec_commitments_bytes(commitments.drop_last()) + spec_encode_commitment(
            commitments.last(),
        ));
    }
}

/// The context after feeding outputs one after another.
pub open spec fn spec_feed_outputs(v: TxView, outputs: Seq<TxOutput>) -> Result<
    TxView,
    StatusWord,
>
    decreases outputs.len(),
{
    if outputs.len() == 0 {
        Ok(v)
    } else {
        match spec_feed_outputs(v, outputs.drop_last()) {
            Ok(w) => spec_handle_output(w, outputs.last()),
            Err(e) => Err(e),
        }
    }
}

/// The encodings of outputs, one after another.
pub open spec fn spec_outputs_bytes(outputs: Seq<TxOutput>) -> Seq<u8>
    decreases outputs.len(),
{
    if outputs.len() == 0 {
        Seq::empty()
    } else {
        spec_outputs_bytes(outputs.drop_last()) + spec_encode_tx_output(outputs.last())
    }
}

/// The outputs append their encodings to the hashed bytes; after the last
/// one the context signs exactly those bytes, for the same targets.
pub proof fn lemma_outputs_pass(v: TxView, outputs: Seq<TxOutput>, w: TxView)
    requires
        v.phase == TxPhase::ProcessingOutputs,
        v.metadata.num_outputs > 0,
        v.parsed == 0,
        outputs.len() <= v.metadata.num_outputs,
        spec_feed_outputs(v, outputs) == Ok::<TxView, StatusWord>(w),
    ensures
        w.metadata == v.metadata,
        w.sig_targets == v.sig_targets,
        w.tx_bytes == v.tx_bytes + spec_outputs_bytes(outputs),
        outputs.len() < v.metadata.num_outputs ==> w.phase == TxPhase::ProcessingOutputs
            && w.parsed == outputs.len(),
        outputs.len() == v.metadata.num_outputs ==> w.phase == TxPhase::Signing && w.parsed == 0,
    decreases outputs.len(),
{
    if outputs.len() == 0 {
        assert(v.tx_bytes + spec_outputs_bytes(outputs) =~= v.tx_bytes);
    } else {
        let w0 = spec_feed_outputs(v, outputs.drop_last())->Ok_0;
        lemma_outputs_pass(v, outputs.drop_last(), w0);
        assert(v.tx_bytes + spec_outputs_bytes(outputs) =~= v.tx_bytes + spec_outputs_bytes(
            outputs.drop_last(),
        ) + spec_encode_tx_output(outputs.last()));
    }
}

/// The bytes that the signatures sign cover the whole transaction as the
/// host sent it: the header, each input's encoding, the number of inputs,
/// each commitment's encoding, the number of outputs and each output's
/// encoding, in this order; the second pass repeated the first pass's
/// commitments, and a signature is owed for each address path of each input.
pub proof fn lemma_signed_bytes_cover_transaction(
    req: SignTxStartReq,
    inputs: Seq<TxInputData>,
    commitments: Seq<SighashInputCommitment>,
    outputs: Seq<TxOutput>,
    w1: TxView,
    w2: TxView,
    w3: TxView,
)
    requires
        req.num_inputs > 0,
        inputs.len() == req.num_inputs,
        commitments.len() == req.num_inputs,
        outputs.len() == req.num_outputs,
        spec_feed_inputs(spec_new_view(req), inputs) == Ok::<TxView, StatusWord>(w1),
        spec_feed_commitments(w1, commitments) == Ok::<TxView, StatusWord>(w2),
        spec_feed_outputs(w2, outputs) == Ok::<TxView, StatusWord>(w3),
    ensures
        w3.phase == TxPhase::Signing,
        w3.parsed == 0,
        w3.sig_targets == spec_all_targets(inputs),
        spec_commitments_bytes(commitments) == spec_first_pass_commitments(inputs),
        w3.tx_bytes == spec_tx_header(req.num_inputs) + spec_inputs_bytes(inputs) + spec_le_bytes(
            req.num_inputs as nat,
            4,
        ) + spec_commitments_bytes(commitments) + spec_compact_u32(req.num_outputs)
            + spec_outputs_bytes(outputs),
{
    lemma_inputs_make_targets(req, inputs, w1);
    lemma_commitments_pass(w1, commitments, w2);
    if req.num_outputs == 0 {
        assert(outputs =~= Seq::<TxOutput>::empty());
        assert(w2.tx_bytes + spec_outputs_bytes(outputs) =~= w2.tx_bytes);
    } else {
        lemma_outputs_pass(w2, outputs, w3);
    }
}

} // verus!
