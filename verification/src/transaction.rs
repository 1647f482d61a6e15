//! The explained form of a transaction, and how it is made from a decoded
//! one.

use vstd::prelude::*;
use crate::consensus::{
    all_hex_digits, asm_string, asm_text, base_size, base_size_of, btc_string, btc_text,
    byte_len, compute_txid, compute_wtxid, decode, decoded, decoding_view, measurable,
    quarter_ceil, total_size, total_size_of, txid_of, vsize, weight, weight_of, wtxid_of,
    DecodeError,
};
use crate::decimal::{decimal, decimal_string};
use crate::model::{
    serialized_with_witness, Transaction, TransactionView, TxIn, TxInView, TxOut, TxOutView,
};
use crate::script::{classify, script_type};

verus! {

pub const WHAT_IS_TXID: &'static str =
    "Hash of the transaction. Does not include witness data if any";

pub const WHAT_IS_WITNESSTXID: &'static str =
    "Hash of transaction including witness data. Should be equal to txid if legacy transaction. This is the 'hash' field in the 'decoderawtransaction' in bitcoin core";

pub const WHAT_IS_BASE_SIZE: &'static str = "Transaction size in bytes with witness data stripped";

pub const WHAT_IS_SIZE: &'static str = "Transaction size in bytes including witness data";

pub const BLOCK_WEIGHT: &'static str =
    "after segwit upgrade, consensus rule is that block_weight <= 4,000,000";

pub const WHAT_IS_LOCKTIME: &'static str =
    "Condition to prevent transaction from being mined until specified block height or time is reached i.e if locktime is set to 620,000 then that transaction cannot be mined until that height is reached. If locktime is 0, then the transaction can be included in any block";

pub const VSIZE_RULE: &'static str = "Transaction weight / 4 (rounded up) ---> ";

pub const VSIZE_DIVISION: &'static str = " / 4 = ";

pub const WEIGHT_RULE: &'static str = "Base transaction size * 3 + total transaction size ---> ";

pub const WEIGHT_PRODUCT: &'static str = " * 3 + ";

pub const WEIGHT_SUM: &'static str = " = ";

pub const INPUT_TXID: &'static str =
    "id of the transaction being spent. The txid + vout is called the 'outpoint'";

pub const INPUT_VOUT: &'static str =
    "index of the specific output from the previous transaction being referenced";

pub const INPUT_SCRIPT_SIG: &'static str =
    "script satisfying the conditions specified in the script_pubkey field from the previous outpoint referenced. This is filled for inputs spending from legacy transactions (i.e before segwit upgrade). Inputs spending from segwit outputs are empty because data will be in the witness";

pub const INPUT_SEQUENCE: &'static str = "TODO: Can have multiple purposes";

pub const INPUT_WITNESS: &'static str =
    "only for transactions after segwit upgrade. Basically same as script_sig in that it will have the script to make the transaction valid. Difference is that data here it's not used to compute the txid";

pub const OUTPUT_VALUE: &'static str = "amount of sats being sent";

pub const OUTPUT_SCRIPT_PUBKEY: &'static str =
    "script specifying the conditions that must be met to spend this output";

pub const OUTPUT_SCRIPT: &'static str = "script in human readable form";

/// The two identifiers of a transaction, each with what it means.
#[derive(Clone, Debug, PartialEq, Eq)]
pub struct TxId {
    pub txid: [u8; 32],
    pub what_is_txid: String,
    pub witnesstxid: [u8; 32],
    pub what_is_witnesstxid: String,
}

/// What a `TxId` holds.
pub struct TxIdView {
    pub txid: Seq<u8>,
    pub what_is_txid: Seq<char>,
    pub witnesstxid: Seq<u8>,
    pub what_is_witnesstxid: Seq<char>,
}

impl View for TxId {
    type V = TxIdView;

    open spec fn view(&self) -> TxIdView {
        TxIdView {
            txid: self.txid@,
            what_is_txid: self.what_is_txid@,
            witnesstxid: self.witnesstxid@,
            what_is_witnesstxid: self.what_is_witnesstxid@,
        }
    }
}

/// The identifiers `txid` and `witnesstxid` with their fixed explanations.
pub open spec fn explained_ids(txid: Seq<u8>, witnesstxid: Seq<u8>) -> TxIdView {
    TxIdView {
        txid,
        what_is_txid: WHAT_IS_TXID@,
        witnesstxid,
        what_is_witnesstxid: WHAT_IS_WITNESSTXID@,
    }
}

impl TxId {
    /// Pairs the two identifiers with their explanations.
    pub fn new(txid: [u8; 32], witnesstxid: [u8; 32]) -> (ids: TxId)
        ensures
            ids@ == explained_ids(txid@, witnesstxid@),
    {
        TxId {
            txid,
            what_is_txid: String::from_str(WHAT_IS_TXID),
            witnesstxid,
            what_is_witnesstxid: String::from_str(WHAT_IS_WITNESSTXID),
        }
    }
}

/// The text that derives the virtual size from a weight: the rule, then
/// the division written out with its result, a quarter of the weight
/// rounded up.
pub open spec fn vsize_explanation_text(weight: nat) -> Seq<char> {
    VSIZE_RULE@ + decimal(weight) + VSIZE_DIVISION@ + decimal(quarter_ceil(weight))
}

/// The text that derives the weight from the two sizes: the rule, then the
/// sum written out with its result.
pub open spec fn weight_explanation_text(base_size: nat, total_size: nat) -> Seq<char> {
    WEIGHT_RULE@ + decimal(base_size) + WEIGHT_PRODUCT@ + decimal(total_size) + WEIGHT_SUM@
        + decimal(base_size * 3 + total_size)
}

/// Writes out how the virtual size follows from `weight`.
pub fn vsize_explanation(weight: u64) -> (s: String)
    ensures
        s@ == vsize_explanation_text(weight as nat),
{
    let quarter: u64 = weight / 4 + if weight % 4 == 0 {
        0
    } else {
        1
    };
    assert(quarter == quarter_ceil(weight as nat));
    let mut s = String::from_str(VSIZE_RULE);
    s.append(decimal_string(weight as u128).as_str());
    s.append(VSIZE_DIVISION);
    s.append(decimal_string(quarter as u128).as_str());
    s
}

/// Writes out how the weight follows from the two sizes. The sum is exact
/// whatever the sizes are.
pub fn weight_explanation(base_size: usize, total_size: usize) -> (s: String)
    ensures
        s@ == weight_explanation_text(base_size as nat, total_size as nat),
{
    let sum: u128 = base_size as u128 * 3 + total_size as u128;
    let mut s = String::from_str(WEIGHT_RULE);
    s.append(decimal_string(base_size as u128).as_str());
    s.append(WEIGHT_PRODUCT);
    s.append(decimal_string(total_size as u128).as_str());
    s.append(WEIGHT_SUM);
    s.append(decimal_string(sum).as_str());
    s
}

/// The sizes of a transaction, each with what it means.
#[derive(Clone, Debug, PartialEq, Eq)]
pub struct Size {
    pub base_size: usize,
    pub what_is_base_size: String,
    pub size: usize,
    pub what_is_size: String,
    pub vsize: usize,
    pub what_is_vsize: String,
    pub weight: u64,
    pub what_is_weight: String,
    pub block_weight: String,
}

/// What a `Size` holds.
pub struct SizeView {
    pub base_size: nat,
    pub what_is_base_size: Seq<char>,
    pub size: nat,
    pub what_is_size: Seq<char>,
    pub vsize: nat,
    pub what_is_vsize: Seq<char>,
    pub weight: nat,
    pub what_is_weight: Seq<char>,
    pub block_weight: Seq<char>,
}

impl View for Size {
    type V = SizeView;

    open spec fn view(&self) -> SizeView {
        SizeView {
            base_size: self.base_size as nat,
            what_is_base_size: self.what_is_base_size@,
            size: self.size as nat,
            what_is_size: self.what_is_size@,
            vsize: self.vsize as nat,
            what_is_vsize: self.what_is_vsize@,
            weight: self.weight as nat,
            what_is_weight: self.what_is_weight@,
            block_weight: self.block_weight@,
        }
    }
}

/// The four measures with their explanations: fixed texts for the two
/// sizes, and for virtual size and weight the rule worked out on these
/// numbers.
pub open spec fn explained_sizes(base_size: nat, total_size: nat, vsize: nat, weight: nat) -> SizeView {
    SizeView {
        base_size,
        what_is_base_size: WHAT_IS_BASE_SIZE@,
        size: total_size,
        what_is_size: WHAT_IS_SIZE@,
        vsize,
        what_is_vsize: vsize_explanation_text(weight),
        weight,
        what_is_weight: weight_explanation_text(base_size, total_size),
        block_weight: BLOCK_WEIGHT@,
    }
}

impl Size {
    /// Pairs the four measures with their explanations.
    pub fn new(base_size: usize, total_size: usize, vsize: usize, weight: u64) -> (size: Size)
        ensures
            size@ == explained_sizes(
                base_size as nat,
                total_size as nat,
                vsize as nat,
                weight as nat,
            ),
    {
        Size {
            base_size,
            what_is_base_size: String::from_str(WHAT_IS_BASE_SIZE),
            size: total_size,
            what_is_size: String::from_str(WHAT_IS_SIZE),
            vsize,
            what_is_vsize: vsize_explanation(weight),
            weight,
            what_is_weight: weight_explanation(base_size, total_size),
            block_weight: String::from_str(BLOCK_WEIGHT),
        }
    }
}

/// One input as it is shown: what the decoded input holds, unchanged.
#[derive(Clone, Debug, PartialEq, Eq)]
pub struct TxInResponse {
    pub txid: [u8; 32],
    pub vout: u32,
    pub script_sig: Vec<u8>,
    pub sequence: u32,
    pub witness: Vec<Vec<u8>>,
}

impl View for TxInResponse {
    type V = TxInView;

    open spec fn view(&self) -> TxInView {
        TxInView {
            txid: self.txid@,
            vout: self.vout,
            script_sig: self.script_sig@,
            sequence: self.sequence,
            witness: self.witness@.map_values(|item: Vec<u8>| item@),
        }
    }
}

impl TxInResponse {
    /// Takes over every field of a decoded input.
    pub fn from(tx_in: TxIn) -> (shown: TxInResponse)
        ensures
            shown@ == tx_in@,
    {
        TxInResponse {
            txid: tx_in.txid,
            vout: tx_in.vout,
            script_sig: tx_in.script_sig,
            sequence: tx_in.sequence,
            witness: tx_in.witness,
        }
    }
}

/// What each field of an input means.
#[derive(Clone, Debug, PartialEq, Eq)]
pub struct TxInExplainer {
    pub txid: String,
    pub vout: String,
    pub script_sig: String,
    pub sequence: String,
    pub witness: String,
}

/// What a `TxInExplainer` holds.
pub struct TxInExplainerView {
    pub txid: Seq<char>,
    pub vout: Seq<char>,
    pub script_sig: Seq<char>,
    pub sequence: Seq<char>,
    pub witness: Seq<char>,
}

impl View for TxInExplainer {
    type V = TxInExplainerView;

    open spec fn view(&self) -> TxInExplainerView {
        TxInExplainerView {
            txid: self.txid@,
            vout: self.vout@,
            script_sig: self.script_sig@,
            sequence: self.sequence@,
            witness: self.witness@,
        }
    }
}

/// The fixed explanations of the fields of an input.
pub open spec fn input_explanations() -> TxInExplainerView {
    TxInExplainerView {
        txid: INPUT_TXID@,
        vout: INPUT_VOUT@,
        script_sig: INPUT_SCRIPT_SIG@,
        sequence: INPUT_SEQUENCE@,
        witness: INPUT_WITNESS@,
    }
}

impl TxInExplainer {
    /// The fixed explanations of the fields of an input.
    pub fn new() -> (e: TxInExplainer)
        ensures
            e@ == input_explanations(),
    {
        TxInExplainer {
            txid: String::from_str(INPUT_TXID),
            vout: String::from_str(INPUT_VOUT),
            script_sig: String::from_str(INPUT_SCRIPT_SIG),
            sequence: String::from_str(INPUT_SEQUENCE),
            witness: String::from_str(INPUT_WITNESS),
        }
    }
}

/// The inputs of a transaction, with one explanation for them all.
#[derive(Clone, Debug, PartialEq, Eq)]
pub struct TxInput {
    pub explainer: TxInExplainer,
    pub inputs: Vec<TxInResponse>,
}

/// What a `TxInput` holds.
pub struct TxInputView {
    pub explainer: TxInExplainerView,
    pub inputs: Seq<TxInView>,
}

impl View for TxInput {
    type V = TxInputView;

    open spec fn view(&self) -> TxInputView {
        TxInputView {
            explainer: self.explainer@,
            inputs: self.inputs@.map_values(|i: TxInResponse| i@),
        }
    }
}

impl TxInput {
    /// Shows the inputs one for one and in their order, under the fixed
    /// explanations.
    pub fn from_inputs(inputs: Vec<TxIn>) -> (shown: TxInput)
        ensures
            shown@.explainer == input_explanations(),
            shown@.inputs == inputs@.map_values(|i: TxIn| i@),
    {
        let ghost source = inputs@;
        let mut out: Vec<TxInResponse> = Vec::new();
        for tx_in in it: inputs.into_iter()
            invariant
                it.seq() == source,
                out@.len() == it.index(),
                forall|j: int| 0 <= j < out@.len() ==> (#[trigger] out@[j])@ == source[j]@,
        {
            out.push(TxInResponse::from(tx_in));
        }
        let shown = TxInput { explainer: TxInExplainer::new(), inputs: out };
        assert(shown@.inputs =~= source.map_values(|i: TxIn| i@));
        shown
    }
}

/// One output as it is shown.
#[derive(Clone, Debug, PartialEq, Eq)]
pub struct TxOutResponse {
    /// The amount in satoshis.
    pub sats_value: u64,
    /// The amount in bitcoin, as a decimal numeral.
    pub btc_value: String,
    /// The locking script.
    pub script_pubkey: Vec<u8>,
    /// The locking script, disassembled.
    pub script: String,
    /// The name of the kind of the locking script.
    pub script_type: String,
}

/// What a `TxOutResponse` holds.
pub struct TxOutResponseView {
    pub sats_value: u64,
    pub btc_value: Seq<char>,
    pub script_pubkey: Seq<u8>,
    pub script: Seq<char>,
    pub script_type: Seq<char>,
}

impl View for TxOutResponse {
    type V = TxOutResponseView;

    open spec fn view(&self) -> TxOutResponseView {
        TxOutResponseView {
            sats_value: self.sats_value,
            btc_value: self.btc_value@,
            script_pubkey: self.script_pubkey@,
            script: self.script@,
            script_type: self.script_type@,
        }
    }
}

/// An output shown with given renderings of its amount and script: the
/// kind is told from the script's bytes.
pub open spec fn labelled_output(out: TxOutView, btc_value: Seq<char>, script: Seq<char>) -> TxOutResponseView {
    TxOutResponseView {
        sats_value: out.value,
        btc_value,
        script_pubkey: out.script_pubkey,
        script,
        script_type: script_type(out.script_pubkey).label_text(),
    }
}

/// An output as it is shown: amount and script unchanged, the amount in
/// bitcoin, the script disassembled, and the name of the script's kind.
pub open spec fn explained_output(out: TxOutView) -> TxOutResponseView {
    labelled_output(out, btc_text(out.value), asm_text(out.script_pubkey))
}

impl TxOutResponse {
    /// Shows an output with the given renderings of its amount and script,
    /// and names the kind of its script.
    pub fn with_renderings(tx_out: TxOut, btc_value: String, script: String) -> (shown:
        TxOutResponse)
        ensures
            shown@ == labelled_output(tx_out@, btc_value@, script@),
    {
        let kind = classify(tx_out.script_pubkey.as_slice());
        TxOutResponse {
            sats_value: tx_out.value,
            btc_value,
            script_pubkey: tx_out.script_pubkey,
            script,
            script_type: String::from_str(kind.label()),
        }
    }

    /// Shows a decoded output.
    pub fn from(tx_out: TxOut) -> (shown: TxOutResponse)
        ensures
            shown@ == explained_output(tx_out@),
    {
        let btc_value = btc_string(tx_out.value);
        let script = asm_string(tx_out.script_pubkey.as_slice());
        TxOutResponse::with_renderings(tx_out, btc_value, script)
    }
}

/// What each field of an output means.
#[derive(Clone, Debug, PartialEq, Eq)]
pub struct TxOutExplainer {
    pub value: String,
    pub script_pubkey: String,
    pub script: String,
}

/// What a `TxOutExplainer` holds.
pub struct TxOutExplainerView {
    pub value: Seq<char>,
    pub script_pubkey: Seq<char>,
    pub script: Seq<char>,
}

impl View for TxOutExplainer {
    type V = TxOutExplainerView;

    open spec fn view(&self) -> TxOutExplainerView {
        TxOutExplainerView {
            value: self.value@,
            script_pubkey: self.script_pubkey@,
            script: self.script@,
        }
    }
}

/// The fixed explanations of the fields of an output.
pub open spec fn output_explanations() -> TxOutExplainerView {
    TxOutExplainerView {
        value: OUTPUT_VALUE@,
        script_pubkey: OUTPUT_SCRIPT_PUBKEY@,
        script: OUTPUT_SCRIPT@,
    }
}

impl TxOutExplainer {
    /// The fixed explanations of the fields of an output.
    pub fn new() -> (e: TxOutExplainer)
        ensures
            e@ == output_explanations(),
    {
        TxOutExplainer {
            value: String::from_str(OUTPUT_VALUE),
            script_pubkey: String::from_str(OUTPUT_SCRIPT_PUBKEY),
            script: String::from_str(OUTPUT_SCRIPT),
        }
    }
}

/// The outputs of a transaction, with one explanation for them all.
#[derive(Clone, Debug, PartialEq, Eq)]
pub struct TxOutput {
    pub explainer: TxOutExplainer,
    pub output: Vec<TxOutResponse>,
}

/// What a `TxOutput` holds.
pub struct TxOutputView {
    pub explainer: TxOutExplainerView,
    pub output: Seq<TxOutResponseView>,
}

impl View for TxOutput {
    type V = TxOutputView;

    open spec fn view(&self) -> TxOutputView {
        TxOutputView {
            explainer: self.explainer@,
            output: self.output@.map_values(|o: TxOutResponse| o@),
        }
    }
}

impl TxOutput {
    /// Shows the outputs one for one and in their order, under the fixed
    /// explanations.
    pub fn from_outputs(outputs: Vec<TxOut>) -> (shown: TxOutput)
        ensures
            shown@.explainer == output_explanations(),
            shown@.output == outputs@.map_values(|o: TxOut| explained_output(o@)),
    {
        let ghost source = outputs@;
        let mut out: Vec<TxOutResponse> = Vec::new();
        for tx_out in it: outputs.into_iter()
            invariant
                it.seq() == source,
                out@.len() == it.index(),
                forall|j: int|
                    0 <= j < out@.len() ==> (#[trigger] out@[j])@ == explained_output(source[j]@),
        {
            out.push(TxOutResponse::from(tx_out));
        }
        let shown = TxOutput { explainer: TxOutExplainer::new(), output: out };
        assert(shown@.output =~= source.map_values(|o: TxOut| explained_output(o@)));
        shown
    }
}

/// A transaction explained: its identifiers, version, sizes, locktime,
/// inputs and outputs, each with what it means.
#[derive(Clone, Debug, PartialEq, Eq)]
pub struct TransactionResponse {
    pub txid: TxId,
    pub version: i32,
    pub size: Size,
    pub locktime: u32,
    pub what_is_locktime: String,
    pub input: TxInput,
    pub output: TxOutput,
}

/// What a `TransactionResponse` holds.
pub struct TransactionResponseView {
    pub txid: TxIdView,
    pub version: i32,
    pub size: SizeView,
    pub locktime: u32,
    pub what_is_locktime: Seq<char>,
    pub input: TxInputView,
    pub output: TxOutputView,
}

impl View for TransactionResponse {
    type V = TransactionResponseView;

    open spec fn view(&self) -> TransactionResponseView {
        TransactionResponseView {
            txid: self.txid@,
            version: self.version,
            size: self.size@,
            locktime: self.locktime,
            what_is_locktime: self.what_is_locktime@,
            input: self.input@,
            output: self.output@,
        }
    }
}

/// A transaction explained, given its identifiers and measures: version
/// and locktime unchanged, the inputs as they are, every output explained
/// in its place.
pub open spec fn explained_with(
    tx: TransactionView,
    ids: TxIdView,
    size: SizeView,
) -> TransactionResponseView {
    TransactionResponseView {
        txid: ids,
        version: tx.version,
        size,
        locktime: tx.lock_time,
        what_is_locktime: WHAT_IS_LOCKTIME@,
        input: TxInputView { explainer: input_explanations(), inputs: tx.input },
        output: TxOutputView {
            explainer: output_explanations(),
            output: tx.output.map_values(|o: TxOutView| explained_output(o)),
        },
    }
}

/// A transaction explained, with the identifiers and sizes that the
/// consensus library computes of it.
pub open spec fn explained(tx: TransactionView) -> TransactionResponseView {
    explained_with(
        tx,
        explained_ids(txid_of(tx), wtxid_of(tx)),
        explained_sizes(
            base_size_of(tx),
            total_size_of(tx),
            quarter_ceil(weight_of(tx)),
            weight_of(tx),
        ),
    )
}

/// In the explanation of a transaction without witness data the two
/// identifiers are the same and the total size is the base size.
pub open spec fn legacy_agrees(shown: TransactionResponseView) -> bool {
    !serialized_with_witness(shown.input.inputs) ==> {
        &&& shown.txid.witnesstxid == shown.txid.txid
        &&& shown.size.size == shown.size.base_size
    }
}

impl TransactionResponse {
    /// Explains a transaction whose identifiers and sizes are given.
    pub fn with_measures(tx: Transaction, ids: TxId, size: Size) -> (shown: TransactionResponse)
        ensures
            shown@ == explained_with(tx@, ids@, size@),
    {
        let ghost source = tx@;
        let shown = TransactionResponse {
            txid: ids,
            version: tx.version,
            size,
            locktime: tx.lock_time,
            what_is_locktime: String::from_str(WHAT_IS_LOCKTIME),
            input: TxInput::from_inputs(tx.input),
            output: TxOutput::from_outputs(tx.output),
        };
        assert(shown@.output.output =~= source.output.map_values(
            |o: TxOutView| explained_output(o),
        ));
        shown
    }

    /// Explains a transaction whose two sizes were measured already.
    fn measured(tx: Transaction, base: usize, total: usize) -> (shown: TransactionResponse)
        requires
            base == base_size_of(tx@),
            total == total_size_of(tx@),
            tx@.is_legacy() ==> total == base,
            measurable(tx@),
        ensures
            shown@ == explained(tx@),
            legacy_agrees(shown@),
    {
        let units = weight(&tx);
        let virtual_size = vsize(&tx);
        let ids = TxId::new(compute_txid(&tx), compute_wtxid(&tx));
        let size = Size::new(base, total, virtual_size, units);
        TransactionResponse::with_measures(tx, ids, size)
    }

    /// Explains a decoded transaction.
    pub fn from(tx: Transaction) -> (shown: TransactionResponse)
        requires
            measurable(tx@),
        ensures
            shown@ == explained(tx@),
            legacy_agrees(shown@),
    {
        let base = base_size(&tx);
        let total = total_size(&tx);
        TransactionResponse::measured(tx, base, total)
    }

    /// Explains a decoded transaction, unless a witness of it is beyond the
    /// limit or its weight beyond what the machine can count.
    pub fn explain(tx: Transaction) -> (shown: Option<TransactionResponse>)
        ensures
            shown is Some <==> measurable(tx@),
            shown is Some ==> shown->0@ == explained(tx@) && legacy_agrees(shown->0@),
    {
        if !tx.witnesses_fit() {
            return None;
        }
        let base = base_size(&tx);
        let total = total_size(&tx);
        if base as u128 * 3 + total as u128 + 4 <= usize::MAX as u128 {
            Some(TransactionResponse::measured(tx, base, total))
        } else {
            None
        }
    }
}

/// Why a hex string could not be explained.
#[derive(Clone, Copy, Debug, PartialEq, Eq, Structural)]
pub enum TxInfoError {
    /// The string is no transaction.
    Decode(DecodeError),
    /// A witness of the transaction is beyond the limit, or its weight
    /// beyond what the machine can count.
    TooLarge,
}

/// The explanation owed for a decoding result: that of the transaction
/// where one was decoded and is within the limits.
pub open spec fn explained_decoding(
    decoding: Result<TransactionView, DecodeError>,
) -> Result<TransactionResponseView, TxInfoError> {
    match decoding {
        Err(e) => Err(TxInfoError::Decode(e)),
        Ok(tx) => if measurable(tx) {
            Ok(explained(tx))
        } else {
            Err(TxInfoError::TooLarge)
        },
    }
}

/// The view of an attempt to explain.
pub open spec fn attempt_view(
    r: Result<TransactionResponse, TxInfoError>,
) -> Result<TransactionResponseView, TxInfoError> {
    match r {
        Ok(shown) => Ok(shown@),
        Err(e) => Err(e),
    }
}

/// Explains what came of decoding: the transaction, or why there is none.
pub fn explain_decoding(decoding: Result<Transaction, DecodeError>) -> (r: Result<
    TransactionResponse,
    TxInfoError,
>)
    ensures
        attempt_view(r) == explained_decoding(decoding_view(decoding)),
        r matches Ok(shown) ==> legacy_agrees(shown@),
{
    match decoding {
        Err(e) => Err(TxInfoError::Decode(e)),
        Ok(tx) => match TransactionResponse::explain(tx) {
            Some(shown) => Ok(shown),
            None => Err(TxInfoError::TooLarge),
        },
    }
}

/// Decodes a transaction from its hex form and explains it.
pub fn get_tx_info(hex: &str) -> (r: Result<TransactionResponse, TxInfoError>)
    ensures
        attempt_view(r) == explained_decoding(decoded(hex@)),
        (r matches Err(TxInfoError::Decode(DecodeError::OddLength))) <==> byte_len(hex@) % 2 == 1,
        !all_hex_digits(hex@) ==> r matches Err(TxInfoError::Decode(_)),
        r matches Ok(shown) ==> legacy_agrees(shown@),
{
    explain_decoding(decode(hex))
}

} // verus!
