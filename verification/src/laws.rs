//! What holds of every explanation.

use vstd::prelude::*;
use crate::consensus::{base_size_of, decoded, quarter_ceil, total_size_of, weight_of};
use crate::decimal::{decimal, lemma_trailing_number_of_decimal, trailing_number};
use crate::model::TransactionView;
use crate::transaction::{
    explained, explained_decoding, explained_output, vsize_explanation_text,
    weight_explanation_text, TransactionResponseView, TxInfoError, VSIZE_DIVISION, VSIZE_RULE,
    WEIGHT_PRODUCT, WEIGHT_RULE, WEIGHT_SUM,
};

verus! {

/// Explaining is a function of the hex string: two explanations of one
/// string are the same, field for field.
pub proof fn lemma_explanation_repeats(
    hex: Seq<char>,
    first: Result<TransactionResponseView, TxInfoError>,
    second: Result<TransactionResponseView, TxInfoError>,
)
    requires
        first == explained_decoding(decoded(hex)),
        second == explained_decoding(decoded(hex)),
    ensures
        first == second,
{
}

/// The inputs shown are the inputs of the transaction: as many, in the same
/// order, and each with the same spent transaction and output index.
pub proof fn lemma_inputs_kept(tx: TransactionView)
    ensures
        explained(tx).input.inputs.len() == tx.input.len(),
        forall|i: int|
            0 <= i < tx.input.len() ==> {
                &&& (#[trigger] explained(tx).input.inputs[i]).txid == tx.input[i].txid
                &&& explained(tx).input.inputs[i].vout == tx.input[i].vout
                &&& explained(tx).input.inputs[i] == tx.input[i]
            },
{
}

/// The outputs shown are the outputs of the transaction: as many, in the
/// same order, and each with the same amount and locking script.
pub proof fn lemma_outputs_kept(tx: TransactionView)
    ensures
        explained(tx).output.output.len() == tx.output.len(),
        forall|i: int|
            0 <= i < tx.output.len() ==> {
                &&& (#[trigger] explained(tx).output.output[i]) == explained_output(tx.output[i])
                &&& explained(tx).output.output[i].sats_value == tx.output[i].value
                &&& explained(tx).output.output[i].script_pubkey == tx.output[i].script_pubkey
            },
{
}

/// The number that ends the explanation of the virtual size is a quarter of
/// the weight, rounded up.
pub proof fn lemma_vsize_explanation_ends_with_quarter(weight: nat)
    ensures
        trailing_number(vsize_explanation_text(weight)) == quarter_ceil(weight),
        quarter_ceil(weight) * 4 >= weight > (quarter_ceil(weight) - 1) * 4,
{
    reveal_strlit(" / 4 = ");
    let prefix = VSIZE_RULE@ + decimal(weight) + VSIZE_DIVISION@;
    assert(prefix.last() == ' ');
    lemma_trailing_number_of_decimal(prefix, quarter_ceil(weight));
}

/// The number that ends the explanation of the weight is three times the
/// base size plus the total size.
pub proof fn lemma_weight_explanation_ends_with_sum(base_size: nat, total_size: nat)
    ensures
        trailing_number(weight_explanation_text(base_size, total_size)) == base_size * 3
            + total_size,
{
    reveal_strlit(" = ");
    let prefix = WEIGHT_RULE@ + decimal(base_size) + WEIGHT_PRODUCT@ + decimal(total_size)
        + WEIGHT_SUM@;
    assert(prefix.last() == ' ');
    lemma_trailing_number_of_decimal(prefix, base_size * 3 + total_size);
}

/// In the explanation of a transaction, the number that ends the text on
/// the virtual size is the virtual size shown, and the number that ends the
/// text on the weight is the weight shown.
pub proof fn lemma_explanations_end_with_measures(tx: TransactionView)
    ensures
        trailing_number(explained(tx).size.what_is_vsize) == explained(tx).size.vsize,
        trailing_number(explained(tx).size.what_is_weight) == explained(tx).size.weight,
        explained(tx).size.vsize == quarter_ceil(explained(tx).size.weight),
        explained(tx).size.weight == explained(tx).size.base_size * 3 + explained(tx).size.size,
{
    lemma_vsize_explanation_ends_with_quarter(weight_of(tx));
    lemma_weight_explanation_ends_with_sum(base_size_of(tx), total_size_of(tx));
}

} // verus!
