use tx_explainer::consensus::{decode, DecodeError};
use tx_explainer::model::{Transaction, TxIn, TxOut};
use tx_explainer::transaction::{
    explain_decoding, get_tx_info, Size, TransactionResponse, TxId, TxInResponse, TxInfoError,
    TxOutResponse,
};

const GENESIS_COINBASE: &str = "01000000010000000000000000000000000000000000000000000000000000000000000000ffffffff4d04ffff001d0104455468652054696d65732030332f4a616e2f32303039204368616e63656c6c6f72206f6e206272696e6b206f66207365636f6e64206261696c6f757420666f722062616e6b73ffffffff0100f2052a01000000434104678afdb0fe5548271967f1a67130b7105cd6a828e03909a67962e0ea1f61deb649f6bc3f4cef38c4f35504e51ec112de5c384df7ba0b8d578a4c702b6bf11d5fac00000000";

const GENESIS_TXID: &str = "4a5e1e4baab89f3a32518a88c31bc87f618f76673e2cc77ab2127b7afdeda33b";

const SEGWIT_SPEND: &str = "01000000000102fff7f7881a8099afa6940d42d1e7f6362bec38171ea3edf433541db4e4ad969f00000000494830450221008b9d1dc26ba6a9cb62127b02742fa9d754cd3bebf337f7a55d114c8e5cdd30be022040529b194ba3f9281a99f2b1c0a19c0489bc22ede944ccf4ecbab4cc618ef3ed01eeffffffef51e1b804cc89d182d279655c3aa89e815b1b309fe287d9b2b55d57b90ec68a0100000000ffffffff02202cb206000000001976a9148280b37df378db99f66f85c95a783a76ac7a6d5988ac9093510d000000001976a9143bde42dbee7e4dbe6a21b2d50ce2f0167faa815988ac000247304402203609e17b84f6a7d30c80bfa610b5b4542f32a8a0d5447a12fb1366d7f01cc44a0220573a954c4518331561406f90300e8f3358f51928d43c212a8caed02de67eebee0121025476c2e83188368da1ff3e292e7acafcdb3566bb0ad253f62fc70f07aeee635711000000";

const SEGWIT_TXID: &str = "e8151a2af31c368a35053ddd4bdb285a8595c769a3ad83e0fa02314a602d4609";

const SEGWIT_WTXID: &str = "c36c38370907df2324d9ce9d149d191192f338b37665a82e78e76a12c909b762";

fn bytes(hex: &str) -> Vec<u8> {
    let digits: Vec<u8> = hex.chars().map(|c| c.to_digit(16).unwrap() as u8).collect();
    digits.chunks(2).map(|pair| pair[0] * 16 + pair[1]).collect()
}

/// The bytes of an identifier that is written the way explorers show it.
fn id(shown: &str) -> [u8; 32] {
    let mut b = bytes(shown);
    b.reverse();
    let mut out = [0u8; 32];
    out.copy_from_slice(&b);
    out
}

fn p2pkh(hash_byte: u8) -> Vec<u8> {
    let mut s = vec![0x76, 0xa9, 0x14];
    s.extend_from_slice(&[hash_byte; 20]);
    s.extend_from_slice(&[0x88, 0xac]);
    s
}

fn legacy_two_in_two_out() -> Transaction {
    Transaction {
        version: 2,
        lock_time: 500_000,
        input: vec![
            TxIn { txid: [0xaa; 32], vout: 3, script_sig: vec![0x51], sequence: 0xffff_fffe, witness: vec![] },
            TxIn { txid: [0xbb; 32], vout: 0, script_sig: vec![], sequence: 7, witness: vec![] },
        ],
        output: vec![
            TxOut { value: 1, script_pubkey: p2pkh(0x01) },
            TxOut { value: 2_100_000_000_000_000, script_pubkey: vec![0x6a] },
        ],
    }
}

fn outside(tx: &Transaction) -> bitcoin::Transaction {
    bitcoin::Transaction {
        version: bitcoin::transaction::Version(tx.version),
        lock_time: bitcoin::absolute::LockTime::from_consensus(tx.lock_time),
        input: tx
            .input
            .iter()
            .map(|i| bitcoin::TxIn {
                previous_output: bitcoin::OutPoint::new(
                    bitcoin::hashes::Hash::from_byte_array(i.txid),
                    i.vout,
                ),
                script_sig: bitcoin::ScriptBuf::from_bytes(i.script_sig.clone()),
                sequence: bitcoin::Sequence(i.sequence),
                witness: bitcoin::Witness::from_slice(&i.witness),
            })
            .collect(),
        output: tx
            .output
            .iter()
            .map(|o| bitcoin::TxOut {
                value: bitcoin::Amount::from_sat(o.value),
                script_pubkey: bitcoin::ScriptBuf::from_bytes(o.script_pubkey.clone()),
            })
            .collect(),
    }
}

fn number_at_the_end(text: &str) -> u128 {
    let mut digits: Vec<char> = text.chars().rev().take_while(|c| c.is_ascii_digit()).collect();
    digits.reverse();
    digits.into_iter().collect::<String>().parse().unwrap()
}

#[test]
fn explanations_end_with_the_measures() {
    for hex in [GENESIS_COINBASE, SEGWIT_SPEND] {
        let size = get_tx_info(hex).unwrap().size;
        let weight = size.weight as u128;
        assert_eq!(number_at_the_end(&size.what_is_vsize), (weight + 3) / 4);
        assert_eq!(number_at_the_end(&size.what_is_vsize), size.vsize as u128);
        assert_eq!(number_at_the_end(&size.what_is_weight), weight);
        assert_eq!(weight, size.base_size as u128 * 3 + size.size as u128);
    }
}

#[test]
fn genesis_coinbase_is_explained() {
    let shown = get_tx_info(GENESIS_COINBASE).unwrap();
    assert_eq!(shown.version, 1);
    assert_eq!(shown.locktime, 0);
    assert_eq!(shown.input.inputs.len(), 1);
    assert_eq!(shown.output.output.len(), 1);
    assert_eq!(shown.txid.txid, id(GENESIS_TXID));
}

#[test]
fn genesis_coinbase_has_one_identifier() {
    let shown = get_tx_info(GENESIS_COINBASE).unwrap();
    assert_eq!(shown.txid.witnesstxid, shown.txid.txid);
    assert_eq!(shown.txid.witnesstxid, id(GENESIS_TXID));
}

#[test]
fn genesis_coinbase_sizes() {
    let shown = get_tx_info(GENESIS_COINBASE).unwrap();
    assert_eq!(shown.size, Size::new(204, 204, 204, 816));
    assert_eq!(shown.size.what_is_vsize, "Transaction weight / 4 (rounded up) ---> 816 / 4 = 204");
    assert_eq!(
        shown.size.what_is_weight,
        "Base transaction size * 3 + total transaction size ---> 204 * 3 + 204 = 816"
    );
}

#[test]
fn genesis_coinbase_input() {
    let shown = get_tx_info(GENESIS_COINBASE).unwrap();
    let input = &shown.input.inputs[0];
    assert_eq!(input.txid, [0u8; 32]);
    assert_eq!(input.vout, u32::MAX);
    assert_eq!(
        input.script_sig,
        bytes("04ffff001d0104455468652054696d65732030332f4a616e2f32303039204368616e63656c6c6f72206f6e206272696e6b206f66207365636f6e64206261696c6f757420666f722062616e6b73")
    );
    assert_eq!(input.sequence, u32::MAX);
    assert!(input.witness.is_empty());
}

#[test]
fn genesis_coinbase_output() {
    let shown = get_tx_info(GENESIS_COINBASE).unwrap();
    let key = "04678afdb0fe5548271967f1a67130b7105cd6a828e03909a67962e0ea1f61deb649f6bc3f4cef38c4f35504e51ec112de5c384df7ba0b8d578a4c702b6bf11d5f";
    let output = &shown.output.output[0];
    assert_eq!(output.sats_value, 5_000_000_000);
    assert_eq!(output.btc_value, "50");
    assert_eq!(output.script_pubkey, bytes(&format!("41{}ac", key)));
    assert_eq!(output.script, format!("OP_PUSHBYTES_65 {} OP_CHECKSIG", key));
    assert_eq!(output.script_type, "Pay to Public Key (P2PK)");
}

#[test]
fn locktime_text_is_fixed() {
    let shown = get_tx_info(GENESIS_COINBASE).unwrap();
    assert_eq!(
        shown.what_is_locktime,
        "Condition to prevent transaction from being mined until specified block height or time is reached i.e if locktime is set to 620,000 then that transaction cannot be mined until that height is reached. If locktime is 0, then the transaction can be included in any block"
    );
}

#[test]
fn segwit_spend_identifiers_differ() {
    let shown = get_tx_info(SEGWIT_SPEND).unwrap();
    assert_eq!(shown.txid, TxId::new(id(SEGWIT_TXID), id(SEGWIT_WTXID)));
    assert_ne!(shown.txid.txid, shown.txid.witnesstxid);
}

#[test]
fn segwit_spend_sizes() {
    let shown = get_tx_info(SEGWIT_SPEND).unwrap();
    assert_eq!(shown.version, 1);
    assert_eq!(shown.locktime, 17);
    assert_eq!(shown.size, Size::new(233, 343, 261, 1042));
}

#[test]
fn segwit_spend_inputs_keep_their_order() {
    let shown = get_tx_info(SEGWIT_SPEND).unwrap();
    assert_eq!(shown.input.inputs.len(), 2);
    let first = &shown.input.inputs[0];
    let second = &shown.input.inputs[1];
    assert_eq!(first.txid, id("9f96ade4b41d5433f4eda31e1738ec2b36f6e7d1420d94a6af99801a88f7f7ff"));
    assert_eq!(first.vout, 0);
    assert_eq!(first.sequence, 4294967278);
    assert_eq!(first.script_sig.len(), 73);
    assert!(first.witness.is_empty());
    assert_eq!(second.txid, id("8ac60eb9575db5b2d987e29f301b5b819ea83a5c6579d282d189cc04b8e151ef"));
    assert_eq!(second.vout, 1);
    assert_eq!(second.sequence, u32::MAX);
    assert!(second.script_sig.is_empty());
    assert_eq!(
        second.witness,
        vec![
            bytes("304402203609e17b84f6a7d30c80bfa610b5b4542f32a8a0d5447a12fb1366d7f01cc44a0220573a954c4518331561406f90300e8f3358f51928d43c212a8caed02de67eebee01"),
            bytes("025476c2e83188368da1ff3e292e7acafcdb3566bb0ad253f62fc70f07aeee6357"),
        ]
    );
}

#[test]
fn segwit_spend_outputs_keep_their_order() {
    let shown = get_tx_info(SEGWIT_SPEND).unwrap();
    assert_eq!(shown.output.output.len(), 2);
    let first = &shown.output.output[0];
    let second = &shown.output.output[1];
    assert_eq!(first.sats_value, 112_340_000);
    assert_eq!(first.btc_value, "1.1234");
    assert_eq!(first.script_pubkey, bytes("76a9148280b37df378db99f66f85c95a783a76ac7a6d5988ac"));
    assert_eq!(
        first.script,
        "OP_DUP OP_HASH160 OP_PUSHBYTES_20 8280b37df378db99f66f85c95a783a76ac7a6d59 OP_EQUALVERIFY OP_CHECKSIG"
    );
    assert_eq!(first.script_type, "Pay to Public Key Hash (P2PKH)");
    assert_eq!(second.sats_value, 223_450_000);
    assert_eq!(second.btc_value, "2.2345");
    assert_eq!(second.script_pubkey, bytes("76a9143bde42dbee7e4dbe6a21b2d50ce2f0167faa815988ac"));
    assert_eq!(second.script_type, "Pay to Public Key Hash (P2PKH)");
}

#[test]
fn explaining_twice_gives_the_same() {
    assert_eq!(get_tx_info(SEGWIT_SPEND), get_tx_info(SEGWIT_SPEND));
    assert_eq!(get_tx_info(GENESIS_COINBASE), get_tx_info(GENESIS_COINBASE));
    assert_eq!(get_tx_info("00"), get_tx_info("00"));
}

#[test]
fn upper_case_hex_is_the_same_transaction() {
    assert_eq!(get_tx_info(&GENESIS_COINBASE.to_uppercase()), get_tx_info(GENESIS_COINBASE));
}

#[test]
fn get_tx_info_is_decode_then_explain() {
    let tx = decode(SEGWIT_SPEND).unwrap();
    assert_eq!(TransactionResponse::explain(tx.clone()), get_tx_info(SEGWIT_SPEND).ok());
    assert_eq!(TransactionResponse::from(tx), get_tx_info(SEGWIT_SPEND).unwrap());
}

#[test]
fn odd_length_is_refused() {
    let odd = &GENESIS_COINBASE[..GENESIS_COINBASE.len() - 1];
    assert_eq!(get_tx_info(odd), Err(TxInfoError::Decode(DecodeError::OddLength)));
    assert_eq!(get_tx_info("0"), Err(TxInfoError::Decode(DecodeError::OddLength)));
    assert_eq!(get_tx_info("zzz"), Err(TxInfoError::Decode(DecodeError::OddLength)));
    assert_eq!(decode("abc"), Err(DecodeError::OddLength));
}

#[test]
fn invalid_characters_are_refused() {
    assert_eq!(get_tx_info("zz"), Err(TxInfoError::Decode(DecodeError::InvalidChar)));
    let mut spoiled = GENESIS_COINBASE.to_string();
    spoiled.replace_range(10..11, "g");
    assert_eq!(get_tx_info(&spoiled), Err(TxInfoError::Decode(DecodeError::InvalidChar)));
    assert_eq!(decode("0100000g"), Err(DecodeError::InvalidChar));
}

#[test]
fn invalid_characters_after_a_transaction_are_refused() {
    let spoiled = format!("{}zz", GENESIS_COINBASE);
    assert!(get_tx_info(&spoiled).is_err());
    let spaced = format!("{}  ", GENESIS_COINBASE);
    assert!(get_tx_info(&spaced).is_err());
}

#[test]
fn characters_beyond_ascii_are_refused() {
    assert!(get_tx_info("\u{e9}").is_err());
    assert_eq!(get_tx_info("a\u{e9}"), Err(TxInfoError::Decode(DecodeError::OddLength)));
}

#[test]
fn truncated_encoding_is_refused() {
    let cut = &GENESIS_COINBASE[..GENESIS_COINBASE.len() - 2];
    assert_eq!(get_tx_info(cut), Err(TxInfoError::Decode(DecodeError::Malformed)));
    assert_eq!(get_tx_info(""), Err(TxInfoError::Decode(DecodeError::Malformed)));
}

#[test]
fn bytes_left_over_are_refused() {
    let longer = format!("{}00", GENESIS_COINBASE);
    assert_eq!(get_tx_info(&longer), Err(TxInfoError::Decode(DecodeError::Malformed)));
}

#[test]
fn decode_gives_the_fields_of_the_transaction() {
    let tx = decode(SEGWIT_SPEND).unwrap();
    assert_eq!(tx.version, 1);
    assert_eq!(tx.lock_time, 17);
    assert_eq!(tx.input.len(), 2);
    assert_eq!(tx.output.len(), 2);
    assert_eq!(tx.input[1].witness.len(), 2);
    assert_eq!(tx.output[0], TxOut { value: 112_340_000, script_pubkey: p2pkh_of("8280b37df378db99f66f85c95a783a76ac7a6d59") });
}

fn p2pkh_of(hash: &str) -> Vec<u8> {
    bytes(&format!("76a914{}88ac", hash))
}

#[test]
fn decode_agrees_with_the_consensus_library() {
    let tx = decode(SEGWIT_SPEND).unwrap();
    let theirs: bitcoin::Transaction =
        bitcoin::consensus::encode::deserialize_hex(SEGWIT_SPEND).unwrap();
    assert_eq!(outside(&tx), theirs);
}

#[test]
fn explain_decoding_passes_the_error_on() {
    assert_eq!(
        explain_decoding(Err(DecodeError::OddLength)),
        Err(TxInfoError::Decode(DecodeError::OddLength))
    );
    assert_eq!(
        explain_decoding(Err(DecodeError::InvalidChar)),
        Err(TxInfoError::Decode(DecodeError::InvalidChar))
    );
    assert_eq!(
        explain_decoding(Err(DecodeError::Malformed)),
        Err(TxInfoError::Decode(DecodeError::Malformed))
    );
}

#[test]
fn explain_decoding_explains_a_transaction() {
    let tx = legacy_two_in_two_out();
    assert_eq!(explain_decoding(Ok(tx.clone())), Ok(TransactionResponse::from(tx)));
}

#[test]
fn handmade_legacy_transaction() {
    let tx = legacy_two_in_two_out();
    let shown = TransactionResponse::explain(tx.clone()).unwrap();
    // 4 + 1 + (41 + 1) + 41 + 1 + (9 + 25) + (9 + 1) + 4
    assert_eq!(shown.size, Size::new(137, 137, 137, 548));
    assert_eq!(shown.version, 2);
    assert_eq!(shown.locktime, 500_000);
    assert_eq!(shown.txid.txid, shown.txid.witnesstxid);
    assert_eq!(shown.input.inputs.len(), 2);
    assert_eq!(shown.input.inputs[0], TxInResponse::from(tx.input[0].clone()));
    assert_eq!(shown.input.inputs[1], TxInResponse::from(tx.input[1].clone()));
    assert_eq!(shown.output.output.len(), 2);
    assert_eq!(shown.output.output[0], TxOutResponse::from(tx.output[0].clone()));
    assert_eq!(shown.output.output[1], TxOutResponse::from(tx.output[1].clone()));
}

#[test]
fn handmade_transaction_agrees_with_the_consensus_library() {
    let mut tx = legacy_two_in_two_out();
    tx.input[1].witness = vec![vec![1, 2, 3], vec![]];
    let theirs = outside(&tx);
    let shown = TransactionResponse::from(tx);
    assert_eq!(shown.size.base_size, theirs.base_size());
    assert_eq!(shown.size.size, theirs.total_size());
    assert_eq!(shown.size.vsize, theirs.vsize());
    assert_eq!(shown.size.weight, theirs.weight().to_wu());
    assert_eq!(shown.txid.txid, bitcoin::hashes::Hash::to_byte_array(theirs.compute_txid()));
    assert_eq!(shown.txid.witnesstxid, bitcoin::hashes::Hash::to_byte_array(theirs.compute_wtxid()));
    assert_ne!(shown.txid.txid, shown.txid.witnesstxid);
    assert_eq!(shown.size.base_size, 137);
    // marker and flag, then one count per input, then 1 + 3 and 1 + 0 for the two items
    assert_eq!(shown.size.size, 137 + 2 + 1 + 1 + 4 + 1);
    assert_eq!(shown.size.weight, 137 * 3 + 146);
    assert_eq!(shown.size.vsize, 140);
}

#[test]
fn transaction_without_inputs_is_weighed_with_marker_and_flag() {
    let tx = Transaction { version: 1, lock_time: 0, input: vec![], output: vec![] };
    let shown = TransactionResponse::explain(tx).unwrap();
    assert_eq!(shown.size, Size::new(10, 12, 11, 42));
    assert!(shown.input.inputs.is_empty());
    assert!(shown.output.output.is_empty());
}

#[test]
fn input_is_taken_over_unchanged() {
    let tx_in = TxIn {
        txid: id(GENESIS_TXID),
        vout: 9,
        script_sig: vec![1, 2, 3],
        sequence: 0xffff_fffd,
        witness: vec![vec![], vec![0xff; 3]],
    };
    let shown = TxInResponse::from(tx_in.clone());
    assert_eq!(shown.txid, tx_in.txid);
    assert_eq!(shown.vout, 9);
    assert_eq!(shown.script_sig, vec![1, 2, 3]);
    assert_eq!(shown.sequence, 0xffff_fffd);
    assert_eq!(shown.witness, vec![vec![], vec![0xff; 3]]);
}

#[test]
fn output_amounts_in_bitcoin() {
    let shown = |value: u64| TxOutResponse::from(TxOut { value, script_pubkey: vec![] }).btc_value;
    assert_eq!(shown(0), "0");
    assert_eq!(shown(1), "0.00000001");
    assert_eq!(shown(50_000), "0.0005");
    assert_eq!(shown(100_000_000), "1");
    assert_eq!(shown(123_456_789), "1.23456789");
    assert_eq!(shown(2_100_000_000_000_000), "21000000");
    assert_eq!(shown(u64::MAX), "184467440737.09551615");
}

#[test]
fn output_scripts_disassembled() {
    let shown = |script_pubkey: Vec<u8>| TxOutResponse::from(TxOut { value: 0, script_pubkey }).script;
    assert_eq!(shown(vec![]), "");
    assert_eq!(shown(vec![0x6a]), "OP_RETURN");
    assert_eq!(shown(vec![0x00, 0x51]), "OP_0 OP_PUSHNUM_1");
    assert_eq!(shown(vec![0x02, 0xab]), "OP_PUSHBYTES_2 <push past end>");
}

#[test]
fn output_with_given_renderings_is_labelled_by_its_script() {
    let mut script = vec![0x51, 0x20];
    script.extend_from_slice(&[7u8; 32]);
    let tx_out = TxOut { value: 42, script_pubkey: script.clone() };
    let shown = TxOutResponse::with_renderings(tx_out, "amount".to_string(), "script".to_string());
    assert_eq!(
        shown,
        TxOutResponse {
            sats_value: 42,
            btc_value: "amount".to_string(),
            script_pubkey: script,
            script: "script".to_string(),
            script_type: "Pay to Taproot (P2TR)".to_string(),
        }
    );
}

#[test]
fn unknown_script_is_labelled_unknown() {
    let shown = TxOutResponse::from(TxOut { value: 0, script_pubkey: vec![0x6a, 0x01, 0x00] });
    assert_eq!(shown.script_type, "unknown");
}

#[test]
fn with_measures_keeps_what_it_is_given() {
    let tx = legacy_two_in_two_out();
    let ids = TxId::new([3u8; 32], [4u8; 32]);
    let size = Size::new(1, 2, 3, 4);
    let shown = TransactionResponse::with_measures(tx.clone(), ids.clone(), size.clone());
    assert_eq!(shown.txid, ids);
    assert_eq!(shown.size, size);
    assert_eq!(shown.version, tx.version);
    assert_eq!(shown.locktime, tx.lock_time);
    assert_eq!(shown.input.inputs.len(), 2);
    assert_eq!(shown.input.inputs[0].txid, [0xaa; 32]);
    assert_eq!(shown.input.inputs[0].vout, 3);
    assert_eq!(shown.input.inputs[1].txid, [0xbb; 32]);
    assert_eq!(shown.input.inputs[1].vout, 0);
    assert_eq!(shown.output.output[0].sats_value, 1);
    assert_eq!(shown.output.output[1].sats_value, 2_100_000_000_000_000);
    assert_eq!(shown.output.output[1].btc_value, "21000000");
}

#[test]
fn ordinary_witnesses_fit() {
    assert!(legacy_two_in_two_out().witnesses_fit());
    assert!(decode(SEGWIT_SPEND).unwrap().witnesses_fit());
    assert!(Transaction { version: 1, lock_time: 0, input: vec![], output: vec![] }.witnesses_fit());
    let tx_in = TxIn {
        txid: [0u8; 32],
        vout: 0,
        script_sig: vec![],
        sequence: 0,
        witness: vec![vec![0u8; 252], vec![0u8; 253], vec![0u8; 65_535], vec![0u8; 65_536]],
    };
    assert!(tx_in.witness_fits());
}

fn input_with_witness(witness: Vec<Vec<u8>>) -> TxIn {
    TxIn { txid: [0u8; 32], vout: 0, script_sig: vec![], sequence: 0, witness }
}

#[test]
fn empty_witness_takes_no_bytes() {
    assert!(input_with_witness(vec![]).witness_within(0));
}

#[test]
fn witness_item_is_counted_with_its_length_prefix() {
    // an empty item is one byte of length
    assert!(input_with_witness(vec![vec![]]).witness_within(1));
    assert!(!input_with_witness(vec![vec![]]).witness_within(0));
    // one byte of length up to 252 bytes
    assert!(input_with_witness(vec![vec![0u8; 252]]).witness_within(253));
    assert!(!input_with_witness(vec![vec![0u8; 252]]).witness_within(252));
    // three from 253 on
    assert!(input_with_witness(vec![vec![0u8; 253]]).witness_within(256));
    assert!(!input_with_witness(vec![vec![0u8; 253]]).witness_within(255));
    assert!(input_with_witness(vec![vec![0u8; 65_535]]).witness_within(65_538));
    assert!(!input_with_witness(vec![vec![0u8; 65_535]]).witness_within(65_537));
    // five from 65536 on
    assert!(input_with_witness(vec![vec![0u8; 65_536]]).witness_within(65_541));
    assert!(!input_with_witness(vec![vec![0u8; 65_536]]).witness_within(65_540));
}

#[test]
fn witness_items_add_up() {
    let tx_in = input_with_witness(vec![vec![1, 2, 3], vec![], vec![0u8; 300]]);
    // 1 + 3, 1 + 0, 3 + 300
    assert!(tx_in.witness_within(308));
    assert!(!tx_in.witness_within(307));
    assert!(!tx_in.witness_within(4));
    assert!(tx_in.witness_within(u64::MAX));
}

#[test]
fn witness_count_agrees_with_the_consensus_library() {
    let items = vec![vec![1, 2, 3], vec![], vec![0u8; 300], vec![0u8; 70_000]];
    let theirs = bitcoin::Witness::from_slice(&items);
    // their size counts one more length, that of the number of items
    let bytes = (theirs.size() - 1) as u64;
    let tx_in = input_with_witness(items);
    assert!(tx_in.witness_within(bytes));
    assert!(!tx_in.witness_within(bytes - 1));
}
