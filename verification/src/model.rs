//! A decoded transaction as plain data.

use vstd::prelude::*;

verus! {

/// One input of a transaction: the output it spends and what unlocks it.
#[derive(Clone, Debug, PartialEq, Eq)]
pub struct TxIn {
    /// Id of the transaction whose output is spent, in wire byte order.
    pub txid: [u8; 32],
    /// Index of the spent output in that transaction.
    pub vout: u32,
    /// The unlocking script.
    pub script_sig: Vec<u8>,
    /// The sequence number.
    pub sequence: u32,
    /// The witness stack, one byte string per item.
    pub witness: Vec<Vec<u8>>,
}

/// One output of a transaction.
#[derive(Clone, Debug, PartialEq, Eq)]
pub struct TxOut {
    /// The amount in satoshis.
    pub value: u64,
    /// The locking script.
    pub script_pubkey: Vec<u8>,
}

/// A decoded transaction.
#[derive(Clone, Debug, PartialEq, Eq)]
pub struct Transaction {
    pub version: i32,
    /// The locktime as it stands on the wire.
    pub lock_time: u32,
    pub input: Vec<TxIn>,
    pub output: Vec<TxOut>,
}

/// What a `TxIn` holds.
pub struct TxInView {
    pub txid: Seq<u8>,
    pub vout: u32,
    pub script_sig: Seq<u8>,
    pub sequence: u32,
    pub witness: Seq<Seq<u8>>,
}

/// What a `TxOut` holds.
pub struct TxOutView {
    pub value: u64,
    pub script_pubkey: Seq<u8>,
}

/// What a `Transaction` holds.
pub struct TransactionView {
    pub version: i32,
    pub lock_time: u32,
    pub input: Seq<TxInView>,
    pub output: Seq<TxOutView>,
}

impl View for TxIn {
    type V = TxInView;

    open spec fn view(&self) -> TxInView {
        TxInView {
            txid: self.txid@,
            vout: self.vout,
            script_sig: self.script_sig@,
            sequence: self.sequence,
            witness: self.witness@.map_values(|item: Vec<u8>| item@),
        }
    }
}

impl View for TxOut {
    type V = TxOutView;

    open spec fn view(&self) -> TxOutView {
        TxOutView { value: self.value, script_pubkey: self.script_pubkey@ }
    }
}

impl View for Transaction {
    type V = TransactionView;

    open spec fn view(&self) -> TransactionView {
        TransactionView {
            version: self.version,
            lock_time: self.lock_time,
            input: self.input@.map_values(|i: TxIn| i@),
            output: self.output@.map_values(|o: TxOut| o@),
        }
    }
}

/// Whether a transaction with these inputs is serialized with the segwit
/// marker, flag and witnesses: some input has a witness item, or there is
/// no input at all.
pub open spec fn serialized_with_witness(inputs: Seq<TxInView>) -> bool {
    ||| inputs.len() == 0
    ||| exists|i: int| 0 <= i < inputs.len() && (#[trigger] inputs[i]).witness.len() > 0
}

impl TransactionView {
    /// A transaction of the form in use before segwit: it has inputs, and
    /// none of them has a witness.
    pub open spec fn is_legacy(self) -> bool {
        !serialized_with_witness(self.input)
    }
}

/// The number of bytes of the compact-size form of a length: 1 up to 252,
/// 3 up to 16 bits, 5 up to 32 bits, else 9.
pub open spec fn compact_size_len(n: nat) -> nat {
    if n <= 0xFC {
        1
    } else if n <= 0xFFFF {
        3
    } else if n <= 0xFFFF_FFFF {
        5
    } else {
        9
    }
}

/// The number of bytes that the items of a witness take when each is
/// written behind the compact-size form of its length.
pub open spec fn witness_bytes(items: Seq<Seq<u8>>) -> nat
    decreases items.len(),
{
    if items.len() == 0 {
        0
    } else {
        witness_bytes(items.drop_last()) + compact_size_len(items.last().len())
            + items.last().len()
    }
}

/// The most bytes that the items of one witness may take.
pub const WITNESS_LIMIT: u64 = 0xFFFF_FFFF;

/// Whether the witness of every input is within the limit: the consensus
/// library keeps the place of each item in 32 bits.
pub open spec fn witnesses_fit(tx: TransactionView) -> bool {
    forall|i: int|
        0 <= i < tx.input.len() ==> witness_bytes((#[trigger] tx.input[i]).witness)
            <= WITNESS_LIMIT
}

/// The first items of a witness take no more bytes than all of them, and
/// one item more adds its own bytes.
pub proof fn lemma_witness_bytes_grow(items: Seq<Seq<u8>>, k: int)
    requires
        0 <= k <= items.len(),
    ensures
        witness_bytes(items.take(k)) <= witness_bytes(items),
        k < items.len() ==> witness_bytes(items.take(k + 1)) == witness_bytes(items.take(k))
            + compact_size_len(items[k].len()) + items[k].len(),
    decreases items.len() - k,
{
    if k < items.len() {
        assert(items.take(k + 1).drop_last() =~= items.take(k));
        assert(items.take(k + 1).last() == items[k]);
        lemma_witness_bytes_grow(items, k + 1);
    } else {
        assert(items.take(k) =~= items);
    }
}

/// The number of bytes of the compact-size form of `n`.
fn compact_size_len_of(n: usize) -> (k: u64)
    ensures
        k == compact_size_len(n as nat),
{
    if n <= 0xFC {
        1
    } else if n <= 0xFFFF {
        3
    } else if n as u64 <= 0xFFFF_FFFF {
        5
    } else {
        9
    }
}

impl TxIn {
    /// Whether the items of the witness of this input take at most `limit`
    /// bytes.
    pub fn witness_within(&self, limit: u64) -> (within: bool)
        ensures
            within == (witness_bytes(self@.witness) <= limit),
    {
        let ghost items = self@.witness;
        let mut taken: u64 = 0;
        let mut k: usize = 0;
        while k < self.witness.len()
            invariant
                k <= self.witness.len(),
                items == self@.witness,
                items.len() == self.witness.len(),
                taken == witness_bytes(items.take(k as int)),
                taken <= limit,
            decreases self.witness.len() - k,
        {
            let len: usize = self.witness[k].len();
            proof {
                lemma_witness_bytes_grow(items, k as int);
                lemma_witness_bytes_grow(items, k as int + 1);
                assert(items[k as int].len() == len);
            }
            let more: u128 = len as u128 + compact_size_len_of(len) as u128;
            if taken as u128 + more > limit as u128 {
                return false;
            }
            taken = taken + more as u64;
            k = k + 1;
        }
        proof {
            assert(items.take(k as int) =~= items);
        }
        true
    }

    /// Whether the witness of this input is within the limit.
    pub fn witness_fits(&self) -> (fits: bool)
        ensures
            fits == (witness_bytes(self@.witness) <= WITNESS_LIMIT),
    {
        self.witness_within(WITNESS_LIMIT)
    }
}

impl Transaction {
    /// Whether the witness of every input is within the limit.
    pub fn witnesses_fit(&self) -> (fits: bool)
        ensures
            fits == witnesses_fit(self@),
    {
        let mut i: usize = 0;
        while i < self.input.len()
            invariant
                i <= self.input.len(),
                forall|j: int|
                    0 <= j < i ==> witness_bytes((#[trigger] self@.input[j]).witness)
                        <= WITNESS_LIMIT,
            decreases self.input.len() - i,
        {
            if !self.input[i].witness_fits() {
                assert(self@.input[i as int] == self.input[i as int]@);
                return false;
            }
            assert(self@.input[i as int] == self.input[i as int]@);
            i = i + 1;
        }
        true
    }
}

} // verus!
