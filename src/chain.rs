use vstd::prelude::*;

verus! {

/// The 32-byte identifier of a submitted transaction.
#[derive(Clone, Copy, Debug)]
pub struct TxHashSchema(pub [u8; 32]);

impl View for TxHashSchema {
    type V = Seq<u8>;

    open spec fn view(&self) -> Seq<u8> {
        self.0@
    }
}

/// The record of a mined transaction, with its numbers in text where they can
/// exceed 64 bits.
#[derive(Clone, Debug, Default)]
pub struct TransactionReceiptSchema {
    pub transaction_hash: String,
    pub transaction_index: u64,
    /// Absent while the transaction is pending.
    pub block_hash: Option<String>,
    pub block_number: Option<u64>,
    pub from: String,
    /// Absent for a contract creation.
    pub to: Option<String>,
    pub cumulative_gas_used: String,
    pub gas_used: Option<String>,
    /// The contract deployed, if the transaction was a deployment.
    pub contract_address: Option<String>,
    /// 1 for success, 0 for failure.
    pub status: Option<u64>,
    pub effective_gas_price: Option<String>,
}

/// What a submission hands back: the receipt when the caller waited for
/// confirmation, the hash otherwise.
#[derive(Clone, Debug)]
pub enum SendTransactionResult {
    Receipt(TransactionReceiptSchema),
    Hash(TxHashSchema),
}

/// Byte `i` of the hash whose low 8 bytes hold `n` big-endian, the rest zero.
pub open spec fn low_u64_be_byte(n: u64, i: int) -> u8 {
    if i < 24 {
        0
    } else {
        ((n as int / pow256(31 - i)) % 256) as u8
    }
}

/// `256` to the power `k`.
pub open spec fn pow256(k: int) -> int
    decreases k,
{
    if k <= 0 {
        1
    } else {
        256 * pow256(k - 1)
    }
}

/// The hash whose low 8 bytes hold `n` big-endian, the rest zero.
pub open spec fn low_u64_be_bytes(n: u64) -> Seq<u8> {
    Seq::new(32, |i: int| low_u64_be_byte(n, i))
}

impl TxHashSchema {
    /// The hash whose last 8 bytes hold `n` in big-endian order, the rest zero.
    pub fn from_low_u64_be(n: u64) -> (r: TxHashSchema)
        ensures
            r@ == low_u64_be_bytes(n),
    {
        let mut b: [u8; 32] = [0u8; 32];
        let mut v: u64 = n;
        let mut i: usize = 32;
        while i > 24
            invariant
                24 <= i <= 32,
                v as int == n as int / pow256(32 - i),
                forall|k: int| 0 <= k < 24 ==> b@[k] == 0,
                forall|k: int| i <= k < 32 ==> b@[k] == low_u64_be_byte(n, k),
            decreases i,
        {
            i = i - 1;
            proof {
                assert(pow256(32 - i) == 256 * pow256(31 - i));
                assert(pow256(31 - i) > 0) by {
                    lemma_pow256_positive(31 - i);
                }
                vstd::arithmetic::div_mod::lemma_div_denominator(
                    n as int,
                    pow256(31 - i),
                    256,
                );
            }
            b[i] = (v % 256) as u8;
            v = v / 256;
        }
        assert(b@ =~= low_u64_be_bytes(n));
        TxHashSchema(b)
    }
}

proof fn lemma_pow256_positive(k: int)
    ensures
        pow256(k) > 0,
    decreases k,
{
    if k > 0 {
        lemma_pow256_positive(k - 1);
    }
}

/// The hash that stands in for a transaction in a response made without a node.
pub const MOCK_TX_NUMBER: u64 = 123456789;

/// The receipt that stands in for a mined transaction in a response made
/// without a node.
pub open spec fn is_mock_receipt(r: TransactionReceiptSchema) -> bool {
    &&& r.transaction_hash@ == "0xTRXHASH"@
    &&& r.transaction_index == 1
    &&& r.block_hash matches Some(h) && h@ == "0xBLOCKHASH"@
    &&& r.block_number == Some(1u64)
    &&& r.from@ == "0xTRXSENDER"@
    &&& r.to matches Some(t) && t@ == "0xTRXRECEIVER"@
    &&& r.cumulative_gas_used@ == "CUMULATIVEGASUSED"@
    &&& r.gas_used matches Some(g) && g@ == "GASUSED"@
    &&& r.contract_address matches Some(c) && c@ == "0xCONTRACTADDRESS"@
    &&& r.status == Some(0u64)
    &&& r.effective_gas_price matches Some(p) && p@ == "GASPRICEinGWEI"@
}

/// The transaction result of a mint answered without a node: a stand-in
/// receipt when the caller asked to wait for confirmation, else a stand-in hash.
pub fn mock_tx_result(wait_confirmation: Option<bool>) -> (r: SendTransactionResult)
    ensures
        wait_confirmation == Some(true) ==> (r matches SendTransactionResult::Receipt(rc)
            && is_mock_receipt(rc)),
        wait_confirmation != Some(true) ==> (r matches SendTransactionResult::Hash(h) && h@
            == low_u64_be_bytes(MOCK_TX_NUMBER)),
{
    if wait_confirmation.unwrap_or(false) {
        SendTransactionResult::Receipt(
            TransactionReceiptSchema {
                transaction_hash: "0xTRXHASH".to_owned(),
                transaction_index: 1,
                block_hash: Some("0xBLOCKHASH".to_owned()),
                block_number: Some(1),
                from: "0xTRXSENDER".to_owned(),
                to: Some("0xTRXRECEIVER".to_owned()),
                cumulative_gas_used: "CUMULATIVEGASUSED".to_owned(),
                gas_used: Some("GASUSED".to_owned()),
                contract_address: Some("0xCONTRACTADDRESS".to_owned()),
                status: Some(0),
                effective_gas_price: Some("GASPRICEinGWEI".to_owned()),
            },
        )
    } else {
        SendTransactionResult::Hash(TxHashSchema::from_low_u64_be(MOCK_TX_NUMBER))
    }
}

} // verus!
