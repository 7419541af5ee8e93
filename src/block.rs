//! Lenient decoding of the block fields that the metrics row reports.
use vstd::prelude::*;
use crate::numeric::{decode_hex, hex_or_zero};

verus! {

/// The raw fields of a block as the node sent them: each numeric field is
/// the text of a JSON string, if the block had one under that key, and
/// `transactions` the length of the array, if it had one.
#[derive(Debug)]
pub struct BlockFields {
    pub number: Option<String>,
    pub timestamp: Option<String>,
    pub gas_used: Option<String>,
    pub gas_limit: Option<String>,
    pub base_fee_per_gas: Option<String>,
    pub transactions: Option<usize>,
}

/// The decoded metrics of one block.
#[derive(Clone, Copy, Debug, PartialEq, Eq, Structural)]
pub struct BlockRecord {
    pub number: u64,
    pub timestamp: u64,
    pub tx_count: usize,
    pub gas_used: u64,
    pub gas_limit: u64,
    pub base_fee_wei: u64,
}

/// The members of a block object that the record is read from.
#[derive(Clone, Copy, Debug, PartialEq, Eq, Structural)]
pub enum BlockField {
    Number,
    Timestamp,
    GasUsed,
    GasLimit,
    BaseFeePerGas,
    Transactions,
}

pub open spec fn field_key(f: BlockField) -> Seq<char> {
    match f {
        BlockField::Number => "number"@,
        BlockField::Timestamp => "timestamp"@,
        BlockField::GasUsed => "gasUsed"@,
        BlockField::GasLimit => "gasLimit"@,
        BlockField::BaseFeePerGas => "baseFeePerGas"@,
        BlockField::Transactions => "transactions"@,
    }
}

impl BlockField {
    /// The member's key in the node's block object.
    pub fn key(&self) -> (r: &'static str)
        ensures
            r@ == field_key(*self),
    {
        match self {
            BlockField::Number => "number",
            BlockField::Timestamp => "timestamp",
            BlockField::GasUsed => "gasUsed",
            BlockField::GasLimit => "gasLimit",
            BlockField::BaseFeePerGas => "baseFeePerGas",
            BlockField::Transactions => "transactions",
        }
    }
}

/// A hex field's value, 0 where it is absent or malformed.
pub open spec fn field_value(f: Option<String>) -> u64 {
    match f {
        Some(s) => hex_or_zero(s@),
        None => 0,
    }
}

/// The record that a block's fields decode to.
pub open spec fn decoded(f: BlockFields) -> BlockRecord {
    BlockRecord {
        number: field_value(f.number),
        timestamp: field_value(f.timestamp),
        tx_count: match f.transactions {
            Some(n) => n,
            None => 0,
        },
        gas_used: field_value(f.gas_used),
        gas_limit: field_value(f.gas_limit),
        base_fee_wei: field_value(f.base_fee_per_gas),
    }
}

fn decode_field(f: &Option<String>) -> (r: u64)
    ensures
        r == field_value(*f),
{
    match f {
        Some(s) => decode_hex(s.as_str()),
        None => 0,
    }
}

/// Decodes every field; a missing or malformed one becomes 0 and never fails.
pub fn decode_block(f: &BlockFields) -> (r: BlockRecord)
    ensures
        r == decoded(*f),
{
    BlockRecord {
        number: decode_field(&f.number),
        timestamp: decode_field(&f.timestamp),
        tx_count: match f.transactions {
            Some(n) => n,
            None => 0,
        },
        gas_used: decode_field(&f.gas_used),
        gas_limit: decode_field(&f.gas_limit),
        base_fee_wei: decode_field(&f.base_fee_per_gas),
    }
}

pub open spec fn text_view(f: Option<String>) -> Option<Seq<char>> {
    match f {
        Some(s) => Some(s@),
        None => None,
    }
}

/// Decoding depends on the text of the fields alone: two fetches of the same
/// unchanging block give the same record, whatever the latency.
pub proof fn same_block_same_record(a: BlockFields, b: BlockFields)
    requires
        text_view(a.number) == text_view(b.number),
        text_view(a.timestamp) == text_view(b.timestamp),
        text_view(a.gas_used) == text_view(b.gas_used),
        text_view(a.gas_limit) == text_view(b.gas_limit),
        text_view(a.base_fee_per_gas) == text_view(b.base_fee_per_gas),
        a.transactions == b.transactions,
    ensures
        decoded(a) == decoded(b),
{
}

} // verus!
