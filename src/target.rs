//! Which block to ask for, and whether the chain tip must be looked up first.
use vstd::prelude::*;
use crate::numeric::{format_hex_id, hex_id, parse_u64, parse_unsigned};
use crate::rpc::{fetch_params, fetch_params_text, json_quoted, json_text, quote_json, request_body, request_text, Method};

verus! {

/// The block that a run is about, as given on the command line.
#[derive(Debug)]
pub enum BlockTarget {
    /// The chain tip, looked up with `eth_blockNumber`.
    Latest,
    /// A `0x`-prefixed identifier, used as written.
    HexNumber(String),
    /// A decimal block number.
    DecimalNumber(u64),
}

/// The identifier handed to `eth_getBlockByNumber`.
#[derive(Debug)]
pub enum BlockId {
    /// Text, sent as a JSON string.
    Literal(String),
    /// The `eth_blockNumber` result, sent as the node gave it.
    Resolved(serde_json::Value),
}

/// The next call a run makes.
#[derive(Debug)]
pub enum Step {
    /// Ask for the newest block number first.
    Resolve,
    /// Fetch the block with this identifier.
    Fetch(BlockId),
}

pub open spec fn is_latest(t: Seq<char>) -> bool {
    t == "latest"@
}

pub open spec fn has_hex_prefix(t: Seq<char>) -> bool {
    t.len() >= 2 && t[0] == '0' && t[1] == 'x'
}

/// A decimal block number, or 0 where the text is not one.
pub open spec fn decimal_or_zero(t: Seq<char>) -> u64 {
    match parse_unsigned(t, 10) {
        Some(v) => v,
        None => 0,
    }
}

/// The identifier that a target is fetched by, or `None` when the chain tip
/// has to be looked up first.
pub open spec fn planned_fetch(t: Seq<char>) -> Option<Seq<char>> {
    if is_latest(t) {
        None
    } else if has_hex_prefix(t) {
        Some(t)
    } else {
        Some(hex_id(decimal_or_zero(t) as nat))
    }
}

/// Reads a command-line target: `latest`, a `0x` identifier, or a decimal
/// number (0 where it does not parse).
pub fn parse_target(target: &str) -> (r: BlockTarget)
    ensures
        is_latest(target@) ==> r is Latest,
        !is_latest(target@) && has_hex_prefix(target@) ==> (r matches BlockTarget::HexNumber(s)
            && s@ == target@),
        !is_latest(target@) && !has_hex_prefix(target@) ==> r == BlockTarget::DecimalNumber(
            decimal_or_zero(target@),
        ),
{
    proof {
        reveal_strlit("latest");
        assert("latest"@ =~= seq!['l', 'a', 't', 'e', 's', 't']);
    }
    let len = target.unicode_len();
    let mut latest = len == 6;
    let mut i: usize = 0;
    while i < len && latest
        invariant
            len == target@.len(),
            0 <= i <= len,
            "latest"@ == seq!['l', 'a', 't', 'e', 's', 't'],
            latest ==> len == 6 && forall|k: int| 0 <= k < i ==> target@[k] == "latest"@[k],
            !latest ==> !is_latest(target@),
        decreases len - i,
    {
        if target.get_char(i) != "latest".get_char(i) {
            latest = false;
        }
        i = i + 1;
    }
    if latest {
        assert(target@ =~= "latest"@);
        BlockTarget::Latest
    } else if len >= 2 && target.get_char(0) == '0' && target.get_char(1) == 'x' {
        BlockTarget::HexNumber(String::from_str(target))
    } else {
        match parse_u64(target, 10) {
            Some(n) => BlockTarget::DecimalNumber(n),
            None => BlockTarget::DecimalNumber(0),
        }
    }
}

/// The first call for a target: a lookup of the chain tip for `Latest`,
/// else the block fetch itself.
pub fn first_step(target: &BlockTarget) -> (r: Step)
    ensures
        (r is Resolve) <==> (target is Latest),
        target matches BlockTarget::HexNumber(s) ==> (r matches Step::Fetch(BlockId::Literal(id))
            && id@ == s@),
        target matches BlockTarget::DecimalNumber(n) ==> (r matches Step::Fetch(
            BlockId::Literal(id),
        ) && id@ == hex_id(n as nat)),
{
    match target {
        BlockTarget::Latest => Step::Resolve,
        BlockTarget::HexNumber(s) => Step::Fetch(BlockId::Literal(s.clone())),
        BlockTarget::DecimalNumber(n) => Step::Fetch(BlockId::Literal(format_hex_id(*n))),
    }
}

/// The first call for command-line text.
pub fn plan(target: &str) -> (r: Step)
    ensures
        match planned_fetch(target@) {
            None => r is Resolve,
            Some(id) => (r matches Step::Fetch(BlockId::Literal(x)) && x@ == id),
        },
{
    first_step(&parse_target(target))
}

/// After the chain tip is looked up, the block is fetched by exactly what
/// the node returned.
pub fn step_after_resolution(resolved: serde_json::Value) -> (r: Step)
    ensures
        r == Step::Fetch(BlockId::Resolved(resolved)),
{
    Step::Fetch(BlockId::Resolved(resolved))
}

/// The request that fetches the block named by `id`, with full transactions.
pub fn fetch_request(id: &BlockId) -> (r: String)
    ensures
        id matches BlockId::Literal(s) ==> r@ == request_text(
            Method::GetBlockByNumber,
            fetch_params(json_quoted(s@)),
        ),
        id matches BlockId::Resolved(_) ==> exists|t: Seq<char>|
            r@ == request_text(Method::GetBlockByNumber, fetch_params(t)),
{
    let id_json = match id {
        BlockId::Literal(s) => quote_json(s.as_str()),
        BlockId::Resolved(v) => json_text(v),
    };
    let params = fetch_params_text(id_json.as_str());
    request_body(Method::GetBlockByNumber, params.as_str())
}

/// Only the target `latest` makes a run look up the chain tip before the fetch.
pub proof fn resolution_only_for_latest(t: Seq<char>)
    ensures
        planned_fetch(t) is None <==> is_latest(t),
{
}

/// A target that starts with `0x` is fetched by exactly that text.
pub proof fn hex_target_is_verbatim(t: Seq<char>)
    requires
        has_hex_prefix(t),
    ensures
        planned_fetch(t) == Some(t),
{
    reveal_strlit("latest");
    assert(!is_latest(t));
}

/// Any other target is read as a decimal number (0 where that fails) and
/// fetched by `0x` and that number's lowercase hex digits.
pub proof fn decimal_target_as_hex(t: Seq<char>)
    requires
        !is_latest(t),
        !has_hex_prefix(t),
    ensures
        planned_fetch(t) == Some(hex_id(decimal_or_zero(t) as nat)),
{
}

} // verus!
