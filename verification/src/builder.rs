use vstd::prelude::*;

verus! {

/// A reference to a spendable output: the funding transaction id (as hex
/// text) and the output index.
#[derive(Clone, Debug)]
pub struct UtxoRef {
    pub txid: String,
    pub vout: u32,
}

/// Whether two references point at the same output.
pub open spec fn same_outpoint(a: UtxoRef, b: UtxoRef) -> bool {
    a.txid@ == b.txid@ && a.vout == b.vout
}

/// Whether a list of references contains the given output.
pub open spec fn outpoint_in(s: Seq<UtxoRef>, u: UtxoRef) -> bool {
    exists|i: int| 0 <= i < s.len() && same_outpoint(s[i], u)
}

/// Coin-selection directives for one build call: outputs that must fund
/// the transaction, and outputs that may not be selected. The two sets
/// are caller-supplied and deliberately not checked for disjointness.
#[derive(Debug)]
pub struct ConstraintSet {
    pub must_spend: Vec<UtxoRef>,
    pub dont_spend: Vec<UtxoRef>,
}

/// The fee policy of a build call: exactly one of a rate in satoshis per
/// virtual byte or an absolute fee in satoshis.
#[derive(Clone, Copy, Debug, PartialEq, Eq, Structural)]
pub enum FeePolicy {
    Rate(u64),
    Absolute(u64),
}

/// An intended payment: the recipient address, the amount in satoshis,
/// and the fee policy.
#[derive(Debug)]
pub struct TransactionRequest {
    pub recipient: String,
    pub amount: u64,
    pub policy: FeePolicy,
}

/// The directives every build call hands the engine's builder: the
/// caller's amount and fee policy, replace-by-fee always signaled,
/// outputs shuffled so the change position leaks nothing, and inputs
/// restricted to those with a known witness UTXO.
///
/// One directive is intended but not expressible: change should be drawn
/// from the current, non-advancing change address, but the engine's
/// builder offers no such choice and always advances to a fresh internal
/// address. It is recorded here rather than silently dropped.
#[derive(Clone, Copy, Debug, PartialEq, Eq, Structural)]
pub struct BuildDirectives {
    pub rbf: bool,
    pub shuffle_outputs: bool,
    pub only_witness_utxo: bool,
    pub amount: u64,
    pub policy: FeePolicy,
}

/// Fixes the build policy for one transaction-build call.
pub fn build_directives(amount: u64, policy: FeePolicy) -> (r: BuildDirectives)
    ensures
        r.rbf,
        r.shuffle_outputs,
        r.only_witness_utxo,
        r.amount == amount,
        r.policy == policy,
{
    BuildDirectives { rbf: true, shuffle_outputs: true, only_witness_utxo: true, amount, policy }
}

/// Whether the list holds an output equal to `u`.
pub fn outpoint_contains(list: &Vec<UtxoRef>, u: &UtxoRef) -> (r: bool)
    ensures
        r == outpoint_in(list@, *u),
{
    let n = list.len();
    let mut i: usize = 0;
    while i < n
        invariant
            i <= n,
            n == list@.len(),
            forall|k: int| 0 <= k < i ==> !same_outpoint(list@[k], *u),
        decreases n - i,
    {
        let item = &list[i];
        if item.vout == u.vout && item.txid == u.txid {
            return true;
        }
        i = i + 1;
    }
    false
}

/// Whether the constraints of a build call hold of the inputs actually
/// selected: every must-spend output is among them, and no dont-spend
/// output is.
pub open spec fn constraints_hold(
    inputs: Seq<UtxoRef>,
    must_spend: Seq<UtxoRef>,
    dont_spend: Seq<UtxoRef>,
) -> bool {
    &&& forall|i: int| 0 <= i < must_spend.len() ==> outpoint_in(inputs, #[trigger] must_spend[i])
    &&& forall|j: int| 0 <= j < dont_spend.len() ==> !outpoint_in(inputs, #[trigger] dont_spend[j])
}

/// Checks a built transaction's input list against the constraint sets:
/// true exactly when every must-spend output was selected and no
/// dont-spend output was.
pub fn constraints_honored(
    inputs: &Vec<UtxoRef>,
    must_spend: &Vec<UtxoRef>,
    dont_spend: &Vec<UtxoRef>,
) -> (r: bool)
    ensures
        r == constraints_hold(inputs@, must_spend@, dont_spend@),
{
    let n_must = must_spend.len();
    let mut i: usize = 0;
    while i < n_must
        invariant
            i <= n_must,
            n_must == must_spend@.len(),
            forall|k: int| 0 <= k < i ==> outpoint_in(inputs@, #[trigger] must_spend@[k]),
        decreases n_must - i,
    {
        if !outpoint_contains(inputs, &must_spend[i]) {
            return false;
        }
        i = i + 1;
    }
    let n_dont = dont_spend.len();
    let mut j: usize = 0;
    while j < n_dont
        invariant
            j <= n_dont,
            n_dont == dont_spend@.len(),
            forall|k: int| 0 <= k < j ==> !outpoint_in(inputs@, #[trigger] dont_spend@[k]),
            forall|k: int| 0 <= k < must_spend@.len() ==> outpoint_in(
                inputs@,
                #[trigger] must_spend@[k],
            ),
        decreases n_dont - j,
    {
        if outpoint_contains(inputs, &dont_spend[j]) {
            return false;
        }
        j = j + 1;
    }
    true
}

/// The fee policy that probes the maximum feasible fee rate: send the
/// whole spendable balance, with everything above the intended amount as
/// an absolute fee. An amount beyond the balance cannot be probed.
pub fn max_fee_policy(balance: u64, amount: u64) -> (r: Option<FeePolicy>)
    ensures
        amount <= balance ==> r == Some(FeePolicy::Absolute((balance - amount) as u64)),
        amount > balance ==> r is None,
{
    if amount <= balance {
        Some(FeePolicy::Absolute(balance - amount))
    } else {
        None
    }
}

/// The wallet's total balance: confirmed, immature, and trusted and
/// untrusted pending amounts together; a sum beyond the 64-bit satoshi
/// range is refused.
pub fn total_balance(confirmed: u64, immature: u64, trusted_pending: u64, untrusted_pending: u64)
    -> (r: Option<u64>)
    ensures
        confirmed + immature + trusted_pending + untrusted_pending <= u64::MAX ==> r == Some(
            (confirmed + immature + trusted_pending + untrusted_pending) as u64,
        ),
        confirmed + immature + trusted_pending + untrusted_pending > u64::MAX ==> r is None,
{
    let a = match confirmed.checked_add(immature) {
        Some(v) => v,
        None => {
            return None;
        },
    };
    let b = match a.checked_add(trusted_pending) {
        Some(v) => v,
        None => {
            return None;
        },
    };
    match b.checked_add(untrusted_pending) {
        Some(v) => Some(v),
        None => None,
    }
}

} // verus!
