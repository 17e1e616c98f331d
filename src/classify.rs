use vstd::prelude::*;

use crate::chain::TxHashSchema;
use crate::fee::{can_escalate, escalate, escalated};
use crate::text::{
    chars_of, digit_value, contains, digit_run_at, digit_run_len, digits_to_u64, digits_value, find,
    first_occurrence, is_digit, is_first_occurrence, leading_digits, lemma_digit_run_prefix,
    lemma_first_occurrence_unique,
};

verus! {

/// The phrase in a provider error that precedes the nonce the node expects next.
pub const NONCE_MARKER: &'static str = "next nonce ";

/// The phrase in a provider error that rejects a replacement bid as too low.
pub const UNDERPRICED_MARKER: &'static str = "replacement transaction underpriced";

/// What to do after a submission attempt.
#[derive(Clone, Debug)]
pub enum RetryDirective {
    /// The submission went through with this hash.
    Proceed(TxHashSchema),
    /// Submit again with this nonce.
    RetryWithNonce(u64),
    /// Submit again with this fee bid.
    RetryWithFee(u128),
    /// Give up, with the provider's message.
    Fatal(String),
}

/// The mathematical value of a `RetryDirective`.
pub enum DirectiveModel {
    Proceed(Seq<u8>),
    RetryWithNonce(u64),
    RetryWithFee(u128),
    Fatal(Seq<char>),
}

impl View for RetryDirective {
    type V = DirectiveModel;

    open spec fn view(&self) -> DirectiveModel {
        match self {
            RetryDirective::Proceed(h) => DirectiveModel::Proceed(h@),
            RetryDirective::RetryWithNonce(n) => DirectiveModel::RetryWithNonce(*n),
            RetryDirective::RetryWithFee(f) => DirectiveModel::RetryWithFee(*f),
            RetryDirective::Fatal(m) => DirectiveModel::Fatal(m@),
        }
    }
}

/// The digits that follow the first nonce marker in `msg`.
pub open spec fn suggested_nonce_digits(msg: Seq<char>) -> Seq<char> {
    leading_digits(msg.skip(first_occurrence(msg, NONCE_MARKER@) + NONCE_MARKER@.len()))
}

/// The digits after the first nonce marker form a number that fits a nonce.
pub open spec fn has_usable_nonce(msg: Seq<char>) -> bool {
    let ds = suggested_nonce_digits(msg);
    ds.len() > 0 && digits_value(ds) <= u64::MAX
}

/// The directive for a failed submission whose error text is `msg`, given the
/// fee bid of the failed attempt.
///
/// A nonce marker decides first: the digits right after its first occurrence
/// give the nonce, and without a usable number the error is fatal. Otherwise an
/// underpriced replacement raises the bid. Anything else is fatal.
pub open spec fn classification(msg: Seq<char>, last_fee: u128) -> DirectiveModel {
    if contains(msg, NONCE_MARKER@) {
        if has_usable_nonce(msg) {
            DirectiveModel::RetryWithNonce(digits_value(suggested_nonce_digits(msg)) as u64)
        } else {
            DirectiveModel::Fatal(msg)
        }
    } else if contains(msg, UNDERPRICED_MARKER@) {
        DirectiveModel::RetryWithFee(escalated(last_fee as int) as u128)
    } else {
        DirectiveModel::Fatal(msg)
    }
}

/// The error is one the engine recovers from by submitting again.
pub open spec fn is_transient(msg: Seq<char>) -> bool {
    match classification(msg, 0) {
        DirectiveModel::RetryWithNonce(_) | DirectiveModel::RetryWithFee(_) => true,
        _ => false,
    }
}

/// Classifies the error text of a failed submission.
pub fn classify(msg: &str, last_fee: u128) -> (r: RetryDirective)
    requires
        can_escalate(last_fee),
    ensures
        r@ == classification(msg@, last_fee),
{
    let cs = chars_of(msg);
    let marker = chars_of(NONCE_MARKER);
    match find(&cs, &marker) {
        Some(i) => {
            let start = i + marker.len();
            let run = digit_run_at(&cs, start);
            let ghost tail = cs@.subrange(start as int, cs@.len() as int);
            proof {
                assert(cs@.skip(start as int) =~= tail);
                lemma_digit_run_prefix(tail, run as nat);
                assert(tail.take(run as int) =~= cs@.subrange(start as int, start + run));
            }
            if run == 0 {
                return RetryDirective::Fatal(msg.to_owned());
            }
            match digits_to_u64(&cs, start, start + run) {
                Some(n) => RetryDirective::RetryWithNonce(n),
                None => RetryDirective::Fatal(msg.to_owned()),
            }
        },
        None => {
            let underpriced = chars_of(UNDERPRICED_MARKER);
            match find(&cs, &underpriced) {
                Some(_) => RetryDirective::RetryWithFee(escalate(last_fee)),
                None => RetryDirective::Fatal(msg.to_owned()),
            }
        },
    }
}

/// The nonce marker stands in `msg` at index `pre_len` and nowhere before.
pub open spec fn marker_first_at(msg: Seq<char>, pre_len: int) -> bool {
    is_first_occurrence(msg, NONCE_MARKER@, pre_len)
}

/// An error whose first nonce marker is followed by "42" and then by a
/// character that is no digit (a space, a comma, a newline) asks for nonce 42,
/// whatever the bid.
pub proof fn lemma_nonce_forty_two(pre: Seq<char>, sep: char, post: Seq<char>, last_fee: u128)
    requires
        !is_digit(sep),
        marker_first_at(pre + NONCE_MARKER@ + seq!['4', '2', sep] + post, pre.len() as int),
    ensures
        classification(pre + NONCE_MARKER@ + seq!['4', '2', sep] + post, last_fee)
            == DirectiveModel::RetryWithNonce(42),
{
    reveal_strlit("next nonce ");
    let msg = pre + NONCE_MARKER@ + seq!['4', '2', sep] + post;
    let i = pre.len() as int;
    lemma_first_occurrence_unique(msg, NONCE_MARKER@, i);
    let rest = msg.skip(i + NONCE_MARKER@.len());
    assert(rest =~= seq!['4', '2', sep] + post);
    assert(rest.drop_first().drop_first() =~= seq![sep] + post);
    assert(digit_run_len(rest.drop_first().drop_first()) == 0);
    assert(rest.drop_first()[0] == '2');
    assert(digit_run_len(rest.drop_first()) == 1);
    assert(rest[0] == '4');
    assert(digit_run_len(rest) == 2);
    let ds = suggested_nonce_digits(msg);
    assert(ds =~= seq!['4', '2']);
    assert(ds.drop_last() =~= seq!['4']);
    assert(ds.drop_last().drop_last() =~= Seq::<char>::empty());
    assert(digits_value(ds.drop_last().drop_last()) == 0);
    assert(ds.drop_last().last() == '4');
    assert(digit_value('4') == 4);
    assert(digits_value(ds.drop_last()) == 4);
    assert(ds.last() == '2');
    assert(digit_value('2') == 2);
    assert(digits_value(ds) == 42);
}

/// An error whose first nonce marker is not followed by a digit (as in
/// "next nonce abc", or a marker at the very end) is fatal: no nonce is
/// guessed and the error is not retried.
pub proof fn lemma_unparseable_nonce_is_fatal(pre: Seq<char>, rest: Seq<char>, last_fee: u128)
    requires
        rest.len() == 0 || !is_digit(rest[0]),
        marker_first_at(pre + NONCE_MARKER@ + rest, pre.len() as int),
    ensures
        classification(pre + NONCE_MARKER@ + rest, last_fee) == DirectiveModel::Fatal(
            pre + NONCE_MARKER@ + rest,
        ),
        !is_transient(pre + NONCE_MARKER@ + rest),
{
    let msg = pre + NONCE_MARKER@ + rest;
    let i = pre.len() as int;
    lemma_first_occurrence_unique(msg, NONCE_MARKER@, i);
    assert(msg.skip(i + NONCE_MARKER@.len()) =~= rest);
    assert(digit_run_len(rest) == 0);
    assert(suggested_nonce_digits(msg).len() == 0);
}

/// An error that reports an underpriced replacement, and carries no nonce
/// marker, raises the bid to exactly `floor(last_fee * 1.1)`.
pub proof fn lemma_underpriced_raises_fee(msg: Seq<char>, last_fee: u128)
    requires
        contains(msg, UNDERPRICED_MARKER@),
        !contains(msg, NONCE_MARKER@),
        can_escalate(last_fee),
    ensures
        classification(msg, last_fee) == DirectiveModel::RetryWithFee(
            ((last_fee as int * 11) / 10) as u128,
        ),
        is_transient(msg),
{
    let f = last_fee as int;
    assert(f * 11 == f * 10 + f);
    assert((f * 10 + f) / 10 == f + f / 10) by (nonlinear_arith)
        requires f >= 0;
}

} // verus!
