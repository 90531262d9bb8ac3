//! The report of the command line: every success before every failure, and
//! the exit code that the failures decide.

pub mod output_message;

use vstd::prelude::*;
use crate::cli::output_message::OutputMessage;

verus! {

/// The messages that report a success, in their order.
pub open spec fn successes(messages: Seq<OutputMessage>) -> Seq<OutputMessage> {
    messages.filter(|m: OutputMessage| !m.is_err)
}

/// The messages that report a failure, in their order.
pub open spec fn failures(messages: Seq<OutputMessage>) -> Seq<OutputMessage> {
    messages.filter(|m: OutputMessage| m.is_err)
}

/// The order in which the report prints messages: the successes, then the
/// failures, each group in the order in which the messages came.
pub open spec fn report_order(messages: Seq<OutputMessage>) -> Seq<OutputMessage> {
    successes(messages) + failures(messages)
}

/// Whether any message reports a failure.
pub open spec fn has_failure(messages: Seq<OutputMessage>) -> bool {
    exists|i: int| 0 <= i < messages.len() && #[trigger] messages[i].is_err
}

/// The exit code of the command line: 1 where a message reports a failure,
/// else 0.
pub open spec fn spec_exit_code(messages: Seq<OutputMessage>) -> i32 {
    if has_failure(messages) {
        1
    } else {
        0
    }
}

/// Whether the walk over the working directory keeps an entry: every
/// directory (to look inside it), and every file whose extension is `wgsl`.
pub fn keep_entry(is_dir: bool, extension: Option<&str>) -> (keep: bool)
    ensures
        keep == (is_dir || (extension matches Some(ext) && ext@ == "wgsl"@)),
{
    if is_dir {
        true
    } else {
        match extension {
            Some(ext) => ext.to_owned() == "wgsl".to_owned(),
            None => false,
        }
    }
}

/// Puts the messages in report order: successes first, failures after, each
/// group keeping the order in which the messages came.
pub fn sort_messages(messages: Vec<OutputMessage>) -> (sorted: Vec<OutputMessage>)
    ensures
        sorted@ == report_order(messages@),
{
    let ghost all = messages@;
    let mut rest = messages;
    let mut passed: Vec<OutputMessage> = Vec::new();
    let mut failed: Vec<OutputMessage> = Vec::new();
    let ghost mut k: int = 0;
    while rest.len() > 0
        invariant
            0 <= k <= all.len(),
            rest@ == all.skip(k),
            passed@ == successes(all.take(k)),
            failed@ == failures(all.take(k)),
        decreases rest.len(),
    {
        let m = rest.remove(0);
        proof {
            reveal(Seq::filter);
            assert(all.take(k + 1).drop_last() =~= all.take(k));
            assert(all.take(k + 1).last() == all[k]);
            assert(all.skip(k + 1) =~= all.skip(k).remove(0));
        }
        if m.is_err {
            failed.push(m);
        } else {
            passed.push(m);
        }
        proof {
            k = k + 1;
        }
    }
    assert(all.take(k) =~= all);
    passed.append(&mut failed);
    passed
}

/// The exit code for the messages: 1 where any reports a failure, else 0.
pub fn exit_code(messages: &Vec<OutputMessage>) -> (code: i32)
    ensures
        code == spec_exit_code(messages@),
        (exists|i: int| 0 <= i < messages@.len() && #[trigger] messages@[i].is_err) ==> code == 1,
        (forall|i: int| 0 <= i < messages@.len() ==> !(#[trigger] messages@[i]).is_err) ==> code == 0,
{
    let mut i: usize = 0;
    while i < messages.len()
        invariant
            i <= messages.len(),
            forall|j: int| 0 <= j < i ==> !(#[trigger] messages@[j]).is_err,
        decreases messages.len() - i,
    {
        if messages[i].is_err {
            assert(messages@[i as int].is_err);
            return 1;
        }
        i = i + 1;
    }
    0
}

/// Filtering by a predicate that every element meets keeps the whole sequence.
proof fn lemma_filter_all<A>(s: Seq<A>, pred: spec_fn(A) -> bool)
    requires
        forall|i: int| 0 <= i < s.len() ==> pred(#[trigger] s[i]),
    ensures
        s.filter(pred) == s,
    decreases s.len(),
{
    reveal(Seq::filter);
    if s.len() > 0 {
        lemma_filter_all(s.drop_last(), pred);
        assert(s.drop_last().push(s.last()) =~= s);
    }
}

/// Filtering by a predicate that no element meets keeps nothing.
proof fn lemma_filter_none<A>(s: Seq<A>, pred: spec_fn(A) -> bool)
    requires
        forall|i: int| 0 <= i < s.len() ==> !pred(#[trigger] s[i]),
    ensures
        s.filter(pred) == Seq::<A>::empty(),
    decreases s.len(),
{
    reveal(Seq::filter);
    if s.len() > 0 {
        lemma_filter_none(s.drop_last(), pred);
    }
}

/// Putting the messages in report order loses and adds none: the report
/// holds the same messages, as often as they came.
pub proof fn lemma_report_is_permutation(messages: Seq<OutputMessage>)
    ensures
        report_order(messages).to_multiset() == messages.to_multiset(),
    decreases messages.len(),
{
    broadcast use vstd::seq_lib::group_to_multiset_ensures;
    broadcast use vstd::seq_lib::lemma_multiset_commutative;

    reveal(Seq::filter);
    if messages.len() > 0 {
        let init = messages.drop_last();
        let x = messages.last();
        lemma_report_is_permutation(init);
        assert(init.push(x) =~= messages);
        if x.is_err {
            assert(report_order(messages) =~= report_order(init).push(x));
        } else {
            assert(report_order(messages) =~= (successes(init).push(x) + failures(init)));
            assert((successes(init).push(x) + failures(init)).to_multiset() =~= successes(
                init,
            ).push(x).to_multiset().add(failures(init).to_multiset()));
            assert(report_order(init).to_multiset() =~= successes(init).to_multiset().add(
                failures(init).to_multiset(),
            ));
        }
    }
}

/// In the report, every success comes before every failure.
pub proof fn lemma_report_successes_first(messages: Seq<OutputMessage>, i: int, j: int)
    requires
        0 <= i < j < report_order(messages).len(),
        report_order(messages)[i].is_err,
    ensures
        report_order(messages)[j].is_err,
{
    broadcast use vstd::seq_lib::group_filter_ensures;

    let n = successes(messages).len();
    if i < n {
        assert(successes(messages)[i] == report_order(messages)[i]);
    }
    assert(failures(messages)[j - n] == report_order(messages)[j]);
}

/// Ordering a report that is already in order changes nothing.
pub proof fn lemma_report_order_idempotent(messages: Seq<OutputMessage>)
    ensures
        report_order(report_order(messages)) == report_order(messages),
{
    broadcast use vstd::seq_lib::group_filter_ensures;

    let ok = successes(messages);
    let bad = failures(messages);
    lemma_filter_all(ok, |m: OutputMessage| !m.is_err);
    lemma_filter_none(bad, |m: OutputMessage| !m.is_err);
    lemma_filter_none(ok, |m: OutputMessage| m.is_err);
    lemma_filter_all(bad, |m: OutputMessage| m.is_err);
    Seq::filter_distributes_over_add(ok, bad, |m: OutputMessage| !m.is_err);
    Seq::filter_distributes_over_add(ok, bad, |m: OutputMessage| m.is_err);
    assert(successes(ok + bad) =~= ok);
    assert(failures(ok + bad) =~= bad);
}

/// The exit code is 1 whenever some message reports a failure, however many
/// do, and 0 when none does.
pub proof fn lemma_exit_code_flags_any_failure(messages: Seq<OutputMessage>)
    ensures
        (exists|i: int| 0 <= i < messages.len() && #[trigger] messages[i].is_err) ==> spec_exit_code(
            messages,
        ) == 1,
        (forall|i: int| 0 <= i < messages.len() ==> !(#[trigger] messages[i]).is_err) ==> spec_exit_code(
            messages,
        ) == 0,
{
}

/// The exit code does not depend on the order of the messages: the report
/// in its order gives the code that the messages gave as they came.
pub proof fn lemma_exit_code_of_report(messages: Seq<OutputMessage>)
    ensures
        spec_exit_code(report_order(messages)) == spec_exit_code(messages),
{
    broadcast use vstd::seq_lib::group_to_multiset_ensures;

    lemma_report_is_permutation(messages);
    let r = report_order(messages);
    if has_failure(messages) {
        let i = choose|i: int| 0 <= i < messages.len() && #[trigger] messages[i].is_err;
        assert(messages.contains(messages[i]));
        assert(messages.to_multiset().count(messages[i]) > 0);
        assert(r.contains(messages[i]));
        let j = choose|j: int| 0 <= j < r.len() && r[j] == messages[i];
        assert(r[j].is_err);
    }
    if has_failure(r) {
        let i = choose|i: int| 0 <= i < r.len() && #[trigger] r[i].is_err;
        assert(r.contains(r[i]));
        assert(r.to_multiset().count(r[i]) > 0);
        assert(messages.contains(r[i]));
        let j = choose|j: int| 0 <= j < messages.len() && messages[j] == r[i];
        assert(messages[j].is_err);
    }
}

} // verus!
