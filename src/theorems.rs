//! What holds of the session across several calls.
use vstd::prelude::*;
use crate::chatbot::{
    assistant_entry, recorded, run, system_entry, user_entry, RequestFailed, RetryPolicy, RunEnd, Verdict,
};
use crate::message::{reply_of, trimmed, MessageView, Response};

verus! {

/// The store after the opening system instruction, if one was given, and
/// the given (question, reply) exchanges.
pub open spec fn transcript(system: Option<Seq<char>>, turns: Seq<(Seq<char>, Seq<char>)>) -> Seq<MessageView>
    decreases turns.len(),
{
    if turns.len() == 0 {
        match system {
            Some(s) => seq![system_entry(s)],
            None => Seq::empty(),
        }
    } else {
        let t = turns.last();
        transcript(system, turns.drop_last()).push(user_entry(t.0)).push(assistant_entry(t.1))
    }
}

/// How many entries the system instruction takes: one if given, else none.
pub open spec fn opening_len(system: Option<Seq<char>>) -> int {
    if system is Some { 1 } else { 0 }
}

/// After `k` exchanges the store holds `2k` entries, one more with a system
/// instruction: that instruction first, then user and assistant entries in turn.
pub proof fn law_transcript_shape(system: Option<Seq<char>>, turns: Seq<(Seq<char>, Seq<char>)>)
    ensures
        ({
            let t = transcript(system, turns);
            let off = opening_len(system);
            &&& t.len() == 2 * turns.len() + off
            &&& system is Some ==> t[0] == system_entry(system->0)
            &&& forall|i: int| 0 <= i < turns.len() ==> #[trigger] t[off + 2 * i] == user_entry(turns[i].0)
            &&& forall|i: int| 0 <= i < turns.len() ==> #[trigger] t[off + 2 * i + 1] == assistant_entry(turns[i].1)
        }),
    decreases turns.len(),
{
    if turns.len() > 0 {
        let p = turns.drop_last();
        law_transcript_shape(system, p);
        let off = opening_len(system);
        let tp = transcript(system, p);
        let t = transcript(system, turns);
        assert forall|i: int| 0 <= i < turns.len() implies #[trigger] t[off + 2 * i] == user_entry(turns[i].0) by {
            if i < p.len() {
                assert(tp[off + 2 * i] == user_entry(p[i].0));
            }
        }
        assert forall|i: int| 0 <= i < turns.len() implies #[trigger] t[off + 2 * i + 1] == assistant_entry(turns[i].1) by {
            if i < p.len() {
                assert(tp[off + 2 * i + 1] == assistant_entry(p[i].1));
            }
        }
    }
}

/// An exchange whose response has a choice extends the transcript by the
/// question and the trimmed reply.
pub proof fn law_exchange_extends_transcript(
    system: Option<Seq<char>>,
    turns: Seq<(Seq<char>, Seq<char>)>,
    question: Seq<char>,
    resp: Response,
)
    requires
        resp.choices@.len() > 0,
    ensures
        recorded(transcript(system, turns).push(user_entry(question)), resp) == transcript(
            system,
            turns.push((question, trimmed(resp.choices@[0].message.content@))),
        ),
{
    let nt = turns.push((question, trimmed(resp.choices@[0].message.content@)));
    assert(nt.drop_last() =~= turns);
}

pub open spec fn all_failed(outcomes: Seq<Result<Response, RequestFailed>>) -> bool {
    forall|i: int| 0 <= i < outcomes.len() ==> (#[trigger] outcomes[i]) is Err
}

/// `m` failed attempts, none of them the last allowed, each add one attempt
/// and one pause and leave both stores alone.
proof fn lemma_failed_prefix(
    policy: RetryPolicy,
    k: nat,
    ms: Seq<MessageView>,
    rs: Seq<Response>,
    outcomes: Seq<Result<Response, RequestFailed>>,
    m: nat,
)
    requires
        k + m <= policy.n_retries,
        m <= outcomes.len(),
        all_failed(outcomes.take(m as int)),
    ensures
        ({
            let whole = run(policy, k, ms, rs, outcomes);
            let rest = run(policy, k + m, ms, rs, outcomes.skip(m as int));
            &&& whole.verdict == rest.verdict
            &&& whole.attempts == rest.attempts + m
            &&& whole.waited == rest.waited + m * policy.delay_ms
            &&& whole.messages == rest.messages
            &&& whole.responses == rest.responses
        }),
    decreases m,
{
    if m > 0 {
        assert(outcomes.take(m as int)[0] is Err);
        let tail = outcomes.drop_first();
        assert forall|i: int| 0 <= i < (m - 1) as nat implies (#[trigger] tail.take((m - 1) as int)[i]) is Err by {
            assert(outcomes.take(m as int)[i + 1] is Err);
        }
        assert(all_failed(tail.take((m - 1) as int)));
        lemma_failed_prefix(policy, k + 1, ms, rs, tail, (m - 1) as nat);
        assert(tail.skip((m - 1) as int) =~= outcomes.skip(m as int));
        let d = policy.delay_ms as int;
        assert((m - 1) * d + d == m * d) by (nonlinear_arith);
    } else {
        assert(outcomes.skip(0) =~= outcomes);
    }
}

/// An exchange whose first `n` attempts fail, `n` at most the retry limit,
/// and whose next one succeeds: it succeeds after `n + 1` attempts and `n`
/// pauses, with the response recorded once and, when it has a choice, one new
/// assistant entry.
pub proof fn law_retry_recovers(
    policy: RetryPolicy,
    ms: Seq<MessageView>,
    rs: Seq<Response>,
    failures: Seq<Result<Response, RequestFailed>>,
    resp: Response,
)
    requires
        failures.len() <= policy.n_retries,
        all_failed(failures),
    ensures
        ({
            let e = run(policy, 0, ms, rs, failures.push(Ok(resp)));
            &&& e.verdict == Some(Verdict::Succeeded)
            &&& e.attempts == failures.len() + 1
            &&& e.waited == failures.len() * policy.delay_ms
            &&& e.messages == recorded(ms, resp)
            &&& e.responses == rs.push(resp)
            &&& resp.choices@.len() > 0 ==> e.messages == ms.push(assistant_entry(trimmed(resp.choices@[0].message.content@)))
        }),
{
    let n = failures.len();
    let outs = failures.push(Ok(resp));
    assert(outs.take(n as int) =~= failures);
    lemma_failed_prefix(policy, 0, ms, rs, outs, n);
    let last = outs.skip(n as int);
    assert(last.drop_first().len() == 0);
    assert(last[0] == Ok::<Response, RequestFailed>(resp));
}

/// An exchange whose attempts all fail gives up after the retry limit plus
/// one attempts and as many pauses as the limit, leaving both stores as they were.
pub proof fn law_retry_gives_up(
    policy: RetryPolicy,
    ms: Seq<MessageView>,
    rs: Seq<Response>,
    failures: Seq<Result<Response, RequestFailed>>,
)
    requires
        failures.len() == policy.n_retries + 1,
        all_failed(failures),
    ensures
        ({
            let e = run(policy, 0, ms, rs, failures);
            &&& e.verdict == Some(Verdict::GaveUp((policy.n_retries + 1) as u64))
            &&& e.attempts == policy.n_retries + 1
            &&& e.waited == policy.n_retries * policy.delay_ms
            &&& e.messages == ms
            &&& e.responses == rs
        }),
{
    let n = policy.n_retries as nat;
    assert forall|i: int| 0 <= i < n implies (#[trigger] failures.take(n as int)[i]) is Err by {
        assert(failures[i] is Err);
    }
    lemma_failed_prefix(policy, 0, ms, rs, failures, n);
    let last = failures.skip(n as int);
    assert(last[0] == failures[n as int]);
    assert(last.drop_first().len() == 0);
}

/// The history grows by one response in an exchange that ends in success,
/// and by none in any other: it counts the attempts that came back parsed.
pub proof fn law_history_counts_responses(
    policy: RetryPolicy,
    failures: nat,
    ms: Seq<MessageView>,
    rs: Seq<Response>,
    outcomes: Seq<Result<Response, RequestFailed>>,
)
    ensures
        ({
            let e = run(policy, failures, ms, rs, outcomes);
            e.responses.len() == rs.len() + (if e.verdict == Some(Verdict::Succeeded) { 1int } else { 0int })
        }),
    decreases outcomes.len(),
{
    if outcomes.len() > 0 {
        law_history_counts_responses(policy, failures + 1, ms, rs, outcomes.drop_first());
    }
}

} // verus!
