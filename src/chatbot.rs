//! The conversation state and the retry decisions around each completion
//! request. Sending a request and waiting between attempts is left to the
//! caller, which reports each attempt's outcome back here.
use vstd::prelude::*;
use crate::session::{is_sentinel, parse_command, parse_system_instruction, Command};
use crate::message::{first_reply, opt_text, reply_of, trimmed, views, Message, MessageView, Request, Response, MODEL};

verus! {

/// How many times a failed request is sent again.
pub const N_RETRIES: u32 = 3;

/// The pause between two attempts, in milliseconds.
pub const RETRY_DELAY_MS: u64 = 1000;

/// The retry limit and the pause between attempts.
#[derive(Clone, Copy, Debug, PartialEq, Eq, Structural)]
pub struct RetryPolicy {
    pub n_retries: u32,
    pub delay_ms: u64,
}

/// A request that did not come back with a parsed response.
pub struct RequestFailed {
    pub detail: String,
}

/// The progress of one exchange: how many of its attempts have failed.
#[derive(Clone, Copy, Debug, PartialEq, Eq, Structural)]
pub struct Retry {
    pub failures: u64,
}

/// What the caller does after an attempt.
#[derive(Clone, Copy, Debug, PartialEq, Eq, Structural)]
pub enum Verdict {
    /// The response was recorded; the exchange is over.
    Succeeded,
    /// Wait this many milliseconds, then send the request again.
    RetryAfter(u64),
    /// Every attempt failed; the value is how many were made.
    GaveUp(u64),
}

/// What a line typed in the chat asks of the session.
pub enum Turn {
    /// The session ends; nothing is sent.
    Finished,
    /// The line is in the store; attempts of the exchange follow.
    Awaiting(Retry),
}

/// A chat session: the message store and the history of responses.
pub struct ChatBot {
    pub api_key: String,
    pub policy: RetryPolicy,
    pub messages: Vec<Message>,
    pub responses: Vec<Response>,
}

pub open spec fn entry(role: Seq<char>, content: Seq<char>) -> MessageView {
    MessageView { role: Some(role), content }
}

pub open spec fn system_entry(content: Seq<char>) -> MessageView {
    entry("system"@, content)
}

pub open spec fn user_entry(content: Seq<char>) -> MessageView {
    entry("user"@, content)
}

pub open spec fn assistant_entry(content: Seq<char>) -> MessageView {
    entry("assistant"@, content)
}

/// The store after a response came back: its reply, if it has one, is added.
pub open spec fn recorded(ms: Seq<MessageView>, resp: Response) -> Seq<MessageView> {
    match reply_of(resp) {
        Some(t) => ms.push(assistant_entry(t)),
        None => ms,
    }
}

/// What follows an attempt that had made `failures` failed attempts before it.
pub open spec fn verdict(policy: RetryPolicy, failures: nat, succeeded: bool) -> Verdict {
    if succeeded {
        Verdict::Succeeded
    } else if failures < policy.n_retries {
        Verdict::RetryAfter(policy.delay_ms)
    } else {
        Verdict::GaveUp((failures + 1) as u64)
    }
}

pub open spec fn messages_after(ms: Seq<MessageView>, outcome: Result<Response, RequestFailed>) -> Seq<MessageView> {
    match outcome {
        Ok(resp) => recorded(ms, resp),
        Err(_) => ms,
    }
}

pub open spec fn responses_after(rs: Seq<Response>, outcome: Result<Response, RequestFailed>) -> Seq<Response> {
    match outcome {
        Ok(resp) => rs.push(resp),
        Err(_) => rs,
    }
}

/// Where a run of attempts ends: the final verdict (none if the outcomes ran
/// out first), the attempts made, the time waited, and the two stores.
pub ghost struct RunEnd {
    pub verdict: Option<Verdict>,
    pub attempts: nat,
    pub waited: nat,
    pub messages: Seq<MessageView>,
    pub responses: Seq<Response>,
}

/// The attempts of one exchange, fed the given outcomes one after another
/// until a verdict ends it.
pub open spec fn run(
    policy: RetryPolicy,
    failures: nat,
    ms: Seq<MessageView>,
    rs: Seq<Response>,
    outcomes: Seq<Result<Response, RequestFailed>>,
) -> RunEnd
    decreases outcomes.len(),
{
    if outcomes.len() == 0 {
        RunEnd { verdict: None, attempts: 0, waited: 0, messages: ms, responses: rs }
    } else {
        let o = outcomes[0];
        let v = verdict(policy, failures, o is Ok);
        let ms2 = messages_after(ms, o);
        let rs2 = responses_after(rs, o);
        match v {
            Verdict::RetryAfter(d) => {
                let rest = run(policy, failures + 1, ms2, rs2, outcomes.drop_first());
                RunEnd { attempts: rest.attempts + 1 as nat, waited: rest.waited + d as nat, ..rest }
            },
            _ => RunEnd { verdict: Some(v), attempts: 1, waited: 0, messages: ms2, responses: rs2 },
        }
    }
}

impl ChatBot {
    /// A session with an empty store, the given credential and the default policy.
    pub fn new(api_key: String) -> (r: ChatBot)
        ensures
            r.api_key == api_key,
            r.policy == (RetryPolicy { n_retries: N_RETRIES, delay_ms: RETRY_DELAY_MS }),
            r.messages@.len() == 0,
            r.responses@.len() == 0,
    {
        ChatBot {
            api_key,
            policy: RetryPolicy { n_retries: N_RETRIES, delay_ms: RETRY_DELAY_MS },
            messages: Vec::new(),
            responses: Vec::new(),
        }
    }

    /// Adds an entry to the end of the message store.
    pub fn append(&mut self, role: &str, content: &str)
        ensures
            views(final(self).messages@) == views(old(self).messages@).push(entry(role@, content@)),
            final(self).responses@ == old(self).responses@,
            final(self).policy == old(self).policy,
            final(self).api_key == old(self).api_key,
    {
        let m = Message { role: Some(role.to_owned()), content: content.to_owned() };
        self.messages.push(m);
        proof {
            assert(views(self.messages@) =~= views(old(self).messages@).push(entry(role@, content@)));
        }
    }
    /// Adds the system instruction that opens the conversation.
    pub fn set_system_instruction(&mut self, content: &str)
        ensures
            views(final(self).messages@) == views(old(self).messages@).push(system_entry(content@)),
            final(self).responses@ == old(self).responses@,
            final(self).policy == old(self).policy,
            final(self).api_key == old(self).api_key,
    {
        self.append("system", content);
    }

    /// Starts an exchange: the entry goes into the store once, and no attempt
    /// has failed yet.
    pub fn begin_exchange(&mut self, role: &str, content: &str) -> (r: Retry)
        ensures
            views(final(self).messages@) == views(old(self).messages@).push(entry(role@, content@)),
            final(self).responses@ == old(self).responses@,
            final(self).policy == old(self).policy,
            final(self).api_key == old(self).api_key,
            r.failures == 0,
    {
        self.append(role, content);
        Retry { failures: 0 }
    }

    /// The request for the next attempt: the model and a copy of the whole store.
    pub fn build_request(&self) -> (r: Request)
        ensures
            r.model@ == MODEL@,
            views(r.messages@) == views(self.messages@),
    {
        let mut out: Vec<Message> = Vec::new();
        let n = self.messages.len();
        let mut i: usize = 0;
        while i < n
            invariant
                n == self.messages@.len(),
                i <= n,
                out@.len() == i,
                forall|j: int| 0 <= j < i ==> out@[j]@ == self.messages@[j]@,
            decreases n - i,
        {
            out.push(self.messages[i].duplicate());
            i += 1;
        }
        proof {
            assert(views(out@) =~= views(self.messages@));
        }
        Request { model: MODEL.to_owned(), messages: out }
    }

    /// Records a response whose trimmed reply text is `reply`: the reply, if
    /// any, joins the store as an assistant entry, and the response joins the
    /// history.
    pub fn record_reply(&mut self, resp: Response, reply: Option<String>)
        ensures
            views(final(self).messages@) == (match opt_text(reply) {
                Some(t) => views(old(self).messages@).push(assistant_entry(t)),
                None => views(old(self).messages@),
            }),
            final(self).responses@ == old(self).responses@.push(resp),
            final(self).policy == old(self).policy,
            final(self).api_key == old(self).api_key,
    {
        match reply {
            Some(t) => {
                self.append("assistant", t.as_str());
            },
            None => {},
        }
        self.responses.push(resp);
    }

    /// Records a response that came back: its first choice's trimmed text, if
    /// it has a choice, joins the store, and the response joins the history.
    pub fn record_response(&mut self, resp: Response)
        ensures
            views(final(self).messages@) == recorded(views(old(self).messages@), resp),
            final(self).responses@ == old(self).responses@.push(resp),
            final(self).policy == old(self).policy,
            final(self).api_key == old(self).api_key,
    {
        let reply = first_reply(&resp);
        self.record_reply(resp, reply);
    }

    /// Takes the line typed at the opening prompt: unless it is blank, its
    /// trimmed text becomes the system instruction.
    pub fn take_system_instruction(&mut self, line: &str)
        ensures
            views(final(self).messages@) == (if trimmed(line@).len() == 0 {
                views(old(self).messages@)
            } else {
                views(old(self).messages@).push(system_entry(trimmed(line@)))
            }),
            final(self).responses@ == old(self).responses@,
            final(self).policy == old(self).policy,
            final(self).api_key == old(self).api_key,
    {
        match parse_system_instruction(line) {
            Some(t) => self.set_system_instruction(t.as_str()),
            None => {},
        }
    }

    /// Takes a line typed in the chat. A sentinel (`q`, `quit`, `exit`)
    /// ends the session and leaves the session as it was; any other line
    /// joins the store, trimmed, as a user entry and starts an exchange.
    pub fn take_input(&mut self, line: &str) -> (r: Turn)
        ensures
            (r is Finished) == is_sentinel(trimmed(line@)),
            r is Finished ==> views(final(self).messages@) == views(old(self).messages@),
            r is Awaiting ==> views(final(self).messages@) == views(old(self).messages@).push(user_entry(trimmed(line@))),
            r is Awaiting ==> r->Awaiting_0.failures == 0,
            final(self).responses@ == old(self).responses@,
            final(self).policy == old(self).policy,
            final(self).api_key == old(self).api_key,
    {
        match parse_command(line) {
            Command::Quit => Turn::Finished,
            Command::Send(t) => Turn::Awaiting(self.begin_exchange("user", t.as_str())),
        }
    }

    /// Takes the outcome of an attempt and says what comes next. A response
    /// is recorded; a failure changes neither store, and is followed by a
    /// pause and a new attempt until the retries are spent.
    pub fn on_outcome(&mut self, retry: &mut Retry, outcome: Result<Response, RequestFailed>) -> (v: Verdict)
        requires
            old(retry).failures <= old(self).policy.n_retries,
        ensures
            v == verdict(old(self).policy, old(retry).failures as nat, outcome is Ok),
            final(retry).failures == (if outcome is Ok { old(retry).failures as int } else { old(retry).failures + 1 }),
            views(final(self).messages@) == messages_after(views(old(self).messages@), outcome),
            final(self).responses@ == responses_after(old(self).responses@, outcome),
            final(self).policy == old(self).policy,
            final(self).api_key == old(self).api_key,
    {
        match outcome {
            Ok(resp) => {
                self.record_response(resp);
                Verdict::Succeeded
            },
            Err(_) => {
                let failures = retry.failures;
                retry.failures = failures + 1;
                if failures < self.policy.n_retries as u64 {
                    Verdict::RetryAfter(self.policy.delay_ms)
                } else {
                    Verdict::GaveUp(failures + 1)
                }
            },
        }
    }

    /// The trimmed reply of the latest response; `None` when no response has
    /// come back yet or the latest one has no choices.
    pub fn get_latest_response(&self) -> (r: Option<String>)
        ensures
            opt_text(r) == (if self.responses@.len() == 0 {
                None
            } else {
                reply_of(self.responses@.last())
            }),
    {
        let n = self.responses.len();
        if n == 0 {
            None
        } else {
            first_reply(&self.responses[n - 1])
        }
    }
}


} // verus!
