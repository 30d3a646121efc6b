use chat_relay::chatbot::{ChatBot, RequestFailed, Retry, Turn, Verdict, N_RETRIES, RETRY_DELAY_MS};
use chat_relay::message::{first_reply, Choice, Message, Response, Usage, MODEL};
use chat_relay::session::{answer_text, command_of, parse_command, parse_system_instruction, Command, NO_RESPONSE};

fn reply(content: &str) -> Response {
    Response {
        id: Some("cmpl-1".to_string()),
        object: Some("chat.completion".to_string()),
        created: Some(1700000000),
        choices: vec![Choice {
            index: 0,
            message: Message { role: Some("assistant".to_string()), content: content.to_string() },
            finish_reason: Some("stop".to_string()),
        }],
        usage: Usage { prompt_tokens: 5, completion_tokens: 2, total_tokens: 7 },
    }
}

fn empty_reply() -> Response {
    Response {
        id: None,
        object: None,
        created: None,
        choices: vec![],
        usage: Usage { prompt_tokens: 5, completion_tokens: 0, total_tokens: 5 },
    }
}

fn failed() -> Result<Response, RequestFailed> {
    Err(RequestFailed { detail: "connection refused".to_string() })
}

fn roles(bot: &ChatBot) -> Vec<Option<String>> {
    bot.messages.iter().map(|m| m.role.clone()).collect()
}

fn contents(bot: &ChatBot) -> Vec<String> {
    bot.messages.iter().map(|m| m.content.clone()).collect()
}

fn start(bot: &mut ChatBot, line: &str) -> Retry {
    match bot.take_input(line) {
        Turn::Awaiting(r) => r,
        Turn::Finished => panic!("unexpected end of session"),
    }
}

/// Runs one exchange against a sequence of outcomes; returns the verdicts seen.
fn exchange(bot: &mut ChatBot, line: &str, outcomes: Vec<Result<Response, RequestFailed>>) -> Vec<Verdict> {
    let mut retry = start(bot, line);
    let mut seen = Vec::new();
    for o in outcomes {
        let v = bot.on_outcome(&mut retry, o);
        seen.push(v);
        if !matches!(v, Verdict::RetryAfter(_)) {
            break;
        }
    }
    seen
}

#[test]
fn new_session_is_empty_with_default_policy() {
    let bot = ChatBot::new("SECRET-REDACTED".to_string());
    assert_eq!(bot.api_key, "SECRET-REDACTED");
    assert_eq!(bot.policy.n_retries, 3);
    assert_eq!(bot.policy.delay_ms, 1000);
    assert_eq!(N_RETRIES, 3);
    assert_eq!(RETRY_DELAY_MS, 1000);
    assert!(bot.messages.is_empty());
    assert!(bot.responses.is_empty());
    assert_eq!(bot.get_latest_response(), None);
}

#[test]
fn blank_system_instruction_then_hello_then_exit() {
    let mut bot = ChatBot::new("k".to_string());
    bot.take_system_instruction("");
    assert!(bot.messages.is_empty());
    let seen = exchange(&mut bot, "Hello", vec![Ok(reply("Hi there"))]);
    assert_eq!(seen, vec![Verdict::Succeeded]);
    let shown = answer_text(bot.get_latest_response());
    assert_eq!(shown, "Hi there");
    assert!(matches!(bot.take_input("exit"), Turn::Finished));
    assert_eq!(roles(&bot), vec![Some("user".to_string()), Some("assistant".to_string())]);
    assert_eq!(contents(&bot), vec!["Hello".to_string(), "Hi there".to_string()]);
}

#[test]
fn zero_choices_shows_placeholder_and_adds_no_assistant_entry() {
    let mut bot = ChatBot::new("k".to_string());
    let seen = exchange(&mut bot, "Hello", vec![Ok(empty_reply())]);
    assert_eq!(seen, vec![Verdict::Succeeded]);
    assert_eq!(bot.get_latest_response(), None);
    assert_eq!(answer_text(bot.get_latest_response()), NO_RESPONSE);
    assert_eq!(answer_text(None), "No response found");
    assert_eq!(contents(&bot), vec!["Hello".to_string()]);
    assert_eq!(bot.responses.len(), 1);
}

#[test]
fn retry_recovers_after_limit_failures() {
    let mut bot = ChatBot::new("k".to_string());
    let seen = exchange(&mut bot, "Hello", vec![failed(), failed(), failed(), Ok(reply("late"))]);
    assert_eq!(
        seen,
        vec![Verdict::RetryAfter(1000), Verdict::RetryAfter(1000), Verdict::RetryAfter(1000), Verdict::Succeeded]
    );
    let assistants = roles(&bot).iter().filter(|r| r.as_deref() == Some("assistant")).count();
    assert_eq!(assistants, 1);
    assert_eq!(contents(&bot), vec!["Hello".to_string(), "late".to_string()]);
    assert_eq!(bot.responses.len(), 1);
}

#[test]
fn retry_gives_up_after_limit_plus_one_failures() {
    let mut bot = ChatBot::new("k".to_string());
    let seen = exchange(&mut bot, "Hello", vec![failed(), failed(), failed(), failed(), Ok(reply("never"))]);
    assert_eq!(seen.len(), 4);
    assert_eq!(seen[3], Verdict::GaveUp(4));
    let waited: u64 = seen
        .iter()
        .map(|v| match v {
            Verdict::RetryAfter(d) => *d,
            _ => 0,
        })
        .sum();
    assert_eq!(waited, 3 * RETRY_DELAY_MS);
    assert_eq!(contents(&bot), vec!["Hello".to_string()]);
    assert!(bot.responses.is_empty());
}

#[test]
fn sentinels_end_session_in_any_position() {
    for s in ["q", "quit", "exit", "  quit \n"] {
        let mut bot = ChatBot::new("k".to_string());
        assert!(matches!(bot.take_input(s), Turn::Finished));
        assert!(bot.messages.is_empty());
        let mut later = ChatBot::new("k".to_string());
        exchange(&mut later, "one", vec![Ok(reply("1"))]);
        exchange(&mut later, "two", vec![Ok(reply("2"))]);
        assert!(matches!(later.take_input(s), Turn::Finished));
        assert_eq!(later.messages.len(), 4);
        assert_eq!(later.responses.len(), 2);
    }
    assert!(matches!(parse_command("quitting"), Command::Send(ref t) if t == "quitting"));
    assert!(matches!(command_of("Q".to_string()), Command::Send(_)));
    assert!(matches!(command_of("q".to_string()), Command::Quit));
}

#[test]
fn transcript_alternates_after_system_instruction() {
    let mut bot = ChatBot::new("k".to_string());
    bot.take_system_instruction("  Be brief.  ");
    for (q, a) in [("a", "A"), ("b", "B"), ("c", "C")] {
        exchange(&mut bot, q, vec![Ok(reply(a))]);
    }
    assert_eq!(bot.messages.len(), 2 * 3 + 1);
    let r = roles(&bot);
    assert_eq!(r[0].as_deref(), Some("system"));
    for i in 0..3 {
        assert_eq!(r[1 + 2 * i].as_deref(), Some("user"));
        assert_eq!(r[2 + 2 * i].as_deref(), Some("assistant"));
    }
    assert_eq!(contents(&bot)[0], "Be brief.");
    assert_eq!(bot.responses.len(), 3);
}

#[test]
fn history_counts_only_parsed_responses() {
    let mut bot = ChatBot::new("k".to_string());
    exchange(&mut bot, "a", vec![failed(), Ok(reply("A"))]);
    exchange(&mut bot, "b", vec![failed(), failed(), failed(), failed()]);
    exchange(&mut bot, "c", vec![Ok(empty_reply())]);
    assert_eq!(bot.responses.len(), 2);
}

#[test]
fn request_holds_model_and_whole_store() {
    let mut bot = ChatBot::new("k".to_string());
    bot.take_system_instruction("sys");
    start(&mut bot, "Hello");
    let req = bot.build_request();
    assert_eq!(req.model, "gpt-3.5-turbo");
    assert_eq!(req.model, MODEL);
    assert_eq!(req.messages.len(), 2);
    assert_eq!(req.messages[0].role.as_deref(), Some("system"));
    assert_eq!(req.messages[0].content, "sys");
    assert_eq!(req.messages[1].role.as_deref(), Some("user"));
    assert_eq!(req.messages[1].content, "Hello");
}

#[test]
fn reply_and_input_are_trimmed() {
    assert_eq!(first_reply(&reply("\n  Hi there \n\n")), Some("Hi there".to_string()));
    assert_eq!(first_reply(&empty_reply()), None);
    assert_eq!(parse_system_instruction("   \n"), None);
    assert_eq!(parse_system_instruction("  x y \n"), Some("x y".to_string()));
    let mut bot = ChatBot::new("k".to_string());
    start(&mut bot, "  Hello\n");
    assert_eq!(contents(&bot), vec!["Hello".to_string()]);
}

#[test]
fn retry_counter_counts_failures() {
    let mut bot = ChatBot::new("k".to_string());
    let mut retry = start(&mut bot, "x");
    assert_eq!(retry.failures, 0);
    bot.on_outcome(&mut retry, failed());
    bot.on_outcome(&mut retry, failed());
    assert_eq!(retry.failures, 2);
    assert_eq!(bot.on_outcome(&mut retry, Ok(reply("ok"))), Verdict::Succeeded);
    assert_eq!(retry.failures, 2);
}
