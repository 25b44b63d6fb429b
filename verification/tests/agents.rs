use nasiko_agents::agent::chat::{
    first_message, read_completion, refuse, request_body, say, say_result, strip_tool_markup,
    usage, ChatReply, Settings,
};
use nasiko_agents::agent::events::{answer, cancel, extract_user_text, fail, Event, Part};
use nasiko_agents::agent::preview::{extract_preview, preview_if_cut, Style};
use nasiko_agents::agent::talk::{is_calling, take_reply, take_result, Rules, Talk, Turn};
use nasiko_agents::coding;
use nasiko_agents::docs;
use nasiko_agents::json::notation::compact;
use nasiko_agents::json::serde::parse;
use nasiko_agents::json::Json;

fn json(text: &str) -> Json {
    parse(text).unwrap()
}

fn completion(message: &str) -> Result<Json, String> {
    Ok(json(&format!("{{\"choices\":[{{\"message\":{message}}}]}}")))
}

fn chat(turn: Turn) -> (Talk, Json) {
    match turn {
        Turn::Chat { talk, body } => (talk, body),
        _ => panic!("a completion is asked for"),
    }
}

fn finished(turn: Turn) -> Vec<Event> {
    match turn {
        Turn::Finish(events) => events,
        _ => panic!("the task is over"),
    }
}

fn text_of(events: &Vec<Event>) -> String {
    assert_eq!(events.len(), 2);
    assert!(matches!(events[1], Event::Completed));
    match &events[0] {
        Event::Artifact { text, append, last_chunk } => {
            assert!(!append);
            assert!(last_chunk);
            text.clone()
        }
        _ => panic!("the answer comes first"),
    }
}

const CALLS: &str = "{\"role\":\"assistant\",\"content\":null,\"tool_calls\":[\
    {\"id\":\"c1\",\"function\":{\"name\":\"read_file\",\"arguments\":\"{\\\"path\\\":\\\"a.rs\\\"}\"}},\
    {\"id\":\"c2\",\"function\":{\"name\":\"run_tests\",\"arguments\":\"{}\"}}]}";

#[test]
fn a_task_ends_with_the_answer() {
    let rules = coding::agent::rules("m");
    let (talk, body) = chat(coding::agent::begin(&rules, "hello"));
    assert_eq!(compact(body.at("temperature")), "0.1");
    assert_eq!(talk.asked, 1);
    let events = finished(take_reply(&rules, talk, completion("{\"content\":\" done \"}")));
    assert_eq!(text_of(&events), "done");
}

#[test]
fn calls_are_made_in_order_and_answered() {
    let rules = coding::agent::rules("m");
    let (talk, _) = chat(coding::agent::begin(&rules, "hello"));
    let (talk, call) = match take_reply(&rules, talk, completion(CALLS)) {
        Turn::Call { talk, call } => (talk, call),
        _ => panic!("a tool is called"),
    };
    assert!(is_calling(&talk));
    assert_eq!(call.name, "read_file");
    assert_eq!(call.arguments, "{\"path\":\"a.rs\"}");
    assert_eq!(call.preview.as_deref(), Some("read_file: a.rs"));
    let (talk, call) = match take_result(&rules, talk, "first result") {
        Turn::Call { talk, call } => (talk, call),
        _ => panic!("the second tool is called"),
    };
    assert_eq!(call.name, "run_tests");
    assert_eq!(call.preview.as_deref(), Some("run_tests"));
    let (talk, body) = chat(take_result(&rules, talk, "second result"));
    assert!(!is_calling(&talk));
    assert_eq!(talk.messages.len(), 5);
    assert_eq!(
        compact(&talk.messages[3]),
        "{\"role\":\"tool\",\"tool_call_id\":\"c1\",\"content\":\"first result\"}"
    );
    assert_eq!(
        compact(&talk.messages[4]),
        "{\"role\":\"tool\",\"tool_call_id\":\"c2\",\"content\":\"second result\"}"
    );
    assert_eq!(body.at("messages").as_items().unwrap().len(), 5);
    assert!(body.get("tools").is_some());
}

#[test]
fn an_empty_answer_is_asked_for_again_without_tools() {
    let rules = coding::agent::rules("m");
    let (talk, _) = chat(coding::agent::begin(&rules, "hello"));
    let (talk, body) = chat(take_reply(&rules, talk, completion("{\"content\":\"<｜DSML｜x\"}")));
    assert!(body.get("tools").is_none());
    assert!(talk.forced);
    assert!(talk.messages[3].at("content").text_or("").starts_with("Tool calls are no longer available."));
    let events = finished(take_reply(&rules, talk, completion("{\"content\":\"\"}")));
    assert_eq!(text_of(&events), "Reached the maximum number of steps without a final answer.");
}

fn exhaust(rules: &Rules, first: Turn) -> (usize, Turn) {
    let mut turn = first;
    let mut chats = 0;
    loop {
        turn = match turn {
            Turn::Chat { talk, body } => {
                chats += 1;
                if body.get("tools").is_none() {
                    return (chats, take_reply(rules, talk, completion("{\"content\":\"so be it\"}")));
                }
                take_reply(rules, talk, completion(CALLS))
            }
            Turn::Call { talk, .. } => take_result(rules, talk, "r"),
            Turn::Finish(_) => panic!("a model that only calls tools is stopped by the last completion"),
        };
    }
}

#[test]
fn the_number_of_completions_is_bounded() {
    let rules = coding::agent::rules("m");
    let (chats, last) = exhaust(&rules, coding::agent::begin(&rules, "x"));
    assert_eq!(chats, 13);
    assert_eq!(text_of(&finished(last)), "so be it");
    let rules = docs::agent::rules("m");
    let (chats, last) = exhaust(&rules, docs::agent::begin(&rules, "x"));
    assert_eq!(chats, 5);
    assert_eq!(text_of(&finished(last)), "so be it");
}

#[test]
fn the_documentation_assistant_may_answer_nothing() {
    let rules = docs::agent::rules("m");
    let (talk, _) = chat(docs::agent::begin(&rules, "x"));
    let (talk, _) = chat(take_reply(&rules, talk, completion("{}")));
    let events = finished(take_reply(&rules, talk, completion("{}")));
    assert_eq!(text_of(&events), "");
    assert!(matches!(docs::agent::greeting(), Event::Working(None)));
}

#[test]
fn a_failed_completion_fails_the_task() {
    let rules = docs::agent::rules("m");
    let (talk, _) = chat(docs::agent::begin(&rules, "x"));
    let events = finished(take_reply(&rules, talk, Err("LLM API 500: x".to_string())));
    assert_eq!(events.len(), 1);
    match &events[0] {
        Event::Failed(reason) => assert_eq!(reason, "LLM API 500: x"),
        _ => panic!("the task has failed"),
    }
}

#[test]
fn completions_are_read() {
    assert_eq!(
        read_completion(ChatReply::Failed("dns".to_string())).unwrap_err(),
        "HTTP error: dns"
    );
    let refused = refuse(401, "401 Unauthorized".to_string(), "no".to_string()).unwrap();
    assert_eq!(read_completion(refused).unwrap_err(), "LLM API 401 Unauthorized: no");
    assert_eq!(
        read_completion(ChatReply::Unreadable("eof".to_string())).unwrap_err(),
        "JSON parse: eof"
    );
    for code in [200, 201, 299] {
        assert!(refuse(code, "X".to_string(), "b".to_string()).is_none());
    }
    for code in [100, 199, 300, 500] {
        let reply = refuse(code, "X".to_string(), "b".to_string()).unwrap();
        assert_eq!(read_completion(reply).unwrap_err(), "LLM API X: b");
    }
    let j = read_completion(ChatReply::Answer(json("{\"usage\":{\"prompt_tokens\":3}}"))).unwrap();
    assert_eq!(usage(&j), (Some(3), None));
    assert_eq!(usage(&json("{}")), (None, None));
    assert_eq!(compact(first_message(&j)), "null");
}

#[test]
fn requests_for_completions() {
    let messages = vec![say("user", "a\"b")];
    let with = request_body("m", &messages, &vec![Json::Null]);
    assert_eq!(
        compact(&with),
        "{\"model\":\"m\",\"messages\":[{\"role\":\"user\",\"content\":\"a\\\"b\"}],\"tools\":[null],\"temperature\":0.1}"
    );
    let without = request_body("m", &messages, &vec![]);
    assert_eq!(
        compact(&without),
        "{\"model\":\"m\",\"messages\":[{\"role\":\"user\",\"content\":\"a\\\"b\"}],\"temperature\":0.1}"
    );
    assert_eq!(
        compact(&say_result("c", "r")),
        "{\"role\":\"tool\",\"tool_call_id\":\"c\",\"content\":\"r\"}"
    );
}

#[test]
fn settings_have_defaults() {
    let s = Settings::new(None, None, None);
    assert_eq!(s.base_url, "https://api.openai.com/v1");
    assert_eq!(s.api_key, "");
    assert_eq!(s.model, "gpt-4o-mini");
    assert_eq!(s.chat_url(), "https://api.openai.com/v1/chat/completions");
    let s = Settings::new(Some("u".to_string()), Some("k".to_string()), Some("m".to_string()));
    assert_eq!((s.base_url.as_str(), s.api_key.as_str(), s.model.as_str()), ("u", "k", "m"));
}

#[test]
fn markup_is_cut_off() {
    assert_eq!(strip_tool_markup(" text <｜DSML｜call"), "text");
    assert_eq!(strip_tool_markup("<｜x"), "");
    assert_eq!(strip_tool_markup("  plain < | \n"), "plain < |");
    for content in [" text <｜DSML｜call", "a \n<｜b<｜c", " <｜", "", " \u{3000}x\t", "< ｜"] {
        let cut = strip_tool_markup(content);
        assert_eq!(strip_tool_markup(&cut), cut);
        assert_eq!(cut.trim(), cut);
        assert!(!cut.contains("<｜"));
    }
}

#[test]
fn calls_are_previewed() {
    let show = |style: Style, args: &str| extract_preview(style, "t", args);
    assert_eq!(show(Style::Target, "{\"command\":\"c\",\"path\":\"p\"}").unwrap(), "t: p");
    assert_eq!(show(Style::Target, "{\"pattern\":\"x\"}").unwrap(), "t: x");
    assert_eq!(show(Style::Target, "{\"path\":1,\"command\":\"c\"}").unwrap(), "t");
    assert_eq!(show(Style::Target, "not json").unwrap(), "t");
    let long = format!("{{\"path\":\"{}\"}}", "a".repeat(61));
    assert_eq!(show(Style::Target, &long).unwrap(), format!("t: {}…", "a".repeat(60)));
    assert_eq!(show(Style::FirstText, &long).unwrap(), format!("t: {}...", "a".repeat(60)));
    assert_eq!(show(Style::FirstText, "{\"b\":\"2\",\"a\":1,\"c\":\"3\"}").unwrap(), "t: 2");
    assert_eq!(show(Style::FirstText, "{}").unwrap(), "t: ...");
    assert_eq!(show(Style::FirstText, "[]").unwrap(), "t: ...");
    let wide = format!("{{\"path\":\"{}ßß\"}}", "a".repeat(59));
    assert_eq!(show(Style::Target, &wide), None);
    assert_eq!(show(Style::FirstText, &wide), None);
    assert_eq!(preview_if_cut(Style::Target, "t", &Err("bad".to_string())).unwrap(), "t");
}

#[test]
fn events_of_a_task() {
    assert_eq!(text_of(&answer("a".to_string())), "a");
    assert!(matches!(fail("e".to_string())[0], Event::Failed(_)));
    let events = cancel();
    assert_eq!(events.len(), 1);
    assert!(matches!(events[0], Event::Completed));
}

#[test]
fn the_text_of_a_message() {
    assert_eq!(extract_user_text(&None), "");
    assert_eq!(extract_user_text(&Some(vec![])), "");
    let parts = vec![Part::Text("a".to_string()), Part::Other, Part::Text("b".to_string())];
    assert_eq!(extract_user_text(&Some(parts)), "a\nb");
}

#[test]
fn the_documentation_assistant_has_a_card() {
    let card = docs::agent::agent_card(8000);
    assert_eq!(card.name, "Documentation Assistant");
    assert_eq!(card.url, "http://0.0.0.0:8000/");
    assert_eq!(card.skills[0].tags, vec!["docs", "rust", "npm", "python"]);
    assert_eq!(card.skills[0].examples, None);
    assert!(card.streaming);
    assert!(!card.push_notifications);
}
