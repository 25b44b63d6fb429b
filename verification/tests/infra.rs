use nasiko_agents::agent::events::Event;
use nasiko_agents::http::succeeds;
use nasiko_agents::infra::agent::{
    agent_card, begin, greeting, is_calling, pick_calls, take_content, take_end, take_error,
    take_result, Talk, Turn,
};
use nasiko_agents::infra::reception::{chat_stream, ChatEvent, Reception, Sent};
use nasiko_agents::infra::stream::{
    fits, line_data, record_stream, take_event, Decoder, Item, ToolCallBuilder,
};
use nasiko_agents::json::notation::compact;
use nasiko_agents::json::serde::parse;

fn content(items: &Vec<Item>) -> String {
    let mut out = String::new();
    for i in items {
        if let Item::Content(t) = i {
            out.push_str(t);
        }
    }
    out
}

const STREAM: &str = "data: {\"choices\":[{\"delta\":{\"content\":\"Hel\"}}]}\r\n\r\n: comment\n\
data:{\"choices\":[{\"delta\":{\"content\":\"\"}}]}\n\
data: {\"choices\":[{\"delta\":{\"content\":\"lö\"}}]}\n\
data: {\"choices\":[{\"delta\":{\"tool_calls\":[{\"index\":1,\"id\":\"b\",\"function\":{\"name\":\"dns\",\"arguments\":\"{\\\"a\\\"\"}}]}}]}\n\
data: not json\n\
data: {\"choices\":[{\"delta\":{\"tool_calls\":[{\"index\":1,\"function\":{\"arguments\":\":1}\"}}]}}]}\n\
data: {\"choices\":[],\"usage\":{\"prompt_tokens\":5,\"completion_tokens\":7}}\n\
data: [DONE]\n";

#[test]
fn a_stream_is_decoded() {
    let (d, items) = Decoder::new().feed(STREAM).unwrap();
    assert_eq!(content(&items), "Hellö");
    assert_eq!(items.len(), 3);
    assert!(matches!(items[2], Item::Usage { input: 5, output: 7 }));
    assert_eq!(d.content, "Hellö");
    assert_eq!(d.buf, "");
    assert_eq!(d.calls.len(), 2);
    assert_eq!(d.calls[0].name, "");
    assert_eq!(d.calls[1].id, "b");
    assert_eq!(d.calls[1].name, "dns");
    assert_eq!(d.calls[1].arguments, "{\"a\":1}");
}

#[test]
fn chunking_does_not_matter() {
    let chars: Vec<char> = STREAM.chars().collect();
    for size in [1, 2, 7, 50, 1000] {
        let mut d = Decoder::new();
        let mut items: Vec<Item> = Vec::new();
        for piece in chars.chunks(size) {
            let t: String = piece.iter().collect();
            let (next, more) = d.feed(&t).unwrap();
            d = next;
            items.extend(more);
        }
        assert_eq!(content(&items), "Hellö");
        assert_eq!(d.content, "Hellö");
        assert_eq!(d.calls[1].arguments, "{\"a\":1}");
        assert_eq!(d.buf, "");
    }
}

#[test]
fn bytes_are_decoded() {
    let (d, items) = Decoder::new().feed_bytes(&STREAM.as_bytes().to_vec()).unwrap();
    assert_eq!(content(&items), "Hellö");
    let (d, items) = d.feed_bytes(&vec![0x64, 0x61, 0xff]).unwrap();
    assert!(items.is_empty());
    assert_eq!(d.buf, "da\u{fffd}");
}

#[test]
fn lines_carry_data() {
    assert_eq!(line_data("data: x "), Some("x".to_string()));
    assert_eq!(line_data("data:x"), Some("x".to_string()));
    assert_eq!(line_data("data:  "), None);
    assert_eq!(line_data("data: [DONE]"), None);
    assert_eq!(line_data("event: x"), None);
    assert_eq!(line_data(" data: x"), None);
}

#[test]
fn positions_of_calls_have_a_limit() {
    let far = parse("{\"choices\":[{\"delta\":{\"tool_calls\":[{\"index\":18446744073709551615}]}}]}");
    assert!(!fits(&far.unwrap()));
    let near = parse("{\"choices\":[{\"delta\":{\"tool_calls\":[{\"index\":3}]}}]}").unwrap();
    assert!(fits(&near));
    let (d, items) = take_event(Decoder::new(), &near);
    assert_eq!(d.calls.len(), 4);
    assert!(items.is_empty());
    let line = "data: {\"choices\":[{\"delta\":{\"tool_calls\":[{\"index\":18446744073709551615}]}}]}\n";
    assert!(Decoder::new().feed(line).is_none());
}

#[test]
fn a_stream_is_recorded() {
    let (d, _) = Decoder::new().feed(STREAM).unwrap();
    assert_eq!(
        compact(&record_stream(&d)),
        "[{\"role\":\"assistant\",\"parts\":[{\"type\":\"text\",\"content\":\"Hellö\"},\
         {\"type\":\"tool_call\",\"id\":\"b\",\"name\":\"dns\",\"arguments\":\"{\\\"a\\\":1}\"}],\
         \"finish_reason\":\"tool_call\"}]"
    );
    assert_eq!(
        compact(&record_stream(&Decoder::new())),
        "[{\"role\":\"assistant\",\"parts\":[],\"finish_reason\":\"stop\"}]"
    );
}

fn call(id: &str, name: &str) -> ToolCallBuilder {
    ToolCallBuilder { id: id.to_string(), name: name.to_string(), arguments: "{}".to_string() }
}

fn streaming(turn: Turn) -> Talk {
    match turn {
        Turn::Stream { talk, body } => {
            assert_eq!(compact(body.at("temperature")), "0.2");
            assert_eq!(compact(body.at("stream")), "true");
            assert_eq!(compact(body.at("stream_options")), "{\"include_usage\":true}");
            talk
        }
        _ => panic!("a round is streamed"),
    }
}

#[test]
fn content_is_streamed_as_one_artifact() {
    let tools = vec![];
    let talk = streaming(begin("m", &tools, "hi"));
    assert_eq!(talk.messages.len(), 2);
    let (talk, first) = take_content(talk, "a");
    assert!(matches!(first, Event::Artifact { append: false, last_chunk: false, .. }));
    let (talk, second) = take_content(talk, "b");
    assert!(matches!(second, Event::Artifact { append: true, last_chunk: false, .. }));
    match take_end("m", &tools, talk, &vec![call("x", "")]) {
        Turn::Finish { events, full_text } => {
            assert_eq!(full_text, "ab");
            assert_eq!(events.len(), 2);
            match &events[0] {
                Event::Artifact { text, append, last_chunk } => {
                    assert_eq!(text, "");
                    assert!(append & last_chunk);
                }
                _ => panic!("the artifact is closed"),
            }
            assert!(matches!(events[1], Event::Completed));
        }
        _ => panic!("the task is over"),
    }
}

#[test]
fn nothing_streamed_closes_nothing() {
    let talk = streaming(begin("m", &vec![], "hi"));
    match take_end("m", &vec![], talk, &vec![]) {
        Turn::Finish { events, full_text } => {
            assert_eq!(full_text, "");
            assert_eq!(events.len(), 1);
            assert!(matches!(events[0], Event::Completed));
        }
        _ => panic!("the task is over"),
    }
}

#[test]
fn calls_are_identified() {
    let tools = vec![];
    let talk = streaming(begin("m", &tools, "hi"));
    let calls = vec![call("", "dns"), call("x", ""), call("", "ip"), call("z", "ssl")];
    let picked = pick_calls(&calls);
    let ids: Vec<&str> = picked.iter().map(|c| c.id.as_str()).collect();
    assert_eq!(ids, vec!["call_0", "call_1", "z"]);
    let (talk, made) = match take_end("m", &tools, talk, &calls) {
        Turn::Call { talk, call } => (talk, call),
        _ => panic!("a tool is called"),
    };
    assert_eq!(made.name, "dns");
    assert_eq!(made.preview.as_deref(), Some("dns: ..."));
    assert!(is_calling(&talk));
    assert_eq!(compact(talk.messages[2].at("content")), "null");
    assert_eq!(talk.messages[2].at("tool_calls").as_items().unwrap().len(), 3);
    let talk = match take_result("m", &tools, talk, "r0") {
        Turn::Call { talk, .. } => talk,
        _ => panic!("the next tool is called"),
    };
    let talk = match take_result("m", &tools, talk, "r1") {
        Turn::Call { talk, .. } => talk,
        _ => panic!("the last tool is called"),
    };
    let talk = streaming(take_result("m", &tools, talk, "r2"));
    assert_eq!(
        compact(&talk.messages[4]),
        "{\"role\":\"tool\",\"tool_call_id\":\"call_1\",\"content\":\"r1\"}"
    );
    assert_eq!(talk.messages.len(), 6);
}

#[test]
fn rounds_are_bounded() {
    let tools = vec![];
    let mut turn = begin("m", &tools, "hi");
    let mut rounds = 0;
    loop {
        turn = match turn {
            Turn::Stream { talk, .. } => {
                rounds += 1;
                let (talk, _) = take_content(talk, ".");
                take_end("m", &tools, talk, &vec![call("i", "dns")])
            }
            Turn::Call { talk, .. } => take_result("m", &tools, talk, "r"),
            Turn::Finish { full_text, .. } => {
                assert_eq!(full_text, "......");
                break;
            }
        };
    }
    assert_eq!(rounds, 6);
}

#[test]
fn a_fault_fails_the_task() {
    let talk = streaming(begin("m", &vec![], "hi"));
    match take_error(talk, "stream error: reset".to_string()) {
        Turn::Finish { events, .. } => match &events[0] {
            Event::Failed(reason) => assert_eq!(reason, "stream error: reset"),
            _ => panic!("the task has failed"),
        },
        _ => panic!("the task is over"),
    }
    assert!(matches!(greeting(), Event::Working(None)));
}

#[test]
fn the_infrastructure_manager_has_a_card() {
    let card = agent_card(9);
    assert_eq!(card.name, "Infrastructure Manager");
    assert_eq!(card.skills.len(), 3);
    assert_eq!(
        card.skills[0].examples,
        Some(vec!["Find a Terraform module for AWS VPC".to_string()])
    );
}

fn accepted() -> Sent {
    Sent::Answered { code: 200, status: "200 OK".to_string(), body: String::new() }
}

/// The events of a completion, each in a short form.
fn heard(sent: &Sent, chunks: &Vec<Result<Vec<u8>, String>>) -> Vec<String> {
    chat_stream(sent, chunks)
        .unwrap()
        .iter()
        .map(|event| match event {
            ChatEvent::Content(t) => format!("+{t}"),
            ChatEvent::Usage { input, output } => format!("{input}/{output}"),
            ChatEvent::Done { tool_calls } => format!("done {}", tool_calls.len()),
            ChatEvent::Error(e) => e.clone(),
        })
        .collect()
}

#[test]
fn a_completion_has_one_end() {
    let bytes = STREAM.as_bytes().to_vec();
    let all = vec!["+Hel", "+lö", "5/7", "done 2"];
    assert_eq!(heard(&accepted(), &vec![Ok(bytes.clone())]), all);
    assert_eq!(heard(&accepted(), &vec![]), vec!["done 0"]);
    let broken = vec![Ok(bytes.clone()), Err("reset".to_string()), Ok(bytes.clone())];
    assert_eq!(heard(&accepted(), &broken), vec!["+Hel", "+lö", "5/7", "stream error: reset"]);
    let failed = Sent::Failed("x".to_string());
    assert_eq!(heard(&failed, &vec![Ok(bytes.clone())]), vec!["HTTP error: x"]);
    for code in [100, 199, 300, 404, 500] {
        let refused = Sent::Answered { code, status: "S".to_string(), body: "b".to_string() };
        assert!(!succeeds(code));
        assert_eq!(heard(&refused, &vec![Ok(bytes.clone())]), vec!["LLM API S: b"]);
    }
    assert!(succeeds(200) && succeeds(299));
    let far = "data: {\"choices\":[{\"delta\":{\"tool_calls\":[{\"index\":18446744073709551615}]}}]}\n";
    assert!(chat_stream(&accepted(), &vec![Ok(far.as_bytes().to_vec())]).is_none());
}

#[test]
fn cuts_between_characters_do_not_matter() {
    let expected = heard(&accepted(), &vec![Ok(STREAM.as_bytes().to_vec())]);
    let chars: Vec<char> = STREAM.chars().collect();
    for size in [1, 3, 64] {
        let chunks = chars
            .chunks(size)
            .map(|piece| Ok(piece.iter().collect::<String>().into_bytes()))
            .collect();
        assert_eq!(heard(&accepted(), &chunks), expected);
    }
}

#[test]
fn a_fault_leaves_no_record() {
    let (reception, events) = Reception::open(&accepted());
    assert!(events.is_empty());
    assert!(reception.record().is_some());
    let (reception, events) = reception.take_chunk(&Err("e".to_string())).unwrap();
    assert!(matches!(&events[0], ChatEvent::Error(e) if e == "stream error: e"));
    assert!(reception.over);
    assert!(reception.record().is_none());
    assert!(reception.close().is_empty());
}
