use nasiko_agents::json::notation::compact;
use nasiko_agents::json::serde::parse;
use nasiko_agents::telemetry::{
    capture_content, genai_input_messages, genai_output_message, genai_text_message, is_well_formed,
    record_completion, remote_context_from_traceparent, remote_span, text_record, RemoteSpan,
};

#[test]
fn content_is_captured_unless_opted_out() {
    assert!(capture_content(&None));
    for s in ["SPAN_ONLY", "true", "1", "no", "event_only", " "] {
        assert!(capture_content(&Some(s.to_string())), "{s}");
    }
    for s in ["NO_CONTENT", "no_content", "false", "False", "0", ""] {
        assert!(!capture_content(&Some(s.to_string())), "{s}");
    }
}

#[test]
fn texts_are_recorded_where_allowed() {
    assert_eq!(
        compact(&text_record(true, "assistant", "done").unwrap()),
        "[{\"role\":\"assistant\",\"parts\":[{\"type\":\"text\",\"content\":\"done\"}]}]"
    );
    assert!(text_record(false, "assistant", "done").is_none());
    assert!(text_record(true, "assistant", "").is_none());
}

#[test]
fn conversations_are_recorded() {
    let messages = parse(
        "[{\"role\":\"system\",\"content\":\"s\"},{\"content\":\"\"},\
          {\"role\":\"assistant\",\"content\":null,\"tool_calls\":[{\"id\":\"c\",\"function\":{\"name\":\"n\",\"arguments\":\"{}\"}}]},\
          {\"role\":\"tool\",\"tool_call_id\":\"c\",\"content\":\"r\"},{\"role\":\"tool\",\"content\":\"q\"}]",
    )
    .unwrap();
    assert_eq!(
        compact(&genai_input_messages(messages.as_items().unwrap())),
        "[{\"role\":\"system\",\"parts\":[{\"type\":\"text\",\"content\":\"s\"}]},\
         {\"role\":\"user\",\"parts\":[]},\
         {\"role\":\"assistant\",\"parts\":[{\"type\":\"tool_call\",\"id\":\"c\",\"name\":\"n\",\"arguments\":\"{}\"}]},\
         {\"role\":\"tool\",\"parts\":[{\"type\":\"tool_call_response\",\"id\":\"c\",\"response\":\"r\"}]},\
         {\"role\":\"tool\",\"parts\":[{\"type\":\"tool_call_response\",\"id\":\"\",\"response\":\"q\"}]}]"
    );
    assert_eq!(
        compact(&genai_text_message("user", "hi")),
        "[{\"role\":\"user\",\"parts\":[{\"type\":\"text\",\"content\":\"hi\"}]}]"
    );
    let calls = parse("[{\"id\":1}]").unwrap();
    assert_eq!(
        compact(&genai_output_message("", calls.as_items().unwrap(), "tool_call")),
        "[{\"role\":\"assistant\",\"parts\":[{\"type\":\"tool_call\",\"id\":1,\"name\":null,\"arguments\":null}],\"finish_reason\":\"tool_call\"}]"
    );
}

#[test]
fn completions_are_recorded() {
    let response = parse("{\"choices\":[{\"message\":{\"content\":\"a\"}}]}").unwrap();
    assert_eq!(
        compact(&record_completion(&response)),
        "[{\"role\":\"assistant\",\"parts\":[{\"type\":\"text\",\"content\":\"a\"}],\"finish_reason\":\"stop\"}]"
    );
    let response = parse("{\"choices\":[{\"message\":{\"tool_calls\":[{}]}}]}").unwrap();
    assert!(compact(&record_completion(&response)).ends_with("\"finish_reason\":\"tool_call\"}]"));
}

#[test]
fn a_trace_is_joined() {
    let span = RemoteSpan {
        trace_id: 0x0af7651916cd43dd8448eb211c80319c,
        span_id: 0xb7ad6b7169203331,
        sampled: true,
    };
    let header = "00-0af7651916cd43dd8448eb211c80319c-b7ad6b7169203331-01";
    assert_eq!(remote_context_from_traceparent(header), Some(span));
    let header = "00-0af7651916cd43dd8448eb211c80319c-b7ad6b7169203331-00";
    assert_eq!(
        remote_context_from_traceparent(header),
        Some(RemoteSpan { sampled: false, ..span })
    );
    let header = "00-0af7651916cd43dd8448eb211c80319c-b7ad6b7169203331-02";
    assert_eq!(
        remote_context_from_traceparent(header),
        Some(RemoteSpan { sampled: false, ..span })
    );
}

#[test]
fn later_versions_are_joined_too() {
    let span = RemoteSpan {
        trace_id: 0x0af7651916cd43dd8448eb211c80319c,
        span_id: 0xb7ad6b7169203331,
        sampled: true,
    };
    for header in [
        " 00-0af7651916cd43dd8448eb211c80319c-b7ad6b7169203331-01 ",
        "01-0af7651916cd43dd8448eb211c80319c-b7ad6b7169203331-01",
        "01-0af7651916cd43dd8448eb211c80319c-b7ad6b7169203331-09-more",
    ] {
        assert!(is_well_formed(header), "{header}");
        assert_eq!(remote_context_from_traceparent(header), Some(span), "{header}");
    }
    assert!(!is_well_formed("01-0af7651916cd43dd8448eb211c80319c-b7ad6b7169203331-01x"));
}

#[test]
fn malformed_headers_join_nothing() {
    for header in [
        "",
        "x",
        "00-00000000000000000000000000000000-b7ad6b7169203331-01",
        "00-0af7651916cd43dd8448eb211c80319c-0000000000000000-01",
        "00-0AF7651916CD43DD8448EB211C80319C-b7ad6b7169203331-01",
        "00-0af7651916cd43dd8448eb211c80319c-b7ad6b7169203331",
        "00-0af7651916cd43dd8448eb211c80319c-b7ad6b7169203331-09",
        "ff-0af7651916cd43dd8448eb211c80319c-b7ad6b7169203331-01",
        "00-1-2-01",
        "0-0af7651916cd43dd8448eb211c80319c-b7ad6b7169203331-01",
        "00-0af7651916cd43dd8448eb211c80319c-b7ad6b7169203331-1",
        "00-+af7651916cd43dd8448eb211c80319c-b7ad6b7169203331-01",
        "00-0af7651916cd43dd8448eb211c80319c-b7ad6b7169203331-01-x",
    ] {
        assert_eq!(remote_context_from_traceparent(header), None, "{header}");
    }
    assert_eq!(remote_span(1, 0, true), None);
    assert_eq!(remote_span(0, 1, true), None);
    assert_eq!(
        remote_span(1, 2, true),
        Some(RemoteSpan { trace_id: 1, span_id: 2, sampled: true })
    );
}
