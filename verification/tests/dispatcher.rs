use video_transcriber_mcp::engine::TranscriberEngine;
use video_transcriber_mcp::pipeline::{PipelineError, Stage, Workspace};
use video_transcriber_mcp::protocol::{McpRequest, McpResponse};
use video_transcriber_mcp::server::{
    read_reply, transcription_reply, transcripts_reply, Dispatch, McpServer,
};
use video_transcriber_mcp::speech::WhisperTranscriber;
use video_transcriber_mcp::tools::{find_tool, list_tools, success_text, ToolKind};
use video_transcriber_mcp::types::{
    OutputFiles, TranscriptionResult, VideoMetadata, WhisperModel,
};

fn json(text: &str) -> serde_json::Value {
    serde_json::from_str(text).unwrap()
}

fn server() -> McpServer {
    McpServer::new(
        TranscriberEngine::new(
            WhisperTranscriber::new("/m".to_string()),
            Workspace {
                download_template: "/w/video.%(ext)s".to_string(),
                downloaded_audio: "/w/video.mp3".to_string(),
                extracted_audio: "/a/audio.mp3".to_string(),
            },
            None,
        ),
        "/home/me/Downloads/video-transcripts".to_string(),
    )
}

fn request(id: &str, method: &str, params: Option<&str>) -> McpRequest {
    McpRequest {
        jsonrpc: "2.0".to_string(),
        id: Some(json(id)),
        method: method.to_string(),
        params: params.map(json),
    }
}

fn reply_of(d: Dispatch) -> McpResponse {
    match d {
        Dispatch::Reply(r) => r,
        other => panic!("expected a reply, got {:?}", other),
    }
}

fn refusal_of(d: Dispatch) -> (Option<serde_json::Value>, i32, String) {
    let r = reply_of(d);
    assert!(r.result.is_none());
    let e = r.error.unwrap();
    (r.id, e.code, e.message)
}

fn call(params: &str) -> Dispatch {
    server().handle_request(request("11", "tools/call", Some(params)))
}

#[test]
fn initialize_answers_with_the_handshake() {
    let r = reply_of(server().handle_request(request("1", "initialize", None)));
    assert_eq!(r.id, Some(json("1")));
    assert!(r.error.is_none());
    assert_eq!(
        r.result,
        Some(json(
            "{\"protocolVersion\": \"2024-11-05\", \"capabilities\": {\"tools\": {}, \"resources\": {}}, \"serverInfo\": {\"name\": \"video-transcriber-mcp\", \"version\": \"0.1.0\"}}"
        ))
    );
}

#[test]
fn tools_are_listed_with_their_schemas() {
    let tools = list_tools("/d");
    let names: Vec<&str> = tools.iter().map(|t| t.name.as_str()).collect();
    assert_eq!(
        names,
        ["transcribe_video", "check_dependencies", "list_supported_sites", "list_transcripts"]
    );
    let schema = &tools[0].input_schema;
    assert_eq!(schema["type"], json("\"object\""));
    assert_eq!(schema["required"], json("[\"url\"]"));
    assert_eq!(schema["properties"].as_object().unwrap().len(), 4);
    assert_eq!(schema["properties"]["url"]["type"], json("\"string\""));
    assert_eq!(
        schema["properties"]["output_dir"]["description"],
        json("\"Optional output directory path. Defaults to /d\"")
    );
    assert_eq!(
        schema["properties"]["model"]["enum"],
        json("[\"tiny\", \"base\", \"small\", \"medium\", \"large\"]")
    );
    assert_eq!(tools[1].input_schema, json("{\"type\": \"object\", \"properties\": {}}"));
    assert_eq!(tools[2].input_schema, json("{\"type\": \"object\", \"properties\": {}}"));
    assert_eq!(
        tools[3].input_schema,
        json("{\"type\": \"object\", \"properties\": {\"output_dir\": {\"type\": \"string\", \"description\": \"Optional output directory path. Defaults to /d\"}}}")
    );
    assert!(tools[0].description.starts_with("Transcribe videos from 1000+ platforms"));
}

#[test]
fn tools_list_response_holds_the_four_tools() {
    let r = reply_of(server().handle_request(request("\"a\"", "tools/list", None)));
    assert_eq!(r.id, Some(json("\"a\"")));
    let result = r.result.unwrap();
    let tools = result["tools"].as_array().unwrap();
    assert_eq!(tools.len(), 4);
    assert_eq!(tools[3]["name"], json("\"list_transcripts\""));
    assert_eq!(
        tools[1]["description"],
        json("\"Check if all required dependencies (yt-dlp, ffmpeg, whisper models) are installed\"")
    );
    assert_eq!(tools[1]["input_schema"], json("{\"type\": \"object\", \"properties\": {}}"));
}

#[test]
fn tool_names_are_found() {
    assert_eq!(find_tool("transcribe_video"), Some(ToolKind::TranscribeVideo));
    assert_eq!(find_tool("check_dependencies"), Some(ToolKind::CheckDependencies));
    assert_eq!(find_tool("list_supported_sites"), Some(ToolKind::ListSupportedSites));
    assert_eq!(find_tool("list_transcripts"), Some(ToolKind::ListTranscripts));
    assert_eq!(find_tool("Transcribe_Video"), None);
    assert_eq!(find_tool(""), None);
}

#[test]
fn unknown_method_is_not_found() {
    let d = server().handle_request(request("5", "tools/run", Some("{}")));
    assert_eq!(
        refusal_of(d),
        (Some(json("5")), -32601, "Method not found: tools/run".to_string())
    );
}

#[test]
fn missing_and_unknown_tool_names_are_refused() {
    assert_eq!(
        refusal_of(call("{\"name\": \"nope\", \"arguments\": {}}")),
        (Some(json("11")), -32602, "Unknown tool: nope".to_string())
    );
    assert_eq!(
        refusal_of(call("{\"arguments\": {}}")),
        (Some(json("11")), -32600, "Missing tool name".to_string())
    );
    assert_eq!(
        refusal_of(call("{\"name\": 5}")),
        (Some(json("11")), -32600, "Missing tool name".to_string())
    );
    let d = server().handle_request(request("11", "tools/call", None));
    assert_eq!(refusal_of(d), (Some(json("11")), -32600, "Missing params".to_string()));
}

#[test]
fn missing_url_is_refused_before_anything_starts() {
    for params in [
        "{\"name\": \"transcribe_video\"}",
        "{\"name\": \"transcribe_video\", \"arguments\": {}}",
        "{\"name\": \"transcribe_video\", \"arguments\": {\"url\": 5}}",
        "{\"name\": \"transcribe_video\", \"arguments\": {\"model\": \"base\"}}",
    ] {
        assert_eq!(
            refusal_of(call(params)),
            (Some(json("11")), -32600, "Missing 'url' parameter".to_string())
        );
    }
}

#[test]
fn transcribe_call_takes_defaults() {
    match call("{\"name\": \"transcribe_video\", \"arguments\": {\"url\": \"https://youtu.be/1\"}}") {
        Dispatch::Transcribe { id, options } => {
            assert_eq!(id, Some(json("11")));
            assert_eq!(options.url, "https://youtu.be/1");
            assert_eq!(options.output_dir, "/home/me/Downloads/video-transcripts");
            assert_eq!(options.model, WhisperModel::Base);
            assert_eq!(options.language, None);
        }
        other => panic!("expected a transcription, got {:?}", other),
    }
}

#[test]
fn transcribe_call_takes_its_arguments() {
    let params = "{\"name\": \"transcribe_video\", \"arguments\": {\"url\": \"/v.mp4\", \"output_dir\": \"/out\", \"model\": \"Large\", \"language\": \"es\"}}";
    match call(params) {
        Dispatch::Transcribe { options, .. } => {
            assert_eq!(options.url, "/v.mp4");
            assert_eq!(options.output_dir, "/out");
            assert_eq!(options.model, WhisperModel::Large);
            assert_eq!(options.language, Some("es".to_string()));
        }
        other => panic!("expected a transcription, got {:?}", other),
    }
}

#[test]
fn unrecognized_model_falls_back_to_base() {
    for model in ["\"xyz\"", "5", "\"\"", "null"] {
        let params = format!(
            "{{\"name\": \"transcribe_video\", \"arguments\": {{\"url\": \"/v.mp4\", \"model\": {}}}}}",
            model
        );
        match call(&params) {
            Dispatch::Transcribe { options, .. } => assert_eq!(options.model, WhisperModel::Base),
            other => panic!("expected a transcription, got {:?}", other),
        }
    }
}

#[test]
fn other_tools_are_routed() {
    match call("{\"name\": \"check_dependencies\"}") {
        Dispatch::CheckDependencies { id } => assert_eq!(id, Some(json("11"))),
        other => panic!("expected a dependency check, got {:?}", other),
    }
    match call("{\"name\": \"list_transcripts\", \"arguments\": {\"output_dir\": \"/t\"}}") {
        Dispatch::ListTranscripts { id, dir } => {
            assert_eq!(id, Some(json("11")));
            assert_eq!(dir, "/t");
        }
        other => panic!("expected a listing, got {:?}", other),
    }
    match call("{\"name\": \"list_transcripts\"}") {
        Dispatch::ListTranscripts { dir, .. } => {
            assert_eq!(dir, "/home/me/Downloads/video-transcripts")
        }
        other => panic!("expected a listing, got {:?}", other),
    }
    let r = reply_of(call("{\"name\": \"list_supported_sites\"}"));
    assert_eq!(r.id, Some(json("11")));
    let result = r.result.unwrap();
    let text = result["content"][0]["text"].as_str().unwrap();
    assert!(text.starts_with("📺 Supported Video Platforms (1000+ total)\n\n**Popular platforms include:**\n- YouTube\n"));
    assert!(text.ends_with("You can transcribe videos from any of these platforms!"));
}

#[test]
fn rmcp_style_call_shares_the_routing() {
    let s = server();
    let d = s.call_tool(None, Some("transcribe_video"), &json("{\"url\": \"/v.mp4\"}"));
    assert!(matches!(d, Dispatch::Transcribe { id: None, .. }));
    let d = s.call_tool(None, Some("transcribe_video"), &json("null"));
    assert_eq!(refusal_of(d), (None, -32600, "Missing 'url' parameter".to_string()));
    let d = s.call_tool(None, None, &json("{}"));
    assert_eq!(refusal_of(d), (None, -32600, "Missing tool name".to_string()));
}

#[test]
fn resources_are_routed() {
    match server().handle_request(request("2", "resources/list", None)) {
        Dispatch::ListResources { id, dir } => {
            assert_eq!(id, Some(json("2")));
            assert_eq!(dir, "/home/me/Downloads/video-transcripts");
        }
        other => panic!("expected a resource listing, got {:?}", other),
    }
    let d = server().handle_request(request(
        "3",
        "resources/read",
        Some("{\"uri\": \"file:///out/a.json\"}"),
    ));
    match d {
        Dispatch::ReadResource { id, uri, path } => {
            assert_eq!(id, Some(json("3")));
            assert_eq!(uri, "file:///out/a.json");
            assert_eq!(path, "/out/a.json");
        }
        other => panic!("expected a read, got {:?}", other),
    }
    let d = server().handle_request(request("3", "resources/read", Some("{}")));
    assert_eq!(refusal_of(d), (Some(json("3")), -32600, "Missing uri parameter".to_string()));
    let d = server().handle_request(request("3", "resources/read", None));
    assert_eq!(refusal_of(d), (Some(json("3")), -32600, "Missing params".to_string()));
}

#[test]
fn uri_without_scheme_is_read_as_a_path() {
    let d = server().handle_request(request(
        "3",
        "resources/read",
        Some("{\"uri\": \"/out/notes.md\"}"),
    ));
    match d {
        Dispatch::ReadResource { uri, path, .. } => {
            assert_eq!(uri, "/out/notes.md");
            assert_eq!(path, "/out/notes.md");
        }
        other => panic!("expected a read, got {:?}", other),
    }
}

#[test]
fn id_is_echoed_whatever_it_is() {
    for id in ["1", "\"x\"", "1.25", "[1, 2]", "{\"a\": null}", "-5", "true"] {
        for method in ["initialize", "tools/list", "nothing"] {
            let r = reply_of(server().handle_request(request(id, method, None)));
            assert_eq!(r.id, Some(json(id)));
            assert_ne!(r.result.is_some(), r.error.is_some());
        }
    }
    let r = reply_of(server().handle_request(McpRequest {
        jsonrpc: "2.0".to_string(),
        id: None,
        method: "initialize".to_string(),
        params: None,
    }));
    assert_eq!(r.id, None);
    assert!(r.result.is_some());
}

#[test]
fn lines_are_handled_or_passed_over() {
    let s = server();
    assert!(s.handle_line("").is_none());
    assert!(s.handle_line("  \t ").is_none());
    let (id, code, message) = refusal_of(s.handle_line("{oops").unwrap());
    assert_eq!(id, None);
    assert_eq!(code, -32603);
    assert!(message.starts_with("Internal error: "));
    assert!(message.len() > "Internal error: ".len());
    let (id, code, message) = refusal_of(s.handle_line("{\"id\": 4, \"jsonrpc\": \"2.0\"}").unwrap());
    assert_eq!(id, None);
    assert_eq!(code, -32603);
    assert_eq!(message, "Internal error: missing field `method`");
    let d = s.handle_line(" {\"jsonrpc\": \"2.0\", \"id\": 4, \"method\": \"bogus\"} ").unwrap();
    assert_eq!(refusal_of(d), (Some(json("4")), -32601, "Method not found: bogus".to_string()));
    let r = reply_of(s.handle_line("{\"id\": 5, \"method\": \"initialize\"}").unwrap());
    assert_eq!(r.id, Some(json("5")));
    assert!(r.result.is_some());
}

fn result() -> TranscriptionResult {
    TranscriptionResult {
        success: true,
        files: OutputFiles {
            txt: "/out/a.txt".to_string(),
            json: "/out/a.json".to_string(),
            md: "/out/a.md".to_string(),
        },
        metadata: VideoMetadata {
            video_id: "id".to_string(),
            title: "Title".to_string(),
            channel: "Chan".to_string(),
            duration: 61,
            upload_date: "20200101".to_string(),
            platform: "Vimeo".to_string(),
            url: "https://vimeo.com/1".to_string(),
        },
        transcript: "one two three".to_string(),
        transcript_preview: "one two three".to_string(),
        word_count: 3,
        model_used: WhisperModel::Medium,
    }
}

#[test]
fn success_text_has_the_template() {
    let expected = "✅ Video transcribed successfully!\n\n**Video Details:**\n- Title: Title\n- Platform: Vimeo\n- Duration: 61s\n\n**Transcription Settings:**\n- Model: Medium\n- Engine: whisper.cpp (Rust)\n\n**Output Files:**\n- Text: /out/a.txt\n- JSON: /out/a.json\n- Markdown: /out/a.md\n\n**Transcript Preview:**\none two three\n\n**Full transcript has 3 words.**";
    assert_eq!(success_text(&result()), expected);
}

#[test]
fn transcription_outcome_becomes_a_response() {
    let r = transcription_reply(Some(json("9")), &Ok(result()));
    assert_eq!(r.id, Some(json("9")));
    assert!(r.error.is_none());
    let body = r.result.unwrap();
    assert_eq!(body["content"][0]["type"], json("\"text\""));
    assert_eq!(body["content"][0]["text"].as_str().unwrap(), success_text(&result()));
    let failed = Err(PipelineError {
        stage: Stage::ResolveSource,
        message: "Video file not found: /gone.mp4".to_string(),
    });
    let r = transcription_reply(Some(json("9")), &failed);
    assert_eq!(r.id, Some(json("9")));
    assert!(r.result.is_none());
    let e = r.error.unwrap();
    assert_eq!(e.code, -32000);
    assert_eq!(
        e.message,
        "Transcription failed: ResolveSource: Video file not found: /gone.mp4"
    );
    assert!(e.message.contains("/gone.mp4"));
}

#[test]
fn completed_operations_become_responses() {
    let s = server();
    let r = s.handle_check_dependencies(Some(json("1")), "report\n");
    assert_eq!(
        r.result,
        Some(json("{\"content\": [{\"type\": \"text\", \"text\": \"✅ Dependency Check:\\n\\nreport\\n\"}]}"))
    );
    let r = s.handle_list_resources(Some(json("1")), vec![json("{\"uri\": \"file:///a\"}")]);
    assert_eq!(r.result, Some(json("{\"resources\": [{\"uri\": \"file:///a\"}]}")));
    let r = s.handle_list_resources(None, Vec::new());
    assert_eq!(r.result, Some(json("{\"resources\": []}")));
    let r = transcripts_reply(Some(json("1")), "listing");
    assert_eq!(
        r.result,
        Some(json("{\"content\": [{\"type\": \"text\", \"text\": \"listing\"}]}"))
    );
    let r = read_reply(Some(json("2")), "file:///out/a.json", &Ok("{}".to_string()));
    assert_eq!(
        r.result,
        Some(json("{\"contents\": [{\"uri\": \"file:///out/a.json\", \"mimeType\": \"application/json\", \"text\": \"{}\"}]}"))
    );
    let r = read_reply(Some(json("2")), "/out/a.md", &Ok("# t".to_string()));
    assert_eq!(
        r.result,
        Some(json("{\"contents\": [{\"uri\": \"/out/a.md\", \"mimeType\": \"text/markdown\", \"text\": \"# t\"}]}"))
    );
    let r = read_reply(Some(json("2")), "/gone", &Err("No such file or directory".to_string()));
    assert_eq!(r.id, Some(json("2")));
    let e = r.error.unwrap();
    assert_eq!(e.code, -32000);
    assert_eq!(e.message, "Failed to read file: No such file or directory");
}
