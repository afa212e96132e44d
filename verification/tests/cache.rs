use mcp_proxy::cache::{
    cache_dir, cache_file, filename_for, inline_tools, load, parse_inline, save,
};
use mcp_proxy::message::ListToolsResult;

const ONE_TOOL: &str = r#"{"name":"echo","description":"says it again","inputSchema":{"type":"object","properties":{"text":{"type":"string"}}}}"#;

fn tool(json: &str) -> rmcp::model::Tool {
    serde_json::from_str(json).unwrap()
}

#[test]
fn filename_is_safe_and_stable() {
    let f = filename_for("http://localhost:9712/tidewave/mcp");
    assert!(f.ends_with(".tools.json"));
    assert!(f
        .chars()
        .all(|c| matches!(c, 'a'..='z' | 'A'..='Z' | '0'..='9' | '.' | '_' | '-')));
    // Same URL → same filename.
    assert_eq!(f, filename_for("http://localhost:9712/tidewave/mcp"));
    // Different URL → different filename.
    assert_ne!(f, filename_for("http://localhost:4000/tidewave/mcp"));
}

#[test]
fn filename_keeps_safe_characters_and_replaces_others() {
    assert_eq!(
        filename_for("http://localhost:9712/tidewave/mcp"),
        "http___localhost_9712_tidewave_mcp.tools.json"
    );
    assert_eq!(filename_for("aZ09._-"), "aZ09._-.tools.json");
    assert_eq!(filename_for("\u{fc}ber\u{1f980}/"), "_ber__.tools.json");
    assert_eq!(filename_for(""), ".tools.json");
}

#[test]
fn filenames_collide_only_in_unsafe_characters() {
    assert_eq!(filename_for("a:b"), filename_for("a/b"));
    assert_eq!(filename_for("a:b"), filename_for("a_b"));
    assert_ne!(filename_for("a:b"), filename_for("a:c"));
    assert_ne!(filename_for("a:b"), filename_for("a:bb"));
}

#[test]
fn cache_dir_prefers_xdg_then_home() {
    let xdg = cache_dir(Some("/x"), true, Some("/h")).unwrap();
    assert_eq!((xdg.base, xdg.subdir), ("/x", "mcp-proxy"));
    let mac = cache_dir(None, true, Some("/h")).unwrap();
    assert_eq!((mac.base, mac.subdir), ("/h", "Library/Caches/mcp-proxy"));
    let home = cache_dir(None, false, Some("/h")).unwrap();
    assert_eq!((home.base, home.subdir), ("/h", ".cache/mcp-proxy"));
    assert!(cache_dir::<&str>(None, true, None).is_none());
    assert!(cache_dir::<&str>(None, false, None).is_none());
}

#[test]
fn parse_inline_takes_a_full_result() {
    let json = format!(r#"{{"tools":[{}],"nextCursor":"page-2"}}"#, ONE_TOOL);
    let parsed = parse_inline(&json).unwrap();
    assert_eq!(parsed.tools, vec![tool(ONE_TOOL)]);
    assert_eq!(parsed.next_cursor, Some("page-2".to_string()));
}

#[test]
fn parse_inline_takes_a_bare_array() {
    let json = format!("[{},{}]", ONE_TOOL, r#"{"name":"other","inputSchema":{}}"#);
    let parsed = parse_inline(&json).unwrap();
    assert_eq!(
        parsed.tools,
        vec![tool(ONE_TOOL), tool(r#"{"name":"other","inputSchema":{}}"#)]
    );
    assert_eq!(parsed.next_cursor, None);
    assert!(parse_inline("[]").unwrap().tools.is_empty());
}

#[test]
fn parse_inline_refuses_anything_else() {
    assert!(parse_inline("").is_none());
    assert!(parse_inline("{}").is_none());
    assert!(parse_inline(r#"{"tools":3}"#).is_none());
    assert!(parse_inline(r#"[{"name":"no schema"}]"#).is_none());
    assert!(parse_inline("not json").is_none());
}

#[test]
fn inline_tools_prefers_the_full_result() {
    let full = || ListToolsResult {
        tools: vec![tool(ONE_TOOL)],
        next_cursor: Some("c".to_string()),
    };
    let picked = inline_tools(Some(full()), Some(Vec::new())).unwrap();
    assert_eq!(picked.tools, vec![tool(ONE_TOOL)]);
    assert_eq!(picked.next_cursor, Some("c".to_string()));
    let array = inline_tools(None, Some(vec![tool(ONE_TOOL)])).unwrap();
    assert_eq!(array.tools, vec![tool(ONE_TOOL)]);
    assert_eq!(array.next_cursor, None);
    assert!(inline_tools(None, None).is_none());
}

#[test]
fn saved_tools_are_loaded() {
    let schema = r#"{"name":"n","title":"N","inputSchema":{"a":0.1,"b":1.2345678901234567e-7,"c":-0.0,"d":18446744073709551615,"e":[1e300,null,"x\u0000"]},"annotations":{"readOnlyHint":true}}"#;
    let result = ListToolsResult {
        tools: vec![tool(ONE_TOOL), tool(schema)],
        next_cursor: Some("next".to_string()),
    };
    let url = "http://localhost:9712/mcp";
    let write = save(cache_dir(Some("/x"), false, None), url, &result).unwrap();
    let file = cache_file(cache_dir(Some("/x"), false, None), url).unwrap();
    assert_eq!(write.file.filename, file.filename);
    assert_eq!(write.file.filename, "http___localhost_9712_mcp.tools.json");
    assert_eq!(write.file.dir.base, "/x");
    let bytes = write.bytes.unwrap();
    let back = load(Some(&bytes)).unwrap();
    assert_eq!(back.tools, result.tools);
    assert_eq!(back.next_cursor, result.next_cursor);
}

#[test]
fn saved_bytes_are_pretty_json() {
    let result = ListToolsResult { tools: Vec::new(), next_cursor: None };
    let write = save(cache_dir(Some("/x"), false, None), "u", &result).unwrap();
    assert_eq!(write.bytes.unwrap(), b"{\n  \"tools\": []\n}".to_vec());
}

#[test]
fn nothing_is_saved_without_a_directory() {
    let result = ListToolsResult { tools: Vec::new(), next_cursor: None };
    assert!(save(cache_dir::<&str>(None, false, None), "u", &result).is_none());
    assert!(cache_file(cache_dir::<&str>(None, false, None), "u").is_none());
}

#[test]
fn load_gives_nothing_for_a_missing_or_broken_file() {
    assert!(load(None).is_none());
    assert!(load(Some(b"")).is_none());
    assert!(load(Some(b"[]")).is_none());
    assert!(load(Some(b"{\"tools\":[]}")).unwrap().tools.is_empty());
}

#[test]
fn tools_that_nest_too_deep_are_not_loaded() {
    let mut value = serde_json::Value::Null;
    for _ in 0..200 {
        value = serde_json::Value::Array(vec![value]);
    }
    let mut schema = serde_json::Map::new();
    schema.insert("deep".to_string(), value);
    let result = ListToolsResult {
        tools: vec![rmcp::model::Tool::new("t", "d", schema)],
        next_cursor: None,
    };
    let write = save(cache_dir(Some("/x"), false, None), "u", &result).unwrap();
    assert!(load(Some(&write.bytes.unwrap())).is_none());
}
