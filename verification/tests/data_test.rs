use atelier::context::{extract_filename, parse_variables, AtelierContext};
use atelier::csv::{find_char_from, lines_of, split3_exec, strip_quotes_exec, unescape_csv_field};
use atelier::text::chars_of;

fn s(v: &[char]) -> String {
    v.iter().collect()
}

#[test]
fn lines_split_like_str_lines() {
    let ls = lines_of(&chars_of("a\r\nb\n\nc"));
    let got: Vec<String> = ls.iter().map(|l| s(l)).collect();
    assert_eq!(got, vec!["a", "b", "", "c"]);
    let trailing = lines_of(&chars_of("x\n"));
    assert_eq!(trailing.len(), 1);
    assert!(lines_of(&chars_of("")).is_empty());
}

#[test]
fn find_char_from_finds_the_next_one() {
    let v = chars_of("a,b,c");
    assert_eq!(find_char_from(&v, 0, ','), Some(1));
    assert_eq!(find_char_from(&v, 2, ','), Some(3));
    assert_eq!(find_char_from(&v, 4, ','), None);
}

#[test]
fn rows_split_at_the_first_two_commas() {
    let (a, b, c) = split3_exec(&chars_of("x,Int,1,2,3")).unwrap();
    assert_eq!((s(&a), s(&b), s(&c)), ("x".to_string(), "Int".to_string(), "1,2,3".to_string()));
    assert!(split3_exec(&chars_of("only,one")).is_none());
}

#[test]
fn quotes_are_stripped_all_around() {
    assert_eq!(s(&strip_quotes_exec(&chars_of("\"\"abc\""))), "abc");
    assert_eq!(s(&strip_quotes_exec(&chars_of("\"\""))), "");
    assert_eq!(s(&strip_quotes_exec(&chars_of("a\"b"))), "a\"b");
}

#[test]
fn csv_fields_are_unescaped() {
    assert_eq!(unescape_csv_field("  \"say \"\"hi\"\"\"  "), "say \"hi\"");
    assert_eq!(unescape_csv_field(" plain "), "plain");
    assert_eq!(unescape_csv_field("a\"\"b"), "a\"b");
}

#[test]
fn quoted_field_round_trips() {
    let text = "he said \"no\", twice";
    let quoted = format!("\"{}\"", text.replace('"', "\"\""));
    assert_eq!(unescape_csv_field(&quoted), text);
}

#[test]
fn variables_skip_header_and_short_rows() {
    let v = parse_variables("name,type,value\nx,Int,1\nbad row\ny, String ,\"a, b\"\n");
    assert_eq!(
        v,
        vec![
            ("x".to_string(), "Int".to_string(), "1".to_string()),
            ("y".to_string(), "String".to_string(), "a, b".to_string()),
        ]
    );
}

#[test]
fn variables_of_empty_text() {
    assert!(parse_variables("").is_empty());
    assert!(parse_variables("header only").is_empty());
}

#[test]
fn filename_from_status_lines() {
    assert_eq!(extract_filename("  src/pipeline.t [+]  "), Some("pipeline.t [+]".to_string()));
    assert_eq!(extract_filename("/home/u/a.t"), Some("a.t".to_string()));
    assert_eq!(extract_filename("C:\\dir\\b.t"), Some("b.t".to_string()));
    assert_eq!(extract_filename("main.t 12L, 300B"), Some("main.t".to_string()));
    assert_eq!(extract_filename("   "), None);
    assert_eq!(extract_filename("\u{1b}[1m"), None);
}

#[test]
fn gather_cleans_what_it_is_given() {
    let repl = vec!["> x <- 1".to_string(), "   ".to_string(), "1".to_string()];
    let ctx = AtelierContext::gather(
        Some("  let y = 2  "),
        Some("/p/main.t"),
        Some("   "),
        "name,type,value\nx,Int,1\n",
        &repl,
    );
    assert_eq!(ctx.cursor_line, Some("let y = 2".to_string()));
    assert_eq!(ctx.cursor_file, Some("main.t".to_string()));
    assert_eq!(ctx.pipeline, None);
    assert_eq!(ctx.variables, vec![("x".to_string(), "Int".to_string(), "1".to_string())]);
    assert_eq!(ctx.repl_history, vec!["> x <- 1".to_string(), "1".to_string()]);
}

#[test]
fn gather_fingerprint_depends_on_the_content() {
    let repl: Vec<String> = vec![];
    let a = AtelierContext::gather(Some("a"), None, None, "", &repl);
    let a2 = AtelierContext::gather(Some("a"), None, None, "", &repl);
    let b = AtelierContext::gather(Some("b"), None, None, "", &repl);
    assert_eq!(a.hash, a2.hash);
    assert_ne!(a.hash, b.hash);
}

#[test]
fn markdown_snapshot() {
    let repl = vec!["one".to_string(), "two".to_string()];
    let ctx = AtelierContext::gather(Some("x"), Some("f.t"), Some("digraph{}"), "h\nv,Int,3\n", &repl);
    let md = ctx.to_markdown();
    let expected = "# Atelier Context Snapshot\n\n\
## Current File\n`f.t`\n\n\
## Cursor Line\n```\nx\n```\n\n\
## Pipeline State\n```dot\ndigraph{}\n```\n\n\
## Environment Variables\n| Name | Type | Value |\n|------|------|-------|\n| v | Int | 3 |\n\n\
## Recent REPL History\n```\ntwo\none\n```\n";
    assert_eq!(md, expected);
}

#[test]
fn empty_context_is_just_the_title() {
    let repl: Vec<String> = vec![];
    let ctx = AtelierContext::gather(None, None, None, "", &repl);
    assert_eq!(ctx.to_markdown(), "# Atelier Context Snapshot\n\n");
}
