use panw_api_ollama::security::SecurityClient;

fn client() -> SecurityClient {
    SecurityClient::new("https://inspector.example", "key", "profile", "app", "user")
}

#[test]
fn extract_takes_fenced_lines() {
    let c = client();
    let input = "intro\n```python\nprint(1)\nprint(2)\n```\noutro\n";
    assert_eq!(c.extract_code_blocks(input), "print(1)\nprint(2)\n");
    assert_eq!(c.remove_code_blocks(input), "intro\noutro\n");
}

#[test]
fn language_tag_is_dropped_with_the_fence_line() {
    let c = client();
    let input = "```rust\nlet x = 1;\n```";
    assert_eq!(c.extract_code_blocks(input), "let x = 1;\n");
    assert_eq!(c.remove_code_blocks(input), "");
}

#[test]
fn unterminated_fence_goes_to_code() {
    let c = client();
    let input = "text\n```\ntrailing code";
    assert_eq!(c.extract_code_blocks(input), "trailing code\n");
    assert_eq!(c.remove_code_blocks(input), "text\n");
}

#[test]
fn no_fences_means_no_code() {
    let c = client();
    let input = "just words\nmore words";
    assert_eq!(c.extract_code_blocks(input), "");
    assert_eq!(c.remove_code_blocks(input), "just words\nmore words\n");
}

#[test]
fn indented_fence_counts() {
    let c = client();
    let input = "a\n  ```\ncode line\n  ```\nb";
    assert_eq!(c.extract_code_blocks(input), "code line\n");
    assert_eq!(c.remove_code_blocks(input), "a\nb\n");
}

// Concrete check of the round-trip law: the text side and the code side,
// interleaved back in input order, are the input minus its fence lines.
#[test]
fn round_trip_on_balanced_input() {
    let c = client();
    let input = "one\n```py\ntwo\nthree\n```\nfour\n```\nfive\n```\nsix\n";
    let text = c.remove_code_blocks(input);
    let code = c.extract_code_blocks(input);
    assert_eq!(text, "one\nfour\nsix\n");
    assert_eq!(code, "two\nthree\nfive\n");
    let mut merged: Vec<&str> = Vec::new();
    let mut text_lines = text.lines();
    let mut code_lines = code.lines();
    let mut in_block = false;
    for line in input.lines() {
        if line.trim_start().starts_with("```") {
            in_block = !in_block;
            continue;
        }
        if in_block {
            merged.push(code_lines.next().unwrap());
        } else {
            merged.push(text_lines.next().unwrap());
        }
    }
    let without_fences: Vec<&str> =
        input.lines().filter(|l| !l.trim_start().starts_with("```")).collect();
    assert_eq!(merged, without_fences);
    assert_eq!(text_lines.next(), None);
    assert_eq!(code_lines.next(), None);
}

#[test]
fn empty_input_yields_nothing() {
    let c = client();
    assert_eq!(c.extract_code_blocks(""), "");
    assert_eq!(c.remove_code_blocks(""), "");
}
