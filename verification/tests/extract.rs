use neo_scripts::extract::{is_whitespace, parse_neo_block};

/// The same recognition, written with the string functions of std.
fn by_std(msg: &str) -> Option<&str> {
    let msg = msg.trim();
    if msg.starts_with("```neo") && msg.ends_with("```") {
        Some(&msg[6..msg.len() - 3])
    } else {
        None
    }
}

#[test]
fn recognizes_a_fenced_block() {
    assert_eq!(parse_neo_block("```neo\nX\n```"), Some("\nX\n"));
}

#[test]
fn passes_over_plain_text() {
    assert_eq!(parse_neo_block("plain text"), None);
}

#[test]
fn passes_over_mismatched_fences() {
    assert_eq!(parse_neo_block("```neo\nX\n"), None);
    assert_eq!(parse_neo_block("\nX\n```"), None);
    assert_eq!(parse_neo_block("```rust\nX\n```"), None);
    assert_eq!(parse_neo_block("``neo\nX\n```"), None);
    assert_eq!(parse_neo_block("```neo\nX\n``"), None);
    assert_eq!(parse_neo_block("```Neo\nX\n```"), None);
}

#[test]
fn trims_before_it_looks_for_the_fences() {
    assert_eq!(parse_neo_block("  \n\t```neo\nX\n```\r\n  "), Some("\nX\n"));
    assert_eq!(parse_neo_block("\u{3000}```neo X ```\u{2003}"), Some(" X "));
    assert_eq!(parse_neo_block("\u{85}```neoX```\u{a0}"), Some("X"));
}

#[test]
fn keeps_the_interior_as_it_stands() {
    assert_eq!(parse_neo_block("```neo```"), Some(""));
    assert_eq!(parse_neo_block("```neo  x  ```"), Some("  x  "));
    assert_eq!(parse_neo_block("```neo\n```neo\ninner\n```\n```"), Some("\n```neo\ninner\n```\n"));
    assert_eq!(parse_neo_block("```neo\u{1F7E2}\u{e9}```"), Some("\u{1F7E2}\u{e9}"));
    assert_eq!(parse_neo_block("```neo````"), Some("`"));
}

#[test]
fn needs_both_fences_side_by_side() {
    assert_eq!(parse_neo_block(""), None);
    assert_eq!(parse_neo_block("   "), None);
    assert_eq!(parse_neo_block("```"), None);
    assert_eq!(parse_neo_block("```neo"), None);
    assert_eq!(parse_neo_block("```neo`"), None);
    assert_eq!(parse_neo_block("```neo``"), None);
    assert_eq!(parse_neo_block("``````"), None);
    assert_eq!(parse_neo_block("text ```neo\nX\n```"), None);
    assert_eq!(parse_neo_block("```neo\nX\n``` text"), None);
}

#[test]
fn does_not_trim_what_is_no_white_space() {
    assert_eq!(parse_neo_block("\u{200b}```neo\nX\n```"), None);
    assert_eq!(parse_neo_block("\u{180e}```neo\nX\n```"), None);
    assert_eq!(parse_neo_block("\u{feff}```neo\nX\n```"), None);
    assert_eq!(parse_neo_block("\u{1c}```neo\nX\n```"), None);
}

#[test]
fn agrees_with_std_on_white_space() {
    let mut code: u32 = 0;
    while code <= 0x10FFFF {
        if let Some(c) = char::from_u32(code) {
            assert_eq!(is_whitespace(c), c.is_whitespace(), "U+{:04X}", code);
        }
        code += 1;
    }
}

#[test]
fn agrees_with_std_on_recognition() {
    let samples = [
        "",
        " ",
        "```neo```",
        " ```neo``` ",
        "```neo\nfn on_message(m) { }\n```",
        "\n\n```neo\nlet x = 1;\n```\n\n",
        "```neo\u{2028}```",
        "\u{2028}```neo```\u{2029}",
        "```neo ``` ```",
        "````neo```",
        "```neo",
        "neo```",
        "`",
        "``` neo ```",
        "\u{1680}```neox```\u{205f}",
        "x\u{a0}```neo```",
        "```neo\u{e4}\u{f6}\u{fc}```",
    ];
    for sample in samples.iter() {
        assert_eq!(parse_neo_block(sample), by_std(sample), "{:?}", sample);
    }
}
