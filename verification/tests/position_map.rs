//! Position, range and URI translation between `.rts` and `.rs` files.

use rsc_lsp::position_map::{compute_line_starts, offset_to_line, Position, PositionMap, Range, Span};
use tower_lsp::lsp_types::Url;

fn make_rts_source() -> String {
    // Lines:
    // 0: "function add(a: i32, b: i32): i32 {\n"
    // 1: "  return a + b;\n"
    // 2: "}\n"
    "function add(a: i32, b: i32): i32 {\n  return a + b;\n}\n".to_owned()
}

fn make_generated_source() -> String {
    // Lines:
    // 0: "fn add(a: i32, b: i32) -> i32 {\n"
    // 1: "    a + b\n"
    // 2: "}\n"
    "fn add(a: i32, b: i32) -> i32 {\n    a + b\n}\n".to_owned()
}

fn make_source_map() -> Vec<Option<Span>> {
    // .rs line 0 -> .rts span covering line 0 (offset 0..36)
    // .rs line 1 -> .rts span covering line 1 (offset 36..52)
    // .rs line 2 -> .rts span covering line 2 (offset 52..54)
    vec![
        Some(Span::new(0, 36)),
        Some(Span::new(36, 52)),
        Some(Span::new(52, 54)),
    ]
}

#[test]
fn test_position_map_rts_to_rs_position() {
    let map = PositionMap::new(
        make_source_map(),
        make_rts_source(),
        make_generated_source(),
    );

    // .rts line 0, col 5 -> should map to .rs line 0, col 5
    let result = map.rts_to_rs_position(Position {
        line: 0,
        character: 5,
    });
    assert!(result.is_some());
    let pos = result.unwrap();
    assert_eq!(pos.line, 0);
    assert_eq!(pos.character, 5);
}

#[test]
fn test_position_map_rs_to_rts_position() {
    let map = PositionMap::new(
        make_source_map(),
        make_rts_source(),
        make_generated_source(),
    );

    // .rs line 1, col 4 -> should map to .rts line 1
    let result = map.rs_to_rts_position(Position {
        line: 1,
        character: 4,
    });
    assert!(result.is_some());
    let pos = result.unwrap();
    assert_eq!(pos.line, 1);
    assert_eq!(pos.character, 4);
}

#[test]
fn test_position_map_rs_to_rts_range() {
    let map = PositionMap::new(
        make_source_map(),
        make_rts_source(),
        make_generated_source(),
    );

    let range = Range {
        start: Position {
            line: 0,
            character: 0,
        },
        end: Position {
            line: 2,
            character: 1,
        },
    };
    let result = map.rs_to_rts_range(range);
    assert!(result.is_some());
    let rts_range = result.unwrap();
    assert_eq!(rts_range.start.line, 0);
    assert_eq!(rts_range.end.line, 2);
}

#[test]
fn test_position_map_rts_to_rs_uri() {
    let map = PositionMap::new(vec![], String::new(), String::new());

    let rts_uri = Url::parse("file:///project/src/main.rts").unwrap();
    let rs_uri = map.rts_to_rs_uri(&rts_uri);
    assert!(rs_uri.is_some());
    let rs = rs_uri.unwrap();
    assert!(
        rs.as_str().contains(".rsc-build/src/main.rs"),
        "expected .rsc-build/src/main.rs in URI, got: {rs}"
    );
}

#[test]
fn test_position_map_rs_to_rts_uri() {
    let map = PositionMap::new(vec![], String::new(), String::new());

    let rs_uri = Url::parse("file:///project/.rsc-build/src/main.rs").unwrap();
    let rts_uri = map.rs_to_rts_uri(&rs_uri);
    assert!(rts_uri.is_some());
    let rts = rts_uri.unwrap();
    assert!(
        rts.as_str().contains("/project/main.rts"),
        "expected /project/main.rts in URI, got: {rts}"
    );
}

#[test]
fn test_position_map_construction_bidirectional() {
    let map = PositionMap::new(
        make_source_map(),
        make_rts_source(),
        make_generated_source(),
    );

    // Every .rts line that has a mapping should round-trip
    for rts_line in 0..3u32 {
        let pos = Position {
            line: rts_line,
            character: 0,
        };
        if let Some(rs_pos) = map.rts_to_rs_position(pos) {
            let back = map.rs_to_rts_position(rs_pos);
            assert!(back.is_some(), "round-trip failed for .rts line {rts_line}");
            assert_eq!(back.unwrap().line, rts_line);
        }
    }
}

// Test: Returns None for unmapped .rts line
#[test]
fn test_position_map_rts_to_rs_unmapped_returns_none() {
    let map = PositionMap::new(
        make_source_map(),
        make_rts_source(),
        make_generated_source(),
    );

    let result = map.rts_to_rs_position(Position {
        line: 99,
        character: 0,
    });
    assert!(result.is_none());
}

// Test: Returns None for .rs line with None in source map
#[test]
fn test_position_map_rs_to_rts_none_entry_returns_none() {
    let source_map = vec![None, Some(Span::new(0, 10))];
    let map = PositionMap::new(source_map, "hello\nworld\n".to_owned(), "a\nb\n".to_owned());

    let result = map.rs_to_rts_position(Position {
        line: 0,
        character: 0,
    });
    assert!(
        result.is_none(),
        "line with None source map entry should return None"
    );
}

// Correctness scenario 1: Position roundtrip
#[test]
fn test_position_map_correctness_position_roundtrip() {
    let map = PositionMap::new(
        make_source_map(),
        make_rts_source(),
        make_generated_source(),
    );

    // Translate .rts line 1, col 2 to .rs, then back to .rts
    let original = Position {
        line: 1,
        character: 2,
    };
    let rs_pos = map.rts_to_rs_position(original).expect("should map to .rs");
    let roundtrip = map
        .rs_to_rts_position(rs_pos)
        .expect("should map back to .rts");
    assert_eq!(roundtrip.line, original.line);
    assert_eq!(roundtrip.character, original.character);
}

// Correctness scenario 3: Definition response translation
#[test]
fn test_position_map_correctness_definition_response_translation() {
    // Simulate: rust-analyzer returns a definition at .rs line 0, col 3
    // and we translate it back to .rts
    let map = PositionMap::new(
        make_source_map(),
        make_rts_source(),
        make_generated_source(),
    );

    let rs_pos = Position {
        line: 0,
        character: 3,
    };
    let rts_pos = map
        .rs_to_rts_position(rs_pos)
        .expect("should translate back");
    assert_eq!(rts_pos.line, 0, "definition should be on .rts line 0");
    assert_eq!(rts_pos.character, 3, "column should be preserved");
}

// Test: compute_line_starts
#[test]
fn test_compute_line_starts() {
    let source = "abc\ndef\nghi";
    let starts = compute_line_starts(source);
    assert_eq!(starts, vec![0, 4, 8]);
}

// Test: offset_to_line
#[test]
fn test_offset_to_line_basic() {
    let starts = vec![0, 4, 8];
    assert_eq!(offset_to_line(&starts, 0), 0);
    assert_eq!(offset_to_line(&starts, 3), 0);
    assert_eq!(offset_to_line(&starts, 4), 1);
    assert_eq!(offset_to_line(&starts, 7), 1);
    assert_eq!(offset_to_line(&starts, 8), 2);
}

#[test]
fn earliest_rs_line_wins_for_an_rts_line() {
    let source_map = vec![None, Some(Span::new(6, 8)), Some(Span::new(0, 3)), Some(Span::new(1, 2))];
    let map = PositionMap::new(source_map, "hello\nworld\n".to_owned(), "a\nb\nc\nd\n".to_owned());
    assert_eq!(
        map.rts_to_rs_position(Position { line: 0, character: 4 }),
        Some(Position { line: 2, character: 4 })
    );
    assert_eq!(
        map.rts_to_rs_position(Position { line: 1, character: 0 }),
        Some(Position { line: 1, character: 0 })
    );
    assert_eq!(map.rts_to_rs_position(Position { line: 2, character: 0 }), None);
}

#[test]
fn rs_path_text_maps_back_to_rts_path() {
    use_rts_path("/project/src", "main");
    use_rts_path("/home/u/app", "lib_utils");
}

fn use_rts_path(dir: &str, stem: &str) {
    let rs = format!("{dir}/.rsc-build/src/{stem}.rs");
    assert_eq!(rsc_lsp::position_map::rts_path_for_rs_path(&rs), Some(format!("{dir}/{stem}.rts")));
}
