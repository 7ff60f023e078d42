use nehe::error::NeHeError;
use nehe::world::{content_line_spans, line_words, parse_count, parse_world, WorldError, WorldLayout};

fn words_of(text: &[u8], spans: &[(usize, usize)]) -> Vec<String> {
    spans.iter().map(|&(s, e)| String::from_utf8(text[s..e].to_vec()).unwrap()).collect()
}

fn layout(text: &str) -> Result<WorldLayout, WorldError> {
    parse_world(text.as_bytes())
}

#[test]
fn world_text_is_laid_out() {
    let text = "// A room\n\nNUMPOLLIES 1\n\n// floor\n-3.0 0.0 -3.0 0.0 6.0\r\n-3.0  0.0\t3.0 0.0 0.0\n3.0 0.0 3.0 6.0 0.0 extra\n1 2 3\n";
    let l = layout(text).unwrap();
    assert_eq!(l.triangles, 1);
    assert_eq!(l.vertices.len(), 3);
    let b = text.as_bytes();
    assert_eq!(words_of(b, &l.vertices[0]), vec!["-3.0", "0.0", "-3.0", "0.0", "6.0"]);
    assert_eq!(words_of(b, &l.vertices[1]), vec!["-3.0", "0.0", "3.0", "0.0", "0.0"]);
    assert_eq!(words_of(b, &l.vertices[2]), vec!["3.0", "0.0", "3.0", "6.0", "0.0"]);
}

#[test]
fn world_takes_what_lines_there_are() {
    let text = "NUMPOLLIES 4\n1 2 3 4 5\n6 7\n";
    let l = layout(text).unwrap();
    assert_eq!(l.triangles, 4);
    assert_eq!(l.vertices.len(), 2);
    assert_eq!(words_of(text.as_bytes(), &l.vertices[1]), vec!["6", "7"]);
}

#[test]
fn world_zero_triangles_has_no_vertices() {
    let l = layout("NUMPOLLIES 0\n1 2 3 4 5\n").unwrap();
    assert_eq!(l.triangles, 0);
    assert!(l.vertices.is_empty());
}

#[test]
fn world_header_with_crlf_and_plus() {
    let l = layout("NUMPOLLIES +1\r\n0 0 0 0 0\r\n1 1 1 1 1\r\n2 2 2 2 2").unwrap();
    assert_eq!(l.triangles, 1);
    assert_eq!(l.vertices.len(), 3);
}

#[test]
fn world_empty_text() {
    assert_eq!(layout("").err(), Some(WorldError::Empty));
    assert_eq!(layout("// nothing\n   \n\t\r\n/").err(), Some(WorldError::Empty));
}

#[test]
fn world_missing_header() {
    assert_eq!(layout("NUMPOLLY 3\n").err(), Some(WorldError::MissingHeader));
    assert_eq!(layout(" NUMPOLLIES 3\n").err(), Some(WorldError::MissingHeader));
    assert_eq!(layout("NUMPOLLIES\n").err(), Some(WorldError::MissingHeader));
}

#[test]
fn world_invalid_count() {
    assert_eq!(layout("NUMPOLLIES x\n").err(), Some(WorldError::InvalidCount));
    assert_eq!(layout("NUMPOLLIES -1\n").err(), Some(WorldError::InvalidCount));
    assert_eq!(layout("NUMPOLLIES +\n").err(), Some(WorldError::InvalidCount));
    assert_eq!(layout("NUMPOLLIES 1 \n").err(), Some(WorldError::InvalidCount));
    assert_eq!(layout("NUMPOLLIES 99999999999999999999999\n").err(), Some(WorldError::InvalidCount));
}

#[test]
fn world_errors_read_as_fatal() {
    match WorldError::Empty.to_error() {
        NeHeError::Fatal(m) => assert_eq!(m, "Empty world text file"),
        other => panic!("unexpected {:?}", other),
    }
    assert_eq!(WorldError::MissingHeader.message(), "World file didn't start with NUMPOLLIES");
    assert_eq!(WorldError::InvalidCount.message(), "Invalid NUMPOLLIES definition");
}

#[test]
fn count_parses_like_a_machine_word() {
    let t = b"18446744073709551615";
    assert_eq!(parse_count(t, 0, t.len()), Some(usize::MAX));
    let t = b"18446744073709551616";
    assert_eq!(parse_count(t, 0, t.len()), None);
    let t = b"+0042";
    assert_eq!(parse_count(t, 0, t.len()), Some(42));
    assert_eq!(parse_count(t, 0, 0), None);
}

#[test]
fn lines_that_count() {
    let t = b"a\n/b\n \n c\r\nd";
    assert_eq!(content_line_spans(t), vec![(0, 1), (7, 9), (11, 12)]);
}

#[test]
fn words_stop_at_five() {
    let t = b" 1 22  333 4 5 6 ";
    assert_eq!(line_words(t, 0, t.len()), vec![(1, 2), (3, 5), (7, 10), (11, 12), (13, 14)]);
    assert_eq!(line_words(t, 0, 0), vec![]);
}
