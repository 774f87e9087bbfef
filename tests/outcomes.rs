use h3_rs::{
    engine_text, populated_prefix, text_from_buffer, Error, H3Index, H3_STRING_BUFFER_LEN,
    MAX_CELL_BNDRY_VERTS,
};

const VALID: u64 = 0x850dab63fffffff;
const PENTAGON: u64 = 0x821c07fffffffff;

fn buffer_for(text: &str) -> Vec<u8> {
    let mut buf = vec![0u8; H3_STRING_BUFFER_LEN];
    buf[..text.len()].copy_from_slice(text.as_bytes());
    buf
}

#[test]
fn test_h3_to_geo_boundary() {
    let mut verts = [(0i64, 0i64); MAX_CELL_BNDRY_VERTS];
    for (i, v) in verts.iter_mut().enumerate() {
        *v = (i as i64, -(i as i64));
    }
    let hexagon = populated_prefix(&verts, 6);
    assert_eq!(hexagon.len(), 6);
    assert_eq!(hexagon[0], (0, 0));
    assert_eq!(hexagon[5], (5, -5));
    let pentagon_worst = populated_prefix(&verts, 10);
    assert_eq!(pentagon_worst, verts.to_vec());
    assert!(populated_prefix(&verts, 0).is_empty());
    assert!(populated_prefix(&verts, -3).is_empty());
}

#[test]
fn test_h3_distance() {
    let a = H3Index(VALID);
    let b = H3Index(PENTAGON);
    assert_eq!(a.distance_from_engine(a, 0), Ok(0));
    assert_eq!(a.distance_from_engine(b, 7), Ok(7));
    assert_eq!(
        a.distance_from_engine(b, -1),
        Err(Error::IncompatibleIndexes { left: a, right: b })
    );
}

#[test]
fn test_h3_parent() {
    assert_eq!(H3Index::from_engine(0x840dab7ffffffff), Ok(H3Index(0x840dab7ffffffff)));
    assert_eq!(H3Index::from_engine(0), Err(Error::FailedConversion));
}

#[test]
fn test_h3_display() {
    let buf = buffer_for("850dab63fffffff");
    assert_eq!(text_from_buffer(&buf), "850dab63fffffff");
}

#[test]
fn text_form_falls_back_on_undecodable_bytes() {
    let mut buf = buffer_for("850dab63fffffff");
    buf[3] = 0xff;
    assert_eq!(text_from_buffer(&buf), "<invalid>");
}

#[test]
fn text_form_keeps_inner_nul_and_drops_padding() {
    assert_eq!(text_from_buffer(&[b'a', 0, b'b', 0, 0]), "a\0b");
    assert_eq!(text_from_buffer(&[0, 0, 0]), "");
    assert_eq!(text_from_buffer(&[]), "");
}

#[test]
fn validity_verdict_decides_admission() {
    assert_eq!(H3Index::from_validity(VALID, 1), Ok(H3Index(VALID)));
    assert_eq!(H3Index::from_validity(VALID, 1).unwrap().value(), VALID);
    assert_eq!(H3Index::from_validity(42, 0), Err(Error::InvalidIndex { value: 42 }));
}

#[test]
fn parsed_text_matches_index_from_integer() {
    let text = "0x850dab63fffffff";
    assert_eq!(engine_text(text), Ok(text.as_bytes().to_vec()));
    assert_eq!(
        H3Index::from_parsed(text, VALID),
        H3Index::from_validity(VALID, 1)
    );
    assert_eq!(
        H3Index::from_parsed("invalid string", 0),
        Err(Error::InvalidString { value: "invalid string".to_string() })
    );
}

#[test]
fn text_with_nul_is_refused() {
    assert_eq!(
        engine_text("85\0dab"),
        Err(Error::InvalidString { value: "85\0dab".to_string() })
    );
    assert_eq!(engine_text(""), Ok(Vec::new()));
}

#[test]
fn indexing_out_of_range_resolution_fails() {
    // The engine answers zero for resolutions -1 and 17.
    assert_eq!(H3Index::from_engine(0), Err(Error::FailedConversion));
    assert!(H3Index::from_engine(VALID).is_ok());
}

#[test]
fn predicate_answers_become_booleans() {
    assert!(H3Index::flag_from_engine(1));
    assert!(H3Index::flag_from_engine(-2));
    assert!(!H3Index::flag_from_engine(0));
}

#[test]
fn raw_order_is_integer_order() {
    assert!(H3Index(PENTAGON) < H3Index(VALID));
    assert_ne!(H3Index(PENTAGON), H3Index(VALID));
}

#[test]
fn parser_input_padded_reads_back_as_text() {
    for text in ["850dab63fffffff", "0x821c07fffffffff", "", "größe"] {
        let mut buf = engine_text(text).unwrap();
        buf.extend_from_slice(&[0, 0, 0]);
        assert_eq!(text_from_buffer(&buf), text);
    }
}
