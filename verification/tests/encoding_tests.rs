use fabric_nb::cells::{notebook_bytes, CellsError};
use fabric_nb::client::{DefinitionBody, DefinitionPart, ItemDefinition};
use fabric_nb::notebook::encode_payload;

fn definition_with(payload: &str) -> ItemDefinition {
    ItemDefinition {
        definition: Some(DefinitionBody {
            parts: vec![DefinitionPart {
                path: "notebook-content.ipynb".to_string(),
                payload: payload.to_string(),
                payload_type: "InlineBase64".to_string(),
            }],
        }),
    }
}

#[test]
fn base64_encodes_with_padding() {
    assert_eq!(encode_payload(""), "");
    assert_eq!(encode_payload("f"), "Zg==");
    assert_eq!(encode_payload("fo"), "Zm8=");
    assert_eq!(encode_payload("foo"), "Zm9v");
    assert_eq!(encode_payload("foobar"), "Zm9vYmFy");
    assert_eq!(encode_payload("ÿ"), "w78=");
    assert_eq!(encode_payload(">?>"), "Pj8+");
    assert_eq!(encode_payload("~~~?"), "fn5+Pw==");
}

#[test]
fn base64_round_trip() {
    let text = "{\"cells\": [], \"x\": \"é ✓ 😀\"}\n";
    let enc = encode_payload(text);
    assert_eq!(notebook_bytes(&definition_with(&enc)).ok().unwrap(), text.as_bytes().to_vec());
    assert_eq!(notebook_bytes(&definition_with("Zm9vYmFy")).ok().unwrap(), b"foobar".to_vec());
}

#[test]
fn base64_rejects_non_canonical_input() {
    for bad in ["Zg", "Zh==", "Zg=", "Z g==", "Zm9v!"] {
        assert!(matches!(notebook_bytes(&definition_with(bad)), Err(CellsError::BadPayload)), "{}", bad);
    }
}
