use preagonal::io::GraalIoError;
use preagonal::net::serialization::error::GraalSerializationError;
use preagonal::net::serialization::serialize::{Serializer, serialize_str_list};
use preagonal::net::serialization::{GScript, GString};

#[test]
fn test_struct() {
    let mut ser = Serializer::new();
    ser.serialize_u8(0xe).unwrap();
    ser.serialize_str("GSERV025").unwrap();
    ser.serialize_gstring(&GString::from("Graal1234567".to_string())).unwrap();
    ser.serialize_gstring(&GString::from("12345678".to_string())).unwrap();
    let identity = vec![
        "win".to_string(),
        "11111111111111111111111111111111".to_string(),
        "22222222222222222222222222222222".to_string(),
        "FFFFFFFFFFFFFFFFFFFFFFFFFFFFFFFF".to_string(),
    ];
    serialize_str_list(&mut ser, &identity).unwrap();
    let expected = ".GSERV025,Graal1234567(12345678\"win\",\"11111111111111111111111111111111\",\"22222222222222222222222222222222\",\"FFFFFFFFFFFFFFFFFFFFFFFFFFFFFFFF\"";
    let vec = ser.into_bytes();
    let res = String::from_utf8_lossy(vec.as_slice());
    assert_eq!(res, expected);
}

#[test]
fn sequence_elements_are_quoted_and_separated() {
    let mut ser = Serializer::new();
    let mut seq = ser.serialize_seq();
    seq.begin_element(&mut ser).unwrap();
    ser.serialize_u16(300).unwrap();
    seq.end_element(&mut ser).unwrap();
    seq.serialize_element_str(&mut ser, "b").unwrap();
    seq.end().unwrap();
    ser.serialize_unit().unwrap();
    assert_eq!(ser.into_bytes(), b"\"\"L\",\"b\"".to_vec());
}

#[test]
fn gscript_replaces_line_endings() {
    let mut ser = Serializer::new();
    ser.serialize_gscript(&GScript::from("a\r\nb\nc".to_string())).unwrap();
    assert_eq!(ser.into_bytes(), vec![b'a', 0xA7, b'b', 0xA7, b'c']);
}

#[test]
fn serializer_refuses_values_above_the_maximum() {
    let mut ser = Serializer::new();
    assert!(matches!(
        ser.serialize_u8(0xE0),
        Err(GraalSerializationError::Io(GraalIoError::ValueExceedsMaximum(0xE0, 0xDF)))
    ));
    assert!(matches!(
        ser.serialize_gstring(&GString("y".repeat(224))),
        Err(GraalSerializationError::Io(GraalIoError::ValueExceedsMaximum(224, 0xDF)))
    ));
    assert!(ser.into_bytes().is_empty());
}

#[test]
fn gstring_and_gscript_convert_to_and_from_strings() {
    let g: GString = "abc".to_string().into();
    let back: String = g.into();
    assert_eq!(back, "abc");
    let s: GScript = "x".to_string().into();
    let back: String = s.into();
    assert_eq!(back, "x");
}
