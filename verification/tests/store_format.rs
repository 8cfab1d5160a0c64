use serde_json::Value;
use window_geometry::binary64::Binary64;
use window_geometry::geometry::WindowGeometry;
use window_geometry::json::{Json, Number};
use window_geometry::persistence::{Command, WindowGeometryPersistence};
use window_geometry::record::{decode, encode};
use window_geometry::store::{save_window_state, Lookup, StoreStep};

fn json_of(value: &Value) -> Json {
    match value {
        Value::Null => Json::Null,
        Value::Bool(flag) => Json::Bool(*flag),
        Value::Number(number) => Json::Number(match (number.as_u64(), number.as_i64(), number.as_f64()) {
            (Some(n), _, _) => Number::PosInt(n),
            (None, Some(n), _) => Number::NegInt(n),
            (None, None, Some(n)) => Number::Real(Binary64 { bits: n.to_bits() }),
            (None, None, None) => unreachable!(),
        }),
        Value::String(text) => Json::Text(text.clone()),
        Value::Array(items) => Json::List(items.iter().map(json_of).collect()),
        Value::Object(fields) => {
            Json::Record(fields.iter().map(|(name, value)| (name.clone(), json_of(value))).collect())
        }
    }
}

fn value_of(json: &Json) -> Value {
    match json {
        Json::Null => Value::Null,
        Json::Bool(flag) => Value::Bool(*flag),
        Json::Number(Number::PosInt(n)) => Value::from(*n),
        Json::Number(Number::NegInt(n)) => Value::from(*n),
        Json::Number(Number::Real(n)) => Value::from(f64::from_bits(n.bits)),
        Json::Text(text) => Value::String(text.clone()),
        Json::List(items) => Value::Array(items.iter().map(value_of).collect()),
        Json::Record(entries) => {
            let mut fields = serde_json::Map::new();
            for (name, value) in entries {
                fields.insert(name.clone(), value_of(value));
            }
            Value::Object(fields)
        }
    }
}

fn parse(text: &str) -> Value {
    serde_json::from_str(text).unwrap()
}

/// What the serde data model makes of a list of four: two reals, cut to
/// pixels by the machine, and two 32-bit integers.
fn reference(value: &Value) -> Option<WindowGeometry> {
    serde_json::from_value::<(f64, f64, i32, i32)>(value.clone())
        .ok()
        .map(|(width, height, x, y)| WindowGeometry { width: width as u32, height: height as u32, x, y })
}

fn samples() -> Vec<Value> {
    vec![
        Value::Null,
        Value::Bool(true),
        Value::String("800".to_string()),
        Value::Array(vec![Value::from(1)]),
        parse("{}"),
        parse("0"),
        parse("-0"),
        parse("0.0"),
        parse("-0.0"),
        parse("1"),
        parse("-1"),
        parse("800"),
        parse("800.0"),
        parse("800.5"),
        parse("-800.5"),
        parse("8e2"),
        parse("0.999999999999"),
        parse("2147483647"),
        parse("2147483648"),
        parse("2147483647.0"),
        parse("-2147483648"),
        parse("-2147483649"),
        parse("4294967295"),
        parse("4294967295.9"),
        parse("4294967296"),
        parse("9007199254740993"),
        parse("18446744073709551615"),
        parse("18446744073709551616"),
        parse("-9223372036854775808"),
        parse("-9223372036854775809"),
        parse("1e300"),
        parse("-1e300"),
        parse("5e-324"),
    ]
}

#[test]
fn a_record_in_a_store_file_is_read() {
    let value = parse(r#"{"height":600.0,"width":800.0,"x":-5,"y":7}"#);
    assert_eq!(decode(&json_of(&value)), Some(WindowGeometry { width: 800, height: 600, x: -5, y: 7 }));
}

#[test]
fn a_record_with_more_in_it_is_read() {
    let value = parse(
        r#"{"width": 1280.0, "height": 720.0, "x": 0, "y": 0, "maximized": false, "display": {"x": 9, "scale": 1.5}}"#,
    );
    assert_eq!(decode(&json_of(&value)), Some(WindowGeometry { width: 1280, height: 720, x: 0, y: 0 }));
}

#[test]
fn a_repeated_name_in_a_store_file_counts_once() {
    let value = parse(r#"{"width":1.0,"height":600.0,"x":-5,"y":7,"width":800.0}"#);
    assert_eq!(decode(&json_of(&value)), Some(WindowGeometry { width: 800, height: 600, x: -5, y: 7 }));
}

#[test]
fn a_record_with_a_missing_field_is_not_read() {
    let value = parse(r#"{"width":800.0,"x":-5,"y":7}"#);
    assert_eq!(decode(&json_of(&value)), None);
    let mut persistence = WindowGeometryPersistence::new();
    assert_eq!(persistence.start(&Lookup::Found(json_of(&value))), vec![]);
}

#[test]
fn what_is_written_is_the_record_of_the_store_file() {
    let written = value_of(&encode(&WindowGeometry { width: 800, height: 600, x: -5, y: 7 }));
    assert_eq!(written, parse(r#"{"width":800.0,"height":600.0,"x":-5,"y":7}"#));
    assert_ne!(written, parse(r#"{"width":800,"height":600,"x":-5,"y":7}"#));
    assert_ne!(written, parse(r#"{"width":800.0,"height":600.0,"x":-5.0,"y":7.0}"#));
}

#[test]
fn what_is_written_survives_the_store_file() {
    let geometries = [
        WindowGeometry { width: 800, height: 600, x: -5, y: 7 },
        WindowGeometry { width: 0, height: 1, x: 0, y: 0 },
        WindowGeometry { width: 1, height: 0, x: 3, y: 4 },
        WindowGeometry { width: u32::MAX, height: 16777217, x: i32::MIN, y: i32::MAX },
    ];
    for geometry in geometries {
        let steps = save_window_state(geometry.x, geometry.y, geometry.width, geometry.height);
        let StoreStep::Put { key, value } = &steps[0] else {
            panic!("the first step is a flush");
        };
        assert_eq!(key, "window_state");
        let text = serde_json::to_string(&value_of(value)).unwrap();
        let read = json_of(&parse(&text));
        assert_eq!(decode(&read), Some(geometry), "text {text}");
        let expected = if geometry.has_area() {
            vec![Command::SetPosition(geometry.position()), Command::SetSize(geometry.size())]
        } else {
            vec![]
        };
        let mut persistence = WindowGeometryPersistence::new();
        assert_eq!(persistence.start(&Lookup::Found(read)), expected, "text {text}");
        assert!(persistence.watching());
    }
}

#[test]
fn values_pass_through_the_store_unchanged() {
    for value in samples() {
        assert_eq!(value_of(&json_of(&value)), value);
    }
    let nested = parse(r#"{"a":[1,-2,3.5,"x",null,true,{"b":[]}],"c":{"d":{"e":1e-7}}}"#);
    assert_eq!(value_of(&json_of(&nested)), nested);
}

#[test]
fn sizes_are_read_as_the_serde_data_model_reads_reals() {
    for sample in samples() {
        let expected = serde_json::from_value::<f64>(sample.clone()).ok().map(|real| real as u32);
        let list = Value::Array(vec![sample.clone(), sample.clone(), Value::from(0), Value::from(0)]);
        let read = decode(&json_of(&list)).map(|geometry| (geometry.width, geometry.height));
        assert_eq!(read, expected.map(|pixels| (pixels, pixels)), "sample {sample}");

        let mut fields = serde_json::Map::new();
        fields.insert("width".to_string(), sample.clone());
        fields.insert("height".to_string(), Value::from(1.0));
        fields.insert("x".to_string(), Value::from(0));
        fields.insert("y".to_string(), Value::from(0));
        let read = decode(&json_of(&Value::Object(fields))).map(|geometry| geometry.width);
        assert_eq!(read, expected, "sample {sample}");
    }
}

#[test]
fn offsets_are_read_as_the_serde_data_model_reads_integers() {
    for sample in samples() {
        let expected = serde_json::from_value::<i32>(sample.clone()).ok();
        let list = Value::Array(vec![Value::from(1.0), Value::from(1.0), sample.clone(), sample.clone()]);
        let read = decode(&json_of(&list)).map(|geometry| (geometry.x, geometry.y));
        assert_eq!(read, expected.map(|offset| (offset, offset)), "sample {sample}");

        let mut fields = serde_json::Map::new();
        fields.insert("width".to_string(), Value::from(1.0));
        fields.insert("height".to_string(), Value::from(1.0));
        fields.insert("x".to_string(), Value::from(0));
        fields.insert("y".to_string(), sample.clone());
        let read = decode(&json_of(&Value::Object(fields))).map(|geometry| geometry.y);
        assert_eq!(read, expected, "sample {sample}");
    }
}

#[test]
fn lists_are_read_as_the_serde_data_model_reads_them() {
    let pool = samples();
    let mut state: u64 = 0x243f_6a88_85a3_08d3;
    let mut pick = move || {
        state ^= state << 13;
        state ^= state >> 7;
        state ^= state << 17;
        (state % pool.len() as u64) as usize
    };
    let pool = samples();
    let mut read_some = 0;
    for round in 0..60_000 {
        let length = if round % 10 == 0 { round / 10 % 7 } else { 4 };
        let list = Value::Array((0..length).map(|_| pool[pick()].clone()).collect());
        let read = decode(&json_of(&list));
        assert_eq!(read, reference(&list), "list {list}");
        if read.is_some() {
            read_some += 1;
        }
    }
    assert!(read_some > 1000);
}

#[test]
fn what_is_no_list_and_no_record_is_not_read() {
    for sample in samples() {
        if !sample.is_object() && !sample.is_array() {
            assert_eq!(decode(&json_of(&sample)), None, "sample {sample}");
            assert!(reference(&sample).is_none());
        }
    }
}

#[test]
fn a_record_without_area_in_a_store_file_is_not_applied() {
    let texts = [
        r#"{"width":0.0,"height":600.0,"x":1,"y":2}"#,
        r#"{"width":800.0,"height":0.0,"x":1,"y":2}"#,
        r#"{"width":0,"height":0,"x":1,"y":2}"#,
        r#"{"width":-800.0,"height":600.0,"x":1,"y":2}"#,
        r#"{"width":800.0,"height":-1,"x":1,"y":2}"#,
        r#"{"width":0.5,"height":600.0,"x":1,"y":2}"#,
        r#"{"width":800.0,"height":0.999,"x":1,"y":2}"#,
        r#"{"width":-0.0,"height":600.0,"x":1,"y":2}"#,
        r#"{"width":1e-320,"height":600.0,"x":1,"y":2}"#,
        r#"[0, 600, 1, 2]"#,
        r#"[800.0, 0.0, 1, 2]"#,
    ];
    for text in texts {
        let read = json_of(&parse(text));
        let geometry = decode(&read).unwrap();
        assert!(!geometry.has_area(), "text {text}");
        let mut persistence = WindowGeometryPersistence::new();
        assert_eq!(persistence.start(&Lookup::Found(read)), vec![], "text {text}");
        assert!(persistence.watching());
    }
}

#[test]
fn the_smallest_sizes_with_an_area_are_applied() {
    for text in [r#"{"width":1.0,"height":1.0,"x":1,"y":2}"#, r#"[1.999, 1, 1, 2]"#] {
        let mut persistence = WindowGeometryPersistence::new();
        assert_eq!(
            persistence.start(&Lookup::Found(json_of(&parse(text)))),
            vec![
                Command::SetPosition(window_geometry::geometry::Position { x: 1, y: 2 }),
                Command::SetSize(window_geometry::geometry::Size { width: 1, height: 1 }),
            ],
            "text {text}"
        );
    }
}
