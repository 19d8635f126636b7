use gvars::{Field, GVar, TypeTag, Value};

fn text_u32(s: &str) -> Option<u32> {
    <u32 as GVar>::from_str(s).ok()
}

fn text_i64(s: &str) -> Option<i64> {
    <i64 as GVar>::from_str(s).ok()
}

fn text_bool(s: &str) -> Option<bool> {
    <bool as GVar>::from_str(s).ok()
}

#[test]
fn u32_plain_text() {
    assert_eq!(text_u32("0"), Some(0));
    assert_eq!(text_u32("42"), Some(42));
    assert_eq!(text_u32("+42"), Some(42));
    assert_eq!(text_u32("00042"), Some(42));
    assert_eq!(text_u32("4294967295"), Some(u32::MAX));
    assert_eq!(text_u32("4294967296"), None);
    assert_eq!(text_u32("99999999999999999999999"), None);
    assert_eq!(text_u32(""), None);
    assert_eq!(text_u32("+"), None);
    assert_eq!(text_u32("-"), None);
    assert_eq!(text_u32("-0"), None);
    assert_eq!(text_u32("-1"), None);
    assert_eq!(text_u32("++1"), None);
    assert_eq!(text_u32(" 1"), None);
    assert_eq!(text_u32("1 "), None);
    assert_eq!(text_u32("1_000"), None);
    assert_eq!(text_u32("0x10"), None);
    assert_eq!(text_u32("1.0"), None);
    assert_eq!(text_u32("\u{0663}"), None);
    assert_eq!(text_u32("1+"), None);
}

#[test]
fn i64_plain_text() {
    assert_eq!(text_i64("0"), Some(0));
    assert_eq!(text_i64("-0"), Some(0));
    assert_eq!(text_i64("+0"), Some(0));
    assert_eq!(text_i64("-17"), Some(-17));
    assert_eq!(text_i64("+17"), Some(17));
    assert_eq!(text_i64("-0017"), Some(-17));
    assert_eq!(text_i64("9223372036854775807"), Some(i64::MAX));
    assert_eq!(text_i64("-9223372036854775808"), Some(i64::MIN));
    assert_eq!(text_i64("9223372036854775808"), None);
    assert_eq!(text_i64("-9223372036854775809"), None);
    assert_eq!(text_i64(""), None);
    assert_eq!(text_i64("-"), None);
    assert_eq!(text_i64("+"), None);
    assert_eq!(text_i64("--1"), None);
    assert_eq!(text_i64("+-1"), None);
    assert_eq!(text_i64("- 1"), None);
    assert_eq!(text_i64("1-"), None);
}

#[test]
fn bool_plain_text() {
    assert_eq!(text_bool("true"), Some(true));
    assert_eq!(text_bool("false"), Some(false));
    assert_eq!(text_bool("True"), None);
    assert_eq!(text_bool("1"), None);
    assert_eq!(text_bool(""), None);
    assert_eq!(text_bool(" true"), None);
    assert_eq!(text_bool("truefalse"), None);
}

#[test]
fn string_plain_text_is_the_text() {
    assert_eq!(<String as GVar>::from_str("").unwrap(), "");
    assert_eq!(<String as GVar>::from_str(" a b ").unwrap(), " a b ");
    assert_eq!(GVar::to_string(&" a b ".to_string()), " a b ");
}

#[test]
fn numbers_are_written_in_decimal() {
    assert_eq!(GVar::to_string(&0u32), "0");
    assert_eq!(GVar::to_string(&7u32), "7");
    assert_eq!(GVar::to_string(&10u32), "10");
    assert_eq!(GVar::to_string(&1203u32), "1203");
    assert_eq!(GVar::to_string(&u32::MAX), "4294967295");
    assert_eq!(GVar::to_string(&0i64), "0");
    assert_eq!(GVar::to_string(&-1i64), "-1");
    assert_eq!(GVar::to_string(&-120i64), "-120");
    assert_eq!(GVar::to_string(&i64::MAX), "9223372036854775807");
    assert_eq!(GVar::to_string(&i64::MIN), "-9223372036854775808");
    assert_eq!(GVar::to_string(&true), "true");
    assert_eq!(GVar::to_string(&false), "false");
}

#[test]
fn diagnostics_are_those_of_the_standard_library() {
    assert_eq!(
        <u32 as GVar>::from_str("").unwrap_err(),
        "".parse::<u32>().unwrap_err().to_string()
    );
    assert_eq!(
        <u32 as GVar>::from_str("4294967296").unwrap_err(),
        "number too large to fit in target type"
    );
    assert_eq!(<i64 as GVar>::from_str("x").unwrap_err(), "invalid digit found in string");
    assert_eq!(
        <bool as GVar>::from_str("x").unwrap_err(),
        "x".parse::<bool>().unwrap_err().to_string()
    );
}

#[test]
fn written_text_reads_back() {
    for n in [0u32, 1, 9, 10, 99, 100, 65535, u32::MAX] {
        assert_eq!(text_u32(&GVar::to_string(&n)), Some(n));
    }
    for n in [0i64, 1, -1, 10, -10, i64::MAX, i64::MIN] {
        assert_eq!(text_i64(&GVar::to_string(&n)), Some(n));
    }
    for b in [true, false] {
        assert_eq!(text_bool(&GVar::to_string(&b)), Some(b));
    }
}

#[test]
fn structured_notation_of_each_type() {
    assert_eq!(<u32 as GVar>::from_structured("42"), Ok(42));
    assert_eq!(<u32 as GVar>::from_structured("0b101"), Ok(5));
    assert_eq!(<u32 as GVar>::from_structured("1_000"), Ok(1000));
    assert!(<u32 as GVar>::from_structured("").is_err());
    assert!(<u32 as GVar>::from_structured("-3").is_err());
    assert!(<u32 as GVar>::from_structured("true").is_err());
    assert_eq!(<i64 as GVar>::from_structured("-42"), Ok(-42));
    assert!(<i64 as GVar>::from_structured("9223372036854775808").is_err());
    assert_eq!(<bool as GVar>::from_structured("true"), Ok(true));
    assert_eq!(<bool as GVar>::from_structured("false"), Ok(false));
    assert!(<bool as GVar>::from_structured("1").is_err());
    assert_eq!(<String as GVar>::from_structured("\"a\\tb\""), Ok("a\tb".to_string()));
    assert_eq!(<String as GVar>::from_structured("r#\"a\"b\"#"), Ok("a\"b".to_string()));
    assert!(<String as GVar>::from_structured("a b").is_err());
}

#[test]
fn structured_notation_stops_after_the_value() {
    assert_eq!(<u32 as GVar>::from_structured("5 abc"), Ok(5));
    assert_eq!(<u32 as GVar>::from_structured("  5"), Ok(5));
    assert_eq!(<bool as GVar>::from_structured("true, false"), Ok(true));
    assert_eq!(<String as GVar>::from_structured("\"a\" \"b\""), Ok("a".to_string()));
    assert_eq!(<i64 as GVar>::from_structured("-7 // seven"), Ok(-7));
}

#[test]
fn type_tags() {
    assert_eq!(<bool as GVar>::type_id(), TypeTag::Bool);
    assert_eq!(<u32 as GVar>::type_id(), TypeTag::U32);
    assert_eq!(<i64 as GVar>::type_id(), TypeTag::I64);
    assert_eq!(<String as GVar>::type_id(), TypeTag::Str);
    assert_eq!(Value::Bool(true).tag(), TypeTag::Bool);
    assert_eq!(Value::U32(1).tag(), TypeTag::U32);
    assert_eq!(Value::I64(1).tag(), TypeTag::I64);
    assert_eq!(Value::Str(String::new()).tag(), TypeTag::Str);
}

#[test]
fn values_go_in_and_out_of_their_type() {
    assert!(matches!(5u32.to_value(), Value::U32(5)));
    assert!(matches!((-5i64).to_value(), Value::I64(-5)));
    assert!(matches!(true.to_value(), Value::Bool(true)));
    assert!(matches!("s".to_string().to_value(), Value::Str(s) if s == "s"));
    assert_eq!(*<u32 as GVar>::of_value(&Value::U32(5)), 5);
    assert_eq!(*<i64 as GVar>::of_value(&Value::I64(-5)), -5);
    assert!(*<bool as GVar>::of_value(&Value::Bool(true)));
    assert_eq!(<String as GVar>::of_value(&Value::Str("s".to_string())), "s");
}

#[test]
fn value_reads_by_tag() {
    assert!(matches!(Value::from_text(TypeTag::U32, "12"), Ok(Value::U32(12))));
    assert!(matches!(Value::from_text(TypeTag::I64, "-12"), Ok(Value::I64(-12))));
    assert!(matches!(Value::from_text(TypeTag::Bool, "false"), Ok(Value::Bool(false))));
    assert!(matches!(Value::from_text(TypeTag::Str, "12"), Ok(Value::Str(s)) if s == "12"));
    assert!(matches!(Value::from_text(TypeTag::Bool, "12"), Err(_)));
    assert!(matches!(Value::from_text(TypeTag::U32, "-12"), Err(_)));
    assert!(matches!(Value::from_structured(TypeTag::U32, "12"), Ok(Value::U32(12))));
    assert!(matches!(Value::from_structured(TypeTag::Str, "\"12\""), Ok(Value::Str(s)) if s == "12"));
    assert!(matches!(Value::from_structured(TypeTag::Str, "12"), Err(_)));
    assert_eq!(Value::U32(12).to_text(), "12");
    assert_eq!(Value::I64(-12).to_text(), "-12");
    assert_eq!(Value::Bool(true).to_text(), "true");
    assert_eq!(Value::Str("x y".to_string()).to_text(), "x y");
}

#[test]
fn field_holds_one_value_of_one_type() {
    let mut f = Field::new("m::LIMIT", &["LIMIT", "limit"], &250u32);
    assert_eq!(f.unique_name, "m::LIMIT");
    assert_eq!(f.aliases, &["LIMIT", "limit"]);
    assert_eq!(f.type_id(), TypeTag::U32);
    assert_eq!(*f.get::<u32>(), 250);
    assert_eq!(f.get_string(), "250");
    assert_eq!(f.set("300"), Ok(()));
    assert_eq!(*f.get::<u32>(), 300);
    assert_eq!(f.get_string(), "300");
    assert_eq!(f.set("-300"), Err("invalid digit found in string".to_string()));
    assert_eq!(f.get_string(), "300");
    assert_eq!(f.set(""), Err("cannot parse integer from empty string".to_string()));
    assert_eq!(f.get_string(), "300");
    assert_eq!(f.set_structured("0x20"), Ok(()));
    assert_eq!(f.get_string(), "32");
    assert!(f.set_structured("nothing").is_err());
    assert_eq!(f.get_string(), "32");
    assert_eq!(f.publish(Ok(Value::U32(1))), Ok(()));
    assert_eq!(f.get_string(), "1");
    assert_eq!(f.publish(Err("d".to_string())), Err("d".to_string()));
    assert_eq!(f.get_string(), "1");
    assert_eq!(f.type_id(), TypeTag::U32);
}

#[test]
fn field_of_each_type() {
    let mut b = Field::new("B", &[], &true);
    assert_eq!(b.get_string(), "true");
    b.set("false").unwrap();
    assert!(!*b.get::<bool>());
    let mut n = Field::new("N", &[], &-1i64);
    assert_eq!(n.get_string(), "-1");
    n.set("+5").unwrap();
    assert_eq!(*n.get::<i64>(), 5);
    let mut s = Field::new("S", &[], &String::new());
    assert_eq!(s.get_string(), "");
    s.set("free text").unwrap();
    assert_eq!(s.get::<String>().as_str(), "free text");
    s.set_structured("\"quoted\"").unwrap();
    assert_eq!(s.get_string(), "quoted");
}
