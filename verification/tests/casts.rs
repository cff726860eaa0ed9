use std::str::FromStr;

use surreal_typed::cast::{uuid_from_parsed, FloatSource, FromValue, Target, ValueCast};
use surreal_typed::decimal::Decimal;
use surreal_typed::error::DbError;
use surreal_typed::object::Object;
use surreal_typed::value::{Datetime, Duration, Float, Id, Number, Tag, Thing, Uuid, Value};

const UUID_TEXT: &str = "8e0cfd5e-4bd5-4b2d-b1bd-8b0b0f4d8b3a";
const UUID_PLAIN: &str = "8e0cfd5e4bd54b2db1bd8b0b0f4d8b3a";
const UUID_BITS: u128 = 0x8e0cfd5e4bd54b2db1bd8b0b0f4d8b3a;

const TAGS: [Tag; 13] = [
    Tag::Absent,
    Tag::Null,
    Tag::False,
    Tag::True,
    Tag::Number,
    Tag::Strand,
    Tag::Duration,
    Tag::Datetime,
    Tag::Uuid,
    Tag::Array,
    Tag::Object,
    Tag::Thing,
    Tag::Other,
];

fn thing_with(id: Id) -> Value {
    Value::Thing(Thing { tb: "person".to_string(), id })
}

fn thing(name: &str) -> Value {
    thing_with(Id::Name(name.to_string()))
}

fn sample(tag: Tag) -> Value {
    match tag {
        Tag::Absent => Value::Absent,
        Tag::Null => Value::Null,
        Tag::False => Value::False,
        Tag::True => Value::True,
        Tag::Number => Value::from(7i64),
        Tag::Strand => Value::text(UUID_TEXT),
        Tag::Duration => Value::Duration(Duration { secs: 90, nanos: 5 }),
        Tag::Datetime => Value::Datetime(Datetime { secs: 1335234343, nanos: 511_000_000 }),
        Tag::Uuid => Value::Uuid(Uuid { bits: UUID_BITS }),
        Tag::Array => Value::Array(vec![Value::True]),
        Tag::Object => Value::Object(Object::new()),
        Tag::Thing => thing(UUID_PLAIN),
        Tag::Other => Value::Other("person".to_string()),
    }
}

fn cast_fails<T: FromValue>(value: Value) -> bool {
    matches!(value.cast::<T>(), Err(DbError::CastFailed))
}

fn cast_works<T: FromValue>(value: Value) -> bool {
    value.cast::<T>().is_ok()
}

fn check_table<T: FromValue>(accepted: &[Tag]) {
    for tag in TAGS {
        assert_eq!(sample(tag).tag(), tag);
        if accepted.contains(&tag) {
            assert!(cast_works::<T>(sample(tag)), "{:?} should be taken", tag);
        } else {
            assert!(cast_fails::<T>(sample(tag)), "{:?} should be refused", tag);
        }
    }
}

fn check_target(target: Target, accepted: &[Tag]) {
    for tag in TAGS {
        assert_eq!(target.takes(tag), accepted.contains(&tag), "{:?} for {:?}", tag, target);
    }
}

#[test]
fn string_takes_strings_only() {
    check_table::<String>(&[Tag::Strand]);
    check_target(Target::Text, &[Tag::Strand]);
}

#[test]
fn boolean_takes_truth_values_only() {
    check_table::<bool>(&[Tag::True, Tag::False]);
    check_target(Target::Boolean, &[Tag::True, Tag::False]);
}

#[test]
fn datetime_takes_datetimes_and_strings() {
    check_table::<Datetime>(&[Tag::Datetime, Tag::Strand]);
    check_target(Target::Datetime, &[Tag::Datetime, Tag::Strand]);
}

#[test]
fn integer_takes_numbers_durations_and_datetimes() {
    check_table::<i64>(&[Tag::Number, Tag::Duration, Tag::Datetime]);
    check_target(Target::Integer, &[Tag::Number, Tag::Duration, Tag::Datetime]);
    check_target(Target::Float, &[Tag::Number, Tag::Duration, Tag::Datetime]);
}

#[test]
fn decimal_takes_numbers_only() {
    check_table::<Decimal>(&[Tag::Number]);
    check_target(Target::Decimal, &[Tag::Number]);
}

#[test]
fn duration_takes_durations_and_strings() {
    check_table::<Duration>(&[Tag::Duration, Tag::Strand]);
    check_target(Target::Duration, &[Tag::Duration, Tag::Strand]);
}

#[test]
fn uuid_takes_uuids_strings_and_record_references() {
    check_table::<Uuid>(&[Tag::Uuid, Tag::Strand, Tag::Thing]);
    check_target(Target::Uuid, &[Tag::Uuid, Tag::Strand, Tag::Thing]);
}

#[test]
fn optional_takes_what_the_type_takes_and_nothing() {
    check_table::<Option<String>>(&[Tag::Absent, Tag::Null, Tag::Strand]);
    check_table::<Option<bool>>(&[Tag::Absent, Tag::Null, Tag::True, Tag::False]);
    check_table::<Option<i64>>(&[
        Tag::Absent,
        Tag::Null,
        Tag::Number,
        Tag::Duration,
        Tag::Datetime,
    ]);
    check_table::<Option<Uuid>>(&[Tag::Absent, Tag::Null, Tag::Uuid, Tag::Strand, Tag::Thing]);
    check_table::<Option<Option<Decimal>>>(&[Tag::Absent, Tag::Null, Tag::Number]);
}

#[test]
fn truth_values_come_back() {
    assert_eq!(Value::from(true).cast::<bool>().unwrap(), true);
    assert_eq!(Value::from(false).cast::<bool>().unwrap(), false);
    assert_eq!(bool::from_value(Value::True).unwrap(), true);
}

#[test]
fn strings_come_back() {
    assert_eq!(Value::text("hello").cast::<String>().unwrap(), "hello");
    assert_eq!(Value::from(String::new()).cast::<String>().unwrap(), "");
    assert_eq!(Value::text("true").cast::<String>().unwrap(), "true");
    assert!(cast_fails::<bool>(Value::text("true")));
    assert!(cast_fails::<i64>(Value::text("12")));
}

#[test]
fn optional_of_nothing_is_nothing() {
    assert_eq!(Value::Absent.cast::<Option<i64>>().unwrap(), None);
    assert_eq!(Value::Null.cast::<Option<i64>>().unwrap(), None);
    assert_eq!(Value::Null.cast::<Option<String>>().unwrap(), None);
    assert_eq!(Value::Absent.cast::<Option<Option<bool>>>().unwrap(), None);
}

#[test]
fn optional_of_something_is_the_cast() {
    assert_eq!(Value::from(5i64).cast::<Option<i64>>().unwrap(), Some(5));
    assert_eq!(Value::text("x").cast::<Option<String>>().unwrap(), Some("x".to_string()));
    assert_eq!(Value::True.cast::<Option<Option<bool>>>().unwrap(), Some(Some(true)));
    assert!(cast_fails::<Option<i64>>(Value::text("x")));
    assert!(cast_fails::<Option<Uuid>>(Value::text("x")));
    assert!(cast_fails::<i64>(Value::Null));
}

#[test]
fn integers_are_read_from_numbers() {
    assert_eq!(Value::from(-3i64).cast::<i64>().unwrap(), -3);
    assert_eq!(Value::from(i64::MIN).cast::<i64>().unwrap(), i64::MIN);
    let float = |x: f64, text: &str| {
        Value::Number(Number::Float(Float {
            bits: x.to_bits(),
            decimal: Decimal::parse(text).unwrap(),
        }))
    };
    assert_eq!(float(1.9, "1.9").cast::<i64>().unwrap(), 1);
    assert_eq!(float(-1.9, "-1.9").cast::<i64>().unwrap(), -1);
    assert_eq!(float(1e300, "1").cast::<i64>().unwrap(), i64::MAX);
    let decimal = |text: &str| Value::Number(Number::Decimal(Decimal::parse(text).unwrap()));
    assert_eq!(decimal("12.7").cast::<i64>().unwrap(), 12);
    assert_eq!(decimal("-12.7").cast::<i64>().unwrap(), -12);
    assert_eq!(decimal("0.5").cast::<i64>().unwrap(), 0);
    assert_eq!(decimal("-0").cast::<i64>().unwrap(), 0);
    assert_eq!(decimal("9223372036854775807.99").cast::<i64>().unwrap(), i64::MAX);
    assert_eq!(decimal("-9223372036854775808").cast::<i64>().unwrap(), i64::MIN);
    assert_eq!(decimal("9223372036854775808").cast::<i64>().unwrap(), 0);
    assert_eq!(decimal("123456789012345678901234567890").cast::<i64>().unwrap(), 0);
}

#[test]
fn integers_are_read_from_durations_and_datetimes() {
    let span = |secs: u64| Value::Duration(Duration { secs, nanos: 999_999_999 });
    assert_eq!(span(0).cast::<i64>().unwrap(), 0);
    assert_eq!(span(90).cast::<i64>().unwrap(), 90);
    assert_eq!(span(i64::MAX as u64).cast::<i64>().unwrap(), i64::MAX);
    assert_eq!(span(i64::MAX as u64 + 1).cast::<i64>().unwrap(), i64::MIN);
    assert_eq!(span(u64::MAX).cast::<i64>().unwrap(), -1);
    let at = |secs: i64| Value::Datetime(Datetime { secs, nanos: 5 });
    assert_eq!(at(1335234343).cast::<i64>().unwrap(), 1335234343);
    assert_eq!(at(-1).cast::<i64>().unwrap(), -1);
}

#[test]
fn decimals_are_read_from_numbers() {
    assert_eq!(Value::from(-42i64).cast::<Decimal>().unwrap().as_str(), "-42");
    assert_eq!(Value::from(0i64).cast::<Decimal>().unwrap().as_str(), "0");
    assert_eq!(Value::from(1000i64).cast::<Decimal>().unwrap().as_str(), "1000");
    assert_eq!(
        Value::from(i64::MIN).cast::<Decimal>().unwrap().as_str(),
        "-9223372036854775808"
    );
    assert_eq!(
        Value::from(i64::MAX).cast::<Decimal>().unwrap().as_str(),
        "9223372036854775807"
    );
    let decimal = Value::Number(Number::Decimal(Decimal::parse("3.14").unwrap()));
    assert_eq!(decimal.cast::<Decimal>().unwrap().as_str(), "3.14");
    let float = Value::Number(Number::Float(Float {
        bits: 0.1f64.to_bits(),
        decimal: Decimal::parse("0.100000000000000").unwrap(),
    }));
    assert_eq!(float.cast::<Decimal>().unwrap().as_str(), "0.100000000000000");
    assert!(cast_fails::<Decimal>(Value::text("3.14")));
    assert!(cast_fails::<Decimal>(Value::Duration(Duration { secs: 1, nanos: 0 })));
}

#[test]
fn uuids_are_read_from_text() {
    assert_eq!(Value::text(UUID_TEXT).cast::<Uuid>().unwrap(), Uuid { bits: UUID_BITS });
    assert_eq!(Value::text(UUID_PLAIN).cast::<Uuid>().unwrap(), Uuid { bits: UUID_BITS });
    assert_eq!(
        Value::text("00000000-0000-0000-0000-000000000001").cast::<Uuid>().unwrap(),
        Uuid { bits: 1 }
    );
    assert_eq!(
        Value::text("urn:uuid:8e0cfd5e-4bd5-4b2d-b1bd-8b0b0f4d8b3a").cast::<Uuid>().unwrap(),
        Uuid { bits: UUID_BITS }
    );
    assert!(cast_fails::<Uuid>(Value::text("")));
    assert!(cast_fails::<Uuid>(Value::text("not a uuid")));
    assert!(cast_fails::<Uuid>(Value::text("8e0cfd5e-4bd5-4b2d-b1bd-8b0b0f4d8b3")));
}

#[test]
fn uuids_are_taken_as_they_are() {
    assert_eq!(Value::Uuid(Uuid { bits: 0 }).cast::<Uuid>().unwrap(), Uuid { bits: 0 });
    assert_eq!(
        Value::Uuid(Uuid { bits: u128::MAX }).cast::<Uuid>().unwrap(),
        Uuid { bits: u128::MAX }
    );
}

#[test]
fn uuids_are_read_from_record_references() {
    assert_eq!(thing(UUID_PLAIN).cast::<Uuid>().unwrap(), Uuid { bits: UUID_BITS });
    assert_eq!(
        thing_with(Id::Other(UUID_TEXT.to_string())).cast::<Uuid>().unwrap(),
        Uuid { bits: UUID_BITS }
    );
    assert_eq!(thing(UUID_TEXT).cast::<Uuid>().unwrap(), Uuid { bits: UUID_BITS });
    assert_eq!(
        thing("{8e0cfd5e-4bd5-4b2d-b1bd-8b0b0f4d8b3a}").cast::<Uuid>().unwrap(),
        Uuid { bits: UUID_BITS }
    );
    assert_eq!(
        thing("urn:uuid:8e0cfd5e-4bd5-4b2d-b1bd-8b0b0f4d8b3a").cast::<Uuid>().unwrap(),
        Uuid { bits: UUID_BITS }
    );
    let hyphenated = "550e8400-e29b-41d4-a716-446655440000";
    let user = Value::Thing(Thing { tb: "user".to_string(), id: Id::Name(hyphenated.to_string()) });
    assert_eq!(
        user.cast::<Uuid>().unwrap(),
        Uuid { bits: uuid::Uuid::from_str(hyphenated).unwrap().as_u128() }
    );
    assert!(cast_fails::<Uuid>(thing("tobie")));
    assert!(cast_fails::<Uuid>(thing("")));
    assert!(cast_fails::<Uuid>(thing("\u{27e8}8e0cfd5e-4bd5-4b2d-b1bd-8b0b0f4d8b3a\u{27e9}")));
    assert!(cast_fails::<Uuid>(thing("550e8400-e29b-41d4-a716-44665544000")));
    assert!(cast_fails::<Uuid>(thing_with(Id::Number(42))));
    assert!(cast_fails::<Uuid>(thing_with(Id::Number(i64::MIN))));
    assert!(cast_fails::<Uuid>(thing_with(Id::Other("[1, 2]".to_string()))));
}

#[test]
fn identifiers_are_read_as_they_are() {
    assert_eq!(Id::Number(0).to_raw(), "0");
    assert_eq!(Id::Number(-17).to_raw(), "-17");
    assert_eq!(Id::Number(i64::MAX).to_raw(), "9223372036854775807");
    assert_eq!(Id::Number(i64::MIN).to_raw(), "-9223372036854775808");
    assert_eq!(Id::Name("tobie_1".to_string()).to_raw(), "tobie_1");
    assert_eq!(Id::Name("".to_string()).to_raw(), "");
    assert_eq!(Id::Name("a-b".to_string()).to_raw(), "a-b");
    assert_eq!(Id::Name("\u{e9} \u{ff11}".to_string()).to_raw(), "\u{e9} \u{ff11}");
    assert_eq!(Id::Other("{ a: 1 }".to_string()).to_raw(), "{ a: 1 }");
    for id in [Id::Number(-17), Id::Name("a-b".to_string()), Id::Other("[1]".to_string())] {
        assert_eq!(id.clone().to_raw(), id.to_raw());
    }
}

#[test]
fn float_source_takes_numbers_durations_and_datetimes() {
    check_table::<FloatSource>(&[Tag::Number, Tag::Duration, Tag::Datetime]);
    check_table::<Option<FloatSource>>(&[
        Tag::Absent,
        Tag::Null,
        Tag::Number,
        Tag::Duration,
        Tag::Datetime,
    ]);
    assert!(matches!(
        Value::from(7i64).cast::<FloatSource>(),
        Ok(FloatSource::Number(Number::Int(7)))
    ));
    let span = Duration { secs: 3, nanos: 4 };
    assert!(matches!(
        Value::Duration(span).cast::<FloatSource>(),
        Ok(FloatSource::Duration(d)) if d == span
    ));
    let at = Datetime { secs: -3, nanos: 4 };
    assert!(matches!(
        Value::Datetime(at).cast::<FloatSource>(),
        Ok(FloatSource::Datetime(t)) if t == at
    ));
    assert!(cast_fails::<FloatSource>(Value::text("1.5")));
    assert!(cast_fails::<FloatSource>(Value::True));
}

#[test]
fn uuid_cast_follows_the_reading() {
    assert_eq!(uuid_from_parsed(Some(Uuid { bits: 9 })).unwrap(), Uuid { bits: 9 });
    assert!(matches!(uuid_from_parsed(None), Err(DbError::CastFailed)));
}

#[test]
fn datetimes_are_taken_as_they_are() {
    let at = Datetime { secs: -62_135_596_800, nanos: 1_999_999_999 };
    assert_eq!(Value::Datetime(at).cast::<Datetime>().unwrap(), at);
}

#[test]
fn datetimes_are_read_from_text() {
    let read = |text: &str| Value::text(text).cast::<Datetime>().unwrap();
    assert_eq!(read("2012-04-23"), Datetime { secs: 1335139200, nanos: 0 });
    assert_eq!(read("2012-04-23T18:25:43Z"), Datetime { secs: 1335205543, nanos: 0 });
    assert_eq!(
        read("2012-04-23T18:25:43.5631Z"),
        Datetime { secs: 1335205543, nanos: 563_100_000 }
    );
    assert_eq!(
        read("2012-04-23T18:25:43.511-08:00"),
        Datetime { secs: 1335234343, nanos: 511_000_000 }
    );
    assert_eq!(read("2012-04-23T18:25:43+00:00"), Datetime { secs: 1335205543, nanos: 0 });
    assert_eq!(read("2024-02-29"), Datetime { secs: 1709164800, nanos: 0 });
    assert_eq!(read("+2012-04-23 and more"), Datetime { secs: 1335139200, nanos: 0 });
    assert_eq!(read("2012-04-23T18:25:43"), Datetime { secs: 1335139200, nanos: 0 });
    assert_eq!(
        read("2012-04-23T18:25:43.4294967296Z"),
        Datetime { secs: 1335139200, nanos: 0 }
    );
    assert_eq!(
        read("2012-04-23T18:25:59.1500000000Z"),
        Datetime { secs: 1335205559, nanos: 1_500_000_000 }
    );
    assert_eq!(read("2012-04-23T18:25:43+23:59").secs, 1335205543 - 86_340);
    let year_zero = chrono::NaiveDate::from_ymd_opt(0, 2, 29)
        .unwrap()
        .and_hms_opt(0, 0, 0)
        .unwrap()
        .and_utc()
        .timestamp();
    assert_eq!(read("0000-02-29"), Datetime { secs: year_zero, nanos: 0 });
    let before = chrono::NaiveDate::from_ymd_opt(-4, 2, 29)
        .unwrap()
        .and_hms_opt(0, 0, 0)
        .unwrap()
        .and_utc()
        .timestamp();
    assert_eq!(read("-0004-02-29"), Datetime { secs: before, nanos: 0 });
}

#[test]
fn other_text_is_read_as_now() {
    let at = Value::text("hello").cast::<Datetime>().unwrap();
    assert!(at.secs > 1_600_000_000);
    let at = Value::text("2012-13-01").cast::<Datetime>().unwrap();
    assert!(at.secs > 1_600_000_000);
    let at = Value::text("").cast::<Datetime>().unwrap();
    assert!(at.secs > 1_600_000_000);
}

#[test]
fn datetimes_that_do_not_exist_are_refused() {
    for text in [
        "2022-02-30",
        "2023-02-29",
        "1900-02-29",
        "2012-04-31",
        "2012-04-31T10:00:00Z",
        "2012-04-23T24:00:00Z",
        "2012-04-23T24:00:00.5Z",
        "2012-04-23T18:25:43+24:00",
        "2012-04-23T18:25:43-24:30",
        "2012-04-23T18:25:43.5+24:00",
        "2012-04-23T18:25:43.1500000000Z",
        "2012-04-23T18:25:59.2000000000Z",
        "2012-04-23T18:25:43.3000000000Z",
    ] {
        assert!(cast_fails::<Datetime>(Value::text(text)), "{}", text);
        assert!(cast_fails::<Option<Datetime>>(Value::text(text)), "{}", text);
    }
}

#[test]
fn durations_are_taken_as_they_are() {
    let span = Duration { secs: u64::MAX, nanos: 999_999_999 };
    assert_eq!(Value::Duration(span).cast::<Duration>().unwrap(), span);
}

#[test]
fn durations_are_read_from_text() {
    let read = |text: &str| Value::text(text).cast::<Duration>().unwrap();
    assert_eq!(read("1h30m"), Duration { secs: 5400, nanos: 0 });
    assert_eq!(read("500ms"), Duration { secs: 0, nanos: 500_000_000 });
    assert_eq!(read("1500ms"), Duration { secs: 1, nanos: 500_000_000 });
    assert_eq!(read("15\u{b5}s"), Duration { secs: 0, nanos: 15_000 });
    assert_eq!(read("90ns"), Duration { secs: 0, nanos: 90 });
    assert_eq!(read("1w2d"), Duration { secs: 777_600, nanos: 0 });
    assert_eq!(read("1y"), Duration { secs: 31_536_000, nanos: 0 });
    assert_eq!(read("1m1ms"), Duration { secs: 60, nanos: 1_000_000 });
    assert_eq!(read("1h later"), Duration { secs: 3600, nanos: 0 });
    assert_eq!(
        read("18446744073709551615s999999999ns"),
        Duration { secs: u64::MAX, nanos: 999_999_999 }
    );
    assert_eq!(read("307445734561825860m"), Duration { secs: 18446744073709551600, nanos: 0 });
}

#[test]
fn other_text_is_read_as_no_time() {
    let read = |text: &str| Value::text(text).cast::<Duration>().unwrap();
    assert_eq!(read(""), Duration { secs: 0, nanos: 0 });
    assert_eq!(read("soon"), Duration { secs: 0, nanos: 0 });
    assert_eq!(read("1hx"), Duration { secs: 0, nanos: 0 });
    assert_eq!(read("h"), Duration { secs: 0, nanos: 0 });
    assert_eq!(read("18446744073709551616s"), Duration { secs: 0, nanos: 0 });
}

#[test]
fn durations_beyond_measure_are_refused() {
    for text in [
        "18446744073709551615y",
        "307445734561825861m",
        "18446744073709551615s1s",
        "10000000000000000000s10000000000000000000s",
        "18446744073709551615s999999999ns1ns",
        "18446744073709551615s1000ms",
        "1s18446744073709551615d",
    ] {
        assert!(cast_fails::<Duration>(Value::text(text)), "{}", text);
    }
}

#[test]
fn datetime_texts_that_can_be_handed_over_are_read() {
    for text in [
        "2012",
        "2012-04",
        "2012-4-23",
        "2012-00-10",
        "2012-13-10",
        "2012-04-00",
        "2012-04-32",
        "2012-04-23",
        "-2012-04-23",
        "+2012-04-23",
        "-9999-12-31T23:59:59.999999999-23:59",
        "9999-12-31T23:59:59.999999999-23:59",
        "9999-12-31T23:59:59+23:59",
        "2012-02-29",
        "2000-02-29",
        "2012-04-23T",
        "2012-04-23T25:00:00Z",
        "2012-04-23T24:00:00",
        "2012-04-23T24:00:00+25:00",
        "2012-04-23T24:00:00.Z",
        "2012-04-23T24:00:00.5",
        "2012-04-23T24:00:00.4294967296Z",
        "2012-04-23T23:59:59Z",
        "2012-04-23T23:59:59.999999999Z",
        "2012-04-23T23:59:59.1999999999Z",
        "2012-04-23T23:59:59.0000000000000999999999Z",
        "2012-04-23T23:59:59.5Z",
        "2012-04-23T23:59:59.55Z",
        "2012-04-23T23:59:59.99999999Z",
        "2012-04-23T00:00:00+23:59",
        "2012-04-23T00:00:00-23:59",
        "2012-04-23T00:00:00+24:60",
        "2012-04-23T00:00:00+24",
        "2012-04-23T00:00:00.5+24:0",
        "2012-04-23T00:00:00\u{b5}",
        "\u{ff12}012-04-23",
    ] {
        assert!(cast_works::<Datetime>(Value::text(text)), "{:?}", text);
    }
}

#[test]
fn duration_texts_that_can_be_handed_over_are_read() {
    for text in [
        "1",
        "h",
        "1h",
        "1h30m15s",
        "1n",
        "1\u{b5}",
        "18446744073709551615s",
        "18446744073709551615ns",
        "18446744073709551615ms18446744073709551615\u{b5}s",
        "18446744073709551616y",
        "584942417355y",
        "30500568904943w",
        "213503982334601d",
        "5124095576030431h",
        "18446744073709551614s1999999999ns",
        "99999999999999999999999999y",
        "1h18446744073709551615x",
        "0y0w0d0h0m0s0ms0\u{b5}s0ns",
    ] {
        assert!(cast_works::<Duration>(Value::text(text)), "{:?}", text);
    }
}
