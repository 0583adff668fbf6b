use rzd_trains::date::{parse_train_date, parse_train_time};
use rzd_trains::json::{
    find, list_field, nullable_text_field, number_field, object_field, text_field, Found, Json,
};
use rzd_trains::messages::{append_kept, read_messages};
use rzd_trains::text::{
    chars_of, join, normalize_message, number_to_string, parse_u32, read_numbers, string_of,
    strip_period, trim,
};
use rzd_trains::{
    parse_station_code, Error, RzdErrors, RzdRequestId, RzdStationCode, Text, TrainDate, TrainTime,
};

#[test]
fn normalizing_a_message_twice_changes_nothing_more() {
    let once = normalize_message("Неверная дата отправления.");
    assert_eq!(once, "неверная дата отправления");
    assert_eq!(normalize_message("неверная дата отправления"), once);
    assert_eq!(normalize_message(once.as_str()), once);
    assert_eq!(normalize_message("  \t Parameter [Train::Number]: NOT found. \n"), "parameter [train::number]: not found");
}

#[test]
fn normalizing_drops_one_period_only() {
    assert_eq!(normalize_message("Да.."), "да.");
    assert_eq!(normalize_message("Да. ."), "да. ");
    assert_eq!(normalize_message("."), "");
    assert_eq!(normalize_message(""), "");
    assert_eq!(normalize_message(" \u{a0}\u{2003} "), "");
    assert_eq!(normalize_message(".Да"), ".да");
}

#[test]
fn trimming_drops_white_space_at_both_ends() {
    assert_eq!(trim("  a b \t\n"), "a b");
    assert_eq!(trim("\u{3000}мос\u{2028}"), "мос");
    assert_eq!(trim("   "), "");
    assert_eq!(trim(""), "");
    assert_eq!(trim("x"), "x");
    assert_eq!(trim("\u{200b}x"), "\u{200b}x");
}

#[test]
fn strip_period_takes_the_last_period() {
    assert_eq!(strip_period("a."), "a");
    assert_eq!(strip_period("a.b"), "a.b");
    assert_eq!(strip_period("a.."), "a.");
    assert_eq!(strip_period(""), "");
}

#[test]
fn chars_and_strings_go_back_and_forth() {
    let chars = chars_of("поезд №1");
    assert_eq!(chars.len(), 8);
    assert_eq!(string_of(&chars, 0, 8), "поезд №1");
    assert_eq!(string_of(&chars, 6, 8), "№1");
    assert_eq!(string_of(&chars, 3, 3), "");
}

#[test]
fn join_puts_the_separator_between_neighbours() {
    let parts = |v: Vec<&str>| -> Vec<String> { v.into_iter().map(String::from).collect() };
    assert_eq!(join(&parts(vec![]), "; "), "");
    assert_eq!(join(&parts(vec!["a"]), "; "), "a");
    assert_eq!(join(&parts(vec!["a", "", "b"]), "; "), "a; ; b");
}

#[test]
fn numbers_are_read_as_the_standard_library_reads_them() {
    for s in [
        "0", "7", "007", "+5", "+", "", " 5", "5 ", "-0", "-1", "4294967295", "4294967296",
        "00000000004294967295", "99999999999999999999999", "१२", "1_000", "0x10", "++1", "1+",
    ] {
        assert_eq!(parse_u32(s), s.parse::<u32>().ok(), "{:?}", s);
    }
    assert_eq!(parse_u32("4294967295"), Some(4294967295));
    assert_eq!(parse_u32("+0012"), Some(12));
    assert_eq!(parse_u32("4294967296"), None);
}

#[test]
fn numbers_are_written_without_leading_zeros() {
    assert_eq!(number_to_string(0), "0");
    assert_eq!(number_to_string(9), "9");
    assert_eq!(number_to_string(10), "10");
    assert_eq!(number_to_string(18605390978), "18605390978");
    assert_eq!(number_to_string(u64::MAX), "18446744073709551615");
    assert_eq!(RzdRequestId::new(18605390978).to_string(), "18605390978");
    assert_eq!(RzdStationCode::new(2004000).to_string(), "2004000");
    assert_eq!(RzdStationCode::new(2004000).to_text(), "2004000");
    assert_eq!(RzdRequestId::default().to_uint(), 0);
}

#[test]
fn pieces_that_write_no_number_are_passed_over() {
    assert_eq!(read_numbers("01.04.2022", '.'), vec![1, 4, 2022]);
    assert_eq!(read_numbers("01.04.2022.", '.'), vec![1, 4, 2022]);
    assert_eq!(read_numbers("a.1..2.b.3", '.'), vec![1, 2, 3]);
    assert_eq!(read_numbers("", '.'), Vec::<u32>::new());
    assert_eq!(read_numbers("23:05", ':'), vec![23, 5]);
    assert_eq!(read_numbers("23:05", '.'), Vec::<u32>::new());
    assert_eq!(read_numbers("1:4294967296:3", ':'), vec![1, 3]);
}

#[test]
fn dates_are_read_and_written() {
    let d = TrainDate::new(2022, 4, 1);
    assert_eq!(d.to_string(), "01.04.2022");
    assert_eq!(d.ymd(), (2022, 4, 1));
    assert_eq!(TrainDate::parse("01.04.2022").unwrap(), d);
    assert_eq!(TrainDate::parse("1.4.2022").unwrap(), d);
    assert_eq!(TrainDate::parse("x.01.04.2022.").unwrap(), d);
    assert_eq!(parse_train_date("29.02.2024").unwrap().to_string(), "29.02.2024");
    assert_eq!(TrainDate::new(987, 12, 31).to_string(), "31.12.0987");
    assert_eq!(TrainDate::new(0, 1, 1).to_string(), "01.01.0000");
    assert_eq!(TrainDate::new(9999, 1, 1).to_string(), "01.01.9999");
    assert_eq!(TrainDate::new(10000, 1, 1).to_string(), "01.01.+10000");
    assert_eq!(TrainDate::new(262142, 12, 31).to_string(), "31.12.+262142");
    assert_eq!(TrainDate::new(u32::MAX, 1, 2).to_string(), "02.01.-0001");
    assert_eq!(TrainDate::new(u32::MAX, 1, 2).ymd(), (-1, 1, 2));
    assert_eq!(TrainDate::new(4294705153, 1, 1).ymd(), (-262143, 1, 1));
    assert_eq!(TrainDate::new(2000, 2, 29).ymd(), (2000, 2, 29));
    assert_eq!(TrainDate::new(4294967292, 2, 29).ymd(), (-4, 2, 29));
    match TrainDate::parse("01.04") {
        Err(Error::ParseDateError(s)) => assert_eq!(s, "01.04"),
        other => panic!("unexpected: {:?}", other),
    }
    assert!(parse_train_date("").is_none());
    assert!(parse_train_date("1.2.3.4").is_none());
}

#[test]
fn a_date_that_does_not_exist_gives_a_date_that_does() {
    for (y, m, d) in [
        (2022u32, 2u32, 29u32),
        (1900, 2, 29),
        (2022, 4, 31),
        (2022, 13, 1),
        (2022, 0, 1),
        (2022, 1, 0),
        (262143, 1, 1),
        (2147483648, 1, 1),
        (4294705152, 1, 1),
    ] {
        let date = TrainDate::new(y, m, d);
        assert_ne!(date.ymd(), (y as i32, m, d));
        let (year, month, day) = date.ymd();
        assert!(year >= 2024 && (1..=12).contains(&month) && (1..=31).contains(&day));
    }
    assert!(parse_train_date("31.02.2022").is_some());
}

#[test]
fn times_are_read_and_written() {
    let t = TrainTime::new(5, 7);
    assert_eq!(t.to_string(), "05:07");
    assert_eq!(t.hm(), (5, 7));
    assert_eq!(TrainTime::new(23, 59).to_string(), "23:59");
    assert_eq!(TrainTime::new(24, 0).hm(), (0, 0));
    assert_eq!(TrainTime::new(12, 60).hm(), (0, 0));
    assert_eq!(TrainTime::parse("23:05").unwrap(), TrainTime::new(23, 5));
    assert_eq!(TrainTime::parse("23:05:59").unwrap(), TrainTime::new(23, 5));
    assert_eq!(TrainTime::parse("25:05").unwrap(), TrainTime::new(0, 0));
    match TrainTime::parse("23") {
        Err(Error::ParseTimeError(s)) => assert_eq!(s, "23"),
        other => panic!("unexpected: {:?}", other),
    }
    assert!(parse_train_time("").is_none());
    assert!(parse_train_time("1:2:3:4").is_none());
}

#[test]
fn station_codes_are_read() {
    assert_eq!(RzdStationCode::parse("2000000").unwrap(), RzdStationCode::new(2000000));
    match RzdStationCode::parse("20x") {
        Err(Error::ParseStationCodeError(s)) => assert_eq!(s, "20x"),
        other => panic!("unexpected: {:?}", other),
    }
    assert_eq!(parse_station_code("x"), RzdStationCode::default());
    assert_eq!(parse_station_code(""), RzdStationCode::new(0));
}

#[test]
fn every_error_says_what_it_is() {
    let s = String::new;
    let cases = vec![
        (Error::UnsupportedOperation, "операция не поддерживается"),
        (Error::ParseDateError(s()), "ошибка преобразования даты"),
        (Error::ParseTimeError(s()), "ошибка преобразования времени"),
        (Error::ParseStationCodeError(s()), "ошибка преобразования кода станции"),
        (Error::TooShortQuery, "передан слишком короткий запрос"),
        (Error::EmptyTrainNumber, "передан некорректный номер поезда"),
        (Error::ReqwestError(s()), "не удалось получить данные с сервера \"РЖД\""),
        (Error::ReqwestHeaderError, "сервер \"РЖД\" вернул некорректные данные"),
        (Error::SerializeError(s()), "не удалось упаковать данные"),
        (Error::DeserializeError(s()), "не удалось распаковать данные"),
        (
            Error::RzdServerOverloaded,
            "удаленный сервер перегружен, измените запрос или попробуйте позднее",
        ),
        (Error::RzdReplyNotReady, "ответ сервера \"РЖД\" ещё не готов"),
        (Error::FailRzdResponse, "сервер \"РЖД\" вернул некорректные данные"),
        (Error::Empty, "ошибок нет"),
        (
            Error::RzdError(RzdErrors::new(vec![String::from("а"), String::from("б")])),
            "а; б",
        ),
        (Error::RzdError(RzdErrors::new(vec![])), ""),
    ];
    for (e, text) in cases {
        assert_eq!(e.to_string(), text);
    }
    let errors = RzdErrors::new(vec![String::from("x")]);
    assert_eq!(errors.to_string(), "x");
    assert_eq!(errors.to_vec(), vec![String::from("x")]);
}

fn object(fields: Vec<(&str, Json)>) -> Vec<(String, Json)> {
    fields.into_iter().map(|(k, v)| (String::from(k), v)).collect()
}

#[test]
fn json_is_read_into_a_tree() {
    let j = Json::parse(r#"{"b":[1,-1,1.5,18446744073709551615,18446744073709551616,"x",null,true],"a":{}}"#).unwrap();
    assert_eq!(
        j,
        Json::Object(object(vec![
            ("a", Json::Object(vec![])),
            (
                "b",
                Json::Array(vec![
                    Json::Number(Some(1)),
                    Json::Number(None),
                    Json::Number(None),
                    Json::Number(Some(u64::MAX)),
                    Json::Number(None),
                    Json::Str(String::from("x")),
                    Json::Null,
                    Json::Bool(true),
                ])
            ),
        ]))
    );
    assert_eq!(Json::parse(" 7 ").unwrap(), Json::Number(Some(7)));
    match Json::parse("[1,") {
        Err(Error::DeserializeError(m)) => assert_eq!(m, "EOF while parsing a value at line 1 column 3"),
        other => panic!("unexpected: {:?}", other),
    }
    assert!(Json::parse("").is_err());
    assert!(j.as_object().is_ok());
    assert!(j.as_array().is_err());
    assert!(Json::Array(vec![]).as_array().is_ok());
    assert!(Json::Null.as_object().is_err());
}

#[test]
fn fields_are_found_by_either_name() {
    let fields = object(vec![
        ("n", Json::Str(String::from("МОСКВА"))),
        ("c", Json::Number(Some(2000000))),
        ("big", Json::Number(Some(4294967296))),
        ("none", Json::Null),
        ("list", Json::Array(vec![Json::Null])),
        ("inner", Json::Object(object(vec![("x", Json::Bool(false))]))),
        ("twice", Json::Null),
        ("Twice", Json::Null),
    ]);
    assert!(matches!(find(&fields, "name", "n"), Found::One(Json::Str(_))));
    assert!(matches!(find(&fields, "n", "n"), Found::One(Json::Str(_))));
    assert!(matches!(find(&fields, "name", "N"), Found::Missing));
    assert!(matches!(find(&fields, "twice", "Twice"), Found::Many));
    assert!(matches!(find(&fields, "n", "c"), Found::Many));

    assert_eq!(text_field(&fields, "name", "n").unwrap(), "МОСКВА");
    assert_eq!(text_field(&fields, "missing", "missing").unwrap(), "");
    assert!(text_field(&fields, "c", "c").is_err());
    assert!(text_field(&fields, "none", "none").is_err());
    assert!(text_field(&fields, "twice", "Twice").is_err());
    match text_field(&fields, "list", "list") {
        Err(Error::DeserializeError(m)) => assert_eq!(m, "unexpected layout of the reply"),
        other => panic!("unexpected: {:?}", other),
    }

    assert_eq!(nullable_text_field(&fields, "none", "none").unwrap(), "");
    assert_eq!(nullable_text_field(&fields, "name", "n").unwrap(), "МОСКВА");
    assert!(nullable_text_field(&fields, "missing", "missing").is_err());
    assert!(nullable_text_field(&fields, "c", "c").is_err());

    assert_eq!(number_field(&fields, "code", "c", 0xffff_ffff).unwrap(), 2000000);
    assert_eq!(number_field(&fields, "missing", "missing", 0xffff_ffff).unwrap(), 0);
    assert_eq!(number_field(&fields, "big", "big", u64::MAX).unwrap(), 4294967296);
    assert!(number_field(&fields, "big", "big", 0xffff_ffff).is_err());
    assert!(number_field(&fields, "n", "n", 0xffff_ffff).is_err());
    assert!(number_field(&fields, "none", "none", 0xffff_ffff).is_err());

    assert_eq!(list_field(&fields, "list", "list").unwrap().unwrap().len(), 1);
    assert!(list_field(&fields, "missing", "missing").unwrap().is_none());
    assert!(list_field(&fields, "inner", "inner").is_err());
    assert_eq!(object_field(&fields, "inner", "inner").unwrap().unwrap().len(), 1);
    assert!(object_field(&fields, "missing", "missing").unwrap().is_none());
    assert!(object_field(&fields, "list", "list").is_err());
}

#[test]
fn messages_are_kept_in_one_form_and_in_order() {
    let list = Json::parse(r#"[{"message":" Первое. "},{"message":"  "},{"other":1},{"message":"ВТОРОЕ","type":"x"}]"#).unwrap();
    let raw = read_messages(Some(list.as_array().unwrap())).unwrap();
    assert_eq!(raw, vec![" Первое. ", "  ", "", "ВТОРОЕ"]);
    let mut errors = vec![String::from("раньше")];
    append_kept(&mut errors, &raw);
    assert_eq!(errors, vec!["раньше", "первое", "второе"]);
    assert!(read_messages(None).unwrap().is_empty());
    let bad = Json::parse(r#"[{"message":"a"},{"message":1}]"#).unwrap();
    assert!(read_messages(Some(bad.as_array().unwrap())).is_err());
    let bad = Json::parse(r#"[{"message":"a"},"b"]"#).unwrap();
    assert!(read_messages(Some(bad.as_array().unwrap())).is_err());
}
