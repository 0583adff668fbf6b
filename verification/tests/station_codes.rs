use rzd_trains::station_codes::{is_first_letters_found, read_stations};
use rzd_trains::{RzdStationCode, StationCodeSearch, StationItem};

#[test]
fn search_test() {
    assert!(StationCodeSearch::new("").is_err());
    assert!(StationCodeSearch::new(" ").is_err());
    assert!(StationCodeSearch::new("м").is_err());
    assert!(!StationCodeSearch::new("мОс").is_err());
}

#[test]
fn is_first_letters_found_test() {
    assert!(!is_first_letters_found("", ""));
    assert!(!is_first_letters_found("", "МОС"));
    assert!(!is_first_letters_found("МОСКОВСКАЯ", ""));
    assert!(!is_first_letters_found("МОСКОВСКАЯ", " "));
    assert!(is_first_letters_found("МОСКОВСКАЯ", "мОс"));
    assert!(is_first_letters_found("ВОЕННЫЙ ГОРОДОК", "гоР"));
    assert!(is_first_letters_found("САНКТ-ПЕТЕРБУРГ-ГЛАВН", "пет"));
}

#[test]
fn stations_deserialize_test() {
    let data: Vec<StationItem> = vec![];

    let answer = "[]";
    let answer = read_stations(answer).unwrap();

    assert_eq!(&answer, &data);

    let data = vec![
        StationItem::new(String::from("ВОЕННОЕ ШОССЕ"), RzdStationCode::new(2034058)),
        StationItem::new(
            String::from("БУРЛИТ-ВОЛОЧАЕВСКИЙ"),
            RzdStationCode::new(2034458),
        ),
        StationItem::new(String::from("ВОРОПАЕВО"), RzdStationCode::new(2100047)),
    ];

    let answer = r#"[{"n":"ВОЕННОЕ ШОССЕ","c":2034058,"S":4,"L":0},{"n":"БУРЛИТ-ВОЛОЧАЕВСКИЙ","c":2034458,"S":0,"L":2},{"n":"ВОРОПАЕВО","c":2100047,"S":0,"L":4}]"#;
    let answer = read_stations(answer).unwrap();

    assert_eq!(&answer, &data);
}

use rzd_trains::station_codes::select_stations;
use rzd_trains::{Error, ResultList, RzdClientInterface, Text};

#[test]
fn names_are_held_against_the_whole_query() {
    let answer = r#"[{"n":"ВОЕННОЕ ШОССЕ","c":2034058,"S":4,"L":0},{"n":"БУРЛИТ-ВОЛОЧАЕВСКИЙ","c":2034458,"S":0,"L":2},{"n":"ДИВО","c":2100047,"S":0,"L":4}]"#;
    let search = StationCodeSearch::new("во").unwrap();
    let found = search.deserialize_reply_data(answer).unwrap().unwrap();
    assert_eq!(
        found,
        ResultList::new(vec![
            StationItem::new(String::from("ВОЕННОЕ ШОССЕ"), RzdStationCode::new(2034058)),
            StationItem::new(String::from("БУРЛИТ-ВОЛОЧАЕВСКИЙ"), RzdStationCode::new(2034458)),
        ])
    );
    assert_eq!(found.nth(0).unwrap().name(), "ВОЕННОЕ ШОССЕ");
    assert_eq!(found.nth(1).unwrap().code(), RzdStationCode::new(2034458));
    assert_eq!(found.to_text(), "2034058 - ВОЕННОЕ ШОССЕ\n2034458 - БУРЛИТ-ВОЛОЧАЕВСКИЙ\n");

    let search = StationCodeSearch::new("шо").unwrap();
    let found = search.deserialize_reply_data(answer).unwrap().unwrap();
    assert_eq!(found.len(), 1);
    let search = StationCodeSearch::new("ив").unwrap();
    assert!(search.deserialize_reply_data(answer).unwrap().is_none());
    assert!(search.deserialize_reply_data("[]").unwrap().is_none());
}

#[test]
fn a_reply_that_is_no_list_of_stations_is_an_error() {
    let search = StationCodeSearch::new("во").unwrap();
    for text in [r#"{"n":"ВОЛГА"}"#, r#"[{"n":1}]"#, r#"[{"c":"1"}]"#, r#"[{"c":-1}]"#, r#"[{"c":4294967296}]"#, r#"[{"n":"a","name":"b"}]"#, "[[]]", "null"] {
        match search.deserialize_reply_data(text) {
            Err(Error::DeserializeError(m)) => assert_eq!(m, "unexpected layout of the reply"),
            other => panic!("unexpected for {}: {:?}", text, other),
        }
    }
    match search.deserialize_reply_data("[") {
        Err(Error::DeserializeError(m)) => assert_eq!(m, "EOF while parsing a list at line 1 column 1"),
        other => panic!("unexpected: {:?}", other),
    }
    let stations = read_stations(r#"[{}, {"name":"a","c":4294967295, "x":[1]}]"#).unwrap();
    assert_eq!(
        stations,
        vec![
            StationItem::new(String::new(), RzdStationCode::new(0)),
            StationItem::new(String::from("a"), RzdStationCode::new(4294967295)),
        ]
    );
}

#[test]
fn a_query_starts_a_word_or_a_part_between_hyphens() {
    assert!(is_first_letters_found("ВОЕННЫЙ ГОРОДОК", "военный г"));
    assert!(!is_first_letters_found("ВОЕННЫЙ ГОРОДОК", "енный"));
    assert!(!is_first_letters_found("ВОЕННЫЙ ГОРОДОК", "й г"));
    assert!(is_first_letters_found("САНКТ-ПЕТЕРБУРГ-ГЛАВН", "санкт-пет"));
    assert!(is_first_letters_found("САНКТ-ПЕТЕРБУРГ ГЛАВН", "ПЕТЕРБУРГ ГЛ"));
    assert!(!is_first_letters_found("САНКТ-ПЕТЕРБУРГ ГЛАВН", "ербург"));
    assert!(is_first_letters_found("САНКТ-ПЕТЕРБУРГ ГЛАВН", "глав"));
    assert!(!is_first_letters_found("САНКТ-ПЕТЕРБУРГ ГЛАВН", "главный"));
    assert!(is_first_letters_found("  москва\t", " МОСКВА "));
    assert!(is_first_letters_found("А\u{a0}Б", "б"));
    assert!(!is_first_letters_found("А--Б", "-б"));
    assert!(is_first_letters_found("А--Б", "б"));
    assert!(is_first_letters_found("-А", "-а"));
    assert!(!is_first_letters_found("А-Б В", "б-"));
    assert!(is_first_letters_found("straße", "STRASSE"));
    assert!(!is_first_letters_found("МОСКВА", "МОСКВА 2"));
    let kept = select_stations(
        vec![
            StationItem::new(String::from("ОРЕЛ"), RzdStationCode::new(1)),
            StationItem::new(String::from("НОВЫЙ ОРЕЛ"), RzdStationCode::new(2)),
            StationItem::new(String::from("КОРЕЛА"), RzdStationCode::new(3)),
            StationItem::new(String::from("орел-2"), RzdStationCode::new(4)),
        ],
        "ОРЕЛ",
    );
    assert_eq!(kept.iter().map(|s| s.code().to_uint()).collect::<Vec<u32>>(), vec![1, 2, 4]);
}
