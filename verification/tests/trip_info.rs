use rzd_trains::parse_train_time;
use rzd_trains::trip_info::{read_rid_reply, read_trip_reply, TripStop};
use rzd_trains::{Error, ResultList, RzdErrors, RzdRequestId, RzdStationCode, TripStations};

#[test]
fn trip_info_rid_reply_deserialize_test() {
    let answer = r#"{"type":"FAIL","rid":0,"fail_msg":"Произошла системная ошибка."}"#;
    let answer = read_rid_reply(answer).unwrap();
    
    let data = Error::FailRzdResponse;

    assert!(!answer.is_success());
    assert_eq!(answer.error().unwrap().to_string(), data.to_string());

    let answer = r#"{"type":"REQUEST_ID","rid":17872768326,"fail_msg":"null"}"#;
    let answer = read_rid_reply(answer).unwrap();
    
    let data = RzdRequestId::new(17872768326);

    assert!(answer.is_success());
    assert_eq!(answer.value().unwrap(), &data);
}

#[test]
fn trip_stations_deserialize_test() {
    let answer = r#"{"Error":{"Version":"2.7.81","content":"Parameter [Train::Number]: not found or invalid format","Code":"040311"}}"#;
    let answer = read_trip_reply(answer).unwrap();
    
    let data = Error::RzdError(RzdErrors::new(vec![
        "parameter [train::number]: not found or invalid format".to_string(),
    ]));

    assert!(!answer.is_success());
    assert_eq!(answer.error().unwrap().to_string(), data.to_string());

    let answer = r#"{"GtExpress_Response":{"ExprInfo":"II","ReqExpressZK":3189015,"ReqLocalRecv":"20.03.2022 21:54:01","ReqLocalSend":"20.03.2022 21:54:01","ReqAddress":"MZD:5433","Error":{"content":"Неверная дата отправления.","Code":2010},"Version":"2.7.86","Type":"TrainRoute","ReqExpressDateTime":"20.03.2022 21:54"}}"#;
    let answer = read_trip_reply(answer).unwrap();
    
    let data = Error::RzdError(RzdErrors::new(
        vec!["неверная дата отправления".to_string()],
    ));

    assert!(!answer.is_success());
    assert_eq!(answer.error().unwrap().to_string(), data.to_string());

    let answer = r#"{"type":"REQUEST_ID","rid":17872768326,"fail_msg":"null"}"#;
    let answer = read_trip_reply(answer).unwrap();
    
    let data = Error::RzdReplyNotReady;

    assert!(!answer.is_success());
    assert_eq!(answer.error().unwrap().to_string(), data.to_string());

    let answer = r#"{"GtExpress_Response":{"ReqExpressZK":3263309,"ReqLocalRecv":"20.03.2022 19:04:56","ReqLocalSend":"20.03.2022 19:04:56","ReqAddress":"MZD:5431","Train":{"Route":{"Station":["С-ПЕТЕР-ГЛ","МОСКВА ОКТ"],"CodeFrom":2004001,"CodeTo":2006004},"Number":"001А"},"Version":"2.7.81","Routes":{"Stop":[{"Station":"С-ПЕТЕР-ГЛ","Distance":0,"Days":"00","DepTime":"23:55","Code":2004001},{"ArvTime":"07:55","Station":"МОСКВА ОКТ","Distance":650,"Days":"01","Code":2006004}],"Title":"ОСНОВНОЙ МАРШРУТ","Route":{"Station":["С-ПЕТЕР-ГЛ","МОСКВА ОКТ"],"CodeFrom":2004001,"CodeTo":2006004}},"Type":"TrainRoute","ReqExpressDateTime":"20.03.2022 00:00"}}"#;
    let answer = read_trip_reply(answer).unwrap();
    
    let data = TripStations {
        train_number: String::from("001А"),
        stations: ResultList::new(vec![
            TripStop {
                station: String::from("С-ПЕТЕР-ГЛ"),
                code: RzdStationCode::new(2004001),
                trip_days: 0,
                leaving_time: parse_train_time("23:55"),
                arriving_time: parse_train_time(""),
            },
            TripStop {
                station: String::from("МОСКВА ОКТ"),
                code: RzdStationCode::new(2006004),
                trip_days: 1,
                leaving_time: parse_train_time(""),
                arriving_time: parse_train_time("07:55"),
            },
        ]),
    };

    assert!(answer.is_success());
    assert_eq!(answer.value().unwrap(), &data);
}

use rzd_trains::trip_info::{trip_reply, TripAnswer};
use rzd_trains::{ReplyResult, RzdClientInterface, Text, TrainDate, TrainTime, TripStopsSearch};

fn stations(stops: usize) -> TripStations {
    let mut s = TripStations::default();
    for i in 0..stops {
        s.stations_mut().0.push(TripStop {
            station: format!("С{}", i),
            code: RzdStationCode::new(i as u32),
            trip_days: i as u32,
            leaving_time: Some(TrainTime::new(1, 2)),
            arriving_time: None,
        });
    }
    s
}

#[test]
fn a_message_makes_the_reply_about_stops_an_error() {
    let answer = |kind: &str, error: &str, inner: &str| TripAnswer {
        kind: String::from(kind),
        error: String::from(error),
        inner_error: String::from(inner),
        stations: stations(1),
    };
    assert!(matches!(
        trip_reply(answer("REQUEST_ID", "", "")),
        ReplyResult::Fail(Error::RzdReplyNotReady)
    ));
    assert!(matches!(
        trip_reply(answer("REQUEST_ID", "Ошибка.", "")),
        ReplyResult::Fail(Error::RzdReplyNotReady)
    ));
    assert!(matches!(
        trip_reply(answer("FAIL", "", "")),
        ReplyResult::Fail(Error::FailRzdResponse)
    ));
    assert!(matches!(
        trip_reply(answer("x", "Ошибка.", "")),
        ReplyResult::Fail(Error::FailRzdResponse)
    ));
    match trip_reply(answer("", " Первая. ", "Вторая")) {
        ReplyResult::Fail(Error::RzdError(e)) => assert_eq!(e.to_vec(), vec!["первая"]),
        other => panic!("unexpected: {:?}", other),
    }
    match trip_reply(answer("", " \t", "Вторая.")) {
        ReplyResult::Fail(Error::RzdError(e)) => assert_eq!(e.to_vec(), vec!["вторая"]),
        other => panic!("unexpected: {:?}", other),
    }
    match trip_reply(answer("", "", ".")) {
        ReplyResult::Fail(Error::RzdError(e)) => assert_eq!(e.to_vec(), vec![""]),
        other => panic!("unexpected: {:?}", other),
    }
    match trip_reply(answer("", "", " ")) {
        ReplyResult::Success(s) => assert_eq!(s, stations(1)),
        other => panic!("unexpected: {:?}", other),
    }
}

#[test]
fn stops_are_read_and_shown() {
    let search = TripStopsSearch::new("001А", TrainDate::new(2022, 3, 20)).unwrap();
    let text = r#"{"GtExpress_Response":{"Train":{"Number":"001А"},"Routes":{"Stop":[{"Station":"С-ПЕТЕР-ГЛ","Days":" 00 ","DepTime":"23:55","Code":2004001},{"ArvTime":"07:55","DepTime":"08:10:30","Station":"МОСКВА ОКТ","Days":"x","Code":2006004}]}}}"#;
    let found = search.deserialize_reply_data(text).unwrap().unwrap();
    assert_eq!(found.train_number(), "001А");
    let stop = found.stations().nth(1).unwrap();
    assert_eq!(stop.station(), "МОСКВА ОКТ");
    assert_eq!(stop.code(), RzdStationCode::new(2006004));
    assert_eq!(stop.trip_days(), 0);
    assert_eq!(stop.leaving_time(), Some(TrainTime::new(8, 10)));
    assert_eq!(stop.arriving_time(), Some(TrainTime::new(7, 55)));
    assert_eq!(
        found.to_text(),
        "Остановки поезда № \"001А\":\n\t\"С-ПЕТЕР-ГЛ\" 2004001, отправление - 23:55, в пути 0 дн.\n\t\"МОСКВА ОКТ\" 2006004, отправление - 08:10, прибытие - 07:55, в пути 0 дн.\n"
    );
    assert!(search.deserialize_reply_data("{}").unwrap().is_none());
    assert!(search
        .deserialize_reply_data(r#"{"GtExpress_Response":{"Train":{"Number":"1"}}}"#)
        .unwrap()
        .is_none());
    for text in [
        r#"{"GtExpress_Response":[]}"#,
        r#"{"Error":"x"}"#,
        r#"{"Error":{"content":1}}"#,
        r#"{"type":1}"#,
        r#"{"GtExpress_Response":{"Routes":{"Stop":{}}}}"#,
        r#"{"GtExpress_Response":{"Routes":{"Stop":[{"Days":1}]}}}"#,
        r#"{"GtExpress_Response":{"Train":{"Number":1}}}"#,
        r#"{"result":{},"GtExpress_Response":{}}"#,
    ] {
        match search.deserialize_reply_data(text) {
            Err(Error::DeserializeError(m)) => assert_eq!(m, "unexpected layout of the reply", "{}", text),
            other => panic!("unexpected for {}: {:?}", text, other),
        }
    }
    match search.deserialize_reply_id(r#"{"type":"REQUEST_ID","rid":17872768326}"#) {
        Ok(Some(id)) => assert_eq!(id, RzdRequestId::new(17872768326)),
        other => panic!("unexpected: {:?}", other),
    }
    assert!(matches!(
        search.deserialize_reply_id(r#"{"result":"REQUEST_ID","type":"REQUEST_ID"}"#),
        Err(Error::DeserializeError(_))
    ));
    assert!(matches!(
        search.deserialize_reply_id(r#"{"result":"REQUEST_ID","RID":1}"#),
        Ok(Some(RzdRequestId(0)))
    ));
    assert!(matches!(search.deserialize_reply_id(r#"{"rid":1}"#), Err(Error::FailRzdResponse)));
}
