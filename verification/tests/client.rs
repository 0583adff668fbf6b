use rzd_trains::client::{
    classify_response, request_headers_default, ResponseKind, RzdPending, RzdRequest, RzdResponse,
    RzdState, RzdStep, POLL_ATTEMPTS, POLL_DELAY_MS,
};
use rzd_trains::cookies::get_cookies_string;
use std::cell::RefCell;
use std::collections::VecDeque;
use rzd_trains::{
    Error, ResultList, RzdClient, RzdClientInterface, RzdQueryType, RzdRequestId, RzdStationCode,
    StationCodeSearch, StationItem, TrainDate, TrainItem, TrainScheduleSearch, TrainSearch,
    TrainTime, TrainType, TripStopsSearch,
};

fn body(text: &str, cookies: Vec<(&str, &str)>) -> RzdResponse {
    RzdResponse::Body {
        text: String::from(text),
        cookies: cookies
            .into_iter()
            .map(|(n, v)| (String::from(n), String::from(v)))
            .collect(),
    }
}

/// Runs a search against responses that are known beforehand; gives the
/// requests that were sent and what the search found, if it ended.
fn run<T, U: RzdClientInterface<T>>(
    search: &U,
    responses: Vec<RzdResponse>,
) -> (Vec<RzdRequest>, Option<Result<Option<T>, Error>>) {
    let mut sent = Vec::new();
    let mut pending = RzdClient::<T>::start(search);
    for response in responses {
        sent.push(RzdRequest {
            url: pending.request.url.clone(),
            headers: pending.request.headers.clone(),
            delay_ms: pending.request.delay_ms,
        });
        match RzdClient::<T>::next(search, pending, response) {
            RzdStep::Send(p) => pending = p,
            RzdStep::Done(r) => return (sent, Some(r)),
        }
    }
    (sent, None)
}

fn headers(session: Option<&str>) -> Vec<(String, String)> {
    let mut h = vec![
        (String::from("user-agent"), String::from("rzd_trains 0.1.0")),
        (String::from("referer"), String::from("rzd.ru")),
    ];
    if let Some(s) = session {
        h.push((String::from("cookie"), String::from(s)));
    }
    h
}

fn stations() -> StationCodeSearch {
    StationCodeSearch::new("во").unwrap()
}

fn train() -> TrainSearch {
    TrainSearch::new(
        RzdStationCode::new(2004000),
        RzdStationCode::new(2000000),
        TrainDate::new(2022, 4, 1),
        TrainTime::new(23, 55),
        "001А",
    )
    .unwrap()
}

const STATIONS: &str = r#"[{"n":"ВОЕННОЕ ШОССЕ","c":2034058,"S":4,"L":0},{"n":"БУРЛИТ-ВОЛОЧАЕВСКИЙ","c":2034458,"S":0,"L":2},{"n":"ОРЕХОВО","c":2100047,"S":0,"L":4}]"#;
const RID: &str = r#"{"result":"RID","RID":18605390978,"timestamp":"01.04.2022 13:44:28.459"}"#;
const NOT_READY: &str = r#"{"result":"OK","lst":[]}"#;
const TRAIN: &str = r#"{"result":"OK","lst":[{"result":"OK","number":"001А","code0":"2004001","code1":"2006004","cars":[]}]}"#;
const REFUSED: &str = r#"{"result":"OK","lst":[{"result":"FAIL","error":" Неверная дата отправления. "}]}"#;

#[test]
fn default_headers_name_the_client_and_the_referer() {
    assert_eq!(request_headers_default(), headers(None));
}

#[test]
fn responses_are_classified_by_status_and_length() {
    assert_eq!(classify_response(200, None), ResponseKind::Body);
    assert_eq!(classify_response(200, Some(12)), ResponseKind::Body);
    assert_eq!(classify_response(299, Some(0)), ResponseKind::Empty);
    assert_eq!(classify_response(204, Some(0)), ResponseKind::Empty);
    assert_eq!(classify_response(199, Some(12)), ResponseKind::Failed);
    assert_eq!(classify_response(300, None), ResponseKind::Failed);
    assert_eq!(classify_response(404, Some(0)), ResponseKind::Failed);
    assert_eq!(classify_response(500, Some(3)), ResponseKind::Failed);
}

#[test]
fn simple_search_without_body_finds_nothing() {
    let (sent, found) = run(&stations(), vec![RzdResponse::Empty]);
    assert_eq!(sent.len(), 1);
    assert_eq!(
        sent[0].url,
        "https://pass.rzd.ru/suggester?stationNamePart=%D0%92%D0%9E&lang=ru&compactMode=y"
    );
    assert_eq!(sent[0].headers, headers(None));
    assert_eq!(sent[0].delay_ms, 0);
    assert!(matches!(found, Some(Ok(None))));
}

#[test]
fn simple_search_returns_what_it_read() {
    let (sent, found) = run(&stations(), vec![body(STATIONS, vec![])]);
    assert_eq!(sent.len(), 1);
    let list = found.unwrap().unwrap().unwrap();
    assert_eq!(
        list.to_vec(),
        vec![
            StationItem::new(String::from("ВОЕННОЕ ШОССЕ"), RzdStationCode::new(2034058)),
            StationItem::new(String::from("БУРЛИТ-ВОЛОЧАЕВСКИЙ"), RzdStationCode::new(2034458)),
        ]
    );
}

#[test]
fn simple_search_without_data_finds_nothing() {
    let (sent, found) = run(&stations(), vec![body("[]", vec![]), body(STATIONS, vec![])]);
    assert_eq!(sent.len(), 1);
    assert!(matches!(found, Some(Ok(None))));
}

#[test]
fn simple_search_passes_errors_on() {
    let (_, found) = run(&stations(), vec![body("{", vec![])]);
    match found {
        Some(Err(Error::DeserializeError(m))) => {
            assert_eq!(m, "EOF while parsing an object at line 1 column 1")
        }
        other => panic!("unexpected: {:?}", other),
    }
    let (_, found) = run(&stations(), vec![RzdResponse::Failed(503)]);
    assert!(matches!(found, Some(Err(Error::FailRzdResponse))));
    let (_, found) = run(&stations(), vec![RzdResponse::Broken(String::from("no route"))]);
    match found {
        Some(Err(Error::ReqwestError(m))) => assert_eq!(m, "no route"),
        other => panic!("unexpected: {:?}", other),
    }
    let (_, found) = run(&stations(), vec![RzdResponse::Unreadable(String::from("cut off"))]);
    match found {
        Some(Err(Error::DeserializeError(m))) => assert_eq!(m, "cut off"),
        other => panic!("unexpected: {:?}", other),
    }
}

#[test]
fn error_in_place_of_identifier_ends_the_search() {
    let fail = r#"{"result":"FAIL","type":"SYSTEM_ERROR","error":"Произошла системная ошибка."}"#;
    let (sent, found) = run(&train(), vec![body(fail, vec![("a", "1")]), body(TRAIN, vec![])]);
    assert_eq!(sent.len(), 1);
    assert_eq!(
        sent[0].url,
        "https://pass.rzd.ru/timetable/public/ru?layer_id=5764&dir=0&code0=2004000&dt0=01.04.2022&time0=23:55&code1=2000000&tnum0=001%D0%90"
    );
    assert_eq!(sent[0].headers, headers(None));
    assert!(matches!(found, Some(Err(Error::FailRzdResponse))));
    let (sent, found) = run(&train(), vec![body("[1, 2]", vec![]), body(TRAIN, vec![])]);
    assert_eq!(sent.len(), 1);
    match found {
        Some(Err(Error::DeserializeError(m))) => assert_eq!(m, "unexpected layout of the reply"),
        other => panic!("unexpected: {:?}", other),
    }
}

#[test]
fn no_response_to_the_request_for_an_identifier_is_a_bad_reply() {
    let (sent, found) = run(&train(), vec![RzdResponse::Empty]);
    assert_eq!(sent.len(), 1);
    assert!(matches!(found, Some(Err(Error::FailRzdResponse))));
    let (_, found) = run(&train(), vec![RzdResponse::Failed(500)]);
    assert!(matches!(found, Some(Err(Error::FailRzdResponse))));
    let (_, found) = run(&train(), vec![RzdResponse::Broken(String::from("tls"))]);
    assert!(matches!(found, Some(Err(Error::ReqwestError(_)))));
}

#[test]
fn polling_gives_up_after_three_requests() {
    let responses = vec![
        body(RID, vec![("b", "2"), ("a", "1"), ("a", "1")]),
        body(NOT_READY, vec![]),
        body(NOT_READY, vec![]),
        body(NOT_READY, vec![]),
        body(TRAIN, vec![]),
        body(TRAIN, vec![]),
    ];
    let (sent, found) = run(&train(), responses);
    assert_eq!(POLL_ATTEMPTS, 3);
    assert_eq!(POLL_DELAY_MS, 1500);
    assert_eq!(sent.len(), 4);
    assert_eq!(sent[0].headers, headers(None));
    assert_eq!(sent[0].delay_ms, 0);
    for request in &sent[1..] {
        assert_eq!(
            request.url,
            "https://pass.rzd.ru/timetable/public/ru?layer_id=5764&rid=18605390978"
        );
        assert_eq!(request.headers, headers(Some("a=1; b=2")));
        assert_eq!(request.delay_ms, 1500);
    }
    assert!(matches!(found, Some(Err(Error::RzdServerOverloaded))));
}

#[test]
fn polling_ends_with_the_data() {
    let (sent, found) =
        run(&train(), vec![body(RID, vec![]), body(NOT_READY, vec![]), body(TRAIN, vec![])]);
    assert_eq!(sent.len(), 3);
    assert_eq!(sent[1].headers, headers(Some("")));
    let list = found.unwrap().unwrap().unwrap();
    assert_eq!(list.len(), 1);
    assert_eq!(list.nth(0).unwrap().train_number(), "001А");
    assert_eq!(list.nth(0).unwrap().leaving_station_code(), RzdStationCode::new(2004001));
    assert!(list.nth(1).is_none());
}

#[test]
fn polling_ends_without_body_or_with_an_error() {
    let (sent, found) =
        run(&train(), vec![body(RID, vec![]), body(NOT_READY, vec![]), RzdResponse::Empty]);
    assert_eq!(sent.len(), 3);
    assert!(matches!(found, Some(Ok(None))));
    let (sent, found) = run(&train(), vec![body(RID, vec![]), RzdResponse::Failed(502)]);
    assert_eq!(sent.len(), 2);
    assert!(matches!(found, Some(Err(Error::FailRzdResponse))));
    let (sent, found) =
        run(&train(), vec![body(RID, vec![]), body(REFUSED, vec![]), body(TRAIN, vec![])]);
    assert_eq!(sent.len(), 2);
    match found {
        Some(Err(e)) => assert_eq!(e.to_string(), "неверная дата отправления"),
        other => panic!("unexpected: {:?}", other),
    }
    let fail = r#"{"result":"FAIL","type":"ERROR","error":"Ошибка обмена данными"}"#;
    let (sent, found) =
        run(&train(), vec![body(RID, vec![]), body(fail, vec![]), body(TRAIN, vec![])]);
    assert_eq!(sent.len(), 2);
    assert!(matches!(found, Some(Err(Error::FailRzdResponse))));
}

#[test]
fn an_identifier_in_place_of_the_data_is_asked_for_again() {
    let (sent, found) = run(&train(), vec![body(RID, vec![]), body(RID, vec![])]);
    assert_eq!(sent.len(), 2);
    assert!(found.is_none());
    let (sent, found) =
        run(&train(), vec![body(RID, vec![]), body(RID, vec![]), body(TRAIN, vec![])]);
    assert_eq!(sent.len(), 3);
    assert_eq!(sent[1], sent[2]);
    assert_eq!(found.unwrap().unwrap().unwrap().len(), 1);
    let (sent, found) = run(
        &train(),
        vec![body(RID, vec![]), body(RID, vec![]), body(NOT_READY, vec![]), body(TRAIN, vec![])],
    );
    assert_eq!(sent.len(), 4);
    assert_eq!(found.unwrap().unwrap().unwrap().len(), 1);
}

#[test]
fn a_server_that_keeps_sending_identifiers_is_overloaded() {
    let responses = vec![
        body(RID, vec![("s", "1")]),
        body(RID, vec![("s", "2")]),
        body(RID, vec![]),
        body(RID, vec![]),
        body(TRAIN, vec![]),
    ];
    let (sent, found) = run(&train(), responses);
    assert_eq!(sent.len(), 4);
    for request in &sent[1..] {
        assert_eq!(
            request.url,
            "https://pass.rzd.ru/timetable/public/ru?layer_id=5764&rid=18605390978"
        );
        assert_eq!(request.headers, headers(Some("s=1")));
        assert_eq!(request.delay_ms, 1500);
    }
    assert!(matches!(found, Some(Err(Error::RzdServerOverloaded))));

    let stops = TripStopsSearch::new("001А", TrainDate::new(2022, 3, 20)).unwrap();
    let again = r#"{"type":"REQUEST_ID","rid":17872768326,"fail_msg":"null"}"#;
    let responses = vec![
        body(again, vec![]),
        body(again, vec![]),
        body("{}", vec![]),
        body(again, vec![]),
        body(again, vec![]),
    ];
    let (sent, found) = run(&stops, responses);
    assert_eq!(sent.len(), 4);
    assert!(matches!(found, Some(Err(Error::RzdServerOverloaded))));

    let schedule = TrainScheduleSearch::new(
        RzdStationCode::new(2000000),
        RzdStationCode::new(2004000),
        TrainDate::new(2022, 4, 1),
        TrainType::AllTrains,
        true,
    );
    let again = r#"{"result":"RID","RID":17355769877,"timestamp":"02.04.2022 18:31:00.189"}"#;
    let responses =
        vec![body(again, vec![]), body(again, vec![]), body(again, vec![]), body(again, vec![])];
    let (sent, found) = run(&schedule, responses);
    assert_eq!(sent.len(), 4);
    assert!(matches!(found, Some(Err(Error::RzdServerOverloaded))));
}

#[test]
fn search_waits_while_no_response_has_come() {
    let (sent, found) = run(&train(), vec![body(RID, vec![]), body(NOT_READY, vec![])]);
    assert_eq!(sent.len(), 2);
    assert!(found.is_none());
}

#[test]
fn cookies_that_make_no_header_are_an_error() {
    let (sent, found) = run(&train(), vec![body(RID, vec![("a", "line\nbreak")])]);
    assert_eq!(sent.len(), 1);
    assert!(matches!(found, Some(Err(Error::ReqwestHeaderError))));
    let (sent, found) = run(&train(), vec![body(RID, vec![("a", "del\u{7f}")])]);
    assert_eq!(sent.len(), 1);
    assert!(matches!(found, Some(Err(Error::ReqwestHeaderError))));
    let (sent, found) =
        run(&train(), vec![body(RID, vec![("a", "tab\tand ü")]), body(TRAIN, vec![])]);
    assert_eq!(sent.len(), 2);
    assert_eq!(sent[1].headers, headers(Some("a=tab\tand ü")));
    assert!(matches!(found, Some(Ok(Some(_)))));
}

#[test]
fn after_id_and_after_data_take_what_was_read() {
    let search = train();
    let pending = RzdClient::<ResultList<TrainItem>>::start(&search);
    assert_eq!(pending.state, RzdState::WaitingForId);
    let step = RzdClient::<ResultList<TrainItem>>::after_id(
        &search,
        pending,
        String::from("k=v"),
        Ok(Some(RzdRequestId::new(9))),
    );
    let pending = match step {
        RzdStep::Send(p) => p,
        RzdStep::Done(r) => panic!("ended: {:?}", r),
    };
    assert_eq!(
        pending,
        RzdPending {
            request: RzdRequest {
                url: String::from("https://pass.rzd.ru/timetable/public/ru?layer_id=5764&rid=9"),
                headers: headers(Some("k=v")),
                delay_ms: 1500,
            },
            state: RzdState::Polling(1),
        }
    );
    let step = RzdClient::<ResultList<TrainItem>>::after_data(&search, pending, Ok(None));
    let pending = match step {
        RzdStep::Send(p) => p,
        RzdStep::Done(r) => panic!("ended: {:?}", r),
    };
    assert_eq!(pending.state, RzdState::Polling(2));
    assert_eq!(pending.request.headers, headers(Some("k=v")));
    let step = RzdClient::<ResultList<TrainItem>>::after_data(&search, pending, Ok(None));
    let pending = match step {
        RzdStep::Send(p) => p,
        RzdStep::Done(r) => panic!("ended: {:?}", r),
    };
    assert_eq!(pending.state, RzdState::Polling(3));
    let step = RzdClient::<ResultList<TrainItem>>::after_data(&search, pending, Ok(None));
    assert!(matches!(step, RzdStep::Done(Err(Error::RzdServerOverloaded))));

    let pending = RzdClient::<ResultList<TrainItem>>::start(&search);
    let step = RzdClient::<ResultList<TrainItem>>::after_id(
        &search,
        pending,
        String::new(),
        Err(Error::TooShortQuery),
    );
    assert!(matches!(step, RzdStep::Done(Err(Error::TooShortQuery))));
    let pending = RzdClient::<ResultList<TrainItem>>::start(&search);
    let step =
        RzdClient::<ResultList<TrainItem>>::after_id(&search, pending, String::new(), Ok(None));
    assert!(matches!(step, RzdStep::Done(Err(Error::FailRzdResponse))));
    let waiting = || RzdClient::<ResultList<TrainItem>>::start(&search);
    let step = RzdClient::<ResultList<TrainItem>>::after_data(&search, waiting(), Ok(None));
    assert!(matches!(step, RzdStep::Done(Err(Error::UnsupportedOperation))));
    for state in [RzdState::Simple, RzdState::Polling(1)] {
        let pending = || RzdPending { state, ..waiting() };
        let step = RzdClient::<ResultList<TrainItem>>::after_data(
            &search,
            pending(),
            Err(Error::EmptyTrainNumber),
        );
        assert!(matches!(step, RzdStep::Done(Err(Error::EmptyTrainNumber))));
        let step = RzdClient::<ResultList<TrainItem>>::after_data(
            &search,
            pending(),
            Ok(Some(ResultList::default())),
        );
        assert!(matches!(step, RzdStep::Done(Ok(Some(_)))));
        let step = RzdClient::<ResultList<TrainItem>>::after_id(
            &search,
            pending(),
            String::new(),
            Ok(Some(RzdRequestId::new(1))),
        );
        assert!(matches!(step, RzdStep::Done(Err(Error::UnsupportedOperation))));
    }
    let simple = RzdPending { state: RzdState::Simple, ..waiting() };
    let step = RzdClient::<ResultList<TrainItem>>::after_data(&search, simple, Ok(None));
    assert!(matches!(step, RzdStep::Done(Ok(None))));
    for k in [0u8, 3, 4, 255] {
        let pending = RzdPending { state: RzdState::Polling(k), ..waiting() };
        let step = RzdClient::<ResultList<TrainItem>>::after_data(&search, pending, Ok(None));
        assert!(matches!(step, RzdStep::Done(Err(Error::RzdServerOverloaded))));
        let pending = RzdPending { state: RzdState::Polling(k), ..waiting() };
        let step = RzdClient::<ResultList<TrainItem>>::after_data(
            &search,
            pending,
            Err(Error::RzdReplyNotReady),
        );
        assert!(matches!(step, RzdStep::Done(Err(Error::RzdServerOverloaded))));
    }
    for k in [1u8, 2] {
        let pending = RzdPending { state: RzdState::Polling(k), ..waiting() };
        let step = RzdClient::<ResultList<TrainItem>>::after_data(
            &search,
            pending,
            Err(Error::RzdReplyNotReady),
        );
        match step {
            RzdStep::Send(p) => {
                assert_eq!(p.state, RzdState::Polling(k + 1));
                assert_eq!(p.request, waiting().request);
            }
            RzdStep::Done(r) => panic!("ended: {:?}", r),
        }
        let pending = RzdPending { state: RzdState::Polling(k), ..waiting() };
        let step = RzdClient::<ResultList<TrainItem>>::after_data(
            &search,
            pending,
            Err(Error::FailRzdResponse),
        );
        assert!(matches!(step, RzdStep::Done(Err(Error::FailRzdResponse))));
    }
    let simple = RzdPending { state: RzdState::Simple, ..waiting() };
    let step = RzdClient::<ResultList<TrainItem>>::after_data(
        &search,
        simple,
        Err(Error::RzdReplyNotReady),
    );
    assert!(matches!(step, RzdStep::Done(Err(Error::RzdReplyNotReady))));
}

#[test]
fn cookies_come_back_once_each_and_in_order() {
    let cookies = |v: Vec<(&str, &str)>| -> Vec<(String, String)> {
        v.into_iter().map(|(n, x)| (String::from(n), String::from(x))).collect()
    };
    assert_eq!(get_cookies_string(&cookies(vec![("b", "2"), ("a", "1"), ("a", "1")])), "a=1; b=2");
    assert_eq!(get_cookies_string(&cookies(vec![("a", "1"), ("b", "2")])), "a=1; b=2");
    assert_eq!(get_cookies_string(&cookies(vec![("a", "1"), ("a", "1"), ("b", "2"), ("a", "1")])), "a=1; b=2");
    assert_eq!(get_cookies_string(&cookies(vec![])), "");
    assert_eq!(get_cookies_string(&cookies(vec![("x", "")])), "x=");
    assert_eq!(
        get_cookies_string(&cookies(vec![("a", "2"), ("a", "1"), ("a", "10"), ("", "z"), ("Z", "1")])),
        "=z; Z=1; a=1; a=10; a=2"
    );
    assert_eq!(
        get_cookies_string(&cookies(vec![("я", "1"), ("ab", "c"), ("a", "b=c"), ("a=b", "c")])),
        "a=b=c; ab=c; я=1"
    );
    let mut sorted = vec![String::from("я=1"), String::from("ab=c"), String::from("a=b=c")];
    sorted.sort();
    assert_eq!(sorted.join("; "), "a=b=c; ab=c; я=1");
}

#[test]
fn schedule_search_phrases_its_requests() {
    let from = RzdStationCode::new(2000000);
    let to = RzdStationCode::new(2004000);
    let date = TrainDate::new(2022, 4, 1);
    let q = TrainScheduleSearch::new(from, to, date, TrainType::AllTrains, true);
    assert!(q.query_type() == RzdQueryType::WithId);
    assert_eq!(
        q.request_id(),
        "https://pass.rzd.ru/timetable/public/ru?layer_id=5827&dir=0&tfl=3&checkSeats=1&code0=2000000&dt0=01.04.2022&code1=2004000"
    );
    assert_eq!(
        q.request_data(RzdRequestId::new(18605390978)),
        "https://pass.rzd.ru/timetable/public/ru?layer_id=5827&rid=18605390978"
    );
    let q = TrainScheduleSearch::new(from, to, date, TrainType::Train, false);
    assert_eq!(
        q.request_id(),
        "https://pass.rzd.ru/timetable/public/ru?layer_id=5827&dir=0&tfl=1&checkSeats=0&withoutSeats=y&code0=2000000&dt0=01.04.2022&code1=2004000"
    );
    let q = TrainScheduleSearch::new(from, to, date, TrainType::ElectricTrain, false);
    assert!(q.query_type() == RzdQueryType::Simple);
    assert_eq!(
        q.request_data(RzdRequestId::new(7)),
        "https://pass.rzd.ru/timetable/public/ru?layer_id=5827&dir=0&tfl=2&code0=2000000&dt0=01.04.2022&code1=2004000"
    );
    assert!(matches!(q.deserialize_reply_id("{}"), Err(Error::UnsupportedOperation)));
}

#[test]
fn train_search_phrases_its_requests() {
    let from = RzdStationCode::new(2004000);
    let to = RzdStationCode::new(2000000);
    let date = TrainDate::new(2022, 4, 1);
    let time = TrainTime::new(23, 55);
    assert!(matches!(
        TrainSearch::new(from, to, date, time, "  "),
        Err(Error::EmptyTrainNumber)
    ));
    let q = TrainSearch::new(from, to, date, time, " 001а ").unwrap();
    assert_eq!(q.train_number, "001А");
    assert!(q.query_type() == RzdQueryType::WithId);
    assert_eq!(
        q.request_id(),
        "https://pass.rzd.ru/timetable/public/ru?layer_id=5764&dir=0&code0=2004000&dt0=01.04.2022&time0=23:55&code1=2000000&tnum0=001%D0%90"
    );
    assert_eq!(
        q.request_data(RzdRequestId::new(18605390978)),
        "https://pass.rzd.ru/timetable/public/ru?layer_id=5764&rid=18605390978"
    );
}

#[test]
fn trip_search_phrases_its_requests() {
    let date = TrainDate::new(2022, 3, 20);
    assert!(matches!(TripStopsSearch::new("", date), Err(Error::EmptyTrainNumber)));
    let q = TripStopsSearch::new("001а", date).unwrap();
    assert!(q.query_type() == RzdQueryType::WithId);
    assert_eq!(
        q.request_id(),
        "https://pass.rzd.ru/timetable/public/ru?layer_id=5804&date=20.03.2022&train_num=001%D0%90&json=y&format=array"
    );
    assert_eq!(
        q.request_data(RzdRequestId::new(17872768326)),
        "https://pass.rzd.ru/timetable/public/ru?layer_id=5804&rid=17872768326&json=y&format=array"
    );
}

#[test]
fn station_search_phrases_its_request() {
    let q = StationCodeSearch::new(" санкт петербург-гл.*_ ").unwrap();
    assert_eq!(q.query, "САНКТ ПЕТЕРБУРГ-ГЛ.*_");
    assert!(q.query_type() == RzdQueryType::Simple);
    assert_eq!(q.request_id(), "");
    assert_eq!(
        q.request_data(RzdRequestId::default()),
        "https://pass.rzd.ru/suggester?stationNamePart=%D0%A1%D0%90%D0%9D%D0%9A%D0%A2+%D0%9F%D0%95%D0%A2%D0%95%D0%A0%D0%91%D0%A3%D0%A0%D0%93-%D0%93%D0%9B.*_&lang=ru&compactMode=y"
    );
    assert!(matches!(q.deserialize_reply_id("[]"), Err(Error::UnsupportedOperation)));
    assert!(matches!(StationCodeSearch::new("м"), Err(Error::TooShortQuery)));
}

#[test]
fn identifier_goes_from_reply_to_request() {
    let from = RzdStationCode::new(2004000);
    let to = RzdStationCode::new(2000000);
    let date = TrainDate::new(2022, 4, 1);
    let q = TrainSearch::new(from, to, date, TrainTime::new(23, 55), "001А").unwrap();
    let reply = r#"{"result":"RID","RID":18605390978,"timestamp":"01.04.2022 13:44:28.459"}"#;
    let id = q.deserialize_reply_id(reply).unwrap().unwrap();
    assert_eq!(id.to_uint(), 18605390978);
    assert_eq!(id.to_string(), "18605390978");
    assert_eq!(
        q.request_data(id),
        "https://pass.rzd.ru/timetable/public/ru?layer_id=5764&rid=18605390978"
    );
    let pending = RzdClient::<ResultList<TrainItem>>::start(&q);
    let response = RzdResponse::Body {
        text: String::from(reply),
        cookies: vec![
            (String::from("lang"), String::from("ru")),
            (String::from("JSESSIONID"), String::from("0000abc")),
        ],
    };
    match RzdClient::<ResultList<TrainItem>>::next(&q, pending, response) {
        RzdStep::Send(p) => {
            assert_eq!(
                p.request.url,
                "https://pass.rzd.ru/timetable/public/ru?layer_id=5764&rid=18605390978"
            );
            assert_eq!(p.request.headers, headers(Some("JSESSIONID=0000abc; lang=ru")));
            assert_eq!(p.state, RzdState::Polling(1));
        }
        RzdStep::Done(r) => panic!("ended: {:?}", r),
    }
}

/// Runs a search to its end against responses that are known beforehand;
/// gives the requests that were made and what the search found.
fn get<T, U: RzdClientInterface<T>>(
    search: &U,
    responses: Vec<RzdResponse>,
) -> (Vec<RzdRequest>, Result<Option<T>, Error>) {
    let sent = RefCell::new(Vec::new());
    let left = RefCell::new(VecDeque::from(responses));
    let found = RzdClient::<T>::get(search, |request: &RzdRequest| {
        sent.borrow_mut().push(RzdRequest {
            url: request.url.clone(),
            headers: request.headers.clone(),
            delay_ms: request.delay_ms,
        });
        left.borrow_mut().pop_front().unwrap_or(RzdResponse::Broken(String::from("no more")))
    });
    (sent.into_inner(), found)
}

#[test]
fn get_runs_a_simple_search_with_one_request() {
    let (sent, found) = get(&stations(), vec![RzdResponse::Empty, body(STATIONS, vec![])]);
    assert_eq!(sent.len(), 1);
    assert_eq!(sent[0].headers, headers(None));
    assert!(matches!(found, Ok(None)));
    let (sent, found) = get(&stations(), vec![body(STATIONS, vec![])]);
    assert_eq!(sent.len(), 1);
    assert_eq!(found.unwrap().unwrap().len(), 2);
    let (sent, found) = get(&stations(), vec![RzdResponse::Failed(500)]);
    assert_eq!(sent.len(), 1);
    assert!(matches!(found, Err(Error::FailRzdResponse)));
}

#[test]
fn get_ends_with_the_error_read_in_place_of_the_identifier() {
    let fail = r#"{"result":"FAIL","type":"SYSTEM_ERROR","error":"Произошла системная ошибка."}"#;
    let (sent, found) = get(&train(), vec![body(fail, vec![]), body(TRAIN, vec![])]);
    assert_eq!(sent.len(), 1);
    assert_eq!(sent[0].url, train().request_id());
    assert!(matches!(found, Err(Error::FailRzdResponse)));
    let (sent, found) = get(&train(), vec![body("{", vec![]), body(TRAIN, vec![])]);
    assert_eq!(sent.len(), 1);
    match found {
        Err(Error::DeserializeError(m)) => {
            assert_eq!(m, "EOF while parsing an object at line 1 column 1")
        }
        other => panic!("unexpected: {:?}", other),
    }
}

#[test]
fn get_asks_three_times_for_the_data_and_gives_up() {
    for not_ready in [NOT_READY, RID] {
        let responses = vec![
            body(RID, vec![("b", "2"), ("a", "1"), ("a", "1")]),
            body(not_ready, vec![]),
            body(not_ready, vec![]),
            body(not_ready, vec![]),
            body(TRAIN, vec![]),
        ];
        let (sent, found) = get(&train(), responses);
        assert_eq!(sent.len(), 4);
        assert_eq!(sent[0].url, train().request_id());
        assert_eq!(sent[0].delay_ms, 0);
        for request in &sent[1..] {
            assert_eq!(request.url, train().request_data(RzdRequestId::new(18605390978)));
            assert_eq!(request.headers, headers(Some("a=1; b=2")));
            assert_eq!(request.delay_ms, 1500);
        }
        assert!(matches!(found, Err(Error::RzdServerOverloaded)));
    }
}

#[test]
fn get_ends_with_the_data_as_soon_as_they_come() {
    let responses =
        vec![body(RID, vec![]), body(RID, vec![]), body(TRAIN, vec![]), body(TRAIN, vec![])];
    let (sent, found) = get(&train(), responses);
    assert_eq!(sent.len(), 3);
    assert_eq!(found.unwrap().unwrap().nth(0).unwrap().train_number(), "001А");
    let (sent, found) = get(&train(), vec![body(RID, vec![]), RzdResponse::Empty]);
    assert_eq!(sent.len(), 2);
    assert!(matches!(found, Ok(None)));
    let (sent, found) = get(&train(), vec![body(RID, vec![])]);
    assert_eq!(sent.len(), 2);
    match found {
        Err(Error::ReqwestError(m)) => assert_eq!(m, "no more"),
        other => panic!("unexpected: {:?}", other),
    }
}
