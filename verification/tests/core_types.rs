use rzd_trains::{parse_station_code, parse_train_date, parse_train_time};
use rzd_trains::{RzdStationCode, TrainDate, TrainTime};

#[test]
fn lib_train_date_test() {
    assert_eq!(
        parse_train_date("01.04.2022"),
        Some(TrainDate::new(2022, 4, 1))
    );
}

#[test]
fn lib_train_time_test() {
    assert_eq!(parse_train_time("23:05"), Some(TrainTime::new(23, 5)));
}

#[test]
fn station_code_test() {
    assert_eq!(RzdStationCode::default().to_uint(), 0);
    assert_eq!(parse_station_code("2000000"), RzdStationCode::new(2000000));
}

#[test]
fn texts_are_parsed_into_dates_times_and_codes() {
    assert_eq!("01.04.2022".parse::<TrainDate>().unwrap(), TrainDate::new(2022, 4, 1));
    assert!("01.04".parse::<TrainDate>().is_err());
    assert_eq!("23:05".parse::<TrainTime>().unwrap(), TrainTime::new(23, 5));
    assert!("23".parse::<TrainTime>().is_err());
    assert_eq!("2000000".parse::<RzdStationCode>().unwrap(), RzdStationCode::new(2000000));
    assert!("-1".parse::<RzdStationCode>().is_err());
}
