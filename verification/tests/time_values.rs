use iced_aw::time::{ClockTime, Period, Time};

#[test]
fn clock_to_twelve_hour_midnight() {
    let c = ClockTime { hour: 0, minute: 5, second: 30 };
    let t = Time::from_clock(c, false, false);
    assert_eq!(t, Time::Hm { hour: 12, minute: 5, period: Period::Am });
}

#[test]
fn clock_to_twelve_hour_noon() {
    let c = ClockTime { hour: 12, minute: 0, second: 0 };
    let t = Time::from_clock(c, false, true);
    assert_eq!(t, Time::Hms { hour: 12, minute: 0, second: 0, period: Period::Pm });
}

#[test]
fn clock_to_twelve_hour_afternoon() {
    let c = ClockTime { hour: 13, minute: 45, second: 59 };
    let t = Time::from_clock(c, false, true);
    assert_eq!(t, Time::Hms { hour: 1, minute: 45, second: 59, period: Period::Pm });
}

#[test]
fn clock_to_twelve_hour_morning() {
    let c = ClockTime { hour: 11, minute: 59, second: 1 };
    let t = Time::from_clock(c, false, false);
    assert_eq!(t, Time::Hm { hour: 11, minute: 59, period: Period::Am });
}

#[test]
fn clock_to_twenty_four_hour_keeps_hour() {
    let c = ClockTime { hour: 23, minute: 1, second: 2 };
    let t = Time::from_clock(c, true, true);
    assert_eq!(t, Time::Hms { hour: 23, minute: 1, second: 2, period: Period::H24 });
}

#[test]
fn twelve_hour_midnight_to_clock() {
    let t = Time::Hm { hour: 12, minute: 30, period: Period::Am };
    assert_eq!(t.to_clock(), ClockTime { hour: 0, minute: 30, second: 0 });
}

#[test]
fn twelve_hour_noon_to_clock() {
    let t = Time::Hms { hour: 12, minute: 0, second: 7, period: Period::Pm };
    assert_eq!(t.to_clock(), ClockTime { hour: 12, minute: 0, second: 7 });
}

#[test]
fn twelve_hour_evening_to_clock() {
    let t = Time::Hm { hour: 9, minute: 15, period: Period::Pm };
    assert_eq!(t.to_clock(), ClockTime { hour: 21, minute: 15, second: 0 });
}

#[test]
fn twenty_four_hour_to_clock() {
    let t = Time::Hms { hour: 0, minute: 1, second: 2, period: Period::H24 };
    assert_eq!(t.to_clock(), ClockTime { hour: 0, minute: 1, second: 2 });
}

#[test]
fn round_trip_keeps_time_of_day() {
    let mut hour: u32 = 0;
    while hour < 24 {
        let c = ClockTime { hour, minute: 34, second: 56 };
        assert_eq!(Time::from_clock(c, false, true).to_clock(), c);
        assert_eq!(Time::from_clock(c, true, true).to_clock(), c);
        let dropped = Time::from_clock(c, false, false).to_clock();
        assert_eq!(dropped, ClockTime { hour, minute: 34, second: 0 });
        hour += 1;
    }
}

#[test]
fn now_hm_is_on_the_requested_clock() {
    let t = Time::now_hm(false);
    match t {
        Time::Hm { hour, minute, period } => {
            assert!(period == Period::Am || period == Period::Pm);
            assert!((1..=12).contains(&hour));
            assert!(minute < 60);
        }
        Time::Hms { .. } => panic!("now_hm returned seconds"),
    }
    let t = Time::now_hm(true);
    match t {
        Time::Hm { hour, minute, period } => {
            assert_eq!(period, Period::H24);
            assert!(hour < 24);
            assert!(minute < 60);
        }
        Time::Hms { .. } => panic!("now_hm returned seconds"),
    }
}

#[test]
fn now_hms_carries_seconds() {
    let t = Time::now_hms(true);
    match t {
        Time::Hms { hour, minute, second, period } => {
            assert_eq!(period, Period::H24);
            assert!(hour < 24);
            assert!(minute < 60);
            assert!(second < 60);
        }
        Time::Hm { .. } => panic!("now_hms returned no seconds"),
    }
}
