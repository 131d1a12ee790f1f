use pfsense_auto_backup::schedule::{
    parse_backup_schedule, BackupInterval, ScheduleError, TimeUnit,
};
use regex::Regex;

fn interval(quantity: u32, unit: TimeUnit) -> Result<BackupInterval, ScheduleError> {
    Ok(BackupInterval { quantity, unit })
}

#[test]
fn each_unit_is_read() {
    assert_eq!(parse_backup_schedule("30min"), interval(30, TimeUnit::Minutes));
    assert_eq!(parse_backup_schedule("12hr"), interval(12, TimeUnit::Hours));
    assert_eq!(parse_backup_schedule("1d"), interval(1, TimeUnit::Days));
    assert_eq!(parse_backup_schedule("2wk"), interval(2, TimeUnit::Weeks));
}

#[test]
fn quantity_is_read_as_a_decimal_number() {
    assert_eq!(parse_backup_schedule("0min"), interval(0, TimeUnit::Minutes));
    assert_eq!(parse_backup_schedule("7d"), interval(7, TimeUnit::Days));
    assert_eq!(parse_backup_schedule("1234567890wk"), interval(1234567890, TimeUnit::Weeks));
    assert_eq!(parse_backup_schedule("007min"), interval(7, TimeUnit::Minutes));
    assert_eq!(
        parse_backup_schedule("000000000000000000000042hr"),
        interval(42, TimeUnit::Hours)
    );
}

#[test]
fn largest_quantity_is_accepted_and_the_next_refused() {
    assert_eq!(
        parse_backup_schedule("4294967295d"),
        interval(4294967295, TimeUnit::Days)
    );
    assert_eq!(
        parse_backup_schedule("4294967296d"),
        Err(ScheduleError::QuantityTooLarge)
    );
    assert_eq!(
        parse_backup_schedule("99999999999999999999999999999999min"),
        Err(ScheduleError::QuantityTooLarge)
    );
    assert_eq!(
        parse_backup_schedule("18446744073709551616wk"),
        Err(ScheduleError::QuantityTooLarge)
    );
}

#[test]
fn text_that_is_no_schedule_is_malformed() {
    for text in [
        "", "min", "d", "30", "30 min", " 30min", "30min ", "30min\n", "30m", "30h", "30hrs",
        "30day", "30w", "30MIN", "30Min", "-5min", "+5min", "3.5hr", "1d2", "1dd", "min30",
        "30minmin", "30min30", "1e3d", "0x10d", "١٢min", "12mïn",
    ] {
        assert_eq!(parse_backup_schedule(text), Err(ScheduleError::Malformed));
    }
}

#[test]
fn malformed_is_reported_before_too_large() {
    assert_eq!(
        parse_backup_schedule("99999999999999999999 min"),
        Err(ScheduleError::Malformed)
    );
    assert_eq!(
        parse_backup_schedule("99999999999999999999"),
        Err(ScheduleError::Malformed)
    );
}

#[test]
fn accepted_texts_are_those_of_the_pattern_with_plain_digits() {
    let pattern = Regex::new(r"^(?P<quantity>[0-9]+)(?P<unit>(?:min|hr|d|wk))$").unwrap();
    let quantities = ["", "0", "5", "05", "42", "4294967295", "4294967296", "1 ", "x", "-1"];
    let units = ["", "min", "hr", "d", "wk", "h", "m", "w", "mins", " d", "D", "dwk"];
    for quantity in quantities {
        for unit in units {
            let text = format!("{}{}", quantity, unit);
            let parsed = parse_backup_schedule(&text);
            match pattern.captures(&text) {
                None => assert_eq!(parsed, Err(ScheduleError::Malformed)),
                Some(captures) => match captures.name("quantity").unwrap().as_str().parse::<u32>() {
                    Err(_) => assert_eq!(parsed, Err(ScheduleError::QuantityTooLarge)),
                    Ok(number) => {
                        let interval = parsed.unwrap();
                        assert_eq!(interval.quantity, number);
                        let unit_text = match interval.unit {
                            TimeUnit::Minutes => "min",
                            TimeUnit::Hours => "hr",
                            TimeUnit::Days => "d",
                            TimeUnit::Weeks => "wk",
                        };
                        assert_eq!(captures.name("unit").unwrap().as_str(), unit_text);
                    }
                },
            }
        }
    }
}
