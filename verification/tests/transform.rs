use gokz_dump::record::Record;
use gokz_dump::row::{RawDetails, RawRecord};
use gokz_dump::{Field, Mode, Schema, ValidationError};

fn joined_row() -> RawRecord {
    RawRecord {
        time_id: 17,
        steam_id32: 322356345,
        map_course_id: 4021,
        mode: 0,
        style: 0,
        run_time: 5000,
        teleports: 3,
        created: String::from("2023-01-15 10:30:00"),
        details: Some(RawDetails {
            map_id: 992,
            map_name: String::from("kz_lionharder"),
            course: 0,
            player_name: String::from("AlphaKeks"),
        }),
    }
}

fn times_row() -> RawRecord {
    RawRecord {
        time_id: 18,
        steam_id32: 1,
        map_course_id: 4021,
        mode: 0,
        style: 0,
        run_time: 640,
        teleports: 0,
        created: String::from("2019-12-31 23:59:59"),
        details: None,
    }
}

fn seconds(record: &Record) -> f64 {
    record.run_time() as f64 / record.units_per_second() as f64
}

#[test]
fn joined_row_becomes_record_field_for_field() {
    let record = Record::try_from(joined_row()).unwrap();
    assert_eq!(record.id(), 17);
    assert_eq!(record.steam_id(), 76561198282622073);
    assert_eq!(record.account_id(), 322356345);
    assert_eq!(record.map_id(), 992);
    assert_eq!(record.mode(), Mode::Vanilla);
    assert_eq!(record.run_time(), 5000);
    assert_eq!(record.units_per_second(), 1000);
    assert_eq!(record.teleports(), 3);
    assert_eq!(record.created_on(), "2023-01-15 10:30:00");
    assert_eq!(record.schema(), Schema::Joined);
    let details = record.details().unwrap();
    assert_eq!(details.player_name, "AlphaKeks");
    assert_eq!(details.map_name, "kz_lionharder");
    assert_eq!(details.stage, 0);
}

#[test]
fn times_only_row_becomes_record_field_for_field() {
    let record = Record::try_from(times_row()).unwrap();
    assert_eq!(record.id(), 18);
    assert_eq!(record.steam_id(), 76561197960265729);
    assert_eq!(record.map_id(), 4021);
    assert_eq!(record.mode(), Mode::KZTimer);
    assert_eq!(record.run_time(), 640);
    assert_eq!(record.units_per_second(), 128);
    assert_eq!(record.teleports(), 0);
    assert_eq!(record.created_on(), "2019-12-31 23:59:59");
    assert_eq!(record.schema(), Schema::TimesOnly);
    assert!(record.details().is_none());
}

#[test]
fn duration_in_milliseconds_is_divided_by_a_thousand() {
    let record = Record::try_from(joined_row()).unwrap();
    assert_eq!(seconds(&record), 5.0);
}

#[test]
fn duration_in_ticks_is_divided_by_128() {
    let record = Record::try_from(times_row()).unwrap();
    assert_eq!(seconds(&record), 5.0);
    let mut row = times_row();
    row.run_time = 64;
    assert_eq!(seconds(&Record::try_from(row).unwrap()), 0.5);
}

#[test]
fn negative_duration_passes_through() {
    let mut row = joined_row();
    row.run_time = -1500;
    let record = Record::try_from(row).unwrap();
    assert_eq!(record.run_time(), -1500);
    assert_eq!(seconds(&record), -1.5);
}

#[test]
fn style_is_not_validated() {
    let mut row = joined_row();
    row.style = -40;
    assert!(Record::try_from(row).is_ok());
}

#[test]
fn steam_id_is_offset_account_id() {
    let mut row = times_row();
    row.steam_id32 = 0;
    assert_eq!(Record::try_from(row).unwrap().steam_id(), 76561197960265728);
    let mut row = times_row();
    row.steam_id32 = i32::MAX;
    let record = Record::try_from(row).unwrap();
    assert_eq!(record.steam_id(), 76561197960265728 + 2147483647);
    assert_eq!(record.account_id(), 2147483647);
}

#[test]
fn negative_time_id_is_a_range_error() {
    let mut row = joined_row();
    row.time_id = -1;
    assert_eq!(
        Record::try_from(row).unwrap_err(),
        ValidationError::RangeError { field: Field::TimeId, value: -1 }
    );
}

#[test]
fn negative_account_id_is_a_range_error() {
    let mut row = times_row();
    row.steam_id32 = i32::MIN;
    assert_eq!(
        Record::try_from(row).unwrap_err(),
        ValidationError::RangeError { field: Field::SteamId32, value: i32::MIN }
    );
}

#[test]
fn map_id_must_fit_sixteen_bits() {
    let mut row = joined_row();
    row.details.as_mut().unwrap().map_id = 65536;
    assert_eq!(
        Record::try_from(row).unwrap_err(),
        ValidationError::RangeError { field: Field::MapId, value: 65536 }
    );
    let mut row = joined_row();
    row.details.as_mut().unwrap().map_id = -1;
    assert_eq!(
        Record::try_from(row).unwrap_err(),
        ValidationError::RangeError { field: Field::MapId, value: -1 }
    );
    let mut row = joined_row();
    row.details.as_mut().unwrap().map_id = 65535;
    assert_eq!(Record::try_from(row).unwrap().map_id(), 65535);
}

#[test]
fn joined_row_takes_its_map_from_the_joined_column() {
    let mut row = joined_row();
    row.map_course_id = -5;
    assert_eq!(Record::try_from(row).unwrap().map_id(), 992);
}

#[test]
fn times_only_row_takes_its_map_from_the_course_column() {
    let mut row = times_row();
    row.map_course_id = 70000;
    assert_eq!(
        Record::try_from(row).unwrap_err(),
        ValidationError::RangeError { field: Field::MapId, value: 70000 }
    );
}

#[test]
fn course_must_fit_eight_bits() {
    let mut row = joined_row();
    row.details.as_mut().unwrap().course = 256;
    assert_eq!(
        Record::try_from(row).unwrap_err(),
        ValidationError::RangeError { field: Field::Course, value: 256 }
    );
    let mut row = joined_row();
    row.details.as_mut().unwrap().course = 255;
    assert_eq!(Record::try_from(row).unwrap().details().unwrap().stage, 255);
}

#[test]
fn negative_teleports_is_a_range_error() {
    let mut row = joined_row();
    row.teleports = -7;
    assert_eq!(
        Record::try_from(row).unwrap_err(),
        ValidationError::RangeError { field: Field::Teleports, value: -7 }
    );
}

#[test]
fn largest_columns_are_accepted() {
    let mut row = joined_row();
    row.time_id = i32::MAX;
    row.teleports = i32::MAX;
    let record = Record::try_from(row).unwrap();
    assert_eq!(record.id(), 2147483647);
    assert_eq!(record.teleports(), 2147483647);
}

#[test]
fn mode_three_is_unknown() {
    let mut row = joined_row();
    row.mode = 3;
    assert_eq!(Record::try_from(row).unwrap_err(), ValidationError::UnknownModeError(3));
    let mut row = times_row();
    row.mode = 3;
    assert_eq!(Record::try_from(row).unwrap_err(), ValidationError::UnknownModeError(3));
}

#[test]
fn negative_mode_is_unknown() {
    let mut row = joined_row();
    row.mode = -1;
    assert_eq!(Record::try_from(row).unwrap_err(), ValidationError::UnknownModeError(-1));
}

#[test]
fn joined_schema_numbers_modes_from_vanilla() {
    assert_eq!(Schema::Joined.mode(0), Ok(Mode::Vanilla));
    assert_eq!(Schema::Joined.mode(1), Ok(Mode::SimpleKZ));
    assert_eq!(Schema::Joined.mode(2), Ok(Mode::KZTimer));
    assert_eq!(Schema::Joined.mode(3), Err(ValidationError::UnknownModeError(3)));
}

#[test]
fn times_only_schema_numbers_modes_from_kztimer() {
    assert_eq!(Schema::TimesOnly.mode(0), Ok(Mode::KZTimer));
    assert_eq!(Schema::TimesOnly.mode(1), Ok(Mode::SimpleKZ));
    assert_eq!(Schema::TimesOnly.mode(2), Ok(Mode::Vanilla));
    assert_eq!(Schema::TimesOnly.mode(200), Err(ValidationError::UnknownModeError(200)));
}

#[test]
fn schemas_disagree_on_codes_zero_and_two() {
    assert_ne!(Schema::Joined.mode(0), Schema::TimesOnly.mode(0));
    assert_ne!(Schema::Joined.mode(2), Schema::TimesOnly.mode(2));
    for code in 0..3 {
        assert_eq!(Schema::Joined.mode(code), Schema::TimesOnly.mode(2 - code));
    }
    let mut row = joined_row();
    row.mode = 2;
    assert_eq!(Record::try_from(row).unwrap().mode(), Mode::KZTimer);
    let mut row = times_row();
    row.mode = 2;
    assert_eq!(Record::try_from(row).unwrap().mode(), Mode::Vanilla);
}

#[test]
fn schema_constants() {
    assert_eq!(Schema::Joined.units_per_second(), 1000);
    assert_eq!(Schema::TimesOnly.units_per_second(), 128);
    assert_eq!(Schema::Joined.extension(), "csv");
    assert_eq!(Schema::TimesOnly.extension(), "json");
}

#[test]
fn the_first_fault_in_column_order_is_reported() {
    let mut row = joined_row();
    row.mode = 3;
    row.teleports = -1;
    assert_eq!(Record::try_from(row).unwrap_err(), ValidationError::UnknownModeError(3));
    let mut row = joined_row();
    row.time_id = -1;
    row.mode = 3;
    assert_eq!(
        Record::try_from(row).unwrap_err(),
        ValidationError::RangeError { field: Field::TimeId, value: -1 }
    );
    let mut row = joined_row();
    row.steam_id32 = -2;
    row.details.as_mut().unwrap().map_id = -3;
    row.details.as_mut().unwrap().course = -4;
    assert_eq!(
        Record::try_from(row).unwrap_err(),
        ValidationError::RangeError { field: Field::SteamId32, value: -2 }
    );
    let mut row = joined_row();
    row.details.as_mut().unwrap().map_id = -3;
    row.details.as_mut().unwrap().course = -4;
    assert_eq!(
        Record::try_from(row).unwrap_err(),
        ValidationError::RangeError { field: Field::MapId, value: -3 }
    );
    let mut row = joined_row();
    row.teleports = -1;
    row.created = String::from("yesterday");
    assert_eq!(
        Record::try_from(row).unwrap_err(),
        ValidationError::RangeError { field: Field::Teleports, value: -1 }
    );
}

#[test]
fn timestamp_in_the_pattern_parses() {
    let mut row = joined_row();
    row.created = String::from("2023-01-15 10:30:00");
    assert_eq!(Record::try_from(row).unwrap().created_on(), "2023-01-15 10:30:00");
}

#[test]
fn timestamp_with_zone_designator_fails() {
    let mut row = joined_row();
    row.created = String::from("2023-01-15T10:30:00Z");
    assert_eq!(Record::try_from(row).unwrap_err(), ValidationError::TimestampFormatError);
}

#[test]
fn malformed_timestamps_fail() {
    for text in [
        "",
        "2023-01-15",
        "10:30:00",
        "2023-01-15 10:30",
        "2023-01-15 10:30:00.5",
        "2023-01-15 10:30:00 +01:00",
        "2023-13-01 10:30:00",
        "2023-02-30 10:30:00",
        "2023-01-15 24:00:00",
        "2023-01-15 10:60:00",
        "15.01.2023 10:30:00",
    ] {
        let mut row = times_row();
        row.created = String::from(text);
        assert_eq!(
            Record::try_from(row).unwrap_err(),
            ValidationError::TimestampFormatError,
            "{text}"
        );
    }
}

#[test]
fn timestamp_is_written_back_in_canonical_form() {
    let mut row = times_row();
    row.created = String::from("2023-1-5 1:2:3");
    assert_eq!(Record::try_from(row).unwrap().created_on(), "2023-01-05 01:02:03");
}

#[test]
fn assemble_takes_the_parsed_time_as_given() {
    let record = Record::assemble(joined_row(), Some(String::from("noon"))).unwrap();
    assert_eq!(record.created_on(), "noon");
    assert_eq!(record.id(), 17);
    assert_eq!(
        Record::assemble(joined_row(), None).unwrap_err(),
        ValidationError::TimestampFormatError
    );
    let mut row = joined_row();
    row.mode = 9;
    assert_eq!(
        Record::assemble(row, None).unwrap_err(),
        ValidationError::UnknownModeError(9)
    );
}

#[test]
fn transformation_is_deterministic() {
    let a = Record::try_from(joined_row()).unwrap();
    let b = Record::try_from(joined_row()).unwrap();
    assert_eq!(a.created_on(), b.created_on());
    assert_eq!(a.steam_id(), b.steam_id());
}

#[test]
fn clone_keeps_every_field() {
    let record = Record::try_from(joined_row()).unwrap();
    let copy = record.clone();
    assert_eq!(copy.id(), record.id());
    assert_eq!(copy.steam_id(), record.steam_id());
    assert_eq!(copy.map_id(), record.map_id());
    assert_eq!(copy.mode(), record.mode());
    assert_eq!(copy.run_time(), record.run_time());
    assert_eq!(copy.teleports(), record.teleports());
    assert_eq!(copy.created_on(), record.created_on());
    assert_eq!(copy.details().unwrap().player_name, "AlphaKeks");
    assert_eq!(copy.details().unwrap().map_name, "kz_lionharder");
    assert_eq!(copy.details().unwrap().stage, 0);
}
