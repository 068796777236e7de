use food_agent::date::Date;
use food_agent::errors::ValidationError;
use food_agent::handlers::{parse_date_with, InputHandler};
use food_agent::models::{Amount, FoodType, StorageType, Unit};

fn d(y: i32, m: u8, day: u8) -> Date {
    Date { year: y, month: m, day }
}

fn amount_value(a: &Amount) -> f64 {
    a.mantissa as f64 / 10f64.powi(a.scale as i32)
}

#[test]
fn quantity_grams_whole_number() {
    let h = InputHandler::new();
    match h.get_quantity("500g") {
        Ok(Unit::Grams(a)) => {
            assert_eq!(a.mantissa, 500);
            assert_eq!(a.scale, 0);
            assert_eq!(amount_value(&a), 500.0);
        }
        other => panic!("unexpected: {:?}", other),
    }
}

#[test]
fn quantity_litres_decimal_lower_and_upper_case() {
    let h = InputHandler::new();
    for input in ["1.5l", "1.5L"] {
        match h.get_quantity(input) {
            Ok(Unit::Litres(a)) => {
                assert_eq!(a.mantissa, 15);
                assert_eq!(a.scale, 1);
                assert_eq!(amount_value(&a), 1.5);
            }
            other => panic!("unexpected for {}: {:?}", input, other),
        }
    }
}

#[test]
fn quantity_rejects_non_numeric_prefix() {
    let h = InputHandler::new();
    assert_eq!(h.get_quantity("abcg"), Err(ValidationError::InvalidQuantity));
}

#[test]
fn quantity_rejects_missing_unit_suffix() {
    let h = InputHandler::new();
    assert_eq!(h.get_quantity("500"), Err(ValidationError::InvalidQuantity));
}

#[test]
fn quantity_edge_cases() {
    let h = InputHandler::new();
    assert_eq!(h.get_quantity(""), Err(ValidationError::InvalidQuantity));
    assert_eq!(h.get_quantity("g"), Err(ValidationError::InvalidQuantity));
    assert_eq!(h.get_quantity(".g"), Err(ValidationError::InvalidQuantity));
    assert_eq!(h.get_quantity("-5g"), Err(ValidationError::InvalidQuantity));
    assert_eq!(h.get_quantity("1..5g"), Err(ValidationError::InvalidQuantity));
    assert_eq!(h.get_quantity("1 5g"), Err(ValidationError::InvalidQuantity));
    // a fractional number without an integer part, as float parsing accepts
    match h.get_quantity(".5g") {
        Ok(Unit::Grams(a)) => assert_eq!(amount_value(&a), 0.5),
        other => panic!("unexpected: {:?}", other),
    }
    // a trailing point
    match h.get_quantity("5.g") {
        Ok(Unit::Grams(a)) => {
            assert_eq!(a.mantissa, 5);
            assert_eq!(a.scale, 0);
        }
        other => panic!("unexpected: {:?}", other),
    }
    // surrounding whitespace around the number is trimmed
    match h.get_quantity("  500 g") {
        Ok(Unit::Grams(a)) => assert_eq!(a.mantissa, 500),
        other => panic!("unexpected: {:?}", other),
    }
    // trailing fraction zeros collapse to the minimal scale
    match h.get_quantity("1.50l") {
        Ok(Unit::Litres(a)) => {
            assert_eq!(a.mantissa, 15);
            assert_eq!(a.scale, 1);
        }
        other => panic!("unexpected: {:?}", other),
    }
    match h.get_quantity("0.05g") {
        Ok(Unit::Grams(a)) => {
            assert_eq!(a.mantissa, 5);
            assert_eq!(a.scale, 2);
        }
        other => panic!("unexpected: {:?}", other),
    }
    // leading zeros collapse into the integer value
    match h.get_quantity("007g") {
        Ok(Unit::Grams(a)) => {
            assert_eq!(a.mantissa, 7);
            assert_eq!(a.scale, 0);
        }
        other => panic!("unexpected: {:?}", other),
    }
    match h.get_quantity("0g") {
        Ok(Unit::Grams(a)) => {
            assert_eq!(a.mantissa, 0);
            assert_eq!(a.scale, 0);
        }
        other => panic!("unexpected: {:?}", other),
    }
    // a mantissa beyond the fixed-point range is rejected
    assert_eq!(
        h.get_quantity("99999999999999999999999g"),
        Err(ValidationError::InvalidQuantity)
    );
}

#[test]
fn date_fixed_format() {
    let h = InputHandler::new();
    assert_eq!(h.get_date("15-03-2024"), Ok(d(2024, 3, 15)));
    assert_eq!(h.get_date("29-02-2024"), Ok(d(2024, 2, 29)));
    assert_eq!(h.get_date("29-02-2000"), Ok(d(2000, 2, 29)));
    assert_eq!(h.get_date("31-12-9999"), Ok(d(9999, 12, 31)));
    assert_eq!(h.get_date("29-02-1900"), Err(ValidationError::InvalidDateFormat));
}

#[test]
fn date_wrong_format_fails() {
    let h = InputHandler::new();
    assert_eq!(h.get_date("2024-03-15"), Err(ValidationError::InvalidDateFormat));
    assert_eq!(h.get_date("15/03/2024"), Err(ValidationError::InvalidDateFormat));
    assert_eq!(h.get_date("5-3-2024"), Err(ValidationError::InvalidDateFormat));
    assert_eq!(h.get_date("29-02-2023"), Err(ValidationError::InvalidDateFormat));
    assert_eq!(h.get_date("31-04-2024"), Err(ValidationError::InvalidDateFormat));
    assert_eq!(h.get_date("00-01-2024"), Err(ValidationError::InvalidDateFormat));
    assert_eq!(h.get_date("32-01-2024"), Err(ValidationError::InvalidDateFormat));
    assert_eq!(h.get_date(" 15-03-2024"), Err(ValidationError::InvalidDateFormat));
    assert_eq!(h.get_date("Today"), Err(ValidationError::InvalidDateFormat));
}

#[test]
fn date_today_token_is_current_local_date() {
    let h = InputHandler::new();
    let before = chrono::Local::now().date_naive();
    let got = h.get_date("today").unwrap();
    let after = chrono::Local::now().date_naive();
    let got_str = got.iso_string();
    let before_str = before.format("%Y-%m-%d").to_string();
    let after_str = after.format("%Y-%m-%d").to_string();
    assert!(got_str == before_str || got_str == after_str);
}

#[test]
fn date_yesterday_token_is_one_day_back() {
    let h = InputHandler::new();
    let before = chrono::Local::now().date_naive() - chrono::Duration::days(1);
    let got = h.get_date("yesterday").unwrap();
    let after = chrono::Local::now().date_naive() - chrono::Duration::days(1);
    let got_str = got.iso_string();
    assert!(
        got_str == before.format("%Y-%m-%d").to_string()
            || got_str == after.format("%Y-%m-%d").to_string()
    );
}

#[test]
fn date_tokens_against_fixed_today() {
    let today = d(2024, 3, 1);
    assert_eq!(parse_date_with("today", today), Ok(d(2024, 3, 1)));
    assert_eq!(parse_date_with("yesterday", today), Ok(d(2024, 2, 29)));
    assert_eq!(parse_date_with("15-03-2024", today), Ok(d(2024, 3, 15)));
    assert_eq!(
        parse_date_with("tomorrow", today),
        Err(ValidationError::InvalidDateFormat)
    );
}

#[test]
fn food_type_keywords() {
    let h = InputHandler::new();
    assert_eq!(h.get_food_type("vegetable"), Ok(FoodType::Vegetable));
    assert_eq!(h.get_food_type("fruit"), Ok(FoodType::Fruit));
    assert_eq!(h.get_food_type("grains"), Ok(FoodType::Grains));
    assert_eq!(h.get_food_type("breakfast-cereal"), Ok(FoodType::Breakfast_cereal));
    assert_eq!(h.get_food_type("beverage"), Ok(FoodType::Beverage));
    assert_eq!(h.get_food_type("meat"), Ok(FoodType::Meat));
    assert_eq!(h.get_food_type("dairy"), Ok(FoodType::Dairy));
    assert_eq!(h.get_food_type("non-dairy"), Ok(FoodType::Non_dairy));
    assert_eq!(h.get_food_type("edible-oils"), Ok(FoodType::Edible_oils));
    // the table is case-sensitive
    assert_eq!(h.get_food_type("Dairy"), Err(ValidationError::InvalidCategory));
    assert_eq!(h.get_food_type("cheese"), Err(ValidationError::InvalidCategory));
    assert_eq!(h.get_food_type(""), Err(ValidationError::InvalidCategory));
}

#[test]
fn storage_type_keywords() {
    let h = InputHandler::new();
    assert_eq!(h.get_storage_type("cold"), Ok(StorageType::Cold));
    assert_eq!(h.get_storage_type("warm"), Ok(StorageType::RoomTemperature));
    assert_eq!(h.get_storage_type("Cold"), Err(ValidationError::InvalidStorageCondition));
    assert_eq!(h.get_storage_type("freezer"), Err(ValidationError::InvalidStorageCondition));
}

#[test]
fn name_must_not_be_blank() {
    let h = InputHandler::new();
    assert_eq!(h.get_food_name(""), Err(ValidationError::EmptyName));
    assert_eq!(h.get_food_name("   "), Err(ValidationError::EmptyName));
    assert_eq!(h.get_food_name("\t\n"), Err(ValidationError::EmptyName));
    assert_eq!(h.get_food_name("Milk"), Ok("Milk".to_string()));
    // the name itself is kept as given, untrimmed
    assert_eq!(h.get_food_name("  Milk  "), Ok("  Milk  ".to_string()));
}
