use food_agent::date::Date;
use food_agent::models::{FoodStock, FoodType, MajorNutrient, StorageType, Unit, Amount};
use food_agent::policy::{infer_expiry, shelf_life};

fn d(y: i32, m: u8, day: u8) -> Date {
    Date { year: y, month: m, day }
}

#[test]
fn shelf_life_table_is_exact() {
    let cases: Vec<(FoodType, StorageType, u32)> = vec![
        (FoodType::Meat, StorageType::Cold, 7),
        (FoodType::Meat, StorageType::RoomTemperature, 2),
        (FoodType::Vegetable, StorageType::Cold, 5),
        (FoodType::Vegetable, StorageType::RoomTemperature, 2),
        (FoodType::Grains, StorageType::Cold, 90),
        (FoodType::Grains, StorageType::RoomTemperature, 90),
        (FoodType::Dairy, StorageType::Cold, 10),
        (FoodType::Dairy, StorageType::RoomTemperature, 1),
        (FoodType::Non_dairy, StorageType::Cold, 10),
        (FoodType::Non_dairy, StorageType::RoomTemperature, 2),
        (FoodType::Fruit, StorageType::Cold, 7),
        (FoodType::Fruit, StorageType::RoomTemperature, 3),
        // categories outside the table fall back to the default row
        (FoodType::Breakfast_cereal, StorageType::Cold, 5),
        (FoodType::Breakfast_cereal, StorageType::RoomTemperature, 2),
        (FoodType::Beverage, StorageType::Cold, 5),
        (FoodType::Beverage, StorageType::RoomTemperature, 2),
        (FoodType::Edible_oils, StorageType::Cold, 5),
        (FoodType::Edible_oils, StorageType::RoomTemperature, 2),
    ];
    for (t, s, days) in cases {
        assert_eq!(shelf_life(&t, &s), days, "{:?}/{:?}", t, s);
    }
}

#[test]
fn infer_expiry_matches_calendar_arithmetic() {
    // every table pair, checked against chrono as an independent oracle
    let stock = d(2024, 1, 1);
    let chrono_stock = chrono::NaiveDate::from_ymd_opt(2024, 1, 1).unwrap();
    let all_types = [
        FoodType::Vegetable,
        FoodType::Fruit,
        FoodType::Beverage,
        FoodType::Grains,
        FoodType::Breakfast_cereal,
        FoodType::Meat,
        FoodType::Dairy,
        FoodType::Non_dairy,
        FoodType::Edible_oils,
    ];
    for t in all_types {
        for s in [StorageType::Cold, StorageType::RoomTemperature] {
            let days = shelf_life(&t, &s);
            let got = infer_expiry(&t, &s, stock);
            let want = chrono_stock + chrono::Duration::days(days as i64);
            let got_str = got.iso_string();
            assert_eq!(got_str, want.format("%Y-%m-%d").to_string(), "{:?}/{:?}", t, s);
        }
    }
}

#[test]
fn infer_expiry_crosses_month_and_leap_boundaries() {
    // dairy in cold storage: ten days across a leap February
    let got = infer_expiry(&FoodType::Dairy, &StorageType::Cold, d(2024, 2, 24));
    assert_eq!(got.iso_string(), "2024-03-05");
    // the same span in a non-leap year
    let got = infer_expiry(&FoodType::Dairy, &StorageType::Cold, d(2023, 2, 24));
    assert_eq!(got.iso_string(), "2023-03-06");
    // grains: ninety days across a year boundary
    let got = infer_expiry(&FoodType::Grains, &StorageType::RoomTemperature, d(2023, 11, 15));
    assert_eq!(got.iso_string(), "2024-02-13");
}

#[test]
fn estimate_expiry_uses_the_items_own_fields() {
    let food = FoodStock::new(
        "Milk".to_string(),
        d(2024, 3, 15),
        FoodType::Dairy,
        MajorNutrient::Balanced,
        StorageType::Cold,
        d(2024, 3, 25),
        Unit::Litres(Amount { mantissa: 1, scale: 0 }),
    );
    assert_eq!(food.estimate_expiry().iso_string(), "2024-03-25");
}

#[test]
fn date_arithmetic_edges() {
    assert_eq!(d(2024, 2, 28).add_days(1).iso_string(), "2024-02-29");
    assert_eq!(d(2023, 2, 28).add_days(1).iso_string(), "2023-03-01");
    assert_eq!(d(2024, 12, 31).add_days(1).iso_string(), "2025-01-01");
    assert_eq!(d(2024, 3, 1).prev_day().iso_string(), "2024-02-29");
    assert_eq!(d(2024, 1, 1).prev_day().iso_string(), "2023-12-31");
    assert_eq!(d(2100, 2, 28).add_days(1).iso_string(), "2100-03-01"); // 2100 is no leap year
    assert_eq!(d(2000, 2, 28).add_days(1).iso_string(), "2000-02-29"); // 2000 is one
    assert_eq!(d(5, 1, 2).iso_string(), "0005-01-02");
}
