use food_agent::date::Date;
use food_agent::errors::{StoreError, ValidationError};
use food_agent::models::{Amount, FoodStock, FoodType, MajorNutrient, StorageType, Unit};
use food_agent::storage::{parse_query_date_with, parse_query_to_date, FoodDb};

fn d(y: i32, m: u8, day: u8) -> Date {
    Date { year: y, month: m, day }
}

fn milk() -> FoodStock {
    FoodStock::new(
        "Milk".to_string(),
        d(2024, 3, 15),
        FoodType::Dairy,
        MajorNutrient::Balanced,
        StorageType::Cold,
        d(2024, 3, 25),
        Unit::Litres(Amount { mantissa: 15, scale: 1 }),
    )
}

fn bread() -> FoodStock {
    FoodStock::new(
        "Bread".to_string(),
        d(2024, 3, 10),
        FoodType::Grains,
        MajorNutrient::Carbohydrate,
        StorageType::RoomTemperature,
        d(2024, 6, 8),
        Unit::Grams(Amount { mantissa: 500, scale: 0 }),
    )
}

fn oat_milk() -> FoodStock {
    FoodStock::new(
        "Oat milk".to_string(),
        d(2024, 3, 1),
        FoodType::Non_dairy,
        MajorNutrient::Carbohydrate,
        StorageType::Cold,
        d(2024, 3, 11),
        Unit::Litres(Amount { mantissa: 1, scale: 0 }),
    )
}

#[test]
fn add_then_list_round_trips_every_field() {
    let mut db = FoodDb::new();
    db.add_food(milk()).unwrap();
    let rows = db.get_all_food().unwrap();
    assert_eq!(rows.len(), 1);
    let row = &rows[0];
    assert_eq!(row.name, "Milk");
    assert_eq!(row.stock_date, "2024-03-15");
    assert_eq!(row.food_type, "Dairy");
    assert_eq!(row.nutrient, "Balanced");
    assert_eq!(row.storage_type, "Cold");
    assert_eq!(row.expiry_date, "2024-03-25");
    assert_eq!(row.quantity, "1.5L");
}

#[test]
fn list_keeps_insertion_count_and_contents() {
    let mut db = FoodDb::new();
    db.add_food(milk()).unwrap();
    db.add_food(bread()).unwrap();
    db.add_food(oat_milk()).unwrap();
    let rows = db.get_all_food().unwrap();
    assert_eq!(rows.len(), 3);
    let names: Vec<&str> = rows.iter().map(|r| r.name.as_str()).collect();
    assert!(names.contains(&"Milk"));
    assert!(names.contains(&"Bread"));
    assert!(names.contains(&"Oat milk"));
}

#[test]
fn search_disallowed_fields_fail_before_touching_rows() {
    let mut db = FoodDb::new();
    db.add_food(milk()).unwrap();
    for field in [
        "expiry_date",
        "stock_date",
        "id",
        "quantity_value",
        "",
        "name; DROP TABLE food_stock",
        "name OR 1=1",
        "NAME",
        "food_type,nutrient",
    ] {
        for keyword in ["", "Milk", "%", "'; --"] {
            assert_eq!(
                db.advanced_search(keyword, field),
                Err(StoreError::DisallowedSearchField),
                "field {:?} keyword {:?}",
                field,
                keyword
            );
        }
    }
}

#[test]
fn search_matches_substrings_in_the_named_column() {
    let mut db = FoodDb::new();
    db.add_food(milk()).unwrap();
    db.add_food(bread()).unwrap();
    db.add_food(oat_milk()).unwrap();

    // substring of the name column; ASCII letters match without regard
    // to case, as the backing store's default collation does
    let hits = db.advanced_search("milk", "name").unwrap();
    assert_eq!(hits.len(), 2);

    let hits = db.advanced_search("Oat", "name").unwrap();
    assert_eq!(hits.len(), 1);
    assert_eq!(hits[0].name, "Oat milk");

    // the lowercase category keyword finds the stored variant names
    let hits = db.advanced_search("dairy", "food_type").unwrap();
    assert_eq!(hits.len(), 2);

    // substring of the stored category name: "airy" hits Dairy and Non_dairy
    let hits = db.advanced_search("airy", "food_type").unwrap();
    assert_eq!(hits.len(), 2);

    let hits = db.advanced_search("grains", "food_type").unwrap();
    assert_eq!(hits.len(), 1);
    assert_eq!(hits[0].name, "Bread");

    let hits = db.advanced_search("Carbohydrate", "nutrient").unwrap();
    assert_eq!(hits.len(), 2);

    let hits = db.advanced_search("Cold", "storage_type").unwrap();
    assert_eq!(hits.len(), 2);

    // no match
    let hits = db.advanced_search("Cheese", "name").unwrap();
    assert_eq!(hits.len(), 0);
}

#[test]
fn search_trims_the_keyword_and_empty_matches_all() {
    let mut db = FoodDb::new();
    db.add_food(milk()).unwrap();
    db.add_food(bread()).unwrap();

    let hits = db.advanced_search("  Bread  ", "name").unwrap();
    assert_eq!(hits.len(), 1);

    let hits = db.advanced_search("", "name").unwrap();
    assert_eq!(hits.len(), 2);

    let hits = db.advanced_search("   ", "name").unwrap();
    assert_eq!(hits.len(), 2);
}

#[test]
fn query_date_tokens_and_format() {
    let today = d(2024, 3, 1);
    assert_eq!(parse_query_date_with("today", today), Ok(d(2024, 3, 1)));
    assert_eq!(parse_query_date_with("tomorrow", today), Ok(d(2024, 3, 2)));
    assert_eq!(parse_query_date_with("yesterday", today), Ok(d(2024, 2, 29)));
    // trimmed and ASCII-case-insensitive
    assert_eq!(parse_query_date_with("  TOMORROW ", today), Ok(d(2024, 3, 2)));
    assert_eq!(parse_query_date_with(" 15-03-2024 ", today), Ok(d(2024, 3, 15)));
    assert_eq!(
        parse_query_date_with("someday", today),
        Err(ValidationError::InvalidDateFormat)
    );
    assert_eq!(
        parse_query_date_with("2024-03-15", today),
        Err(ValidationError::InvalidDateFormat)
    );
}

#[test]
fn query_date_against_the_clock() {
    let before = chrono::Local::now().date_naive() + chrono::Duration::days(1);
    let got = parse_query_to_date("Tomorrow").unwrap();
    let after = chrono::Local::now().date_naive() + chrono::Duration::days(1);
    let got_str = got.iso_string();
    assert!(
        got_str == before.format("%Y-%m-%d").to_string()
            || got_str == after.format("%Y-%m-%d").to_string()
    );
    assert_eq!(parse_query_to_date("15-03-2024"), Ok(d(2024, 3, 15)));
}
