use food_agent::date::Date;
use food_agent::errors::ValidationError;
use food_agent::handlers::{build_food, CommandHandler};
use food_agent::storage::FoodDb;

fn d(y: i32, m: u8, day: u8) -> Date {
    Date { year: y, month: m, day }
}

#[test]
fn add_milk_today_infers_expiry_and_nutrient() {
    let handler = CommandHandler::new();
    let mut db = FoodDb::new();
    let before = chrono::Local::now().date_naive();
    let r = handler.handle_add(
        "Milk".to_string(),
        &mut db,
        "today".to_string(),
        "dairy".to_string(),
        "cold".to_string(),
        "1l".to_string(),
        Some("none".to_string()),
    );
    let after = chrono::Local::now().date_naive();
    assert_eq!(r, Ok(true));
    let rows = handler.handle_view_all(&db).unwrap();
    assert_eq!(rows.len(), 1);
    let row = &rows[0];
    assert_eq!(row.name, "Milk");
    assert_eq!(row.food_type, "Dairy");
    assert_eq!(row.nutrient, "Balanced");
    assert_eq!(row.storage_type, "Cold");
    assert_eq!(row.quantity, "1L");
    // dairy in cold storage keeps ten days
    let expect_before = (before + chrono::Duration::days(10)).format("%Y-%m-%d").to_string();
    let expect_after = (after + chrono::Duration::days(10)).format("%Y-%m-%d").to_string();
    assert!(row.expiry_date == expect_before || row.expiry_date == expect_after);
    let stock_before = before.format("%Y-%m-%d").to_string();
    let stock_after = after.format("%Y-%m-%d").to_string();
    assert!(row.stock_date == stock_before || row.stock_date == stock_after);
}

#[test]
fn build_food_against_fixed_today() {
    let today = d(2024, 3, 15);
    let food = build_food("Milk", "today", "dairy", "cold", "1l", &Some("none".to_string()), today)
        .unwrap();
    assert_eq!(food.name, "Milk");
    assert_eq!(food.stock_date, d(2024, 3, 15));
    assert_eq!(food.expiry_date, d(2024, 3, 25));
    // the omitted field also delegates to the policy engine
    let food = build_food("Milk", "today", "dairy", "cold", "1l", &None, today).unwrap();
    assert_eq!(food.expiry_date, d(2024, 3, 25));
    // the sentinel is case-insensitive
    let food = build_food("Milk", "today", "dairy", "cold", "1l", &Some("NONE".to_string()), today)
        .unwrap();
    assert_eq!(food.expiry_date, d(2024, 3, 25));
    // an explicit expiry is used verbatim when it does not precede the stock date
    let food = build_food(
        "Milk",
        "15-03-2024",
        "dairy",
        "cold",
        "1l",
        &Some("20-03-2024".to_string()),
        today,
    )
    .unwrap();
    assert_eq!(food.expiry_date, d(2024, 3, 20));
}

#[test]
fn build_food_reports_the_offending_field() {
    let today = d(2024, 3, 15);
    let none = None;
    assert_eq!(
        build_food("  ", "today", "dairy", "cold", "1l", &none, today).unwrap_err(),
        ValidationError::EmptyName
    );
    assert_eq!(
        build_food("Milk", "someday", "dairy", "cold", "1l", &none, today).unwrap_err(),
        ValidationError::InvalidDateFormat
    );
    assert_eq!(
        build_food("Milk", "today", "cheese", "cold", "1l", &none, today).unwrap_err(),
        ValidationError::InvalidCategory
    );
    assert_eq!(
        build_food("Milk", "today", "dairy", "frozen", "1l", &none, today).unwrap_err(),
        ValidationError::InvalidStorageCondition
    );
    assert_eq!(
        build_food("Milk", "today", "dairy", "cold", "1liter", &none, today).unwrap_err(),
        ValidationError::InvalidQuantity
    );
    // an explicit expiry that cannot be read
    assert_eq!(
        build_food("Milk", "today", "dairy", "cold", "1l", &Some("soon".to_string()), today)
            .unwrap_err(),
        ValidationError::InvalidDateFormat
    );
    // an explicit expiry before the stock date is rejected
    assert_eq!(
        build_food(
            "Milk",
            "15-03-2024",
            "dairy",
            "cold",
            "1l",
            &Some("14-03-2024".to_string()),
            today
        )
        .unwrap_err(),
        ValidationError::InvalidDateFormat
    );
}

#[test]
fn add_with_explicit_expiry_stores_it_verbatim() {
    let handler = CommandHandler::new();
    let mut db = FoodDb::new();
    let r = handler.handle_add(
        "Rice".to_string(),
        &mut db,
        "10-03-2024".to_string(),
        "grains".to_string(),
        "warm".to_string(),
        "500g".to_string(),
        Some("01-04-2024".to_string()),
    );
    assert_eq!(r, Ok(true));
    let rows = handler.handle_view_all(&db).unwrap();
    assert_eq!(rows.len(), 1);
    assert_eq!(rows[0].stock_date, "2024-03-10");
    assert_eq!(rows[0].expiry_date, "2024-04-01");
    assert_eq!(rows[0].quantity, "500g");
    assert_eq!(rows[0].nutrient, "Carbohydrate");
}

#[test]
fn failed_add_leaves_the_store_unchanged() {
    let handler = CommandHandler::new();
    let mut db = FoodDb::new();
    let r = handler.handle_add(
        "Milk".to_string(),
        &mut db,
        "today".to_string(),
        "cheese".to_string(),
        "cold".to_string(),
        "1l".to_string(),
        None,
    );
    assert_eq!(r, Err(ValidationError::InvalidCategory));
    assert_eq!(handler.handle_view_all(&db).unwrap().len(), 0);
}
