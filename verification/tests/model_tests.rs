use food_agent::api::AuthContext;
use food_agent::date::Date;
use food_agent::errors::ValidationError;
use food_agent::models::{
    nutrient_for, Amount, FoodStock, FoodType, MajorNutrient, StorageType, Unit,
};
use food_agent::storage::DbConfig;

fn d(y: i32, m: u8, day: u8) -> Date {
    Date { year: y, month: m, day }
}

#[test]
fn nutrient_table_is_exact() {
    let cases = [
        (FoodType::Vegetable, MajorNutrient::Minerals_and_vitamins),
        (FoodType::Dairy, MajorNutrient::Balanced),
        (FoodType::Non_dairy, MajorNutrient::Carbohydrate),
        (FoodType::Fruit, MajorNutrient::Carbohydrate),
        (FoodType::Meat, MajorNutrient::Protein),
        (FoodType::Breakfast_cereal, MajorNutrient::Carbohydrate),
        (FoodType::Grains, MajorNutrient::Carbohydrate),
        (FoodType::Beverage, MajorNutrient::Sugars),
        (FoodType::Edible_oils, MajorNutrient::Fat),
    ];
    for (t, n) in cases {
        assert_eq!(nutrient_for(&t), n, "{:?}", t);
    }
}

#[test]
fn display_names() {
    assert_eq!(FoodType::Breakfast_cereal.display_string(), "Breakfast Cereal");
    assert_eq!(FoodType::Non_dairy.display_string(), "Non-dairy");
    assert_eq!(FoodType::Edible_oils.display_string(), "Edible Oils");
    assert_eq!(StorageType::Cold.display_string(), "Cold Storage");
    assert_eq!(StorageType::RoomTemperature.display_string(), "Room Temperature");
    assert_eq!(MajorNutrient::Minerals_and_vitamins.display_string(), "Minerals and Vitamins");
}

#[test]
fn quantity_text() {
    assert_eq!(Unit::Grams(Amount { mantissa: 500, scale: 0 }).display_string(), "500g");
    assert_eq!(Unit::Litres(Amount { mantissa: 15, scale: 1 }).display_string(), "1.5L");
    assert_eq!(Unit::Grams(Amount { mantissa: 5, scale: 2 }).display_string(), "0.05g");
    assert_eq!(Unit::Litres(Amount { mantissa: 0, scale: 0 }).display_string(), "0L");
}

#[test]
fn amounts_are_kept_in_minimal_form() {
    let a = Amount::new(1500, 3);
    assert_eq!((a.mantissa, a.scale), (15, 1));
    let a = Amount::new(1000, 3);
    assert_eq!((a.mantissa, a.scale), (1, 0));
    let a = Amount::new(0, 5);
    assert_eq!((a.mantissa, a.scale), (0, 0));
    let a = Amount::new(7, 0);
    assert_eq!((a.mantissa, a.scale), (7, 0));
}

#[test]
fn item_summary_line() {
    let food = FoodStock::new(
        "Milk".to_string(),
        d(2024, 3, 15),
        FoodType::Dairy,
        MajorNutrient::Balanced,
        StorageType::Cold,
        d(2024, 3, 25),
        Unit::Litres(Amount { mantissa: 15, scale: 1 }),
    );
    assert_eq!(
        food.summary_string(),
        "Food Stock: Milk (1.5L) - Stored: 2024-03-15, Expires: 2024-03-25, Storage: Cold Storage, Nutrient: Balanced"
    );
}

#[test]
fn validation_error_messages() {
    assert_eq!(
        ValidationError::InvalidDateFormat.message(),
        "Please enter a valid date in DD-MM-YYYY format."
    );
    assert_eq!(ValidationError::InvalidCategory.message(), "Invalid food type");
    assert_eq!(ValidationError::InvalidStorageCondition.message(), "Invalid storage type");
    assert_eq!(ValidationError::InvalidQuantity.message(), "Invalid quantity");
    assert_eq!(ValidationError::EmptyName.message(), "Input was empty");
}

#[test]
fn auth_context_starts_signed_out() {
    let auth = AuthContext::default();
    assert!(auth.token.is_none());
    assert!(auth.user_id.is_none());
    assert!(auth.username.is_none());
    assert!(!auth.is_authenticated);
}

#[test]
fn db_config_keeps_its_settings() {
    let config = DbConfig::new("mysql://localhost:3306", "food_registry");
    assert_eq!(config.url, "mysql://localhost:3306");
    assert_eq!(config.database, "food_registry");
}
