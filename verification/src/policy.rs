//! The expiry policy engine.
//!
//! A pure table from (food category, storage condition) to a shelf life
//! in days; the inferred expiry date is the stock date advanced by that
//! many days.  Every pair resolves: categories outside the table fall
//! back to five days in cold storage and two days at room temperature.

use crate::date::{Date, MAX_YEAR};
use crate::models::{FoodType, StorageType};
use vstd::prelude::*;

verus! {

/// The shelf-life table, in days.
pub open spec fn shelf_life_days(t: FoodType, s: StorageType) -> int {
    match (t, s) {
        (FoodType::Meat, StorageType::Cold) => 7,
        (FoodType::Meat, StorageType::RoomTemperature) => 2,
        (FoodType::Vegetable, StorageType::Cold) => 5,
        (FoodType::Vegetable, StorageType::RoomTemperature) => 2,
        (FoodType::Grains, _) => 90,
        (FoodType::Dairy, StorageType::Cold) => 10,
        (FoodType::Dairy, StorageType::RoomTemperature) => 1,
        (FoodType::Non_dairy, StorageType::Cold) => 10,
        (FoodType::Non_dairy, StorageType::RoomTemperature) => 2,
        (FoodType::Fruit, StorageType::Cold) => 7,
        (FoodType::Fruit, StorageType::RoomTemperature) => 3,
        (_, StorageType::Cold) => 5,
        (_, StorageType::RoomTemperature) => 2,
    }
}

/// Executable shelf-life lookup.
pub fn shelf_life(t: &FoodType, s: &StorageType) -> (r: u32)
    ensures
        r as int == shelf_life_days(*t, *s),
{
    match (t, s) {
        (FoodType::Meat, StorageType::Cold) => 7,
        (FoodType::Meat, StorageType::RoomTemperature) => 2,
        (FoodType::Vegetable, StorageType::Cold) => 5,
        (FoodType::Vegetable, StorageType::RoomTemperature) => 2,
        (FoodType::Grains, _) => 90,
        (FoodType::Dairy, StorageType::Cold) => 10,
        (FoodType::Dairy, StorageType::RoomTemperature) => 1,
        (FoodType::Non_dairy, StorageType::Cold) => 10,
        (FoodType::Non_dairy, StorageType::RoomTemperature) => 2,
        (FoodType::Fruit, StorageType::Cold) => 7,
        (FoodType::Fruit, StorageType::RoomTemperature) => 3,
        (_, StorageType::Cold) => 5,
        (_, StorageType::RoomTemperature) => 2,
    }
}

/// Infers the expiry date: the stock date advanced by the shelf life the
/// table gives for this category and storage condition.  Never fails.
pub fn infer_expiry(t: &FoodType, s: &StorageType, stock_date: Date) -> (r: Date)
    requires
        stock_date.wf(),
        stock_date.year + 400 <= MAX_YEAR,
    ensures
        r == stock_date.plus_days(shelf_life_days(*t, *s) as nat),
        r.wf(),
        stock_date.le(r),
{
    let days = shelf_life(t, s);
    let r = stock_date.add_days(days);
    proof {
        crate::date::lemma_plus_days_le(stock_date, days as nat);
    }
    r
}

} // verus!
