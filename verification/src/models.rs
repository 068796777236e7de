//! The food-stock domain model.
//!
//! Closed enumerations for the food category, storage condition and major
//! nutrient, a fixed-point quantity (a mass in grams or a volume in
//! litres), and the `FoodStock` aggregate with its invariants: a name
//! that is non-empty after trimming, an expiry date on or after the stock
//! date, and a nutrient profile always derived from the category.

use crate::date::Date;
use crate::text::{
    append_str, chars_to_string, is_blank, pow10, pow10_exec, push_fixed_digits, push_u64_digits,
    spec_digits, spec_fixed_digits,
};
use vstd::prelude::*;

verus! {

/// The category of a food item, chosen once at creation.
#[allow(non_camel_case_types)]
#[derive(Clone, Copy, Debug, PartialEq, Eq, Structural)]
pub enum FoodType {
    Vegetable,
    Fruit,
    Beverage,
    Grains,
    Breakfast_cereal,
    Meat,
    Dairy,
    Non_dairy,
    Edible_oils,
}

/// The storage condition of a food item.
#[derive(Clone, Copy, Debug, PartialEq, Eq, Structural)]
pub enum StorageType {
    Cold,
    RoomTemperature,
}

/// The dominant nutrient of a food item; always derived from the
/// category, never chosen by a caller.
#[allow(non_camel_case_types)]
#[derive(Clone, Copy, Debug, PartialEq, Eq, Structural)]
pub enum MajorNutrient {
    Protein,
    Fat,
    Carbohydrate,
    Sugars,
    Water,
    Minerals_and_vitamins,
    Balanced,
}

/// The nutrient profile each category carries.
pub open spec fn nutrient_of(t: FoodType) -> MajorNutrient {
    match t {
        FoodType::Vegetable => MajorNutrient::Minerals_and_vitamins,
        FoodType::Dairy => MajorNutrient::Balanced,
        FoodType::Non_dairy => MajorNutrient::Carbohydrate,
        FoodType::Fruit => MajorNutrient::Carbohydrate,
        FoodType::Meat => MajorNutrient::Protein,
        FoodType::Breakfast_cereal => MajorNutrient::Carbohydrate,
        FoodType::Grains => MajorNutrient::Carbohydrate,
        FoodType::Beverage => MajorNutrient::Sugars,
        FoodType::Edible_oils => MajorNutrient::Fat,
    }
}

/// Executable nutrient lookup.
pub fn nutrient_for(t: &FoodType) -> (r: MajorNutrient)
    ensures
        r == nutrient_of(*t),
{
    match t {
        FoodType::Vegetable => MajorNutrient::Minerals_and_vitamins,
        FoodType::Dairy => MajorNutrient::Balanced,
        FoodType::Non_dairy => MajorNutrient::Carbohydrate,
        FoodType::Fruit => MajorNutrient::Carbohydrate,
        FoodType::Meat => MajorNutrient::Protein,
        FoodType::Breakfast_cereal => MajorNutrient::Carbohydrate,
        FoodType::Grains => MajorNutrient::Carbohydrate,
        FoodType::Beverage => MajorNutrient::Sugars,
        FoodType::Edible_oils => MajorNutrient::Fat,
    }
}

impl FoodType {
    /// The human-readable category name.
    pub open spec fn spec_display(self) -> Seq<char> {
        match self {
            FoodType::Vegetable => "Vegetable"@,
            FoodType::Fruit => "Fruit"@,
            FoodType::Beverage => "Beverage"@,
            FoodType::Grains => "Grains"@,
            FoodType::Breakfast_cereal => "Breakfast Cereal"@,
            FoodType::Meat => "Meat"@,
            FoodType::Dairy => "Dairy"@,
            FoodType::Non_dairy => "Non-dairy"@,
            FoodType::Edible_oils => "Edible Oils"@,
        }
    }

    /// The category name as written into stored rows (the variant name).
    pub open spec fn spec_stored(self) -> Seq<char> {
        match self {
            FoodType::Vegetable => "Vegetable"@,
            FoodType::Fruit => "Fruit"@,
            FoodType::Beverage => "Beverage"@,
            FoodType::Grains => "Grains"@,
            FoodType::Breakfast_cereal => "Breakfast_cereal"@,
            FoodType::Meat => "Meat"@,
            FoodType::Dairy => "Dairy"@,
            FoodType::Non_dairy => "Non_dairy"@,
            FoodType::Edible_oils => "Edible_oils"@,
        }
    }

    /// Appends the human-readable name.
    pub fn push_display(&self, out: &mut Vec<char>)
        ensures
            final(out)@ == old(out)@ + self.spec_display(),
    {
        match self {
            FoodType::Vegetable => append_str(out, "Vegetable"),
            FoodType::Fruit => append_str(out, "Fruit"),
            FoodType::Beverage => append_str(out, "Beverage"),
            FoodType::Grains => append_str(out, "Grains"),
            FoodType::Breakfast_cereal => append_str(out, "Breakfast Cereal"),
            FoodType::Meat => append_str(out, "Meat"),
            FoodType::Dairy => append_str(out, "Dairy"),
            FoodType::Non_dairy => append_str(out, "Non-dairy"),
            FoodType::Edible_oils => append_str(out, "Edible Oils"),
        }
    }

    /// Appends the stored-row name.
    pub fn push_stored(&self, out: &mut Vec<char>)
        ensures
            final(out)@ == old(out)@ + self.spec_stored(),
    {
        match self {
            FoodType::Vegetable => append_str(out, "Vegetable"),
            FoodType::Fruit => append_str(out, "Fruit"),
            FoodType::Beverage => append_str(out, "Beverage"),
            FoodType::Grains => append_str(out, "Grains"),
            FoodType::Breakfast_cereal => append_str(out, "Breakfast_cereal"),
            FoodType::Meat => append_str(out, "Meat"),
            FoodType::Dairy => append_str(out, "Dairy"),
            FoodType::Non_dairy => append_str(out, "Non_dairy"),
            FoodType::Edible_oils => append_str(out, "Edible_oils"),
        }
    }

    /// The human-readable name as a `String`.
    pub fn display_string(&self) -> (r: String)
        ensures
            r@ == self.spec_display(),
    {
        let mut out: Vec<char> = Vec::new();
        self.push_display(&mut out);
        chars_to_string(&out)
    }
}

impl StorageType {
    /// The human-readable storage name.
    pub open spec fn spec_display(self) -> Seq<char> {
        match self {
            StorageType::Cold => "Cold Storage"@,
            StorageType::RoomTemperature => "Room Temperature"@,
        }
    }

    /// The storage name as written into stored rows (the variant name).
    pub open spec fn spec_stored(self) -> Seq<char> {
        match self {
            StorageType::Cold => "Cold"@,
            StorageType::RoomTemperature => "RoomTemperature"@,
        }
    }

    /// Appends the human-readable name.
    pub fn push_display(&self, out: &mut Vec<char>)
        ensures
            final(out)@ == old(out)@ + self.spec_display(),
    {
        match self {
            StorageType::Cold => append_str(out, "Cold Storage"),
            StorageType::RoomTemperature => append_str(out, "Room Temperature"),
        }
    }

    /// Appends the stored-row name.
    pub fn push_stored(&self, out: &mut Vec<char>)
        ensures
            final(out)@ == old(out)@ + self.spec_stored(),
    {
        match self {
            StorageType::Cold => append_str(out, "Cold"),
            StorageType::RoomTemperature => append_str(out, "RoomTemperature"),
        }
    }

    /// The human-readable name as a `String`.
    pub fn display_string(&self) -> (r: String)
        ensures
            r@ == self.spec_display(),
    {
        let mut out: Vec<char> = Vec::new();
        self.push_display(&mut out);
        chars_to_string(&out)
    }
}

impl MajorNutrient {
    /// The human-readable nutrient name.
    pub open spec fn spec_display(self) -> Seq<char> {
        match self {
            MajorNutrient::Protein => "Protein"@,
            MajorNutrient::Fat => "Fat"@,
            MajorNutrient::Carbohydrate => "Carbohydrate"@,
            MajorNutrient::Sugars => "Sugars"@,
            MajorNutrient::Water => "Water"@,
            MajorNutrient::Minerals_and_vitamins => "Minerals and Vitamins"@,
            MajorNutrient::Balanced => "Balanced"@,
        }
    }

    /// The nutrient name as written into stored rows (the variant name).
    pub open spec fn spec_stored(self) -> Seq<char> {
        match self {
            MajorNutrient::Protein => "Protein"@,
            MajorNutrient::Fat => "Fat"@,
            MajorNutrient::Carbohydrate => "Carbohydrate"@,
            MajorNutrient::Sugars => "Sugars"@,
            MajorNutrient::Water => "Water"@,
            MajorNutrient::Minerals_and_vitamins => "Minerals_and_vitamins"@,
            MajorNutrient::Balanced => "Balanced"@,
        }
    }

    /// Appends the human-readable name.
    pub fn push_display(&self, out: &mut Vec<char>)
        ensures
            final(out)@ == old(out)@ + self.spec_display(),
    {
        match self {
            MajorNutrient::Protein => append_str(out, "Protein"),
            MajorNutrient::Fat => append_str(out, "Fat"),
            MajorNutrient::Carbohydrate => append_str(out, "Carbohydrate"),
            MajorNutrient::Sugars => append_str(out, "Sugars"),
            MajorNutrient::Water => append_str(out, "Water"),
            MajorNutrient::Minerals_and_vitamins => append_str(out, "Minerals and Vitamins"),
            MajorNutrient::Balanced => append_str(out, "Balanced"),
        }
    }

    /// Appends the stored-row name.
    pub fn push_stored(&self, out: &mut Vec<char>)
        ensures
            final(out)@ == old(out)@ + self.spec_stored(),
    {
        match self {
            MajorNutrient::Protein => append_str(out, "Protein"),
            MajorNutrient::Fat => append_str(out, "Fat"),
            MajorNutrient::Carbohydrate => append_str(out, "Carbohydrate"),
            MajorNutrient::Sugars => append_str(out, "Sugars"),
            MajorNutrient::Water => append_str(out, "Water"),
            MajorNutrient::Minerals_and_vitamins => append_str(out, "Minerals_and_vitamins"),
            MajorNutrient::Balanced => append_str(out, "Balanced"),
        }
    }

    /// The human-readable name as a `String`.
    pub fn display_string(&self) -> (r: String)
        ensures
            r@ == self.spec_display(),
    {
        let mut out: Vec<char> = Vec::new();
        self.push_display(&mut out);
        chars_to_string(&out)
    }
}

/// A non-negative fixed-point number: `mantissa / 10^scale`.
///
/// Quantities are decimal strings in caller input and in stored rows, so
/// the library keeps them as scaled integers instead of floating point;
/// the scale is held minimal (no trailing fraction zeros).
#[derive(Clone, Copy, Debug, PartialEq, Eq, Structural)]
pub struct Amount {
    pub mantissa: u64,
    pub scale: u8,
}

/// The minimal form of a scaled decimal: trailing zero fraction digits
/// are dropped.
pub open spec fn canon_amount(m: nat, s: nat) -> (nat, nat)
    decreases s,
{
    if s > 0 && m % 10 == 0 {
        canon_amount(m / 10, (s - 1) as nat)
    } else {
        (m, s)
    }
}

impl Amount {
    /// Well-formed: the scale fits the digit helpers and is minimal.
    pub open spec fn wf(self) -> bool {
        &&& self.scale <= 18
        &&& (self.scale > 0 ==> self.mantissa % 10 != 0)
        &&& canon_amount(self.mantissa as nat, self.scale as nat) == (
        self.mantissa as nat,
        self.scale as nat,
        )
    }

    /// The decimal digit string of this amount: the integer digits, and a
    /// point and the fraction digits when the scale is positive.
    pub open spec fn spec_digits_of(self) -> Seq<char> {
        if self.scale == 0 {
            spec_digits(self.mantissa as nat)
        } else {
            spec_digits(self.mantissa as nat / pow10(self.scale as nat)) + seq!['.']
                + spec_fixed_digits(self.mantissa as nat % pow10(self.scale as nat), self.scale as nat)
        }
    }

    /// Builds the minimal-scale amount with value `mantissa / 10^scale`.
    pub fn new(mantissa: u64, scale: u8) -> (r: Amount)
        requires
            scale <= 18,
        ensures
            r.wf(),
            (r.mantissa as nat, r.scale as nat) == canon_amount(mantissa as nat, scale as nat),
    {
        let mut m = mantissa;
        let mut s = scale;
        while s > 0 && m % 10 == 0
            invariant
                s <= 18,
                canon_amount(mantissa as nat, scale as nat) == canon_amount(m as nat, s as nat),
            decreases s,
        {
            m = m / 10;
            s = s - 1;
        }
        Amount { mantissa: m, scale: s }
    }

    /// Appends the decimal digit string.
    pub fn push_digits(&self, out: &mut Vec<char>)
        requires
            self.wf(),
        ensures
            final(out)@ == old(out)@ + self.spec_digits_of(),
    {
        if self.scale == 0 {
            push_u64_digits(out, self.mantissa);
        } else {
            let p = pow10_exec(self.scale);
            push_u64_digits(out, self.mantissa / p);
            out.push('.');
            push_fixed_digits(out, self.mantissa % p, self.scale);
            assert(out@ =~= old(out)@ + self.spec_digits_of());
        }
    }
}

/// The unit-tagged quantity of a food item: a mass in grams or a volume
/// in litres.  The tag is fixed at creation.
#[derive(Clone, Copy, Debug, PartialEq, Eq, Structural)]
pub enum Unit {
    Grams(Amount),
    Litres(Amount),
}

impl Unit {
    /// The numeric component.
    pub open spec fn spec_amount(self) -> Amount {
        match self {
            Unit::Grams(a) => a,
            Unit::Litres(a) => a,
        }
    }

    /// The single-letter unit tag as stored: `g` for grams, `L` for
    /// litres.
    pub open spec fn spec_letter(self) -> char {
        match self {
            Unit::Grams(_) => 'g',
            Unit::Litres(_) => 'L',
        }
    }

    pub open spec fn wf(self) -> bool {
        self.spec_amount().wf()
    }

    /// The quantity as text: the number followed by the unit letter.
    pub open spec fn spec_display(self) -> Seq<char> {
        self.spec_amount().spec_digits_of() + seq![self.spec_letter()]
    }

    /// Executable numeric component.
    pub fn amount(&self) -> (r: Amount)
        ensures
            r == self.spec_amount(),
    {
        match self {
            Unit::Grams(a) => *a,
            Unit::Litres(a) => *a,
        }
    }

    /// Executable unit tag.
    pub fn letter(&self) -> (r: char)
        ensures
            r == self.spec_letter(),
    {
        match self {
            Unit::Grams(_) => 'g',
            Unit::Litres(_) => 'L',
        }
    }

    /// Appends the quantity text.
    pub fn push_display(&self, out: &mut Vec<char>)
        requires
            self.wf(),
        ensures
            final(out)@ == old(out)@ + self.spec_display(),
    {
        let a = self.amount();
        a.push_digits(out);
        let c = self.letter();
        out.push(c);
        assert(out@ =~= old(out)@ + self.spec_display());
    }

    /// The quantity text as a `String`.
    pub fn display_string(&self) -> (r: String)
        requires
            self.wf(),
        ensures
            r@ == self.spec_display(),
    {
        let mut out: Vec<char> = Vec::new();
        self.push_display(&mut out);
        chars_to_string(&out)
    }
}

/// One food-stock item.
#[derive(Clone, Debug)]
pub struct FoodStock {
    pub name: String,
    pub stock_date: Date,
    pub food_type: FoodType,
    pub nutrient: MajorNutrient,
    pub storage_type: StorageType,
    pub expiry_date: Date,
    pub quantity: Unit,
}

impl FoodStock {
    /// The aggregate invariant: the name is non-empty after trimming,
    /// both dates are real calendar days with room for shelf-life
    /// arithmetic, the expiry never precedes the stock date, the
    /// nutrient is the value the category table derives, and the
    /// quantity is well-formed.
    pub open spec fn inv(self) -> bool {
        &&& !is_blank(self.name@)
        &&& self.stock_date.wf()
        &&& self.stock_date.year + 400 <= crate::date::MAX_YEAR
        &&& self.expiry_date.wf()
        &&& self.stock_date.le(self.expiry_date)
        &&& self.nutrient == nutrient_of(self.food_type)
        &&& self.quantity.wf()
    }

    /// Creates a new item; the caller supplies field values that satisfy
    /// the aggregate invariant.
    pub fn new(
        name: String,
        stock_date: Date,
        food_type: FoodType,
        nutrient: MajorNutrient,
        storage_type: StorageType,
        expiry_date: Date,
        quantity: Unit,
    ) -> (r: FoodStock)
        requires
            !is_blank(name@),
            stock_date.wf(),
            stock_date.year + 400 <= crate::date::MAX_YEAR,
            expiry_date.wf(),
            stock_date.le(expiry_date),
            nutrient == nutrient_of(food_type),
            quantity.wf(),
        ensures
            r.inv(),
            r.name == name,
            r.stock_date == stock_date,
            r.food_type == food_type,
            r.nutrient == nutrient,
            r.storage_type == storage_type,
            r.expiry_date == expiry_date,
            r.quantity == quantity,
    {
        FoodStock { name, stock_date, food_type, nutrient, storage_type, expiry_date, quantity }
    }

    /// The one-line summary of this item.
    pub open spec fn spec_summary(self) -> Seq<char> {
        "Food Stock: "@ + self.name@ + " ("@ + self.quantity.spec_display() + ") - Stored: "@
            + crate::date::spec_iso_date(self.stock_date) + ", Expires: "@
            + crate::date::spec_iso_date(self.expiry_date) + ", Storage: "@
            + self.storage_type.spec_display() + ", Nutrient: "@ + self.nutrient.spec_display()
    }

    /// The one-line summary as a `String`.
    pub fn summary_string(&self) -> (r: String)
        requires
            self.inv(),
        ensures
            r@ == self.spec_summary(),
    {
        let mut out: Vec<char> = Vec::new();
        append_str(&mut out, "Food Stock: ");
        append_str(&mut out, self.name.as_str());
        append_str(&mut out, " (");
        self.quantity.push_display(&mut out);
        append_str(&mut out, ") - Stored: ");
        self.stock_date.push_iso(&mut out);
        append_str(&mut out, ", Expires: ");
        self.expiry_date.push_iso(&mut out);
        append_str(&mut out, ", Storage: ");
        self.storage_type.push_display(&mut out);
        append_str(&mut out, ", Nutrient: ");
        self.nutrient.push_display(&mut out);
        chars_to_string(&out)
    }

    /// The expiry date the shelf-life policy gives this item.
    pub fn estimate_expiry(&self) -> (r: Date)
        requires
            self.inv(),
        ensures
            r == self.stock_date.plus_days(
                crate::policy::shelf_life_days(self.food_type, self.storage_type) as nat,
            ),
            r.wf(),
    {
        crate::policy::infer_expiry(&self.food_type, &self.storage_type, self.stock_date)
    }
}

} // verus!
