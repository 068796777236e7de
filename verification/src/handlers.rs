//! Input validation: raw caller strings become domain values.
//!
//! Dates accept the tokens `today` and `yesterday` and the fixed
//! `DD-MM-YYYY` format; categories and storage conditions map through
//! fixed case-sensitive keyword tables; quantities are a non-negative
//! decimal number followed by a unit letter; names must not be blank.
//! Every parser's contract says exactly which inputs succeed, with which
//! value, and which error comes otherwise.

use crate::clock::today_checked;
use crate::date::{spec_iso_date, spec_parse_dmy, parse_dmy, Date, MAX_YEAR};
use crate::errors::{StoreError, ValidationError};
use crate::models::{
    canon_amount, nutrient_of, nutrient_for, Amount, FoodStock, FoodType, StorageType, Unit,
};
use crate::policy::{infer_expiry, shelf_life_days};
use crate::storage::{row_of_food, FoodDb, SearchResult, StoredRow};
use crate::text::eq_ignore_ascii_case;
use crate::text::{
    char_to_digit, digits_val, dval, is_blank, is_digit_char, is_space_char,
    lemma_digits_val_prefix_le, lemma_digits_val_snoc, space_char, spec_trim, str_eq,
    str_to_chars, trim_chars,
};
use vstd::prelude::*;

verus! {

/// The result of reading a date written as `DD-MM-YYYY`.
pub open spec fn spec_parse_dmy_result(s: Seq<char>) -> Result<Date, ValidationError> {
    match spec_parse_dmy(s) {
        Some(d) => Ok(d),
        None => Err(ValidationError::InvalidDateFormat),
    }
}

/// The result of reading a date input against a known current date:
/// `today` and `yesterday` resolve relative to `today`, anything else
/// must be `DD-MM-YYYY`.
pub open spec fn spec_date_token(s: Seq<char>, today: Date) -> Result<Date, ValidationError> {
    if s == "today"@ {
        Ok(today)
    } else if s == "yesterday"@ {
        Ok(today.prev())
    } else {
        spec_parse_dmy_result(s)
    }
}

/// The category keyword table.
pub open spec fn spec_parse_food_type(s: Seq<char>) -> Result<FoodType, ValidationError> {
    if s == "vegetable"@ {
        Ok(FoodType::Vegetable)
    } else if s == "fruit"@ {
        Ok(FoodType::Fruit)
    } else if s == "grains"@ {
        Ok(FoodType::Grains)
    } else if s == "breakfast-cereal"@ {
        Ok(FoodType::Breakfast_cereal)
    } else if s == "beverage"@ {
        Ok(FoodType::Beverage)
    } else if s == "meat"@ {
        Ok(FoodType::Meat)
    } else if s == "dairy"@ {
        Ok(FoodType::Dairy)
    } else if s == "non-dairy"@ {
        Ok(FoodType::Non_dairy)
    } else if s == "edible-oils"@ {
        Ok(FoodType::Edible_oils)
    } else {
        Err(ValidationError::InvalidCategory)
    }
}

/// The storage-condition keyword table.
pub open spec fn spec_parse_storage_type(s: Seq<char>) -> Result<StorageType, ValidationError> {
    if s == "cold"@ {
        Ok(StorageType::Cold)
    } else if s == "warm"@ {
        Ok(StorageType::RoomTemperature)
    } else {
        Err(ValidationError::InvalidStorageCondition)
    }
}

/// The shape of a decimal number with an optional point at position `k`
/// (`k == t.len()` means no point): every other character is a digit,
/// and at least one digit exists.
pub open spec fn decimal_shape_at(t: Seq<char>, k: int) -> bool {
    &&& 0 <= k <= t.len()
    &&& t.len() > 0
    &&& (k == t.len() || (t[k] == '.' && t.len() >= 2))
    &&& forall|i: int| 0 <= i < t.len() && i != k ==> is_digit_char(t[i])
}

/// Whether `t` is a well-formed non-negative decimal number.
pub open spec fn decimal_ok(t: Seq<char>) -> bool {
    exists|k: int| decimal_shape_at(t, k)
}

/// The position of the decimal point (or `t.len()` when there is none).
pub open spec fn decimal_split(t: Seq<char>) -> int {
    choose|k: int| decimal_shape_at(t, k)
}

/// A decimal number has exactly one possible point position.
pub proof fn lemma_decimal_split_unique(t: Seq<char>, k1: int, k2: int)
    requires
        decimal_shape_at(t, k1),
        decimal_shape_at(t, k2),
    ensures
        k1 == k2,
{
    if k1 < k2 {
        assert(is_digit_char(t[k1]));
    } else if k2 < k1 {
        assert(is_digit_char(t[k2]));
    }
}

/// The digits of the decimal number, with the point removed.
pub open spec fn decimal_digit_seq(t: Seq<char>) -> Seq<char> {
    let k = decimal_split(t);
    if k == t.len() {
        t
    } else {
        t.take(k) + t.skip(k + 1)
    }
}

/// The number the digits denote, ignoring the point.
pub open spec fn decimal_mantissa(t: Seq<char>) -> nat {
    digits_val(decimal_digit_seq(t))
}

/// How many digits follow the point.
pub open spec fn decimal_scale(t: Seq<char>) -> nat {
    let k = decimal_split(t);
    if k == t.len() {
        0
    } else {
        (t.len() - k - 1) as nat
    }
}

/// The result of reading a quantity input: a decimal number (after
/// trimming) followed by a unit letter, `g`/`G` for grams or `l`/`L` for
/// litres.
///
/// "A non-negative floating-point number" is read here as plain decimal
/// notation — digits with at most one point, no sign, no exponent —
/// which is exactly what the fixed-point quantity value represents.
/// Scientific notation and the textual float forms (`inf`, `nan`) have
/// no fixed-point counterpart and are rejected as invalid, as is a
/// number outside the fixed-point range: a mantissa beyond `u64` or
/// more than eighteen fraction digits.
pub open spec fn spec_parse_quantity(s: Seq<char>) -> Result<Unit, ValidationError> {
    if s.len() == 0 {
        Err(ValidationError::InvalidQuantity)
    } else {
        let last = s.last();
        let t = spec_trim(s.drop_last());
        if !(last == 'g' || last == 'G' || last == 'l' || last == 'L') {
            Err(ValidationError::InvalidQuantity)
        } else if decimal_ok(t) && decimal_mantissa(t) <= u64::MAX as nat && decimal_scale(t)
            <= 18 {
            let mc = canon_amount(decimal_mantissa(t), decimal_scale(t));
            let a = Amount { mantissa: mc.0 as u64, scale: mc.1 as u8 };
            if last == 'g' || last == 'G' {
                Ok(Unit::Grams(a))
            } else {
                Ok(Unit::Litres(a))
            }
        } else {
            Err(ValidationError::InvalidQuantity)
        }
    }
}

/// Reads a date input against an explicitly supplied current date; the
/// deterministic core behind [`InputHandler::get_date`].
pub fn parse_date_with(input: &str, today: Date) -> (r: Result<Date, ValidationError>)
    requires
        today.wf(),
        !today.is_min(),
        today.year + 400 <= MAX_YEAR,
    ensures
        r == spec_date_token(input@, today),
        r is Ok ==> r->Ok_0.wf() && r->Ok_0.year + 400 <= MAX_YEAR,
{
    if str_eq(input, "today") {
        Ok(today)
    } else if str_eq(input, "yesterday") {
        Ok(today.prev_day())
    } else {
        let chars = str_to_chars(input);
        match parse_dmy(&chars) {
            Some(d) => Ok(d),
            None => Err(ValidationError::InvalidDateFormat),
        }
    }
}

/// Handles user input: each method validates one raw field.
pub struct InputHandler;

impl InputHandler {
    pub fn new() -> (r: Self) {
        InputHandler
    }

    /// Reads a date input.  `today` and `yesterday` resolve against the
    /// system clock; everything else must be `DD-MM-YYYY`.
    pub fn get_date(&self, input: &str) -> (r: Result<Date, ValidationError>)
        ensures
            r is Ok ==> r->Ok_0.wf() && r->Ok_0.year + 400 <= MAX_YEAR,
            input@ != "today"@ && input@ != "yesterday"@ ==> r == spec_parse_dmy_result(input@),
            r is Err ==> r == Err::<Date, ValidationError>(ValidationError::InvalidDateFormat),
    {
        if str_eq(input, "today") || str_eq(input, "yesterday") {
            match today_checked() {
                Some(t) => parse_date_with(input, t),
                None => Err(ValidationError::InvalidDateFormat),
            }
        } else {
            let chars = str_to_chars(input);
            match parse_dmy(&chars) {
                Some(d) => Ok(d),
                None => Err(ValidationError::InvalidDateFormat),
            }
        }
    }

    /// Reads a food category keyword.
    pub fn get_food_type(&self, input: &str) -> (r: Result<FoodType, ValidationError>)
        ensures
            r == spec_parse_food_type(input@),
    {
        if str_eq(input, "vegetable") {
            Ok(FoodType::Vegetable)
        } else if str_eq(input, "fruit") {
            Ok(FoodType::Fruit)
        } else if str_eq(input, "grains") {
            Ok(FoodType::Grains)
        } else if str_eq(input, "breakfast-cereal") {
            Ok(FoodType::Breakfast_cereal)
        } else if str_eq(input, "beverage") {
            Ok(FoodType::Beverage)
        } else if str_eq(input, "meat") {
            Ok(FoodType::Meat)
        } else if str_eq(input, "dairy") {
            Ok(FoodType::Dairy)
        } else if str_eq(input, "non-dairy") {
            Ok(FoodType::Non_dairy)
        } else if str_eq(input, "edible-oils") {
            Ok(FoodType::Edible_oils)
        } else {
            Err(ValidationError::InvalidCategory)
        }
    }

    /// Reads a name; it must contain a non-whitespace character, and is
    /// kept as given.
    pub fn get_food_name(&self, input: &str) -> (r: Result<String, ValidationError>)
        ensures
            r is Err <==> is_blank(input@),
            r is Err ==> r == Err::<String, ValidationError>(ValidationError::EmptyName),
            r is Ok ==> r->Ok_0@ == input@,
    {
        let n = input.unicode_len();
        let mut blank = true;
        let mut i: usize = 0;
        while i < n
            invariant
                i <= n,
                n == input@.len(),
                blank ==> forall|j: int| 0 <= j < i ==> is_space_char(#[trigger] input@[j]),
                !blank ==> !is_blank(input@),
            decreases n - i,
        {
            if !space_char(input.get_char(i)) {
                proof {
                    assert(!is_space_char(input@[i as int]));
                }
                blank = false;
            }
            i = i + 1;
        }
        if blank {
            proof {
                assert(is_blank(input@));
            }
            Err(ValidationError::EmptyName)
        } else {
            Ok(input.to_owned())
        }
    }

    /// Reads a storage-condition keyword.
    pub fn get_storage_type(&self, input: &str) -> (r: Result<StorageType, ValidationError>)
        ensures
            r == spec_parse_storage_type(input@),
    {
        if str_eq(input, "cold") {
            Ok(StorageType::Cold)
        } else if str_eq(input, "warm") {
            Ok(StorageType::RoomTemperature)
        } else {
            Err(ValidationError::InvalidStorageCondition)
        }
    }

    /// Reads a quantity input: a plain decimal number (digits with at
    /// most one point, no sign, no exponent), trimmed, followed by a
    /// unit letter; see [`spec_parse_quantity`] for the exact grammar.
    pub fn get_quantity(&self, input: &str) -> (r: Result<Unit, ValidationError>)
        ensures
            r == spec_parse_quantity(input@),
            r is Ok ==> r->Ok_0.wf(),
    {
        let chars = str_to_chars(input);
        let n_all = chars.len();
        if n_all == 0 {
            return Err(ValidationError::InvalidQuantity);
        }
        let last = chars[n_all - 1];
        let is_g = last == 'g' || last == 'G';
        let is_l = last == 'l' || last == 'L';
        if !(is_g || is_l) {
            return Err(ValidationError::InvalidQuantity);
        }
        let mut prefix: Vec<char> = Vec::new();
        let mut i: usize = 0;
        while i < n_all - 1
            invariant
                i <= n_all - 1,
                n_all == chars@.len(),
                n_all >= 1,
                prefix@ == chars@.take(i as int),
            decreases n_all - 1 - i,
        {
            prefix.push(chars[i]);
            assert(prefix@ =~= chars@.take(i + 1 as int));
            i = i + 1;
        }
        assert(prefix@ =~= chars@.drop_last());
        let t = trim_chars(&prefix);
        let ghost ts = t@;
        let n = t.len();
        if n == 0 {
            assert(!decimal_ok(ts));
            return Err(ValidationError::InvalidQuantity);
        }
        // Scan for the decimal point and check every other character is
        // a digit.
        let mut dot: usize = n;
        let mut seen_dot = false;
        let mut ok = true;
        let mut i: usize = 0;
        while i < n
            invariant
                i <= n,
                n == ts.len(),
                n >= 1,
                ts == t@,
                !seen_dot ==> dot == n,
                seen_dot ==> dot < i && ts[dot as int] == '.',
                ok ==> forall|j: int| 0 <= j < i && j != dot ==> is_digit_char(ts[j]),
                !ok ==> !decimal_ok(ts),
            decreases n - i,
        {
            let c = t[i];
            if ok {
                if c == '.' {
                    if seen_dot {
                        proof {
                            assert forall|k: int| !decimal_shape_at(ts, k) by {
                                if decimal_shape_at(ts, k) {
                                    if k != dot {
                                        assert(is_digit_char(ts[dot as int]));
                                    } else {
                                        assert(is_digit_char(ts[i as int]));
                                    }
                                }
                            }
                        }
                        ok = false;
                    } else {
                        seen_dot = true;
                        dot = i;
                    }
                } else {
                    match char_to_digit(c) {
                        Some(_) => {},
                        None => {
                            proof {
                                assert forall|k: int| !decimal_shape_at(ts, k) by {
                                    if decimal_shape_at(ts, k) {
                                        if k != i {
                                            assert(is_digit_char(ts[i as int]));
                                        } else {
                                            assert(ts[k] == '.');
                                        }
                                    }
                                }
                            }
                            ok = false;
                        },
                    }
                }
            }
            i = i + 1;
        }
        if !ok {
            return Err(ValidationError::InvalidQuantity);
        }
        if seen_dot && n == 1 {
            proof {
                assert forall|k: int| !decimal_shape_at(ts, k) by {}
            }
            return Err(ValidationError::InvalidQuantity);
        }
        proof {
            assert(decimal_shape_at(ts, dot as int));
            lemma_decimal_split_unique(ts, decimal_split(ts), dot as int);
        }
        let ghost d = decimal_digit_seq(ts);
        proof {
            if dot < n {
                assert(d =~= ts.take(dot as int) + ts.skip(dot as int + 1));
            }
        }
        // Accumulate the mantissa over the digits, skipping the point.
        let mut acc: u64 = 0;
        let mut overflow = false;
        let mut i: usize = 0;
        let ghost mut j: int = 0;
        while i < n
            invariant
                i <= n,
                n == ts.len(),
                ts == t@,
                decimal_shape_at(ts, dot as int),
                dot <= n,
                d == decimal_digit_seq(ts),
                d.len() == if dot < n { n - 1 } else { n as int },
                j == if i <= dot { i as int } else { i - 1 },
                0 <= j <= d.len(),
                forall|l: int| 0 <= l < d.len() ==> d[l] == (if l < dot { ts[l] } else { ts[l + 1] }),
                !overflow ==> acc as nat == digits_val(d.take(j)),
                overflow ==> digits_val(d) > u64::MAX as nat,
            decreases n - i,
        {
            if i != dot {
                let c = t[i];
                match char_to_digit(c) {
                    Some(dg) => {
                        proof {
                            lemma_digits_val_snoc(d, j);
                            assert(d[j] == ts[i as int]);
                            assert(dval(d[j]) == dg as nat);
                        }
                        if !overflow {
                            let wide: u128 = acc as u128 * 10 + dg as u128;
                            if wide > u64::MAX as u128 {
                                proof {
                                    lemma_digits_val_prefix_le(d, j + 1);
                                }
                                overflow = true;
                            } else {
                                acc = wide as u64;
                            }
                        }
                        proof {
                            j = j + 1;
                        }
                    },
                    None => {
                        proof {
                            assert(is_digit_char(ts[i as int]));
                            assert(false);
                        }
                    },
                }
            }
            i = i + 1;
        }
        proof {
            assert(d.take(j) =~= d);
        }
        if overflow {
            return Err(ValidationError::InvalidQuantity);
        }
        let scale_usize = if seen_dot {
            n - dot - 1
        } else {
            0
        };
        if scale_usize > 18 {
            return Err(ValidationError::InvalidQuantity);
        }
        let a = Amount::new(acc, scale_usize as u8);
        if is_g {
            Ok(Unit::Grams(a))
        } else {
            Ok(Unit::Litres(a))
        }
    }
}

/// Whether the caller left the expiry date to the policy engine: the
/// field is absent or holds the sentinel `none` in any letter case.
pub open spec fn wants_policy_expiry(expiry: Option<Seq<char>>) -> bool {
    match expiry {
        None => true,
        Some(e) => eq_ignore_ascii_case(e, "none"@),
    }
}

/// How the expiry date of a new item is settled: by the policy table, or
/// by parsing the caller's date, which must not precede the stock date.
pub open spec fn spec_expiry_resolution(
    expiry: Option<Seq<char>>,
    today: Date,
    stock: Date,
    t: FoodType,
    s: StorageType,
) -> Result<Date, ValidationError> {
    if wants_policy_expiry(expiry) {
        Ok(stock.plus_days(shelf_life_days(t, s) as nat))
    } else {
        match spec_date_token(expiry->0, today) {
            Ok(e) => if stock.le(e) {
                Ok(e)
            } else {
                Err(ValidationError::InvalidDateFormat)
            },
            Err(er) => Err(er),
        }
    }
}

/// The outcome of validating one set of raw fields against a known
/// current date: either every parsed part, in input order, or the first
/// field's error.
pub open spec fn spec_validate(
    name: Seq<char>,
    stock: Seq<char>,
    ft: Seq<char>,
    st: Seq<char>,
    qty: Seq<char>,
    expiry: Option<Seq<char>>,
    today: Date,
) -> Result<(Date, FoodType, StorageType, Unit, Date), ValidationError> {
    if is_blank(name) {
        Err(ValidationError::EmptyName)
    } else {
        match spec_date_token(stock, today) {
            Err(e) => Err(e),
            Ok(sd) => match spec_parse_food_type(ft) {
                Err(e) => Err(e),
                Ok(t) => match spec_parse_storage_type(st) {
                    Err(e) => Err(e),
                    Ok(s) => match spec_parse_quantity(qty) {
                        Err(e) => Err(e),
                        Ok(q) => match spec_expiry_resolution(expiry, today, sd, t, s) {
                            Err(e) => Err(e),
                            Ok(ed) => Ok((sd, t, s, q, ed)),
                        },
                    },
                },
            },
        }
    }
}

/// The view of an optional string field.
pub open spec fn opt_view(o: Option<String>) -> Option<Seq<char>> {
    match o {
        Some(s) => Some(s@),
        None => None,
    }
}

/// Validates one set of raw fields against an explicitly supplied
/// current date and builds the item; the deterministic core behind
/// [`CommandHandler::handle_add`].
pub fn build_food(
    name: &str,
    stock_date: &str,
    food_type: &str,
    storage_type: &str,
    quantity: &str,
    expiry_date: &Option<String>,
    today: Date,
) -> (r: Result<FoodStock, ValidationError>)
    requires
        today.wf(),
        !today.is_min(),
        today.year + 400 <= MAX_YEAR,
    ensures
        r is Err <==> spec_validate(
            name@,
            stock_date@,
            food_type@,
            storage_type@,
            quantity@,
            opt_view(*expiry_date),
            today,
        ) is Err,
        r is Err ==> r->Err_0 == spec_validate(
            name@,
            stock_date@,
            food_type@,
            storage_type@,
            quantity@,
            opt_view(*expiry_date),
            today,
        )->Err_0,
        r is Ok ==> ({
            let parts = spec_validate(
                name@,
                stock_date@,
                food_type@,
                storage_type@,
                quantity@,
                opt_view(*expiry_date),
                today,
            )->Ok_0;
            &&& r->Ok_0.inv()
            &&& r->Ok_0.name@ == name@
            &&& r->Ok_0.stock_date == parts.0
            &&& r->Ok_0.food_type == parts.1
            &&& r->Ok_0.nutrient == nutrient_of(parts.1)
            &&& r->Ok_0.storage_type == parts.2
            &&& r->Ok_0.quantity == parts.3
            &&& r->Ok_0.expiry_date == parts.4
        }),
{
    let handler = InputHandler::new();
    let name_ok = match handler.get_food_name(name) {
        Ok(n) => n,
        Err(e) => {
            return Err(e);
        },
    };
    let sd = match parse_date_with(stock_date, today) {
        Ok(d) => d,
        Err(e) => {
            return Err(e);
        },
    };
    let t = match handler.get_food_type(food_type) {
        Ok(t) => t,
        Err(e) => {
            return Err(e);
        },
    };
    let s = match handler.get_storage_type(storage_type) {
        Ok(s) => s,
        Err(e) => {
            return Err(e);
        },
    };
    let q = match handler.get_quantity(quantity) {
        Ok(q) => q,
        Err(e) => {
            return Err(e);
        },
    };
    let nutrient = nutrient_for(&t);
    let use_policy = match expiry_date {
        None => true,
        Some(e) => {
            let chars = str_to_chars(e.as_str());
            crate::text::chars_eq_ignore_case(&chars, "none")
        },
    };
    let ed = if use_policy {
        infer_expiry(&t, &s, sd)
    } else {
        let e_str = match expiry_date {
            Some(e) => e.as_str(),
            None => {
                proof {
                    assert(false);
                }
                ""
            },
        };
        match parse_date_with(e_str, today) {
            Ok(e) => {
                if sd.leq(&e) {
                    e
                } else {
                    return Err(ValidationError::InvalidDateFormat);
                }
            },
            Err(er) => {
                return Err(er);
            },
        }
    };
    Ok(FoodStock::new(name_ok, sd, t, nutrient, s, ed, q))
}

/// The stored row of a new item, from its parsed parts.
pub open spec fn row_of_parts(
    name: Seq<char>,
    sd: Date,
    t: FoodType,
    s: StorageType,
    q: Unit,
    ed: Date,
) -> StoredRow {
    StoredRow {
        name: name,
        stock_date: spec_iso_date(sd),
        food_type: t.spec_stored(),
        nutrient: nutrient_of(t).spec_stored(),
        storage_type: s.spec_stored(),
        expiry_date: spec_iso_date(ed),
        quantity: q.spec_display(),
    }
}

/// Whether validating these inputs consults the clock: a date field
/// holds the token `today` or `yesterday`.  The expiry sentinel `none`
/// is never such a token, so an expiry left to the policy engine asks
/// nothing of the clock.
pub open spec fn needs_clock(stock: Seq<char>, expiry: Option<Seq<char>>) -> bool {
    ||| stock == "today"@
    ||| stock == "yesterday"@
    ||| (match expiry {
        Some(e) => e == "today"@ || e == "yesterday"@,
        None => false,
    })
}

/// What one `handle_add` call does, given the current date it ran
/// against: on the first validation error nothing changes and that error
/// comes back; otherwise exactly the encoding of the validated item is
/// appended.
pub open spec fn handle_add_outcome(
    r: Result<bool, ValidationError>,
    old_rows: Seq<StoredRow>,
    new_rows: Seq<StoredRow>,
    name: Seq<char>,
    stock: Seq<char>,
    ft: Seq<char>,
    st: Seq<char>,
    qty: Seq<char>,
    expiry: Option<Seq<char>>,
    today: Date,
) -> bool {
    match spec_validate(name, stock, ft, st, qty, expiry, today) {
        Ok(parts) => r == Ok::<bool, ValidationError>(true) && new_rows == old_rows.push(
            row_of_parts(name, parts.0, parts.1, parts.2, parts.3, parts.4),
        ),
        Err(e) => r == Err::<bool, ValidationError>(e) && new_rows == old_rows,
    }
}

/// Handles commands against a store.
pub struct CommandHandler {
    pub input_handler: InputHandler,
}

impl CommandHandler {
    pub fn new() -> (r: Self) {
        CommandHandler { input_handler: InputHandler::new() }
    }

    /// Validates the raw fields of a new item against the current date
    /// and stores it.  On any validation error the store is unchanged
    /// and the error names the offending field; on success exactly one
    /// row, the encoding of the new item, is appended.
    pub fn handle_add(
        &self,
        name: String,
        storage: &mut FoodDb,
        stock_date: String,
        food_type: String,
        storage_type: String,
        quantity: String,
        expiry_date: Option<String>,
    ) -> (r: Result<bool, ValidationError>)
        ensures
            (exists|today: Date|
                (#[trigger] today.wf()) && !today.is_min() && today.year + 400 <= MAX_YEAR
                    && handle_add_outcome(
                    r,
                    old(storage)@,
                    final(storage)@,
                    name@,
                    stock_date@,
                    food_type@,
                    storage_type@,
                    quantity@,
                    opt_view(expiry_date),
                    today,
                )) || (needs_clock(stock_date@, opt_view(expiry_date)) && r == Err::<
                bool,
                ValidationError,
            >(ValidationError::InvalidDateFormat) && final(storage)@ == old(storage)@),
    {
        let has_token = str_eq(stock_date.as_str(), "today") || str_eq(
            stock_date.as_str(),
            "yesterday",
        ) || (match &expiry_date {
            Some(e) => str_eq(e.as_str(), "today") || str_eq(e.as_str(), "yesterday"),
            None => false,
        });
        let today = if has_token {
            match today_checked() {
                Some(t) => t,
                None => {
                    return Err(ValidationError::InvalidDateFormat);
                },
            }
        } else {
            // No input names the current date, so validation ignores it;
            // any well-formed date serves as the unused argument.
            Date { year: 2000, month: 1, day: 1 }
        };
        proof {
            assert(today.wf() && !today.is_min() && today.year + 400 <= MAX_YEAR);
        }
        let food = match build_food(
            name.as_str(),
            stock_date.as_str(),
            food_type.as_str(),
            storage_type.as_str(),
            quantity.as_str(),
            &expiry_date,
            today,
        ) {
            Ok(f) => f,
            Err(e) => {
                proof {
                    assert(handle_add_outcome(
                        Err::<bool, ValidationError>(e),
                        storage@,
                        storage@,
                        name@,
                        stock_date@,
                        food_type@,
                        storage_type@,
                        quantity@,
                        opt_view(expiry_date),
                        today,
                    ));
                }
                return Err(e);
            },
        };
        let ghost parts = spec_validate(
            name@,
            stock_date@,
            food_type@,
            storage_type@,
            quantity@,
            opt_view(expiry_date),
            today,
        )->Ok_0;
        let added = storage.add_food(food);
        proof {
            assert(row_of_food(food) == row_of_parts(
                name@,
                parts.0,
                parts.1,
                parts.2,
                parts.3,
                parts.4,
            ));
            assert(handle_add_outcome(
                Ok::<bool, ValidationError>(true),
                old(storage)@,
                storage@,
                name@,
                stock_date@,
                food_type@,
                storage_type@,
                quantity@,
                opt_view(expiry_date),
                today,
            ));
        }
        match added {
            Ok(_) => Ok(true),
            Err(_) => {
                proof {
                    assert(false);
                }
                Ok(true)
            },
        }
    }

    /// Returns every stored row.
    pub fn handle_view_all(&self, storage: &FoodDb) -> (r: Result<Vec<SearchResult>, StoreError>)
        ensures
            r is Ok,
            r->Ok_0@.len() == storage@.len(),
            forall|i: int| 0 <= i < storage@.len() ==> (#[trigger] r->Ok_0@[i])@ == storage@[i],
    {
        storage.get_all_food()
    }
}

} // verus!
