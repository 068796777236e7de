//! The food-stock store.
//!
//! Rows are held as the strings a relational backing store would keep:
//! dates as `YYYY-MM-DD`, category/nutrient/storage as their variant
//! names, and the quantity as its number and unit letter.  `add_food`
//! appends exactly the encoding of the item; `advanced_search` filters by
//! a substring match against exactly one allow-listed column and refuses
//! any other column before looking at a single row; `get_all_food`
//! returns every row.  An adapter over a relational driver can reuse the
//! same row encoding; this in-memory form carries the contracts.

use crate::clock::today_checked;
use crate::date::{spec_iso_date, spec_parse_dmy, parse_dmy, Date, MAX_YEAR};
use crate::errors::{StoreError, ValidationError};
use crate::handlers::spec_parse_dmy_result;
use crate::models::FoodStock;
use crate::text::{
    chars_eq_ignore_case, contains_sub_ci, eq_ignore_ascii_case, seq_contains_sub_ci, spec_trim, str_eq,
    str_to_chars, trim_chars,
};
use vstd::prelude::*;

verus! {

/// Connection settings for a relational backing store; the library's
/// verified store keeps rows in memory, and an adapter reads these
/// settings to reach a real database.
pub struct DbConfig {
    pub url: String,
    pub database: String,
}

impl DbConfig {
    pub fn new(url: &str, database: &str) -> (r: Self)
        ensures
            r.url@ == url@,
            r.database@ == database@,
    {
        DbConfig { url: url.to_owned(), database: database.to_owned() }
    }
}

/// The mathematical image of one stored row.
pub struct StoredRow {
    pub name: Seq<char>,
    pub stock_date: Seq<char>,
    pub food_type: Seq<char>,
    pub nutrient: Seq<char>,
    pub storage_type: Seq<char>,
    pub expiry_date: Seq<char>,
    pub quantity: Seq<char>,
}

/// One row as handed back to callers.
#[derive(Debug, PartialEq, Eq)]
pub struct SearchResult {
    pub name: String,
    pub stock_date: String,
    pub food_type: String,
    pub nutrient: String,
    pub storage_type: String,
    pub expiry_date: String,
    pub quantity: String,
}

impl View for SearchResult {
    type V = StoredRow;

    open spec fn view(&self) -> StoredRow {
        StoredRow {
            name: self.name@,
            stock_date: self.stock_date@,
            food_type: self.food_type@,
            nutrient: self.nutrient@,
            storage_type: self.storage_type@,
            expiry_date: self.expiry_date@,
            quantity: self.quantity@,
        }
    }
}

/// The row a food item is stored as.
pub open spec fn row_of_food(f: FoodStock) -> StoredRow {
    StoredRow {
        name: f.name@,
        stock_date: spec_iso_date(f.stock_date),
        food_type: f.food_type.spec_stored(),
        nutrient: f.nutrient.spec_stored(),
        storage_type: f.storage_type.spec_stored(),
        expiry_date: spec_iso_date(f.expiry_date),
        quantity: f.quantity.spec_display(),
    }
}

/// Encodes a food item as its stored row.
pub fn record_of_food(f: &FoodStock) -> (r: SearchResult)
    requires
        f.inv(),
    ensures
        r@ == row_of_food(*f),
{
    let mut ft: Vec<char> = Vec::new();
    f.food_type.push_stored(&mut ft);
    let mut nu: Vec<char> = Vec::new();
    f.nutrient.push_stored(&mut nu);
    let mut st: Vec<char> = Vec::new();
    f.storage_type.push_stored(&mut st);
    SearchResult {
        name: f.name.clone(),
        stock_date: f.stock_date.iso_string(),
        food_type: crate::text::chars_to_string(&ft),
        nutrient: crate::text::chars_to_string(&nu),
        storage_type: crate::text::chars_to_string(&st),
        expiry_date: f.expiry_date.iso_string(),
        quantity: f.quantity.display_string(),
    }
}

/// Copies a row.
pub fn clone_record(x: &SearchResult) -> (r: SearchResult)
    ensures
        r@ == x@,
{
    SearchResult {
        name: x.name.clone(),
        stock_date: x.stock_date.clone(),
        food_type: x.food_type.clone(),
        nutrient: x.nutrient.clone(),
        storage_type: x.storage_type.clone(),
        expiry_date: x.expiry_date.clone(),
        quantity: x.quantity.clone(),
    }
}

/// The search columns a caller may name.
pub open spec fn spec_allowed_field(f: Seq<char>) -> bool {
    f == "name"@ || f == "food_type"@ || f == "nutrient"@ || f == "storage_type"@
}

/// Executable allow-list test, shared with any adapter over a
/// relational driver: the sole defense against column injection through
/// the field selector, since a column name cannot be parameter-bound.
pub fn allowed_field(field: &str) -> (r: bool)
    ensures
        r == spec_allowed_field(field@),
{
    str_eq(field, "name") || str_eq(field, "food_type") || str_eq(field, "nutrient") || str_eq(
        field,
        "storage_type",
    )
}

/// The named column of a row (defined for allowed fields).
pub open spec fn field_of(row: StoredRow, f: Seq<char>) -> Seq<char> {
    if f == "name"@ {
        row.name
    } else if f == "food_type"@ {
        row.food_type
    } else if f == "nutrient"@ {
        row.nutrient
    } else {
        row.storage_type
    }
}

/// Whether a row matches a search: the trimmed keyword occurs inside
/// the named column, ASCII letters compared without regard to case, as
/// the backing store's default collation matches.
pub open spec fn row_matches(row: StoredRow, f: Seq<char>, pattern: Seq<char>) -> bool {
    seq_contains_sub_ci(field_of(row, f), pattern)
}

/// The rows a search returns, in stored order.
pub open spec fn spec_search(rows: Seq<StoredRow>, f: Seq<char>, keyword: Seq<char>) -> Seq<
    StoredRow,
> {
    rows.filter(|row: StoredRow| row_matches(row, f, spec_trim(keyword)))
}

/// The images of a row vector.
pub open spec fn views_of(rows: Seq<SearchResult>) -> Seq<StoredRow> {
    Seq::new(rows.len(), |i: int| rows[i]@)
}

/// The food-stock store.
pub struct FoodDb {
    rows: Vec<SearchResult>,
}

impl View for FoodDb {
    type V = Seq<StoredRow>;

    closed spec fn view(&self) -> Seq<StoredRow> {
        Seq::new(self.rows@.len(), |i: int| self.rows@[i]@)
    }
}

impl FoodDb {
    /// An empty store.
    pub fn new() -> (r: Self)
        ensures
            r@ =~= Seq::<StoredRow>::empty(),
    {
        FoodDb { rows: Vec::new() }
    }

    /// Inserts one item: the store afterwards holds exactly the old rows
    /// followed by the encoding of `food`.
    pub fn add_food(&mut self, food: FoodStock) -> (r: Result<(), StoreError>)
        requires
            food.inv(),
        ensures
            r is Ok,
            final(self)@ == old(self)@.push(row_of_food(food)),
    {
        let rec = record_of_food(&food);
        self.rows.push(rec);
        proof {
            assert(self@ =~= old(self)@.push(row_of_food(food)));
        }
        Ok(())
    }

    /// Returns every row, in stored order.
    pub fn get_all_food(&self) -> (r: Result<Vec<SearchResult>, StoreError>)
        ensures
            r is Ok,
            r->Ok_0@.len() == self@.len(),
            forall|i: int| 0 <= i < self@.len() ==> (#[trigger] r->Ok_0@[i])@ == self@[i],
    {
        let n = self.rows.len();
        let mut out: Vec<SearchResult> = Vec::new();
        let mut i: usize = 0;
        while i < n
            invariant
                i <= n,
                n == self.rows@.len(),
                out@.len() == i,
                forall|j: int| 0 <= j < i ==> (#[trigger] out@[j])@ == self@[j],
            decreases n - i,
        {
            out.push(clone_record(&self.rows[i]));
            i = i + 1;
        }
        Ok(out)
    }

    /// Searches one allow-listed column for rows containing the trimmed
    /// keyword; any other column is refused before a row is read.
    pub fn advanced_search(&self, keyword: &str, field: &str) -> (r: Result<
        Vec<SearchResult>,
        StoreError,
    >)
        ensures
            !spec_allowed_field(field@) ==> r == Err::<Vec<SearchResult>, StoreError>(
                StoreError::DisallowedSearchField,
            ),
            spec_allowed_field(field@) ==> r is Ok && views_of(r->Ok_0@) == spec_search(
                self@,
                field@,
                keyword@,
            ),
    {
        proof {
            reveal_strlit("name");
            reveal_strlit("food_type");
            reveal_strlit("nutrient");
            reveal_strlit("storage_type");
            assert("name"@.len() == 4);
            assert("food_type"@.len() == 9);
            assert("nutrient"@.len() == 8);
            assert("storage_type"@.len() == 12);
        }
        let sel: u8 = if str_eq(field, "name") {
            0
        } else if str_eq(field, "food_type") {
            1
        } else if str_eq(field, "nutrient") {
            2
        } else if str_eq(field, "storage_type") {
            3
        } else {
            4
        };
        if sel == 4 {
            return Err(StoreError::DisallowedSearchField);
        }
        let keyword_chars = str_to_chars(keyword);
        let pattern = trim_chars(&keyword_chars);
        let n = self.rows.len();
        let mut out: Vec<SearchResult> = Vec::new();
        let mut i: usize = 0;
        proof {
            reveal(Seq::filter);
            assert(self@.take(0) =~= Seq::<StoredRow>::empty());
            assert(views_of(out@) =~= spec_search(self@.take(0), field@, keyword@));
        }
        while i < n
            invariant
                i <= n,
                n == self.rows@.len(),
                n == self@.len(),
                sel <= 3,
                sel == 0 ==> field@ == "name"@,
                sel == 1 ==> field@ == "food_type"@,
                sel == 2 ==> field@ == "nutrient"@,
                sel == 3 ==> field@ == "storage_type"@,
                spec_allowed_field(field@),
                pattern@ == spec_trim(keyword@),
                views_of(out@) == spec_search(self@.take(i as int), field@, keyword@),
            decreases n - i,
        {
            proof {
                assert(self@[i as int] == self.rows@[i as int]@);
            }
            let row = &self.rows[i];
            let hay = if sel == 0 {
                str_to_chars(row.name.as_str())
            } else if sel == 1 {
                str_to_chars(row.food_type.as_str())
            } else if sel == 2 {
                str_to_chars(row.nutrient.as_str())
            } else {
                str_to_chars(row.storage_type.as_str())
            };
            proof {
                reveal_strlit("name");
                reveal_strlit("food_type");
                reveal_strlit("nutrient");
                reveal_strlit("storage_type");
                assert("name"@.len() == 4);
                assert("food_type"@.len() == 9);
                assert("nutrient"@.len() == 8);
                assert("storage_type"@.len() == 12);
                assert(hay@ == field_of(self@[i as int], field@));
            }
            let hit = contains_sub_ci(&hay, &pattern);
            proof {
                reveal(Seq::filter);
                assert(self@.take(i + 1 as int).drop_last() =~= self@.take(i as int));
                assert(self@.take(i + 1 as int).last() == self@[i as int]);
                assert(hit == row_matches(self@[i as int], field@, spec_trim(keyword@)));
            }
            if hit {
                out.push(clone_record(row));
                proof {
                    assert(views_of(out@) =~= spec_search(self@.take(i + 1 as int), field@,
                    keyword@));
                }
            } else {
                proof {
                    assert(views_of(out@) =~= spec_search(self@.take(i + 1 as int), field@,
                    keyword@));
                }
            }
            i = i + 1;
        }
        proof {
            assert(self@.take(n as int) =~= self@);
        }
        Ok(out)
    }
}

/// The result of reading a free-form date query against a known current
/// date: the tokens `today`, `tomorrow` and `yesterday` (trimmed,
/// ASCII-case-insensitive) resolve relative to `today`; anything else
/// must be `DD-MM-YYYY` after trimming.
pub open spec fn spec_parse_query_date(s: Seq<char>, today: Date) -> Result<
    Date,
    ValidationError,
> {
    let t = spec_trim(s);
    if eq_ignore_ascii_case(t, "today"@) {
        Ok(today)
    } else if eq_ignore_ascii_case(t, "tomorrow"@) {
        Ok(today.next())
    } else if eq_ignore_ascii_case(t, "yesterday"@) {
        Ok(today.prev())
    } else {
        spec_parse_dmy_result(t)
    }
}

/// Reads a free-form date query against an explicitly supplied current
/// date; the deterministic core behind [`parse_query_to_date`].
pub fn parse_query_date_with(query: &str, today: Date) -> (r: Result<Date, ValidationError>)
    requires
        today.wf(),
        !today.is_min(),
        today.year + 400 <= MAX_YEAR,
    ensures
        r == spec_parse_query_date(query@, today),
        r is Ok ==> r->Ok_0.wf(),
{
    let chars = str_to_chars(query);
    let t = trim_chars(&chars);
    if chars_eq_ignore_case(&t, "today") {
        Ok(today)
    } else if chars_eq_ignore_case(&t, "tomorrow") {
        Ok(today.next_day())
    } else if chars_eq_ignore_case(&t, "yesterday") {
        Ok(today.prev_day())
    } else {
        match parse_dmy(&t) {
            Some(d) => Ok(d),
            None => Err(ValidationError::InvalidDateFormat),
        }
    }
}

/// Reads a free-form date query (`today`, `tomorrow`, `yesterday` or
/// `DD-MM-YYYY`) against the system clock.
pub fn parse_query_to_date(query: &str) -> (r: Result<Date, ValidationError>)
    ensures
        r is Ok ==> r->Ok_0.wf(),
        r is Err ==> r == Err::<Date, ValidationError>(ValidationError::InvalidDateFormat),
        (!eq_ignore_ascii_case(spec_trim(query@), "today"@) && !eq_ignore_ascii_case(
            spec_trim(query@),
            "tomorrow"@,
        ) && !eq_ignore_ascii_case(spec_trim(query@), "yesterday"@)) ==> r == spec_parse_dmy_result(
            spec_trim(query@),
        ),
{
    let chars = str_to_chars(query);
    let t = trim_chars(&chars);
    let is_token = chars_eq_ignore_case(&t, "today") || chars_eq_ignore_case(&t, "tomorrow")
        || chars_eq_ignore_case(&t, "yesterday");
    if is_token {
        match today_checked() {
            Some(today) => parse_query_date_with(query, today),
            None => Err(ValidationError::InvalidDateFormat),
        }
    } else {
        match parse_dmy(&t) {
            Some(d) => Ok(d),
            None => Err(ValidationError::InvalidDateFormat),
        }
    }
}


/// Round trip: after an insert the store holds the new item's row, and
/// that row's fields are exactly the encodings of the item's fields —
/// its name, both dates, category, storage condition and quantity all
/// come back out as stored.
pub proof fn lemma_add_round_trip(rows: Seq<StoredRow>, food: FoodStock)
    requires
        food.inv(),
    ensures
        rows.push(row_of_food(food)).contains(row_of_food(food)),
        row_of_food(food).name == food.name@,
        row_of_food(food).stock_date == spec_iso_date(food.stock_date),
        row_of_food(food).food_type == food.food_type.spec_stored(),
        row_of_food(food).nutrient == food.nutrient.spec_stored(),
        row_of_food(food).storage_type == food.storage_type.spec_stored(),
        row_of_food(food).expiry_date == spec_iso_date(food.expiry_date),
        row_of_food(food).quantity == food.quantity.spec_display(),
{
    let new_rows = rows.push(row_of_food(food));
    assert(new_rows[rows.len() as int] == row_of_food(food));
}

} // verus!
