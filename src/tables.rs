//! Rate tables: selecting one product's rows and looking a key up.
use crate::enums::{GenderEnum, IntRateScenarioEnum, ProductName, ULEnum};
use crate::error::ProjectionError;
use crate::policy::ModalFactors;
use vstd::prelude::*;

verus! {

/// One row of a product-scoped table keyed by year, age or calendar year.
#[derive(Clone, Debug)]
pub struct ProductRateRow {
    pub product: String,
    pub key: i32,
    pub value: u64,
}

/// One row of the cost-of-insurance table, scoped by product and gender.
#[derive(Clone, Debug)]
pub struct CoiRateRow {
    pub product: String,
    pub gender: i32,
    pub age: i32,
    pub rate: u64,
}

/// One row of the allocation-charge table: both charge rates of a year.
#[derive(Clone, Debug)]
pub struct AllocChrgRateRow {
    pub product: String,
    pub year: i32,
    pub tp_rate: u64,
    pub ep_rate: u64,
}

/// One row of the age-validation table; -1 asks for manual intervention.
#[derive(Clone, Debug)]
pub struct AgeValidationRow {
    pub product: String,
    pub min_entry_age: i32,
    pub max_entry_age: i32,
    pub maturity_age: i32,
}

/// A key and its value in a table of one product.
#[derive(Clone, Copy, Debug, PartialEq, Eq, Structural)]
pub struct RateEntry {
    pub key: i32,
    pub value: u64,
}

/// The entries of one product's table, in the table's order.
#[derive(Clone, Debug)]
pub struct RateTable {
    pub entries: Vec<RateEntry>,
}

/// The value of the first entry with `key`, else `default`.
pub open spec fn lookup_in(entries: Seq<RateEntry>, key: int, default: int) -> int
    decreases entries.len(),
{
    if entries.len() == 0 {
        default
    } else if entries[0].key == key {
        entries[0].value as int
    } else {
        lookup_in(entries.drop_first(), key, default)
    }
}

impl RateTable {
    /// The value filed under `key`, or `default` where there is none.
    pub fn lookup(&self, key: i32, default: u64) -> (r: u64)
        ensures
            r == lookup_in(self.entries@, key as int, default as int),
    {
        let mut i: usize = 0;
        proof {
            assert(self.entries@.skip(0) =~= self.entries@);
        }
        while i < self.entries.len()
            invariant
                i <= self.entries.len(),
                lookup_in(self.entries@, key as int, default as int) == lookup_in(
                    self.entries@.skip(i as int),
                    key as int,
                    default as int,
                ),
            decreases self.entries.len() - i,
        {
            proof {
                assert(self.entries@.skip(i as int).drop_first() =~= self.entries@.skip(
                    i as int + 1,
                ));
            }
            if self.entries[i].key == key {
                return self.entries[i].value;
            }
            i = i + 1;
        }
        default
    }
}

/// The (key, value) entries of the rows filed under `name`, in order.
pub open spec fn select_rows(rows: Seq<ProductRateRow>, name: Seq<char>) -> Seq<RateEntry>
    decreases rows.len(),
{
    if rows.len() == 0 {
        seq![]
    } else {
        let before = select_rows(rows.drop_last(), name);
        if rows.last().product@ == name {
            before.push(RateEntry { key: rows.last().key, value: rows.last().value })
        } else {
            before
        }
    }
}

/// The rows of `rows` filed under `name`, as a table.
pub fn select_product_rows(rows: &Vec<ProductRateRow>, name: &String) -> (r: RateTable)
    ensures
        r.entries@ == select_rows(rows@, name@),
{
    let mut entries: Vec<RateEntry> = Vec::new();
    let mut i: usize = 0;
    while i < rows.len()
        invariant
            i <= rows.len(),
            entries@ == select_rows(rows@.take(i as int), name@),
        decreases rows.len() - i,
    {
        proof {
            assert(rows@.take(i as int + 1).drop_last() =~= rows@.take(i as int));
        }
        if rows[i].product == *name {
            entries.push(RateEntry { key: rows[i].key, value: rows[i].value });
        }
        i = i + 1;
    }
    proof {
        assert(rows@.take(rows.len() as int) =~= rows@);
    }
    RateTable { entries }
}

/// Monthly administration charge of `product` by calendar year.
pub fn get_admin_chrg_lf(product: &ULEnum, rows: &Vec<ProductRateRow>) -> (r: RateTable)
    ensures
        r.entries@ == select_rows(rows@, product.spec_name()),
{
    select_product_rows(rows, &product.product_name())
}

/// Juvenile-lien factor of `product` by attained age.
pub fn get_juvenile_lien_rate_lf(product: &ULEnum, rows: &Vec<ProductRateRow>) -> (r: RateTable)
    ensures
        r.entries@ == select_rows(rows@, product.spec_name()),
{
    select_product_rows(rows, &product.product_name())
}

/// Loyalty-bonus rate of `product` by policy year.
pub fn get_lb_rate_lf(product: &ULEnum, rows: &Vec<ProductRateRow>) -> (r: RateTable)
    ensures
        r.entries@ == select_rows(rows@, product.spec_name()),
{
    select_product_rows(rows, &product.product_name())
}

/// Surrender-charge rate of `product` by policy year.
pub fn get_srr_chrg_rate_lf(product: &ULEnum, rows: &Vec<ProductRateRow>) -> (r: RateTable)
    ensures
        r.entries@ == select_rows(rows@, product.spec_name()),
{
    select_product_rows(rows, &product.product_name())
}

/// Which of the two allocation charges.
#[derive(Clone, Copy, Debug, PartialEq, Eq, Structural)]
pub enum ChrgEnum {
    TP,
    EP,
}

/// The allocation-charge rates of one kind filed under `name`, by year.
pub open spec fn select_alloc_rows(rows: Seq<AllocChrgRateRow>, name: Seq<char>, kind: ChrgEnum) -> Seq<
    RateEntry,
>
    decreases rows.len(),
{
    if rows.len() == 0 {
        seq![]
    } else {
        let before = select_alloc_rows(rows.drop_last(), name, kind);
        let row = rows.last();
        if row.product@ == name {
            before.push(
                RateEntry {
                    key: row.year,
                    value: if kind == ChrgEnum::TP { row.tp_rate } else { row.ep_rate },
                },
            )
        } else {
            before
        }
    }
}

/// Allocation-charge rates of one kind for `product`, by policy year.
pub fn get_alloc_chrg_rate_lf(
    product: &ULEnum,
    chrg_type: ChrgEnum,
    rows: &Vec<AllocChrgRateRow>,
) -> (r: RateTable)
    ensures
        r.entries@ == select_alloc_rows(rows@, product.spec_name(), chrg_type),
{
    let name = product.product_name();
    let mut entries: Vec<RateEntry> = Vec::new();
    let mut i: usize = 0;
    while i < rows.len()
        invariant
            i <= rows.len(),
            name@ == product.spec_name(),
            entries@ == select_alloc_rows(rows@.take(i as int), name@, chrg_type),
        decreases rows.len() - i,
    {
        proof {
            assert(rows@.take(i as int + 1).drop_last() =~= rows@.take(i as int));
        }
        if rows[i].product == name {
            let value = match chrg_type {
                ChrgEnum::TP => rows[i].tp_rate,
                ChrgEnum::EP => rows[i].ep_rate,
            };
            entries.push(RateEntry { key: rows[i].year, value });
        }
        i = i + 1;
    }
    proof {
        assert(rows@.take(rows.len() as int) =~= rows@);
    }
    RateTable { entries }
}

/// Target-premium allocation-charge rate of `product` by policy year.
pub fn get_tp_alloc_chrg_rate_lf(product: &ULEnum, rows: &Vec<AllocChrgRateRow>) -> (r: RateTable)
    ensures
        r.entries@ == select_alloc_rows(rows@, product.spec_name(), ChrgEnum::TP),
{
    get_alloc_chrg_rate_lf(product, ChrgEnum::TP, rows)
}

/// Excess-premium allocation-charge rate of `product` by policy year.
pub fn get_ep_alloc_chrg_rate_lf(product: &ULEnum, rows: &Vec<AllocChrgRateRow>) -> (r: RateTable)
    ensures
        r.entries@ == select_alloc_rows(rows@, product.spec_name(), ChrgEnum::EP),
{
    get_alloc_chrg_rate_lf(product, ChrgEnum::EP, rows)
}

/// The cost-of-insurance rates filed under `name` and `gender`, by age.
pub open spec fn select_coi_rows(rows: Seq<CoiRateRow>, name: Seq<char>, gender: i32) -> Seq<
    RateEntry,
>
    decreases rows.len(),
{
    if rows.len() == 0 {
        seq![]
    } else {
        let before = select_coi_rows(rows.drop_last(), name, gender);
        let row = rows.last();
        if row.product@ == name && row.gender == gender {
            before.push(RateEntry { key: row.age, value: row.rate })
        } else {
            before
        }
    }
}

/// Cost-of-insurance rate of `product` for `gender`, by attained age.
pub fn get_coi_rate_lf(product: &ULEnum, gender: &GenderEnum, rows: &Vec<CoiRateRow>) -> (r:
    RateTable)
    ensures
        r.entries@ == select_coi_rows(rows@, product.spec_name(), gender.spec_code()),
{
    let name = product.product_name();
    let code = gender.code();
    let mut entries: Vec<RateEntry> = Vec::new();
    let mut i: usize = 0;
    while i < rows.len()
        invariant
            i <= rows.len(),
            name@ == product.spec_name(),
            code == gender.spec_code(),
            entries@ == select_coi_rows(rows@.take(i as int), name@, code),
        decreases rows.len() - i,
    {
        proof {
            assert(rows@.take(i as int + 1).drop_last() =~= rows@.take(i as int));
        }
        if rows[i].product == name && rows[i].gender == code {
            entries.push(RateEntry { key: rows[i].age, value: rows[i].rate });
        }
        i = i + 1;
    }
    proof {
        assert(rows@.take(rows.len() as int) =~= rows@);
    }
    RateTable { entries }
}

/// Which bound of the age-validation table.
#[derive(Clone, Copy, Debug, PartialEq, Eq, Structural)]
pub enum AgeValidationTypeEnum {
    Min,
    Max,
    Maturity,
}

pub open spec fn age_bound_of(row: AgeValidationRow, kind: AgeValidationTypeEnum) -> i32 {
    match kind {
        AgeValidationTypeEnum::Min => row.min_entry_age,
        AgeValidationTypeEnum::Max => row.max_entry_age,
        AgeValidationTypeEnum::Maturity => row.maturity_age,
    }
}

/// The age bound of one kind for `product`, from the first row filed under
/// its name; -1 means the product asks for manual intervention. Fails with
/// `MissingRate` where no row is filed under the name.
pub fn get_age_validation<T: ProductName>(
    product: &T,
    validate_type: AgeValidationTypeEnum,
    rows: &Vec<AgeValidationRow>,
) -> (r: Result<i32, ProjectionError>)
    ensures
        match r {
            Ok(age) => exists|i: int|
                0 <= i < rows@.len() && rows@[i].product@ == product.spec_name() && (forall|j: int|
                    0 <= j < i ==> rows@[j].product@ != product.spec_name()) && age
                    == age_bound_of(rows@[i], validate_type),
            Err(e) => e == ProjectionError::MissingRate && forall|i: int|
                0 <= i < rows@.len() ==> rows@[i].product@ != product.spec_name(),
        },
{
    let name = product.product_name();
    let mut i: usize = 0;
    while i < rows.len()
        invariant
            i <= rows.len(),
            name@ == product.spec_name(),
            forall|j: int| 0 <= j < i ==> rows@[j].product@ != name@,
        decreases rows.len() - i,
    {
        if rows[i].product == name {
            let age = match validate_type {
                AgeValidationTypeEnum::Min => rows[i].min_entry_age,
                AgeValidationTypeEnum::Max => rows[i].max_entry_age,
                AgeValidationTypeEnum::Maturity => rows[i].maturity_age,
            };
            return Ok(age);
        }
        i = i + 1;
    }
    Err(ProjectionError::MissingRate)
}

/// Smallest entry age of `product`; see `get_age_validation`.
pub fn get_min_entry_age<T: ProductName>(product: &T, rows: &Vec<AgeValidationRow>) -> (r: Result<
    i32,
    ProjectionError,
>)
    ensures
        match r {
            Ok(age) => exists|i: int|
                0 <= i < rows@.len() && rows@[i].product@ == product.spec_name() && (forall|j: int|
                    0 <= j < i ==> rows@[j].product@ != product.spec_name()) && age
                    == rows@[i].min_entry_age,
            Err(e) => e == ProjectionError::MissingRate && forall|i: int|
                0 <= i < rows@.len() ==> rows@[i].product@ != product.spec_name(),
        },
{
    get_age_validation(product, AgeValidationTypeEnum::Min, rows)
}

/// Largest entry age of `product`; see `get_age_validation`.
pub fn get_max_entry_age<T: ProductName>(product: &T, rows: &Vec<AgeValidationRow>) -> (r: Result<
    i32,
    ProjectionError,
>)
    ensures
        match r {
            Ok(age) => exists|i: int|
                0 <= i < rows@.len() && rows@[i].product@ == product.spec_name() && (forall|j: int|
                    0 <= j < i ==> rows@[j].product@ != product.spec_name()) && age
                    == rows@[i].max_entry_age,
            Err(e) => e == ProjectionError::MissingRate && forall|i: int|
                0 <= i < rows@.len() ==> rows@[i].product@ != product.spec_name(),
        },
{
    get_age_validation(product, AgeValidationTypeEnum::Max, rows)
}

/// Maturity age of `product`; see `get_age_validation`.
pub fn get_maturity_age<T: ProductName>(product: &T, rows: &Vec<AgeValidationRow>) -> (r: Result<
    i32,
    ProjectionError,
>)
    ensures
        match r {
            Ok(age) => exists|i: int|
                0 <= i < rows@.len() && rows@[i].product@ == product.spec_name() && (forall|j: int|
                    0 <= j < i ==> rows@[j].product@ != product.spec_name()) && age
                    == rows@[i].maturity_age,
            Err(e) => e == ProjectionError::MissingRate && forall|i: int|
                0 <= i < rows@.len() ==> rows@[i].product@ != product.spec_name(),
        },
{
    get_age_validation(product, AgeValidationTypeEnum::Maturity, rows)
}


/// One row of the extra-premium rate table.
#[derive(Clone, Debug)]
pub struct ExtraPremRateRow {
    pub product: String,
    pub gender: i32,
    pub age: i32,
    pub term: i32,
    pub rate: u64,
}

pub open spec fn extra_prem_key(row: ExtraPremRateRow, name: Seq<char>, gender: i32, age: i32, term: i32) -> bool {
    row.product@ == name && row.gender == gender && row.age == age && row.term == term
}

/// The extra-premium rate of `product` for `gender`, entry age `age` and
/// load term `term`; terms beyond 99 read the row of term 99. The first
/// matching row counts; `MissingRate` where none matches.
pub fn get_extra_prem_rate(
    product: &ULEnum,
    gender: &GenderEnum,
    age: &i32,
    term: &i32,
    rows: &Vec<ExtraPremRateRow>,
) -> (r: Result<u64, ProjectionError>)
    ensures
        ({
            let t = if *term < 99 { *term } else { 99 };
            let key = |row: ExtraPremRateRow|
                extra_prem_key(row, product.spec_name(), gender.spec_code(), *age, t);
            match r {
                Ok(v) => exists|i: int|
                    0 <= i < rows@.len() && key(rows@[i]) && (forall|j: int|
                        0 <= j < i ==> !key(#[trigger] rows@[j])) && v == rows@[i].rate,
                Err(e) => e == ProjectionError::MissingRate && forall|i: int|
                    0 <= i < rows@.len() ==> !key(#[trigger] rows@[i]),
            }
        }),
{
    let name = product.product_name();
    let code = gender.code();
    let t: i32 = if *term < 99 { *term } else { 99 };
    let mut i: usize = 0;
    while i < rows.len()
        invariant
            i <= rows.len(),
            name@ == product.spec_name(),
            code == gender.spec_code(),
            t == if *term < 99 { *term } else { 99 },
            forall|j: int| 0 <= j < i ==> !extra_prem_key(#[trigger] rows@[j], name@, code, *age, t),
        decreases rows.len() - i,
    {
        let row = &rows[i];
        if row.product == name && row.gender == code && row.age == *age && row.term == t {
            return Ok(row.rate);
        }
        i = i + 1;
    }
    Err(ProjectionError::MissingRate)
}

/// One row of the premium-rate table: premium per 1000 of sum insured.
#[derive(Clone, Debug)]
pub struct PremRateRow {
    pub product: String,
    pub gender: i32,
    pub age: i32,
    pub rate: u64,
}

pub open spec fn prem_key(row: PremRateRow, name: Seq<char>, gender: i32, age: i32) -> bool {
    row.product@ == name && row.gender == gender && row.age == age
}

/// The premium rate of `product` for `gender` and entry age `age`, from the
/// first matching row; `MissingRate` where none matches.
pub fn get_prem_rate(product: &ULEnum, gender: &GenderEnum, age: &i32, rows: &Vec<PremRateRow>) -> (r:
    Result<u64, ProjectionError>)
    ensures
        match r {
            Ok(v) => exists|i: int|
                0 <= i < rows@.len() && prem_key(rows@[i], product.spec_name(), gender.spec_code(), *age)
                    && (forall|j: int|
                    0 <= j < i ==> !prem_key(
                        #[trigger] rows@[j],
                        product.spec_name(),
                        gender.spec_code(),
                        *age,
                    )) && v == rows@[i].rate,
            Err(e) => e == ProjectionError::MissingRate && forall|i: int|
                0 <= i < rows@.len() ==> !prem_key(
                    #[trigger] rows@[i],
                    product.spec_name(),
                    gender.spec_code(),
                    *age,
                ),
        },
{
    let name = product.product_name();
    let code = gender.code();
    let mut i: usize = 0;
    while i < rows.len()
        invariant
            i <= rows.len(),
            name@ == product.spec_name(),
            code == gender.spec_code(),
            forall|j: int| 0 <= j < i ==> !prem_key(#[trigger] rows@[j], name@, code, *age),
        decreases rows.len() - i,
    {
        let row = &rows[i];
        if row.product == name && row.gender == code && row.age == *age {
            return Ok(row.rate);
        }
        i = i + 1;
    }
    Err(ProjectionError::MissingRate)
}

/// One row of the interest-rate table; scenarios are filed as 0 (high),
/// 1 (low) and 2 (guaranteed).
#[derive(Clone, Debug)]
pub struct IntRateRow {
    pub product: String,
    pub scenario: i32,
    pub rate: u64,
}

pub open spec fn scenario_code(s: IntRateScenarioEnum) -> i32 {
    match s {
        IntRateScenarioEnum::High => 0,
        IntRateScenarioEnum::Low => 1,
        IntRateScenarioEnum::Guaranteed => 2,
    }
}

pub open spec fn int_rate_key(row: IntRateRow, name: Seq<char>, code: i32) -> bool {
    row.product@ == name && row.scenario == code
}

/// The high interest rate of `product`; see `get_int_rate`.
pub fn get_hir(product: &ULEnum, rows: &Vec<IntRateRow>) -> (r: Result<u64, ProjectionError>)
    ensures
        r == get_int_rate_result(*product, IntRateScenarioEnum::High, rows@),
{
    get_int_rate(product, IntRateScenarioEnum::High, rows)
}

/// The low interest rate of `product`; see `get_int_rate`.
pub fn get_lir(product: &ULEnum, rows: &Vec<IntRateRow>) -> (r: Result<u64, ProjectionError>)
    ensures
        r == get_int_rate_result(*product, IntRateScenarioEnum::Low, rows@),
{
    get_int_rate(product, IntRateScenarioEnum::Low, rows)
}

/// The guaranteed interest rate of `product`; see `get_int_rate`.
pub fn get_gir(product: &ULEnum, rows: &Vec<IntRateRow>) -> (r: Result<u64, ProjectionError>)
    ensures
        r == get_int_rate_result(*product, IntRateScenarioEnum::Guaranteed, rows@),
{
    get_int_rate(product, IntRateScenarioEnum::Guaranteed, rows)
}

/// The rate of the first row of `rows` filed under `product` and `scenario`.
pub open spec fn get_int_rate_result(
    product: ULEnum,
    scenario: IntRateScenarioEnum,
    rows: Seq<IntRateRow>,
) -> Result<u64, ProjectionError>
    decreases rows.len(),
{
    if rows.len() == 0 {
        Err(ProjectionError::MissingRate)
    } else if int_rate_key(rows[0], product.spec_name(), scenario_code(scenario)) {
        Ok(rows[0].rate)
    } else {
        get_int_rate_result(product, scenario, rows.drop_first())
    }
}

/// The annual interest rate of `product` under `scenario`, from the first
/// matching row; `MissingRate` where none matches.
fn get_int_rate(product: &ULEnum, scenario: IntRateScenarioEnum, rows: &Vec<IntRateRow>) -> (r:
    Result<u64, ProjectionError>)
    ensures
        r == get_int_rate_result(*product, scenario, rows@),
{
    let name = product.product_name();
    let code: i32 = match scenario {
        IntRateScenarioEnum::High => 0,
        IntRateScenarioEnum::Low => 1,
        IntRateScenarioEnum::Guaranteed => 2,
    };
    let mut i: usize = 0;
    proof {
        assert(rows@.skip(0) =~= rows@);
    }
    while i < rows.len()
        invariant
            i <= rows.len(),
            name@ == product.spec_name(),
            code == scenario_code(scenario),
            get_int_rate_result(*product, scenario, rows@) == get_int_rate_result(
                *product,
                scenario,
                rows@.skip(i as int),
            ),
        decreases rows.len() - i,
    {
        proof {
            assert(rows@.skip(i as int).drop_first() =~= rows@.skip(i as int + 1));
            assert(rows@.skip(i as int)[0] == rows@[i as int]);
        }
        let row = &rows[i];
        if row.product == name && row.scenario == code {
            return Ok(row.rate);
        }
        i = i + 1;
    }
    Err(ProjectionError::MissingRate)
}

/// One row of the modal-factor table; modes are filed as 0 (annual),
/// 1 (semi-annual), 2 (quarterly) and 3 (monthly).
#[derive(Clone, Debug)]
pub struct ModalFactorRow {
    pub product: String,
    pub mode: i32,
    pub rate: u64,
}

/// Number of rows filed under `name`.
pub open spec fn count_product_rows(rows: Seq<ModalFactorRow>, name: Seq<char>) -> int
    decreases rows.len(),
{
    if rows.len() == 0 {
        0
    } else {
        count_product_rows(rows.drop_last(), name) + if rows.last().product@ == name {
            1int
        } else {
            0int
        }
    }
}

/// The rate of the first row filed under `name` for `mode`.
pub open spec fn mode_rate(rows: Seq<ModalFactorRow>, name: Seq<char>, mode: i32) -> Option<u64>
    decreases rows.len(),
{
    if rows.len() == 0 {
        None
    } else if rows[0].product@ == name && rows[0].mode == mode {
        Some(rows[0].rate)
    } else {
        mode_rate(rows.drop_first(), name, mode)
    }
}

fn find_mode_rate(rows: &Vec<ModalFactorRow>, name: &String, mode: i32) -> (r: Option<u64>)
    ensures
        r == mode_rate(rows@, name@, mode),
{
    let mut i: usize = 0;
    proof {
        assert(rows@.skip(0) =~= rows@);
    }
    while i < rows.len()
        invariant
            i <= rows.len(),
            mode_rate(rows@, name@, mode) == mode_rate(rows@.skip(i as int), name@, mode),
        decreases rows.len() - i,
    {
        proof {
            assert(rows@.skip(i as int).drop_first() =~= rows@.skip(i as int + 1));
            assert(rows@.skip(i as int)[0] == rows@[i as int]);
        }
        if rows[i].product == *name && rows[i].mode == mode {
            return Some(rows[i].rate);
        }
        i = i + 1;
    }
    None
}

/// The annual, semi-annual, quarterly and monthly factors of `product`. The
/// table must hold exactly four rows for it, one per mode; else
/// `MissingRate`.
pub fn get_modal_factor_tuple<T: ProductName>(product: &T, rows: &Vec<ModalFactorRow>) -> (r: Result<
    ModalFactors,
    ProjectionError,
>)
    ensures
        ({
            let name = product.spec_name();
            let ok = count_product_rows(rows@, name) == 4 && mode_rate(rows@, name, 0) is Some
                && mode_rate(rows@, name, 1) is Some && mode_rate(rows@, name, 2) is Some
                && mode_rate(rows@, name, 3) is Some;
            &&& r is Ok <==> ok
            &&& r matches Err(e) ==> e == ProjectionError::MissingRate
            &&& r matches Ok(f) ==> Some(f.annual) == mode_rate(rows@, name, 0) && Some(
                f.semi_annual,
            ) == mode_rate(rows@, name, 1) && Some(f.quarterly) == mode_rate(rows@, name, 2)
                && Some(f.monthly) == mode_rate(rows@, name, 3)
        }),
{
    let name = product.product_name();
    let mut count: usize = 0;
    let mut i: usize = 0;
    while i < rows.len()
        invariant
            i <= rows.len(),
            count <= i,
            count == count_product_rows(rows@.take(i as int), name@),
        decreases rows.len() - i,
    {
        proof {
            assert(rows@.take(i as int + 1).drop_last() =~= rows@.take(i as int));
        }
        if rows[i].product == name {
            count = count + 1;
        }
        i = i + 1;
    }
    proof {
        assert(rows@.take(rows.len() as int) =~= rows@);
    }
    if count != 4 {
        return Err(ProjectionError::MissingRate);
    }
    let annual = find_mode_rate(rows, &name, 0);
    let semi_annual = find_mode_rate(rows, &name, 1);
    let quarterly = find_mode_rate(rows, &name, 2);
    let monthly = find_mode_rate(rows, &name, 3);
    match (annual, semi_annual, quarterly, monthly) {
        (Some(a), Some(s), Some(q), Some(m)) => Ok(
            ModalFactors { annual: a, semi_annual: s, quarterly: q, monthly: m },
        ),
        _ => Err(ProjectionError::MissingRate),
    }
}

} // verus!
