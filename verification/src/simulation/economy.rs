use vstd::prelude::*;

use crate::rules::attributes::div_toward_zero;
use crate::simulation::civilian::JobRole;
use crate::text::{concat_str, copy_str, decimal, decimal_text, digit, digit_char, push_char};

verus! {

broadcast use vstd::string::group_string_axioms;

#[derive(Debug, Clone, Copy, PartialEq, Eq, Structural)]
pub enum Currency {
    Credits,
}

/// An amount of money in cents. Arithmetic on it saturates at the bounds of `i64`.
#[derive(Debug, Clone, Copy, PartialEq, Eq, Structural)]
pub struct Money {
    cents: i64,
}

impl View for Money {
    type V = int;

    /// The amount in cents.
    closed spec fn view(&self) -> int {
        self.cents as int
    }
}

/// `x` held within the range of `i64`.
pub open spec fn saturate_i64(x: int) -> int {
    if x > i64::MAX {
        i64::MAX as int
    } else if x < i64::MIN {
        i64::MIN as int
    } else {
        x
    }
}

fn saturate(x: i128) -> (r: i64)
    ensures
        r == saturate_i64(x as int),
{
    if x > i64::MAX as i128 {
        i64::MAX
    } else if x < i64::MIN as i128 {
        i64::MIN
    } else {
        x as i64
    }
}

/// `a / b` rounding toward zero, for a positive `b`.
fn div_trunc(a: i64, b: i64) -> (r: i64)
    requires
        b > 0,
    ensures
        r == div_toward_zero(a as int, b as int),
{
    let wide: i128 = a as i128;
    let q: i128 = if wide >= 0 {
        wide / (b as i128)
    } else {
        -((-wide) / (b as i128))
    };
    assert(-(i64::MAX as int) - 1 <= q <= i64::MAX) by (nonlinear_arith)
        requires
            q == div_toward_zero(a as int, b as int),
            b > 0,
            i64::MIN <= a <= i64::MAX,
    {
        if a >= 0 {
            assert(a as int / b as int <= a);
        } else {
            assert((-(a as int)) / (b as int) <= -(a as int));
        }
    }
    q as i64
}

/// Every amount lies within the range of `i64`.
pub proof fn lemma_money_range(m: Money)
    ensures
        i64::MIN <= m@ <= i64::MAX,
{
}

/// Two amounts with the same number of cents are the same amount.
pub proof fn lemma_money_view_injective(a: Money, b: Money)
    requires
        a@ == b@,
    ensures
        a == b,
{
}

/// Money arithmetic saturates: adding is commutative, adding zero leaves an amount as it
/// is, and subtracting what was added gives the amount back when the sum did not reach a
/// bound of `i64`.
pub proof fn law_money_arithmetic(a: Money, b: Money)
    ensures
        saturate_i64(a@ + b@) == saturate_i64(b@ + a@),
        saturate_i64(a@ + 0) == a@,
        saturate_i64(a@ - 0) == a@,
        i64::MIN <= a@ + b@ <= i64::MAX ==> saturate_i64(saturate_i64(a@ + b@) - b@) == a@,
        i64::MIN <= saturate_i64(a@ + b@) <= i64::MAX,
{
}

impl Money {
    pub fn zero() -> (m: Money)
        ensures
            m@ == 0,
    {
        Money { cents: 0 }
    }

    /// An amount given in cents.
    pub fn from_cents(cents: i64) -> (m: Money)
        ensures
            m@ == cents,
    {
        Money { cents }
    }

    /// The amount in cents.
    pub fn cents(self) -> (c: i64)
        ensures
            c == self@,
    {
        self.cents
    }

    pub fn from_dollars(dollars: i64) -> (m: Money)
        ensures
            m@ == saturate_i64(dollars * 100),
    {
        Money { cents: saturate(dollars as i128 * 100) }
    }

    /// Whole dollars, rounding toward zero.
    pub fn as_dollars(self) -> (d: i64)
        ensures
            d == div_toward_zero(self@, 100),
    {
        div_trunc(self.cents, 100)
    }

    pub fn add(self, other: Money) -> (m: Money)
        ensures
            m@ == saturate_i64(self@ + other@),
    {
        Money { cents: saturate(self.cents as i128 + other.cents as i128) }
    }

    pub fn sub(self, other: Money) -> (m: Money)
        ensures
            m@ == saturate_i64(self@ - other@),
    {
        Money { cents: saturate(self.cents as i128 - other.cents as i128) }
    }

    /// The share for one of `days` days, rounding toward zero; no days leave it whole.
    pub fn per_day(self, days: i64) -> (m: Money)
        ensures
            days <= 0 ==> m@ == self@,
            days > 0 ==> m@ == div_toward_zero(self@, days as int),
    {
        if days <= 0 {
            return self;
        }
        Money { cents: div_trunc(self.cents, days) }
    }

    /// The amount written as `-$1,234.05`.
    #[verifier::rlimit(30)]
    pub fn to_text(&self) -> (s: String)
        requires
            self@ != i64::MIN,
        ensures
            s@ == money_text(self@),
    {
        let dollars: i64 = div_trunc(self.cents, 100);
        let abs_cents: i64 = if self.cents < 0 { -self.cents } else { self.cents };
        let cents: i64 = abs_cents % 100;
        let abs_dollars: i64 = if dollars < 0 { -dollars } else { dollars };
        let tens: i64 = cents / 10;
        let ones: i64 = abs_cents % 10;
        assert(ones == cents % 10) by (nonlinear_arith)
            requires
                abs_cents >= 0,
                cents == abs_cents % 100,
                ones == abs_cents % 10,
        ;
        let mut out = if self.cents < 0 { copy_str("-") } else { String::new() };
        proof {
            reveal_strlit("-");
            reveal_strlit("$");
            reveal_strlit(".");
        }
        let ghost sign = out@;
        out.append("$");
        let formatted = format_dollars(abs_dollars);
        out.append(formatted.as_str());
        out.append(".");
        push_char(&mut out, digit_char(tens as u64));
        push_char(&mut out, digit_char(ones as u64));
        assert(out@ =~= sign + "$"@ + dollars_text(abs_dollars as int) + "."@ + seq![digit(tens as int), digit(ones as int)]);
        out
    }
}

/// Three digits, with leading zeros.
pub open spec fn three_digits(v: int) -> Seq<char> {
    seq![digit(v / 100), digit((v / 10) % 10), digit(v % 10)]
}

/// A positive number with commas between groups of three digits.
pub open spec fn grouped(v: int) -> Seq<char>
    decreases v,
{
    if v < 1000 {
        decimal(v)
    } else {
        grouped(v / 1000) + ","@ + three_digits(v % 1000)
    }
}

/// A whole-dollar figure as `format_dollars` writes it: `0` for zero, digits grouped by
/// threes with commas for a positive number, nothing for a negative one.
pub open spec fn dollars_text(v: int) -> Seq<char> {
    if v == 0 {
        "0"@
    } else if v < 0 {
        Seq::empty()
    } else {
        grouped(v)
    }
}

/// An amount in cents as `-$1,234.05`.
pub open spec fn money_text(cents: int) -> Seq<char> {
    let dollars = div_toward_zero(cents, 100);
    let abs_dollars = if dollars < 0 { -dollars } else { dollars };
    let abs_cents = if cents < 0 { -cents } else { cents };
    (if cents < 0 { "-"@ } else { Seq::empty() }) + "$"@ + dollars_text(abs_dollars) + "."@ + seq![
        digit((abs_cents % 100) / 10),
        digit(abs_cents % 10),
    ]
}

fn grouped_text(v: i64) -> (s: String)
    requires
        v > 0,
    ensures
        s@ == grouped(v as int),
    decreases v,
{
    if v < 1000 {
        decimal_text(v as u64)
    } else {
        let mut s = grouped_text(v / 1000);
        proof {
            reveal_strlit(",");
        }
        s.append(",");
        let r = v % 1000;
        push_char(&mut s, digit_char((r / 100) as u64));
        push_char(&mut s, digit_char(((r / 10) % 10) as u64));
        push_char(&mut s, digit_char((r % 10) as u64));
        assert(s@ =~= grouped(v / 1000) + ","@ + three_digits(r as int));
        s
    }
}

/// A whole-dollar figure with commas between groups of three digits.
pub fn format_dollars(value: i64) -> (s: String)
    ensures
        s@ == dollars_text(value as int),
{
    if value == 0 {
        proof {
            reveal_strlit("0");
        }
        return copy_str("0");
    }
    if value < 0 {
        return String::new();
    }
    grouped_text(value)
}

/// How rich a character is, by net worth in dollars.
#[derive(Debug, Clone, Copy, PartialEq, Eq, Structural)]
pub enum WealthTier {
    Struggling,
    Stable,
    Comfortable,
    Affluent,
    Wealthy,
    UltraWealthy,
    Billionaire,
}

/// The tier of a net worth in whole dollars.
pub open spec fn tier_of(net_dollars: int) -> WealthTier {
    if net_dollars <= 0 {
        WealthTier::Struggling
    } else if net_dollars <= 25_000 {
        WealthTier::Stable
    } else if net_dollars <= 150_000 {
        WealthTier::Comfortable
    } else if net_dollars <= 1_000_000 {
        WealthTier::Affluent
    } else if net_dollars <= 25_000_000 {
        WealthTier::Wealthy
    } else if net_dollars <= 999_999_999 {
        WealthTier::UltraWealthy
    } else {
        WealthTier::Billionaire
    }
}

/// The position of a tier, from the poorest.
pub open spec fn tier_rank(t: WealthTier) -> int {
    match t {
        WealthTier::Struggling => 0,
        WealthTier::Stable => 1,
        WealthTier::Comfortable => 2,
        WealthTier::Affluent => 3,
        WealthTier::Wealthy => 4,
        WealthTier::UltraWealthy => 5,
        WealthTier::Billionaire => 6,
    }
}

/// The name of a tier.
pub open spec fn tier_name(t: WealthTier) -> Seq<char> {
    match t {
        WealthTier::Struggling => "Struggling"@,
        WealthTier::Stable => "Stable"@,
        WealthTier::Comfortable => "Comfortable"@,
        WealthTier::Affluent => "Affluent"@,
        WealthTier::Wealthy => "Wealthy"@,
        WealthTier::UltraWealthy => "Ultra-wealthy"@,
        WealthTier::Billionaire => "Billionaire"@,
    }
}

impl WealthTier {
    /// The tier's name.
    pub fn label(&self) -> (s: String)
        ensures
            s@ == tier_name(*self),
    {
        match self {
            WealthTier::Struggling => copy_str("Struggling"),
            WealthTier::Stable => copy_str("Stable"),
            WealthTier::Comfortable => copy_str("Comfortable"),
            WealthTier::Affluent => copy_str("Affluent"),
            WealthTier::Wealthy => copy_str("Wealthy"),
            WealthTier::UltraWealthy => copy_str("Ultra-wealthy"),
            WealthTier::Billionaire => copy_str("Billionaire"),
        }
    }
}

/// A character's money: what it holds, earns and spends.
pub struct EconomyState {
    pub currency: Currency,
    pub liquid: Money,
    pub savings: Money,
    pub investments: Money,
    pub assets: Money,
    pub liabilities: Money,
    pub monthly_income: Money,
    pub monthly_expenses: Money,
    pub gadget_fund: Money,
    pub last_income_day: u32,
    pub last_expense_day: u32,
    pub last_gadget_day: u32,
}

pub struct JobCompensation {
    pub annual_salary: Money,
    pub annual_bonus: Money,
    pub monthly_income: Money,
}

impl Default for EconomyState {
    fn default() -> (e: EconomyState)
        ensures
            e.currency == Currency::Credits,
            e.liquid@ == 12_000,
            e.savings@ == 60_000,
            e.investments@ == 250_000,
            e.assets@ == 800_000,
            e.liabilities@ == 0,
            e.monthly_income@ == 320_000,
            e.monthly_expenses@ == 210_000,
            e.gadget_fund@ == 15_000,
            e.last_income_day == 0,
            e.last_expense_day == 0,
            e.last_gadget_day == 0,
    {
        EconomyState {
            currency: Currency::Credits,
            liquid: Money::from_dollars(120),
            savings: Money::from_dollars(600),
            investments: Money::from_dollars(2_500),
            assets: Money::from_dollars(8_000),
            liabilities: Money::zero(),
            monthly_income: Money::from_dollars(3_200),
            monthly_expenses: Money::from_dollars(2_100),
            gadget_fund: Money::from_dollars(150),
            last_income_day: 0,
            last_expense_day: 0,
            last_gadget_day: 0,
        }
    }
}

/// The yearly base salary of a role in dollars; the salary table covers these roles
/// only.
pub open spec fn base_salary_of(role: JobRole) -> Option<i64> {
    match role {
        JobRole::Lawyer => Some(115_000),
        JobRole::Journalist => Some(58_000),
        JobRole::Chef => Some(52_000),
        JobRole::Photographer => Some(48_000),
        JobRole::Scientist => Some(112_000),
        JobRole::Artist => Some(45_000),
        JobRole::Engineer => Some(98_000),
        JobRole::Nurse => Some(72_000),
        JobRole::Teacher => Some(55_000),
        JobRole::Mechanic => Some(60_000),
        JobRole::Analyst => Some(82_000),
        JobRole::Contractor => Some(88_000),
        _ => None,
    }
}

pub fn base_salary_for(role: JobRole) -> (s: Option<i64>)
    ensures
        s == base_salary_of(role),
{
    match role {
        JobRole::Lawyer => Some(115_000),
        JobRole::Journalist => Some(58_000),
        JobRole::Chef => Some(52_000),
        JobRole::Photographer => Some(48_000),
        JobRole::Scientist => Some(112_000),
        JobRole::Artist => Some(45_000),
        JobRole::Engineer => Some(98_000),
        JobRole::Nurse => Some(72_000),
        JobRole::Teacher => Some(55_000),
        JobRole::Mechanic => Some(60_000),
        JobRole::Analyst => Some(82_000),
        JobRole::Contractor => Some(88_000),
        _ => None,
    }
}

/// Net worth in cents: holdings added and liabilities taken away, each step saturating.
pub open spec fn net_worth_of(e: EconomyState) -> int {
    saturate_i64(
        saturate_i64(saturate_i64(saturate_i64(e.liquid@ + e.savings@) + e.investments@) + e.assets@)
            - e.liabilities@,
    )
}

impl EconomyState {
    pub fn net_worth(&self) -> (m: Money)
        ensures
            m@ == net_worth_of(*self),
    {
        self.liquid.add(self.savings).add(self.investments).add(self.assets).sub(self.liabilities)
    }

    pub fn wealth_tier(&self) -> (t: WealthTier)
        ensures
            t == tier_of(div_toward_zero(net_worth_of(*self), 100)),
    {
        let net = self.net_worth().as_dollars();
        if net <= 0 {
            WealthTier::Struggling
        } else if net <= 25_000 {
            WealthTier::Stable
        } else if net <= 150_000 {
            WealthTier::Comfortable
        } else if net <= 1_000_000 {
            WealthTier::Affluent
        } else if net <= 25_000_000 {
            WealthTier::Wealthy
        } else if net <= 999_999_999 {
            WealthTier::UltraWealthy
        } else {
            WealthTier::Billionaire
        }
    }

    /// The day's pay and spending: a thirtieth of the monthly income and of the monthly
    /// expenses, each at most once a day.
    pub fn settle_day(&mut self, day: u32)
        ensures
            final(self).last_income_day == day,
            final(self).last_expense_day == day,
            final(self).liquid@ == ({
                let paid = if old(self).last_income_day != day {
                    saturate_i64(old(self).liquid@ + div_toward_zero(old(self).monthly_income@, 30))
                } else {
                    old(self).liquid@
                };
                if old(self).last_expense_day != day {
                    saturate_i64(paid - div_toward_zero(old(self).monthly_expenses@, 30))
                } else {
                    paid
                }
            }),
            *final(self) == (EconomyState {
                liquid: final(self).liquid,
                last_income_day: day,
                last_expense_day: day,
                ..*old(self)
            }),
    {
        if self.last_income_day != day {
            self.last_income_day = day;
            let daily_income = self.monthly_income.per_day(30);
            self.liquid = self.liquid.add(daily_income);
        }
        if self.last_expense_day != day {
            self.last_expense_day = day;
            let daily_expenses = self.monthly_expenses.per_day(30);
            self.liquid = self.liquid.sub(daily_expenses);
        }
    }
}

/// A net worth no lower gives a tier no lower.
pub proof fn law_wealth_tier_monotone(a: int, b: int)
    requires
        a <= b,
    ensures
        tier_rank(tier_of(a)) <= tier_rank(tier_of(b)),
{
}

} // verus!
