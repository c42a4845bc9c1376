use crate::metrics::Metrics;
use crate::plan::{applicability_allowed, Lock, Package, Plan, PlanType};
use crate::quantity::{decimal_checked_add, Quantity};
use vstd::prelude::*;

verus! {

/// The currency a report's total is given in.
#[derive(Debug, Clone, Copy, PartialEq, Eq, Structural)]
pub enum Currency {
    USD,
    BTC,
    SATS,
}

/// An amount of money in a currency.
#[derive(Debug, Clone, Copy, PartialEq, Eq, Structural)]
pub struct Price {
    pub quantity: Quantity,
    pub currency: Currency,
}

/// A primary package and its dependencies, each with its lock where one was found.
#[derive(Debug)]
pub struct PackageLocks {
    pub primary_package: Option<Package>,
    pub primary_package_lock: Option<Lock>,
    /// Dependencies in the order chosen by the caller.
    pub dependencies_locks: Vec<(Package, Option<Lock>)>,
}

/// The price found for one package: `None` where it has no lock at all.
#[derive(Debug, Clone)]
pub struct PackagePriceReport {
    pub package: Package,
    pub price_quantity: Option<Quantity>,
    pub notes: Vec<String>,
}

/// Per-package prices, primary package first, and their total.
#[derive(Debug, Clone)]
pub struct PriceReport {
    pub package_reports: Vec<PackagePriceReport>,
    pub price: Price,
}

/// Why a price report could not be produced.
#[derive(Debug, Clone, Copy, PartialEq, Eq, Structural)]
pub enum PriceError {
    /// A plan's conditions could not be evaluated against the metrics (for
    /// instance an employee-count condition with no employee count configured).
    MissingMetricsField,
    /// The total does not fit in an exact decimal.
    Overflow,
}

/// A plan that counts towards the price: applicable and compulsory.
pub open spec fn qualifies(plan: Plan, applies: bool) -> bool {
    applies && plan.plan_type == PlanType::Compulsory
}

/// A plan's stated total, zero where it states none.
pub open spec fn plan_price(plan: Plan) -> Quantity {
    match plan.total {
        Some(t) => t,
        None => Quantity::spec_zero(),
    }
}

/// The price of the first qualifying plan at or after `i`, zero where there is none.
pub open spec fn chosen_from(plans: Seq<Plan>, applies: Seq<bool>, i: int) -> Quantity
    decreases plans.len() - i,
{
    if i < 0 || i >= plans.len() {
        Quantity::spec_zero()
    } else if qualifies(plans[i], applies[i]) {
        plan_price(plans[i])
    } else {
        chosen_from(plans, applies, i + 1)
    }
}

/// The price of a lock's plans given which of them apply: the first qualifying
/// plan's price in stored order, zero where none qualifies.
pub open spec fn chosen_price(plans: Seq<Plan>, applies: Seq<bool>) -> Quantity {
    chosen_from(plans, applies, 0)
}

/// Picks the price among a lock's plans, given for each plan whether it applies.
pub fn select_price(plans: &Vec<Plan>, applies: &Vec<bool>) -> (r: Quantity)
    requires
        plans@.len() == applies@.len(),
    ensures
        r == chosen_price(plans@, applies@),
{
    let mut i: usize = 0;
    while i < plans.len()
        invariant
            0 <= i <= plans@.len(),
            plans@.len() == applies@.len(),
            chosen_from(plans@, applies@, 0) == chosen_from(plans@, applies@, i as int),
        decreases plans@.len() - i,
    {
        let plan = &plans[i];
        if applies[i] && plan.plan_type == PlanType::Compulsory {
            return match plan.total {
                Some(t) => t,
                None => Quantity::zero(),
            };
        }
        i += 1;
    }
    Quantity::zero()
}

/// Between a start index and the first qualifying plan at or after it, the
/// chosen price is that plan's price.
proof fn lemma_chosen_from_reaches(plans: Seq<Plan>, applies: Seq<bool>, j: int, i: int)
    requires
        0 <= j <= i < plans.len(),
        applies.len() == plans.len(),
        qualifies(plans[i], applies[i]),
        forall|k: int| j <= k < i ==> !qualifies(#[trigger] plans[k], applies[k]),
    ensures
        chosen_from(plans, applies, j) == plan_price(plans[i]),
    decreases i - j,
{
    if j < i {
        assert(!qualifies(plans[j], applies[j]));
        lemma_chosen_from_reaches(plans, applies, j + 1, i);
    }
}

/// When several plans are applicable and compulsory, the price is that of the
/// first of them in stored order, whatever the later ones state.
pub proof fn lemma_first_qualifying_plan_decides(plans: Seq<Plan>, applies: Seq<bool>, i: int)
    requires
        applies.len() == plans.len(),
        0 <= i < plans.len(),
        qualifies(plans[i], applies[i]),
        forall|k: int| 0 <= k < i ==> !qualifies(#[trigger] plans[k], applies[k]),
    ensures
        chosen_price(plans, applies) == plan_price(plans[i]),
{
    lemma_chosen_from_reaches(plans, applies, 0, i);
}

/// With exactly one applicable compulsory plan, stating the total `t`, the
/// price is `t`.
pub proof fn lemma_single_qualifying_plan_price(
    plans: Seq<Plan>,
    applies: Seq<bool>,
    i: int,
    t: Quantity,
)
    requires
        applies.len() == plans.len(),
        0 <= i < plans.len(),
        qualifies(plans[i], applies[i]),
        plans[i].total == Some(t),
        forall|k: int| 0 <= k < plans.len() && k != i ==> !qualifies(#[trigger] plans[k], applies[k]),
    ensures
        chosen_price(plans, applies) == t,
{
    lemma_chosen_from_reaches(plans, applies, 0, i);
}

/// With no applicable compulsory plan, the price is zero.
pub proof fn lemma_no_qualifying_plan_is_free(plans: Seq<Plan>, applies: Seq<bool>)
    requires
        applies.len() == plans.len(),
        forall|k: int| 0 <= k < plans.len() ==> !qualifies(#[trigger] plans[k], applies[k]),
    ensures
        chosen_price(plans, applies) == Quantity::spec_zero(),
{
    lemma_chosen_from_none(plans, applies, 0);
}

proof fn lemma_chosen_from_none(plans: Seq<Plan>, applies: Seq<bool>, j: int)
    requires
        0 <= j,
        applies.len() == plans.len(),
        forall|k: int| j <= k < plans.len() ==> !qualifies(#[trigger] plans[k], applies[k]),
    ensures
        chosen_from(plans, applies, j) == Quantity::spec_zero(),
    decreases plans.len() - j,
{
    if j < plans.len() {
        assert(!qualifies(plans[j], applies[j]));
        lemma_chosen_from_none(plans, applies, j + 1);
    }
}

/// A package with a lock gets a price, and no applicable compulsory plan
/// makes it zero; without a lock it gets none.
pub proof fn lemma_report_price_presence(
    rep: PackagePriceReport,
    package: Package,
    lock: Option<Lock>,
    metrics: Metrics,
)
    requires
        report_fits(rep, package, lock, metrics),
    ensures
        lock is None <==> rep.price_quantity is None,
        lock matches Some(l) ==> (!metrics.commercial ==> rep.price_quantity == Some(Quantity::spec_zero())),
{
    if let Some(l) = lock {
        let applies = choose|applies: Seq<bool>|
            {
                &&& applies.len() == l.plans@.len()
                &&& forall|k: int|
                    0 <= k < applies.len() ==> applicability_allowed(
                        #[trigger] l.plans@[k].plan_type,
                        metrics,
                        applies[k],
                    )
                &&& rep.price_quantity == Some(chosen_price(l.plans@, applies))
            };
        if !metrics.commercial {
            assert forall|k: int| 0 <= k < l.plans@.len() implies !qualifies(#[trigger] l.plans@[k], applies[k]) by {
                assert(applicability_allowed(l.plans@[k].plan_type, metrics, applies[k]));
            }
            lemma_no_qualifying_plan_is_free(l.plans@, applies);
        }
    }
}

/// Every value of `chosen_from` at or after `i` is a representable decimal.
proof fn lemma_chosen_from_wf(plans: Seq<Plan>, applies: Seq<bool>, i: int)
    requires
        applies.len() == plans.len(),
        forall|k: int| 0 <= k < plans.len() ==> #[trigger] plans[k].wf(),
    ensures
        chosen_from(plans, applies, i).wf(),
    decreases plans.len() - i,
{
    if 0 <= i < plans.len() {
        assert(plans[i].wf());
        if !qualifies(plans[i], applies[i]) {
            lemma_chosen_from_wf(plans, applies, i + 1);
        }
    }
}

/// An absent lock, or one whose stated totals are representable decimals.
pub open spec fn lock_wf(lock: Option<Lock>) -> bool {
    match lock {
        Some(l) => l.wf(),
        None => true,
    }
}

/// An absent quantity, or a representable decimal.
pub open spec fn quantity_wf(q: Option<Quantity>) -> bool {
    match q {
        Some(v) => v.wf(),
        None => true,
    }
}

/// A present lock with at least one plan.
pub open spec fn has_plans(lock: Option<Lock>) -> bool {
    match lock {
        Some(l) => l.plans@.len() > 0,
        None => false,
    }
}

/// Pricing the package cannot fail: it has no lock, the employee count is
/// configured, or the metrics rule out every plan of its lock before any
/// condition is evaluated.
pub open spec fn success_owed(lock: Option<Lock>, metrics: Metrics) -> bool {
    match lock {
        None => true,
        Some(l) => metrics.employees_count is Some || forall|k: int|
            0 <= k < l.plans@.len() ==> !applicability_allowed(
                #[trigger] l.plans@[k].plan_type,
                metrics,
                true,
            ),
    }
}

/// `rep` is a report on `package` with the given lock under the given metrics:
/// no price without a lock, otherwise the price chosen for some outcome of the
/// plans' applicability checks that the metrics allow.
pub open spec fn report_fits(
    rep: PackagePriceReport,
    package: Package,
    lock: Option<Lock>,
    metrics: Metrics,
) -> bool {
    &&& rep.package == package
    &&& rep.notes@.len() == 0
    &&& match lock {
        None => rep.price_quantity is None,
        Some(l) => exists|applies: Seq<bool>|
            {
                &&& applies.len() == l.plans@.len()
                &&& forall|k: int|
                    0 <= k < applies.len() ==> applicability_allowed(
                        #[trigger] l.plans@[k].plan_type,
                        metrics,
                        applies[k],
                    )
                &&& rep.price_quantity == Some(chosen_price(l.plans@, applies))
            },
    }
}

/// Given a package's lock, creates the corresponding price report.
pub fn get_package_price_report(
    package: &Package,
    package_lock: &Option<Lock>,
    metrics: &Metrics,
) -> (r: Result<PackagePriceReport, PriceError>)
    ensures
        r matches Ok(rep) ==> report_fits(rep, *package, *package_lock, *metrics),
        r matches Ok(rep) ==> (lock_wf(*package_lock) ==> quantity_wf(rep.price_quantity)),
        r is Err ==> has_plans(*package_lock),
        package_lock is None ==> r is Ok,
        success_owed(*package_lock, *metrics) ==> r is Ok,
{
    let lock = match package_lock {
        Some(l) => l,
        None => {
            return Ok(PackagePriceReport { package: package.copy(), price_quantity: None, notes: Vec::new() });
        },
    };
    let mut applies: Vec<bool> = Vec::new();
    let mut i: usize = 0;
    while i < lock.plans.len()
        invariant
            0 <= i <= lock.plans@.len(),
            *package_lock == Some(*lock),
            applies@.len() == i,
            forall|k: int|
                0 <= k < i ==> applicability_allowed(
                    #[trigger] lock.plans@[k].plan_type,
                    *metrics,
                    applies@[k],
                ),
        decreases lock.plans@.len() - i,
    {
        match lock.plans[i].is_applicable(metrics) {
            Ok(b) => applies.push(b),
            Err(_) => {
                assert(!success_owed(*package_lock, *metrics)) by {
                    if metrics.employees_count is None {
                        assert(applicability_allowed(lock.plans@[i as int].plan_type, *metrics, true));
                    }
                }
                return Err(PriceError::MissingMetricsField);
            },
        }
        i += 1;
    }
    let quantity = select_price(&lock.plans, &applies);
    proof {
        if lock.wf() {
            lemma_chosen_from_wf(lock.plans@, applies@, 0);
        }
    }
    let rep = PackagePriceReport { package: package.copy(), price_quantity: Some(quantity), notes: Vec::new() };
    Ok(rep)
}

/// The packages of a report, in order: the primary package with its lock
/// where there is one, then each dependency.
pub open spec fn candidates(locks: PackageLocks) -> Seq<(Package, Option<Lock>)> {
    match locks.primary_package {
        Some(p) => seq![(p, locks.primary_package_lock)] + locks.dependencies_locks@,
        None => locks.dependencies_locks@,
    }
}

/// No package among `c` has a lock.
pub open spec fn all_locks_absent(c: Seq<(Package, Option<Lock>)>) -> bool {
    forall|k: int| 0 <= k < c.len() ==> (#[trigger] c[k]).1 is None
}

/// Pricing fails for no package among `c` (see `success_owed`).
pub open spec fn all_success_owed(c: Seq<(Package, Option<Lock>)>, metrics: Metrics) -> bool {
    forall|k: int| 0 <= k < c.len() ==> success_owed((#[trigger] c[k]).1, metrics)
}

/// Some package among the first `n` of `c` has a lock.
pub open spec fn some_lock_before(c: Seq<(Package, Option<Lock>)>, n: int) -> bool {
    exists|k: int| 0 <= k < n && (#[trigger] c[k]).1 is Some
}

/// Every lock among `c` states representable totals.
pub open spec fn locks_wf(c: Seq<(Package, Option<Lock>)>) -> bool {
    forall|k: int| 0 <= k < c.len() ==> lock_wf((#[trigger] c[k]).1)
}

/// A quantity, zero where it is absent.
pub open spec fn quantity_or_zero(q: Option<Quantity>) -> Quantity {
    match q {
        Some(v) => v,
        None => Quantity::spec_zero(),
    }
}

/// The exact decimal sum of the reports' quantities, absent ones counting as
/// zero, added from the first report on; `None` where an addition overflows.
pub open spec fn total_of(reports: Seq<PackagePriceReport>) -> Option<(i128, u32)>
    decreases reports.len(),
{
    if reports.len() == 0 {
        Some(Quantity::spec_zero()@)
    } else {
        match total_of(reports.drop_last()) {
            Some(acc) => decimal_checked_add(acc, quantity_or_zero(reports.last().price_quantity)@),
            None => None,
        }
    }
}

/// `reports` is one fitting report for each package of `c`, in order.
pub open spec fn reports_fit(
    reports: Seq<PackagePriceReport>,
    c: Seq<(Package, Option<Lock>)>,
    metrics: Metrics,
) -> bool {
    &&& reports.len() == c.len()
    &&& forall|k: int|
        0 <= k < c.len() ==> report_fits(#[trigger] reports[k], c[k].0, c[k].1, metrics)
}

/// `rep` is the price report on the packages `c`: one fitting report per
/// package, in order, and their total in the given currency.
pub open spec fn report_matches(
    rep: PriceReport,
    c: Seq<(Package, Option<Lock>)>,
    currency: Currency,
    metrics: Metrics,
) -> bool {
    &&& reports_fit(rep.package_reports@, c, metrics)
    &&& total_of(rep.package_reports@) == Some(rep.price.quantity@)
    &&& rep.price.currency == currency
}

/// `r` is what generating a report on the packages `c` may give: no report
/// exactly where no package has a lock, else the matching report or an error;
/// an overflow only where the total of some fitting reports overflows.
pub open spec fn generated(
    r: Result<Option<PriceReport>, PriceError>,
    c: Seq<(Package, Option<Lock>)>,
    currency: Currency,
    metrics: Metrics,
) -> bool {
    &&& (all_locks_absent(c) ==> r matches Ok(None))
    &&& (r matches Ok(None) ==> all_locks_absent(c))
    &&& (r matches Ok(Some(rep)) ==> report_matches(rep, c, currency, metrics))
    &&& (r is Err ==> !all_locks_absent(c))
    &&& (all_success_owed(c, metrics) ==> !(r == Err::<Option<PriceReport>, PriceError>(
        PriceError::MissingMetricsField,
    )))
    &&& (r == Err::<Option<PriceReport>, PriceError>(PriceError::Overflow) ==> exists|
        reports: Seq<PackagePriceReport>,
    | reports_fit(reports, c, metrics) && total_of(reports) is None)
}

/// Once an addition overflows, the total stays absent.
proof fn lemma_total_overflow_stays(reports: Seq<PackagePriceReport>, j: int)
    requires
        0 <= j <= reports.len(),
        total_of(reports.take(j)) is None,
    ensures
        total_of(reports) is None,
    decreases reports.len() - j,
{
    if j < reports.len() {
        assert(reports.take(j + 1).drop_last() =~= reports.take(j));
        lemma_total_overflow_stays(reports, j + 1);
    } else {
        assert(reports.take(j) =~= reports);
    }
}

/// Creates the price report on a package and its dependencies: `None` where no
/// package has a lock.
pub fn generate(package_locks: &PackageLocks, currency: Currency, metrics: &Metrics) -> (r: Result<
    Option<PriceReport>,
    PriceError,
>)
    requires
        locks_wf(candidates(*package_locks)),
    ensures
        generated(r, candidates(*package_locks), currency, *metrics),
{
    let ghost c = candidates(*package_locks);
    let mut reports: Vec<PackagePriceReport> = Vec::new();
    let mut configs_found = false;
    if let Some(primary) = &package_locks.primary_package {
        match get_package_price_report(primary, &package_locks.primary_package_lock, metrics) {
            Ok(rep) => reports.push(rep),
            Err(_) => {
                assert(c[0].1 is Some);
                return Err(PriceError::MissingMetricsField);
            },
        }
        configs_found = package_locks.primary_package_lock.is_some();
    }
    let offset = reports.len();
    let mut i: usize = 0;
    while i < package_locks.dependencies_locks.len()
        invariant
            c == candidates(*package_locks),
            locks_wf(c),
            offset == (if package_locks.primary_package is Some { 1int } else { 0int }),
            0 <= i <= package_locks.dependencies_locks@.len(),
            reports@.len() == offset + i,
            forall|k: int|
                0 <= k < reports@.len() ==> report_fits(#[trigger] reports@[k], c[k].0, c[k].1, *metrics)
                    && quantity_wf(reports@[k].price_quantity),
            configs_found == some_lock_before(c, reports@.len() as int),
        decreases package_locks.dependencies_locks@.len() - i,
    {
        let entry = &package_locks.dependencies_locks[i];
        let ghost n = reports@.len() as int;
        assert(c[n] == package_locks.dependencies_locks@[i as int]);
        assert(lock_wf(c[n].1));
        match get_package_price_report(&entry.0, &entry.1, metrics) {
            Ok(rep) => reports.push(rep),
            Err(_) => {
                assert(c[n].1 is Some);
                return Err(PriceError::MissingMetricsField);
            },
        }
        if entry.1.is_some() {
            configs_found = true;
            assert(c[n].1 is Some);
        }
        i += 1;
    }
    if !configs_found {
        return Ok(None);
    }
    assert(!all_locks_absent(c));
    let mut total = Quantity::zero();
    let mut j: usize = 0;
    while j < reports.len()
        invariant
            0 <= j <= reports@.len(),
            total.wf(),
            total_of(reports@.take(j as int)) == Some(total@),
            forall|k: int| 0 <= k < reports@.len() ==> quantity_wf((#[trigger] reports@[k]).price_quantity),
            reports_fit(reports@, c, *metrics),
            c == candidates(*package_locks),
            !all_locks_absent(c),
        decreases reports@.len() - j,
    {
        let q = match reports[j].price_quantity {
            Some(q) => q,
            None => Quantity::zero(),
        };
        assert(reports@.take(j + 1).drop_last() =~= reports@.take(j as int));
        match total.checked_add(q) {
            Some(t) => total = t,
            None => {
                proof {
                    lemma_total_overflow_stays(reports@, j + 1);
                }
                return Err(PriceError::Overflow);
            },
        }
        j += 1;
    }
    assert(reports@.take(reports@.len() as int) =~= reports@);
    Ok(Some(PriceReport { package_reports: reports, price: Price { quantity: total, currency } }))
}

/// `out` is the report made from one data source's result `input`: none where
/// the source failed, else what generating a report on its packages gives.
pub open spec fn source_report(
    out: Option<Result<Option<PriceReport>, PriceError>>,
    input: Option<PackageLocks>,
    currency: Currency,
    metrics: Metrics,
) -> bool {
    match input {
        None => out is None,
        Some(l) => match out {
            Some(r) => generated(r, candidates(l), currency, metrics),
            None => false,
        },
    }
}

/// The price reports for the lock data that each data source found, in order:
/// a source that failed (`None`) gets no report, an error in one source's
/// packages leaves the other sources' reports standing.
pub fn price(results: &Vec<Option<PackageLocks>>, currency: Currency, metrics: &Metrics) -> (r: Vec<
    Option<Result<Option<PriceReport>, PriceError>>,
>)
    requires
        forall|i: int|
            0 <= i < results@.len() ==> (#[trigger] results@[i] matches Some(l) ==> locks_wf(
                candidates(l),
            )),
    ensures
        r@.len() == results@.len(),
        forall|i: int|
            0 <= i < results@.len() ==> source_report(#[trigger] r@[i], results@[i], currency, *metrics),
{
    let mut out: Vec<Option<Result<Option<PriceReport>, PriceError>>> = Vec::new();
    let mut i: usize = 0;
    while i < results.len()
        invariant
            0 <= i <= results@.len(),
            out@.len() == i,
            forall|k: int|
                0 <= k < results@.len() ==> (#[trigger] results@[k] matches Some(l) ==> locks_wf(
                    candidates(l),
                )),
            forall|k: int| 0 <= k < i ==> source_report(#[trigger] out@[k], results@[k], currency, *metrics),
        decreases results@.len() - i,
    {
        match &results[i] {
            Some(locks) => {
                let report = generate(locks, currency, metrics);
                out.push(Some(report));
            },
            None => out.push(None),
        }
        i += 1;
    }
    out
}

} // verus!
