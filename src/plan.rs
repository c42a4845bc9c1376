use crate::metrics::Metrics;
use crate::quantity::Quantity;
use vstd::prelude::*;

verus! {

#[verifier::external_type_specification]
#[verifier::external_body]
pub struct ExConditions(openfare_lib::lock::plan::conditions::Conditions);

#[verifier::external_type_specification]
#[verifier::external_body]
pub struct ExAnyhowError(anyhow::Error);

/// A software package's identity.
#[derive(Debug, Clone, PartialEq, Eq)]
pub struct Package {
    pub registry: String,
    pub name: String,
    pub version: String,
}

impl Package {
    /// A copy of the package.
    pub fn copy(&self) -> (r: Package)
        ensures
            r == *self,
    {
        Package {
            registry: self.registry.clone(),
            name: self.name.clone(),
            version: self.version.clone(),
        }
    }
}

/// How a plan's payment is owed.
#[derive(Debug, Clone, Copy, PartialEq, Eq, Structural)]
pub enum PlanType {
    Compulsory,
    Voluntary,
}

/// One pricing rule of a package's lock.
#[derive(Debug)]
pub struct Plan {
    pub plan_type: PlanType,
    /// The conditions under which the plan applies.
    pub conditions: openfare_lib::lock::plan::conditions::Conditions,
    /// The total payment the plan asks for, where it states one.
    pub total: Option<Quantity>,
}

/// A package's pricing configuration: its plans in stored order.
#[derive(Debug)]
pub struct Lock {
    pub plans: Vec<Plan>,
}

impl Lock {
    /// Every stated total is a representable decimal.
    pub open spec fn wf(self) -> bool {
        forall|i: int| 0 <= i < self.plans@.len() ==> #[trigger] self.plans@[i].wf()
    }
}

impl Plan {
    /// The stated total, if any, is a representable decimal.
    pub open spec fn wf(self) -> bool {
        match self.total {
            Some(t) => t.wf(),
            None => true,
        }
    }
}

/// What may come of checking a plan's applicability whatever its conditions
/// say: a compulsory plan never applies to non-commercial use, and a voluntary
/// plan never applies where voluntary plans are left out.
pub open spec fn applicability_allowed(plan_type: PlanType, metrics: Metrics, applies: bool) -> bool {
    &&& (plan_type == PlanType::Compulsory && !metrics.commercial ==> !applies)
    &&& (plan_type == PlanType::Voluntary && !metrics.include_voluntary_plans ==> !applies)
}

/// Relies on openfare_lib's `Conditions::evaluate`: whether every stated
/// condition holds for the given parameters. Its verdict may depend on the
/// current time, so only this is promised: it fails only on an employee-count
/// condition with no employee count configured (a time condition never fails).
#[verifier::external_body]
fn evaluate_conditions(
    conditions: &openfare_lib::lock::plan::conditions::Conditions,
    metrics: &Metrics,
) -> (r: Result<bool, anyhow::Error>)
    ensures
        metrics.employees_count is Some ==> r is Ok,
{
    let parameters = openfare_lib::lock::plan::conditions::Parameters {
        employees_count: metrics.employees_count,
        commercial: metrics.commercial,
        include_voluntary_plans: metrics.include_voluntary_plans,
    };
    conditions.evaluate(&parameters)
}

impl Plan {
    /// Whether the plan applies under the given metrics: a voluntary plan only
    /// where voluntary plans are included, a compulsory one only for commercial
    /// use, and then only where its conditions hold.
    pub fn is_applicable(&self, metrics: &Metrics) -> (r: Result<bool, anyhow::Error>)
        ensures
            r matches Ok(b) ==> applicability_allowed(self.plan_type, *metrics, b),
            !applicability_allowed(self.plan_type, *metrics, true) ==> r is Ok,
            metrics.employees_count is Some ==> r is Ok,
    {
        match self.plan_type {
            PlanType::Voluntary => {
                if !metrics.include_voluntary_plans {
                    Ok(false)
                } else {
                    evaluate_conditions(&self.conditions, metrics)
                }
            },
            PlanType::Compulsory => {
                if !metrics.commercial {
                    Ok(false)
                } else {
                    evaluate_conditions(&self.conditions, metrics)
                }
            },
        }
    }
}

} // verus!
