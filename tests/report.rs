use openfare::metrics::Metrics;
use openfare::plan::{Lock, Package, Plan, PlanType};
use openfare::quantity::{Quantity, MAX_MANTISSA};
use openfare::report::{
    generate, get_package_price_report, price, select_price, Currency, PackageLocks, PriceError,
};
use openfare_lib::lock::plan::conditions::{Conditions, EmployeesCount};
use std::convert::TryFrom;

fn package(name: &str) -> Package {
    Package {
        registry: "registry.npmjs.org".to_string(),
        name: name.to_string(),
        version: "1.0.0".to_string(),
    }
}

fn plan(plan_type: PlanType, total: Option<Quantity>) -> Plan {
    Plan {
        plan_type,
        conditions: Conditions::default(),
        total,
    }
}

fn qty(mantissa: i128, scale: u32) -> Quantity {
    Quantity { mantissa, scale }
}

fn employees_plan(condition: &str, total: Quantity) -> Plan {
    let mut conditions = Conditions::default();
    conditions.employees_count = Some(EmployeesCount::try_from(condition).unwrap());
    Plan {
        plan_type: PlanType::Compulsory,
        conditions,
        total: Some(total),
    }
}

#[test]
fn absent_lock_gives_no_price() {
    let rep = get_package_price_report(&package("a"), &None, &Metrics::new()).unwrap();
    assert_eq!(rep.price_quantity, None);
    assert_eq!(rep.package, package("a"));
    assert!(rep.notes.is_empty());
}

#[test]
fn lock_without_plans_is_free() {
    let lock = Some(Lock { plans: vec![] });
    let rep = get_package_price_report(&package("a"), &lock, &Metrics::new()).unwrap();
    assert_eq!(rep.price_quantity, Some(qty(0, 0)));
}

#[test]
fn voluntary_plans_do_not_count() {
    let lock = Some(Lock {
        plans: vec![plan(PlanType::Voluntary, Some(qty(500, 2)))],
    });
    let rep = get_package_price_report(&package("a"), &lock, &Metrics::new()).unwrap();
    assert_eq!(rep.price_quantity, Some(qty(0, 0)));
}

#[test]
fn single_compulsory_plan_gives_its_total() {
    let lock = Some(Lock {
        plans: vec![plan(PlanType::Compulsory, Some(qty(1000, 2)))],
    });
    let rep = get_package_price_report(&package("a"), &lock, &Metrics::new()).unwrap();
    assert_eq!(rep.price_quantity, Some(qty(1000, 2)));
}

#[test]
fn compulsory_plan_without_total_is_free() {
    let lock = Some(Lock {
        plans: vec![plan(PlanType::Compulsory, None)],
    });
    let rep = get_package_price_report(&package("a"), &lock, &Metrics::new()).unwrap();
    assert_eq!(rep.price_quantity, Some(qty(0, 0)));
}

#[test]
fn first_compulsory_plan_wins() {
    let lock = Some(Lock {
        plans: vec![
            plan(PlanType::Voluntary, Some(qty(1, 0))),
            plan(PlanType::Compulsory, Some(qty(5, 0))),
            plan(PlanType::Compulsory, Some(qty(7, 0))),
        ],
    });
    let rep = get_package_price_report(&package("a"), &lock, &Metrics::new()).unwrap();
    assert_eq!(rep.price_quantity, Some(qty(5, 0)));
}

#[test]
fn select_price_skips_inapplicable_plans() {
    let plans = vec![
        plan(PlanType::Compulsory, Some(qty(5, 0))),
        plan(PlanType::Compulsory, Some(qty(7, 0))),
    ];
    assert_eq!(select_price(&plans, &vec![false, true]), qty(7, 0));
    assert_eq!(select_price(&plans, &vec![true, true]), qty(5, 0));
    assert_eq!(select_price(&plans, &vec![false, false]), qty(0, 0));
}

#[test]
fn non_commercial_use_is_free() {
    let lock = Some(Lock {
        plans: vec![plan(PlanType::Compulsory, Some(qty(1000, 2)))],
    });
    let metrics = Metrics {
        employees_count: None,
        commercial: false,
        include_voluntary_plans: true,
    };
    let rep = get_package_price_report(&package("a"), &lock, &metrics).unwrap();
    assert_eq!(rep.price_quantity, Some(qty(0, 0)));
}

#[test]
fn employee_condition_decides_applicability() {
    let lock = Some(Lock {
        plans: vec![
            employees_plan("> 100", qty(50, 0)),
            employees_plan("<= 100", qty(20, 0)),
        ],
    });
    let metrics = Metrics {
        employees_count: Some(42),
        commercial: true,
        include_voluntary_plans: true,
    };
    let rep = get_package_price_report(&package("a"), &lock, &metrics).unwrap();
    assert_eq!(rep.price_quantity, Some(qty(20, 0)));
}

#[test]
fn missing_employee_count_is_an_error() {
    let lock = Some(Lock {
        plans: vec![employees_plan("> 100", qty(50, 0))],
    });
    let r = get_package_price_report(&package("a"), &lock, &Metrics::new());
    assert_eq!(r.unwrap_err(), PriceError::MissingMetricsField);
}

#[test]
fn report_on_primary_and_unlocked_dependency() {
    let locks = PackageLocks {
        primary_package: Some(package("p")),
        primary_package_lock: Some(Lock {
            plans: vec![plan(PlanType::Compulsory, Some(qty(1000, 2)))],
        }),
        dependencies_locks: vec![(package("d"), None)],
    };
    let report = generate(&locks, Currency::USD, &Metrics::new())
        .unwrap()
        .unwrap();
    assert_eq!(report.package_reports.len(), 2);
    assert_eq!(report.package_reports[0].package, package("p"));
    assert_eq!(report.package_reports[0].price_quantity, Some(qty(1000, 2)));
    assert_eq!(report.package_reports[1].package, package("d"));
    assert_eq!(report.package_reports[1].price_quantity, None);
    assert_eq!(report.price.quantity, qty(1000, 2));
    assert_eq!(report.price.currency, Currency::USD);
}

#[test]
fn no_report_without_any_lock() {
    let locks = PackageLocks {
        primary_package: None,
        primary_package_lock: None,
        dependencies_locks: vec![(package("d1"), None), (package("d2"), None)],
    };
    assert!(generate(&locks, Currency::USD, &Metrics::new())
        .unwrap()
        .is_none());
}

#[test]
fn no_report_on_empty_input() {
    let locks = PackageLocks {
        primary_package: None,
        primary_package_lock: None,
        dependencies_locks: vec![],
    };
    assert!(generate(&locks, Currency::BTC, &Metrics::new())
        .unwrap()
        .is_none());
}

#[test]
fn total_sums_exact_decimals() {
    let locks = PackageLocks {
        primary_package: None,
        primary_package_lock: None,
        dependencies_locks: vec![
            (
                package("d1"),
                Some(Lock {
                    plans: vec![plan(PlanType::Compulsory, Some(qty(1000, 2)))],
                }),
            ),
            (package("d2"), None),
            (
                package("d3"),
                Some(Lock {
                    plans: vec![plan(PlanType::Compulsory, Some(qty(25, 1)))],
                }),
            ),
            (package("d4"), Some(Lock { plans: vec![] })),
        ],
    };
    let report = generate(&locks, Currency::SATS, &Metrics::new())
        .unwrap()
        .unwrap();
    assert_eq!(report.package_reports.len(), 4);
    assert_eq!(report.package_reports[2].package, package("d3"));
    assert_eq!(report.price.quantity, qty(1250, 2));
    assert_eq!(report.price.currency, Currency::SATS);
}

#[test]
fn zero_priced_lock_still_gives_a_report() {
    let locks = PackageLocks {
        primary_package: Some(package("p")),
        primary_package_lock: Some(Lock { plans: vec![] }),
        dependencies_locks: vec![],
    };
    let report = generate(&locks, Currency::USD, &Metrics::new())
        .unwrap()
        .unwrap();
    assert_eq!(report.price.quantity, qty(0, 0));
}

#[test]
fn primary_lock_without_primary_package_is_ignored() {
    let locks = PackageLocks {
        primary_package: None,
        primary_package_lock: Some(Lock {
            plans: vec![plan(PlanType::Compulsory, Some(qty(3, 0)))],
        }),
        dependencies_locks: vec![(package("d"), None)],
    };
    assert!(generate(&locks, Currency::USD, &Metrics::new())
        .unwrap()
        .is_none());
}

#[test]
fn overflowing_total_is_an_error() {
    let big = || {
        Some(Lock {
            plans: vec![plan(PlanType::Compulsory, Some(qty(MAX_MANTISSA, 0)))],
        })
    };
    let locks = PackageLocks {
        primary_package: Some(package("p")),
        primary_package_lock: big(),
        dependencies_locks: vec![(package("d"), big())],
    };
    let r = generate(&locks, Currency::USD, &Metrics::new());
    assert_eq!(r.unwrap_err(), PriceError::Overflow);
}

#[test]
fn error_in_dependency_aborts_report() {
    let locks = PackageLocks {
        primary_package: Some(package("p")),
        primary_package_lock: Some(Lock { plans: vec![] }),
        dependencies_locks: vec![(
            package("d"),
            Some(Lock {
                plans: vec![employees_plan("> 100", qty(50, 0))],
            }),
        )],
    };
    let r = generate(&locks, Currency::USD, &Metrics::new());
    assert_eq!(r.unwrap_err(), PriceError::MissingMetricsField);
}

#[test]
fn checked_add_adds_exactly() {
    assert_eq!(qty(1000, 2).checked_add(qty(25, 1)), Some(qty(1250, 2)));
    assert_eq!(qty(0, 0).checked_add(qty(1000, 2)), Some(qty(1000, 2)));
    assert_eq!(qty(MAX_MANTISSA, 0).checked_add(qty(1, 0)), None);
}

#[test]
fn price_reports_each_source_separately() {
    let unlocked = PackageLocks {
        primary_package: Some(package("p")),
        primary_package_lock: None,
        dependencies_locks: vec![],
    };
    let locked = PackageLocks {
        primary_package: Some(package("p")),
        primary_package_lock: Some(Lock {
            plans: vec![plan(PlanType::Compulsory, Some(qty(300, 2)))],
        }),
        dependencies_locks: vec![],
    };
    let failing = PackageLocks {
        primary_package: Some(package("p")),
        primary_package_lock: Some(Lock {
            plans: vec![employees_plan("> 100", qty(50, 0))],
        }),
        dependencies_locks: vec![],
    };
    let out = price(
        &vec![None, Some(unlocked), Some(failing), Some(locked)],
        Currency::USD,
        &Metrics::new(),
    );
    assert_eq!(out.len(), 4);
    assert!(out[0].is_none());
    assert!(matches!(out[1], Some(Ok(None))));
    assert!(matches!(out[2], Some(Err(PriceError::MissingMetricsField))));
    match &out[3] {
        Some(Ok(Some(report))) => assert_eq!(report.price.quantity, qty(300, 2)),
        _ => panic!("expected a report"),
    }
}

#[test]
fn configured_employee_count_avoids_errors() {
    let locks = PackageLocks {
        primary_package: Some(package("p")),
        primary_package_lock: Some(Lock {
            plans: vec![
                employees_plan("> 100", qty(50, 0)),
                employees_plan("<= 100", qty(20, 0)),
            ],
        }),
        dependencies_locks: vec![(package("d"), None)],
    };
    let metrics = Metrics {
        employees_count: Some(500),
        commercial: true,
        include_voluntary_plans: true,
    };
    let report = generate(&locks, Currency::USD, &metrics).unwrap().unwrap();
    assert_eq!(report.price.quantity, qty(50, 0));
}
