use vstd::prelude::*;

verus! {

/// Arguments for adding the Lightning keysend payment method.
#[derive(Debug, Clone)]
pub struct AddArguments {
    /// Public key destination.
    pub public_key: String,
}

/// Arguments for removing the Lightning keysend payment method.
#[derive(Debug, Clone, Copy)]
pub struct RemoveArguments {}

/// A payee's payment methods: pairs of method name and details, in the order
/// they were set.
#[derive(Debug, Clone)]
pub struct Payee {
    pub payment_methods: Vec<(String, String)>,
}

/// Why a payment method could not be changed.
#[derive(Debug, Clone, Copy, PartialEq, Eq, Structural)]
pub enum PaymentMethodError {
    /// No payee is selected as the active one.
    NoActivePayee,
}

/// The name under which the Lightning keysend method is stored.
pub open spec fn keysend_name() -> Seq<char> {
    seq!['b', 't', 'c', '-', 'l', 'i', 'g', 'h', 't', 'n', 'i', 'n', 'g', '-', 'k', 'e', 'y', 's', 'e', 'n', 'd']
}

/// The views of a payee's payment methods.
pub open spec fn methods_view(m: Seq<(String, String)>) -> Seq<(Seq<char>, Seq<char>)> {
    m.map_values(|e: (String, String)| (e.0@, e.1@))
}

/// `methods` without the entries named `name`, order kept.
pub open spec fn without(methods: Seq<(Seq<char>, Seq<char>)>, name: Seq<char>) -> Seq<(Seq<char>, Seq<char>)>
    decreases methods.len(),
{
    if methods.len() == 0 {
        methods
    } else if methods.last().0 == name {
        without(methods.drop_last(), name)
    } else {
        without(methods.drop_last(), name).push(methods.last())
    }
}

/// The name of the Lightning keysend method.
fn keysend_method_name() -> (r: String)
    ensures
        r@ == keysend_name(),
{
    let r = "btc-lightning-keysend".to_owned();
    proof {
        reveal_strlit("btc-lightning-keysend");
        assert(r@ =~= keysend_name());
    }
    r
}

/// The payee's methods without the one named `name`.
fn remove_method(methods: &Vec<(String, String)>, name: &String) -> (r: Vec<(String, String)>)
    ensures
        methods_view(r@) == without(methods_view(methods@), name@),
{
    let mut r: Vec<(String, String)> = Vec::new();
    let mut i: usize = 0;
    while i < methods.len()
        invariant
            0 <= i <= methods@.len(),
            methods_view(r@) == without(methods_view(methods@.take(i as int)), name@),
        decreases methods@.len() - i,
    {
        let entry = &methods[i];
        assert(methods_view(methods@.take(i + 1)).drop_last() =~= methods_view(methods@.take(i as int)));
        if entry.0 != *name {
            r.push((entry.0.clone(), entry.1.clone()));
            assert(methods_view(r@) =~= methods_view(r@.drop_last()).push((entry.0@, entry.1@)));
        }
        i += 1;
    }
    assert(methods@.take(methods@.len() as int) =~= methods@);
    r
}

/// Sets the Lightning keysend method of the active payee to the given public key.
pub fn add(args: &AddArguments, active_payee: &mut Option<Payee>) -> (r: Result<(), PaymentMethodError>)
    ensures
        (*old(active_payee)) is None <==> r is Err,
        r is Err ==> *final(active_payee) == *old(active_payee),
        r is Ok ==> (*final(active_payee)) is Some && methods_view((*final(active_payee))->Some_0.payment_methods@)
            == without(methods_view((*old(active_payee))->Some_0.payment_methods@), keysend_name()).push(
            (keysend_name(), args.public_key@),
        ),
{
    match active_payee {
        Some(payee) => {
            let name = keysend_method_name();
            let mut methods = remove_method(&payee.payment_methods, &name);
            let ghost kept = methods@;
            methods.push((name, args.public_key.clone()));
            assert(methods_view(methods@) =~= methods_view(kept).push((keysend_name(), args.public_key@)));
            payee.payment_methods = methods;
            Ok(())
        },
        None => Err(PaymentMethodError::NoActivePayee),
    }
}

/// Removes the Lightning keysend method from the active payee.
pub fn remove(args: &RemoveArguments, active_payee: &mut Option<Payee>) -> (r: Result<(), PaymentMethodError>)
    ensures
        (*old(active_payee)) is None <==> r is Err,
        r is Err ==> *final(active_payee) == *old(active_payee),
        r is Ok ==> (*final(active_payee)) is Some && methods_view((*final(active_payee))->Some_0.payment_methods@)
            == without(methods_view((*old(active_payee))->Some_0.payment_methods@), keysend_name()),
{
    match active_payee {
        Some(payee) => {
            let name = keysend_method_name();
            payee.payment_methods = remove_method(&payee.payment_methods, &name);
            Ok(())
        },
        None => Err(PaymentMethodError::NoActivePayee),
    }
}

} // verus!
