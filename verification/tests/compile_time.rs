use aanyx::compile_time::{FromRegistry, Handler, Service};

#[derive(PartialEq, Debug)]
struct S;

impl FromRegistry<()> for S {
    fn from(_: &()) -> Self {
        S
    }
}

fn noop() -> bool {
    true
}

fn noop1(_: ()) -> bool {
    true
}

fn noop2(_: (), _: ()) -> bool {
    true
}

#[test]
fn test_custom_from_registry() {
    assert_eq!(S, <S as FromRegistry<()>>::from(&()))
}

#[test]
fn test_closure_as_service() {
    let always_true0 = || true;
    let always_true1 = |_: ()| true;

    let registry = ();
    let service0 = Service::new(Box::new(always_true0));
    let service1 = Service::new(Box::new(always_true1));

    assert!(service0.call(&registry));
    assert!(service1.call(&registry));
}

fn noop12(
    _: (),
    _: (),
    _: (),
    _: (),
    _: (),
    _: (),
    _: (),
    _: (),
    _: (),
    _: (),
    _: (),
    _: (),
) -> bool {
    true
}

#[test]
fn test_fn_as_service() {
    let registry = ();
    let service0 = Service::new(Box::new(noop));
    let service1 = Service::new(Box::new(noop1));
    let service2 = Service::new(Box::new(noop2));
    let service12 = Service::new(Box::new(noop12));

    assert!(service0.call(&registry));
    assert!(service1.call(&registry));
    assert!(service2.call(&registry));
    assert!(service12.call(&registry));
}

/// A registry of counters: every value taken out of it is the number of values
/// taken out before.
struct Counter(std::cell::Cell<u32>);

struct Ticket(u32);

impl FromRegistry<Counter> for Ticket {
    fn from(registry: &Counter) -> Self {
        let ticket = registry.0.get();
        registry.0.set(ticket + 1);
        Ticket(ticket)
    }
}

#[test]
fn service_extracts_arguments_first_to_last() {
    let registry = Counter(std::cell::Cell::new(10));
    let service = Service::new(Box::new(|a: Ticket, b: Ticket, c: Ticket| (a.0, b.0, c.0)));
    assert_eq!(service.call(&registry), (10, 11, 12));
    // Every call extracts anew.
    assert_eq!(service.call(&registry), (13, 14, 15));
}

#[test]
fn set_handler_replaces_the_handler() {
    let return_always_true = || true;
    let return_always_false = || false;
    let registry = ();
    let mut my_service = Service::new(Box::new(return_always_true));
    assert!(my_service.call(&registry));
    my_service.set_handler(Box::new(return_always_false));
    assert!(!my_service.call(&registry));

    // The new handler may take other arguments than the old one.
    let mut counting = Service::new(Box::new(|a: Ticket| a.0));
    let registry = Counter(std::cell::Cell::new(3));
    assert_eq!(counting.call(&registry), 3);
    counting.set_handler(Box::new(|a: Ticket, b: Ticket| a.0 * b.0));
    assert_eq!(counting.call(&registry), 20);
}

#[test]
fn tuples_up_to_fifteen_are_extracted() {
    assert_eq!(<() as FromRegistry<()>>::from(&()), ());
    assert_eq!(<(S,) as FromRegistry<()>>::from(&()), (S,));
    assert_eq!(<(S, S) as FromRegistry<()>>::from(&()), (S, S));
    assert_eq!(<(S, S, S, S, S, S, S) as FromRegistry<()>>::from(&()), (S, S, S, S, S, S, S));

    let registry = Counter(std::cell::Cell::new(0));
    let fifteen = <(
        Ticket,
        Ticket,
        Ticket,
        Ticket,
        Ticket,
        Ticket,
        Ticket,
        Ticket,
        Ticket,
        Ticket,
        Ticket,
        Ticket,
        Ticket,
        Ticket,
        Ticket,
    ) as FromRegistry<Counter>>::from(&registry);
    assert_eq!(fifteen.0 .0, 0);
    assert_eq!(fifteen.7 .0, 7);
    assert_eq!(fifteen.14 .0, 14);
    assert_eq!(registry.0.get(), 15);
}

fn is_old_enough(_name: String, age: u8) -> bool {
    age > 100
}

#[test]
fn handler_spreads_the_tuple_over_the_parameters() {
    assert_eq!(is_old_enough.call_with((String::from("Andrea"), 120u8)), true);
    assert_eq!(is_old_enough.call_with((String::from("Andrea"), 100u8)), false);
    assert_eq!((|| 5).call_with(()), 5);
    assert_eq!((|a: u8| a + 1).call_with((1,)), 2);
    let minus = |a: i32, b: i32, c: i32, d: i32, e: i32, f: i32, g: i32| a - b - c - d - e - f - g;
    assert_eq!(minus.call_with((100, 1, 2, 3, 4, 5, 6)), 79);
}
