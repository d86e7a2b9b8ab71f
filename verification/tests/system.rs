use aanyx::system::{FromRegistry, System};
use std::rc::Rc;

struct Data<T> {
    data: Rc<T>,
}

struct Location {}

struct Person {
    name: String,
    age: u8,
}

impl FromRegistry<(Rc<Person>, Location)> for Data<Person> {
    fn from_registry((person, _): &(Rc<Person>, Location)) -> Self {
        Data { data: Rc::clone(person) }
    }
}

fn old_enough(person: Data<Person>) -> bool {
    person.data.age > 30
}

fn always_true() -> bool {
    true
}

/// A registry of counters: every value taken out of it is the number of values
/// taken out before.
struct Counter(std::cell::Cell<u32>);

struct Ticket(u32);

impl FromRegistry<Counter> for Ticket {
    fn from_registry(registry: &Counter) -> Self {
        let ticket = registry.0.get();
        registry.0.set(ticket + 1);
        Ticket(ticket)
    }
}

struct MyRegistry {}

struct Name(String);

struct Age(u8);

struct Size(usize);

impl FromRegistry<MyRegistry> for Name {
    fn from_registry(_registry: &MyRegistry) -> Self {
        Name(String::from("Alice"))
    }
}

impl FromRegistry<MyRegistry> for Age {
    fn from_registry(_registry: &MyRegistry) -> Self {
        Age(24)
    }
}

impl FromRegistry<MyRegistry> for Size {
    fn from_registry(_registry: &MyRegistry) -> Self {
        Size(7)
    }
}

#[test]
fn system_extracts_its_argument() {
    let registry0 = (Rc::new(Person { name: String::from("Alice"), age: 24u8 }), Location {});
    let registry1 = (Rc::new(Person { name: String::from("Bob"), age: 31u8 }), Location {});
    let registry2 = (Rc::new(Person { name: String::from("Charlie"), age: 1u8 }), Location {});

    assert_eq!(old_enough.apply(&registry0), false);
    assert_eq!(old_enough.apply(&registry1), true);
    assert_eq!(old_enough.apply(&registry2), false);
    assert_eq!(registry1.0.name, "Bob");
}

#[test]
fn system_without_arguments_takes_any_registry() {
    let always_true_wrapper = || always_true.apply(&());
    assert!(always_true_wrapper.apply(&()));

    let registry = Rc::new(());
    let registry_copy = Rc::clone(&registry);
    let always_true_wrapper = move || always_true.apply(&registry_copy);
    assert!(always_true_wrapper.apply(&registry));
}

#[test]
fn tuples_are_extracted_member_by_member() {
    let my_registry = MyRegistry {};
    let (a0, b0, c0) = <(Name, Age, Size)>::from_registry(&my_registry);
    let ((a1, b1), c1) = <((Name, Age), Size)>::from_registry(&my_registry);
    assert_eq!(a0.0, a1.0);
    assert_eq!(b0.0, b1.0);
    assert_eq!(c0.0, c1.0);
    assert_eq!((a0.0.as_str(), b0.0, c0.0), ("Alice", 24, 7));

    let (only,) = <(Age,)>::from_registry(&my_registry);
    assert_eq!(only.0, 24);
    assert_eq!(<()>::from_registry(&my_registry), ());
}

#[test]
fn tuple_members_are_extracted_first_to_last() {
    let registry = Counter(std::cell::Cell::new(0));
    let (a, b, c) = <(Ticket, Ticket, Ticket)>::from_registry(&registry);
    assert_eq!((a.0, b.0, c.0), (0, 1, 2));

    let seven =
        <(Ticket, Ticket, Ticket, Ticket, Ticket, Ticket, Ticket)>::from_registry(&registry);
    assert_eq!(
        (seven.0 .0, seven.1 .0, seven.2 .0, seven.3 .0, seven.4 .0, seven.5 .0, seven.6 .0),
        (3, 4, 5, 6, 7, 8, 9)
    );
}

#[test]
fn system_calls_with_arguments_in_order() {
    let order = |a: Ticket, b: Ticket| (a.0, b.0);
    assert_eq!(order.apply(&Counter(std::cell::Cell::new(5))), (5, 6));

    let sum15 = |a: Ticket,
                 b: Ticket,
                 c: Ticket,
                 d: Ticket,
                 e: Ticket,
                 f: Ticket,
                 g: Ticket,
                 h: Ticket,
                 i: Ticket,
                 j: Ticket,
                 k: Ticket,
                 l: Ticket,
                 m: Ticket,
                 n: Ticket,
                 o: Ticket| {
        assert!(a.0 < b.0 && b.0 < c.0 && c.0 < d.0 && d.0 < e.0 && e.0 < f.0 && f.0 < g.0);
        assert!(g.0 < h.0 && h.0 < i.0 && i.0 < j.0 && j.0 < k.0 && k.0 < l.0 && l.0 < m.0);
        assert!(m.0 < n.0 && n.0 < o.0);
        a.0 + b.0 + c.0 + d.0 + e.0 + f.0 + g.0 + h.0 + i.0 + j.0 + k.0 + l.0 + m.0 + n.0 + o.0
    };
    let registry = Counter(std::cell::Cell::new(1));
    assert_eq!(sum15.apply(&registry), 120);
    assert_eq!(registry.0.get(), 16);
}
