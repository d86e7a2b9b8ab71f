use aanyx::runtime::plugin::PluginRegistrar;
use aanyx::runtime::{
    FunctionProxy, FunctionsRegistry, LoadAction, LoadError, LoadEvent, PluginDeclaration,
    DECLARATION_SYMBOL,
};
use libloading::Library;
use std::fmt::Debug;
use std::rc::Rc;

#[derive(Debug)]
struct Test;

/// What the plugins of these tests export.
trait Answer {
    fn answer(&self, question: u32) -> u32;
}

struct Adds(u32);

impl Answer for Adds {
    fn answer(&self, question: u32) -> u32 {
        question + self.0
    }
}

struct Doubles;

impl Answer for Doubles {
    fn answer(&self, question: u32) -> u32 {
        2 * question
    }
}

fn host() -> PluginDeclaration {
    PluginDeclaration {
        core_version: aanyx::CORE_VERSION.to_string(),
        host_runtime_version: "1.70.0".to_string(),
    }
}

fn declaration(core_version: &str, host_runtime_version: &str) -> PluginDeclaration {
    PluginDeclaration {
        core_version: core_version.to_string(),
        host_runtime_version: host_runtime_version.to_string(),
    }
}

/// A handle of an open binary: the running process itself.
fn open() -> Rc<Library> {
    Rc::new(Library::from(libloading::os::unix::Library::this()))
}

/// Stands in for the platform: whatever `path` is, the binary found there is a
/// plugin built against this host whose entry point registers `Test`.
fn load(registry: &mut FunctionsRegistry<dyn Debug>, _path: &str) -> Result<(), LoadError> {
    let mut event = LoadEvent::Declared(open(), host());
    loop {
        match registry.load(&host(), event) {
            LoadAction::Register(mut registrar) => {
                registrar.register_function("Test", Box::new(Test));
                event = LoadEvent::Registered(registrar);
            }
            LoadAction::Finish(result) => return result,
        }
    }
}

/// Loads a plugin that agrees with the host and registers `functions`, in that
/// order, from the binary behind `library`.
fn load_plugin(
    registry: &mut FunctionsRegistry<dyn Answer>,
    library: &Rc<Library>,
    functions: Vec<(&str, Box<dyn Answer>)>,
) -> Result<(), LoadError> {
    let declared = LoadEvent::Declared(Rc::clone(library), host());
    let mut registrar = match registry.load(&host(), declared) {
        LoadAction::Register(registrar) => registrar,
        LoadAction::Finish(result) => return result,
    };
    for (name, function) in functions {
        registrar.register_function(name, function);
    }
    match registry.load(&host(), LoadEvent::Registered(registrar)) {
        LoadAction::Finish(result) => result,
        LoadAction::Register(_) => panic!("a merged registrar ends the load"),
    }
}

fn finished(action: LoadAction<dyn Answer>) -> Result<(), LoadError> {
    match action {
        LoadAction::Finish(result) => result,
        LoadAction::Register(_) => panic!("the load was expected to be over"),
    }
}

fn names(registry: &FunctionsRegistry<dyn Answer>) -> Vec<String> {
    let mut names = registry.functions().to_vec();
    names.sort();
    names
}

fn ask(registry: &FunctionsRegistry<dyn Answer>, name: &str, question: u32) -> Option<u32> {
    registry.get(name).map(|proxy| proxy.answer(question))
}

#[test]
fn test_plugin() {
    let mut registry = FunctionsRegistry::<dyn Debug>::new();
    let load = load(&mut registry, "target/debug/libplugin_test.so");
    assert!(load.is_ok(), "Failed loading the plugin: {:?}", load.err().unwrap());
}

#[test]
fn get_plugin() {
    let mut registry = FunctionsRegistry::<dyn Debug>::new();
    let load = load(&mut registry, "target/debug/libplugin_test.so");
    assert!(load.is_ok(), "Failed loading the plugin: {:?}", load.err().unwrap());
    assert!(registry.get("Test").is_some())
}

#[test]
fn get_plugin_finds_what_was_registered() {
    let mut registry = FunctionsRegistry::<dyn Debug>::new();
    assert_eq!(load(&mut registry, "target/debug/libplugin_test.so"), Ok(()));
    let proxy: &FunctionProxy<dyn Debug> = registry.get("Test").unwrap();
    assert_eq!(format!("{:?}", **proxy), "Test");
    assert!(registry.get("test").is_none());
    assert!(registry.get("").is_none());
    assert_eq!(registry.functions().to_vec(), vec!["Test".to_string()]);
}

#[test]
fn new_registry_is_empty() {
    let registry = FunctionsRegistry::<dyn Answer>::new();
    assert!(registry.get("Test").is_none());
    assert!(registry.functions().is_empty());

    let registry = FunctionsRegistry::<dyn Answer>::default();
    assert!(registry.get("Test").is_none());
    assert_eq!(registry.functions().len(), 0);
}

#[test]
fn symbol_and_protocol_version_are_fixed() {
    assert_eq!(DECLARATION_SYMBOL, "plugin_declaration");
    assert_eq!(aanyx::CORE_VERSION, "0.1.0");
}

#[test]
fn declarations_are_compared_text_by_text() {
    let host = declaration("0.1.0", "1.70.0");
    assert!(declaration("0.1.0", "1.70.0").is_compatible_with(&host));
    assert!(!declaration("0.1.1", "1.70.0").is_compatible_with(&host));
    assert!(!declaration("0.1.0", "1.70.1").is_compatible_with(&host));
    assert!(!declaration("1.70.0", "0.1.0").is_compatible_with(&host));
    assert!(!declaration("0.1.0 ", "1.70.0").is_compatible_with(&host));
    assert!(!declaration("", "").is_compatible_with(&host));
    assert!(declaration("", "").is_compatible_with(&declaration("", "")));

    let copy = host.clone();
    assert_eq!(copy.core_version, "0.1.0");
    assert_eq!(copy.host_runtime_version, "1.70.0");
    assert!(copy.is_compatible_with(&host));
}

#[test]
fn compatible_plugin_registers_every_name() {
    let mut registry = FunctionsRegistry::<dyn Answer>::new();
    let first = open();
    assert_eq!(load_plugin(&mut registry, &first, vec![("plus one", Box::new(Adds(1)))]), Ok(()));

    let second = open();
    let loaded = load_plugin(
        &mut registry,
        &second,
        vec![("plus two", Box::new(Adds(2))), ("double", Box::new(Doubles))],
    );
    assert_eq!(loaded, Ok(()));

    assert_eq!(ask(&registry, "plus two", 40), Some(42));
    assert_eq!(ask(&registry, "double", 21), Some(42));
    assert_eq!(ask(&registry, "plus one", 41), Some(42));
    assert_eq!(names(&registry), vec!["double", "plus one", "plus two"]);
    // One share for the test, one for the retained list, one for each proxy.
    assert_eq!(Rc::strong_count(&first), 3);
    assert_eq!(Rc::strong_count(&second), 4);
}

#[test]
fn registrar_handed_out_is_empty_and_registry_waits() {
    let mut registry = FunctionsRegistry::<dyn Answer>::new();
    let library = open();
    let answer = registry.load(&host(), LoadEvent::Declared(Rc::clone(&library), host()));
    let registrar = match answer {
        LoadAction::Register(registrar) => registrar,
        LoadAction::Finish(_) => panic!("a compatible plugin is asked to register"),
    };
    // Nothing is registered or retained until the registrar comes back.
    assert!(registry.functions().is_empty());
    assert_eq!(Rc::strong_count(&library), 2);
    drop(registrar);
    assert_eq!(Rc::strong_count(&library), 1);
}

#[test]
fn plugin_that_registers_nothing_is_loaded_and_retained() {
    let mut registry = FunctionsRegistry::<dyn Answer>::new();
    let library = open();
    assert_eq!(load_plugin(&mut registry, &library, vec![]), Ok(()));
    assert!(registry.functions().is_empty());
    assert_eq!(Rc::strong_count(&library), 2);
}

#[test]
fn version_mismatch_is_refused_without_a_trace() {
    let mut registry = FunctionsRegistry::<dyn Answer>::new();
    let kept = open();
    assert_eq!(load_plugin(&mut registry, &kept, vec![("plus one", Box::new(Adds(1)))]), Ok(()));

    let cases = [
        ("0.2.0", "1.70.0"),
        ("0.1.0", "1.71.0"),
        ("0.2.0", "1.71.0"),
        ("", "1.70.0"),
        ("0.1.0", ""),
        ("1.70.0", "0.1.0"),
    ];
    for (core, runtime) in cases {
        let library = open();
        let action = registry
            .load(&host(), LoadEvent::Declared(Rc::clone(&library), declaration(core, runtime)));
        assert_eq!(
            finished(action),
            Err(LoadError::VersionMismatch {
                expected_core: "0.1.0".to_string(),
                actual_core: core.to_string(),
                expected_host: "1.70.0".to_string(),
                actual_host: runtime.to_string(),
            })
        );
        // The handle was let go of, and the registry is what it was.
        assert_eq!(Rc::strong_count(&library), 1);
        assert_eq!(names(&registry), vec!["plus one"]);
        assert_eq!(ask(&registry, "plus one", 1), Some(2));
        assert_eq!(Rc::strong_count(&kept), 3);
    }
}

#[test]
fn binary_that_cannot_be_opened_is_an_io_error() {
    let mut registry = FunctionsRegistry::<dyn Answer>::new();
    let kept = open();
    assert_eq!(load_plugin(&mut registry, &kept, vec![("double", Box::new(Doubles))]), Ok(()));

    let action = registry.load(&host(), LoadEvent::OpenFailed);
    assert_eq!(finished(action), Err(LoadError::IoError));
    assert_eq!(names(&registry), vec!["double"]);
    assert_eq!(ask(&registry, "double", 4), Some(8));
    assert_eq!(Rc::strong_count(&kept), 3);

    let mut empty = FunctionsRegistry::<dyn Answer>::new();
    assert_eq!(finished(empty.load(&host(), LoadEvent::OpenFailed)), Err(LoadError::IoError));
    assert!(empty.functions().is_empty());
}

#[test]
fn binary_without_declaration_is_no_plugin() {
    let mut registry = FunctionsRegistry::<dyn Answer>::new();
    let kept = open();
    assert_eq!(load_plugin(&mut registry, &kept, vec![("double", Box::new(Doubles))]), Ok(()));

    let library = open();
    let action = registry.load(&host(), LoadEvent::SymbolMissing(Rc::clone(&library)));
    assert_eq!(finished(action), Err(LoadError::SymbolNotFound));
    assert_eq!(Rc::strong_count(&library), 1);
    assert_eq!(names(&registry), vec!["double"]);
    assert_eq!(ask(&registry, "double", 4), Some(8));
    assert_eq!(Rc::strong_count(&kept), 3);
}

#[test]
fn later_plugin_wins_a_name() {
    let mut registry = FunctionsRegistry::<dyn Answer>::new();
    let first = open();
    let second = open();
    assert_eq!(load_plugin(&mut registry, &first, vec![("answer", Box::new(Adds(1)))]), Ok(()));
    assert_eq!(ask(&registry, "answer", 10), Some(11));

    assert_eq!(load_plugin(&mut registry, &second, vec![("answer", Box::new(Doubles))]), Ok(()));
    assert_eq!(ask(&registry, "answer", 10), Some(20));
    assert_eq!(names(&registry), vec!["answer"]);

    // The first binary has no name left, and is retained all the same.
    assert_eq!(Rc::strong_count(&first), 2);
    assert_eq!(Rc::strong_count(&second), 3);
}

#[test]
fn later_registration_wins_within_one_plugin() {
    let mut registry = FunctionsRegistry::<dyn Answer>::new();
    let library = open();
    let loaded = load_plugin(
        &mut registry,
        &library,
        vec![
            ("answer", Box::new(Adds(1))),
            ("other", Box::new(Adds(5))),
            ("answer", Box::new(Doubles)),
        ],
    );
    assert_eq!(loaded, Ok(()));
    assert_eq!(ask(&registry, "answer", 10), Some(20));
    assert_eq!(ask(&registry, "other", 10), Some(15));
    assert_eq!(names(&registry), vec!["answer", "other"]);
    assert_eq!(Rc::strong_count(&library), 4);
}

#[test]
fn proxy_outlasts_later_loads_and_refusals() {
    let mut registry = FunctionsRegistry::<dyn Answer>::new();
    let early = open();
    assert_eq!(load_plugin(&mut registry, &early, vec![("early", Box::new(Adds(7)))]), Ok(()));
    assert_eq!(ask(&registry, "early", 1), Some(8));

    assert_eq!(load_plugin(&mut registry, &open(), vec![("a", Box::new(Doubles))]), Ok(()));
    assert_eq!(ask(&registry, "early", 2), Some(9));
    assert_eq!(finished(registry.load(&host(), LoadEvent::OpenFailed)), Err(LoadError::IoError));
    assert_eq!(ask(&registry, "early", 3), Some(10));
    assert_eq!(
        finished(registry.load(&host(), LoadEvent::SymbolMissing(open()))),
        Err(LoadError::SymbolNotFound)
    );
    assert_eq!(ask(&registry, "early", 4), Some(11));
    let refused = registry.load(&host(), LoadEvent::Declared(open(), declaration("9", "9")));
    assert!(matches!(finished(refused), Err(LoadError::VersionMismatch { .. })));
    assert_eq!(ask(&registry, "early", 5), Some(12));
    let later: Vec<(&str, Box<dyn Answer>)> =
        vec![("b", Box::new(Adds(1))), ("c", Box::new(Doubles))];
    assert_eq!(load_plugin(&mut registry, &open(), later), Ok(()));
    assert_eq!(ask(&registry, "early", 6), Some(13));
    assert_eq!(names(&registry), vec!["a", "b", "c", "early"]);
    assert_eq!(Rc::strong_count(&early), 3);
}

#[test]
fn functions_lists_each_name_once() {
    let mut registry = FunctionsRegistry::<dyn Answer>::new();
    let pairs: Vec<(&str, Box<dyn Answer>)> = vec![
        ("a", Box::new(Adds(1))),
        ("b", Box::new(Adds(2))),
        ("a", Box::new(Adds(3))),
        ("", Box::new(Adds(4))),
    ];
    assert_eq!(load_plugin(&mut registry, &open(), pairs), Ok(()));
    let pairs: Vec<(&str, Box<dyn Answer>)> =
        vec![("b", Box::new(Doubles)), ("c", Box::new(Doubles)), ("c", Box::new(Adds(0)))];
    assert_eq!(load_plugin(&mut registry, &open(), pairs), Ok(()));

    let listed = registry.functions();
    assert_eq!(listed.len(), 4);
    assert_eq!(names(&registry), vec!["", "a", "b", "c"]);
    for name in listed {
        assert_eq!(listed.iter().filter(|other| *other == name).count(), 1);
        assert!(registry.get(name).is_some());
    }
    // Asking again starts over and gives the same names.
    assert_eq!(registry.functions(), listed);
    assert_eq!(ask(&registry, "a", 0), Some(3));
    assert_eq!(ask(&registry, "b", 4), Some(8));
    assert_eq!(ask(&registry, "c", 4), Some(4));
    assert_eq!(ask(&registry, "", 0), Some(4));
}

#[test]
fn registrar_shares_one_handle_and_gives_it_up_with_the_registry() {
    let library = open();
    let mut registry = FunctionsRegistry::<dyn Answer>::new();
    let answer = registry.load(&host(), LoadEvent::Declared(Rc::clone(&library), host()));
    let mut registrar: aanyx::runtime::app::PluginRegistrar<dyn Answer> = match answer {
        LoadAction::Register(registrar) => registrar,
        LoadAction::Finish(_) => panic!("a compatible plugin is asked to register"),
    };
    assert_eq!(Rc::strong_count(&library), 2);
    registrar.register_function("x", Box::new(Doubles));
    registrar.register_function("x", Box::new(Adds(1)));
    // The proxy that lost its name is gone, with its share of the handle.
    assert_eq!(Rc::strong_count(&library), 3);

    let action = registry.load(&host(), LoadEvent::Registered(registrar));
    assert_eq!(finished(action), Ok(()));
    assert_eq!(ask(&registry, "x", 1), Some(2));
    assert_eq!(Rc::strong_count(&library), 3);
    drop(registry);
    assert_eq!(Rc::strong_count(&library), 1);
}
