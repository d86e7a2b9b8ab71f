use super::registrar::{lemma_append_fresh_name, name_texts};
use super::{FunctionProxy, PluginRegistrar};
use crate::runtime::plugin::PluginDeclaration;
use libloading::Library;
use std::rc::Rc;
use vstd::hash_map::StringHashMap;
use vstd::prelude::*;

verus! {

/// Why a load was refused. A refused load leaves the registry as it was.
#[derive(Debug, PartialEq, Eq)]
pub enum LoadError {
    /// The binary was not found, could not be read, or is no dynamic binary.
    IoError,
    /// The binary exports no declaration record: it is no plugin for this host.
    SymbolNotFound,
    /// The binary is a plugin, but built against another loading protocol or
    /// another compiler runtime.
    VersionMismatch {
        /// The host's protocol version.
        expected_core: String,
        /// The plugin's protocol version.
        actual_core: String,
        /// The host's runtime version.
        expected_host: String,
        /// The plugin's runtime version.
        actual_host: String,
    },
}

impl LoadError {
    /// This error is a version mismatch that carries the texts of `host` as
    /// expected and those of `plugin` as actual.
    pub open spec fn reports_mismatch(
        &self,
        host: &PluginDeclaration,
        plugin: &PluginDeclaration,
    ) -> bool {
        match *self {
            LoadError::VersionMismatch {
                expected_core,
                actual_core,
                expected_host,
                actual_host,
            } => {
                &&& expected_core@ == host.core_version@
                &&& actual_core@ == plugin.core_version@
                &&& expected_host@ == host.host_runtime_version@
                &&& actual_host@ == plugin.host_runtime_version@
            },
            _ => false,
        }
    }
}

/// What the platform reports to the registry in the course of one load.
#[verifier::reject_recursive_types(Prototype)]
pub enum LoadEvent<Prototype: ?Sized> {
    /// The binary could not be opened.
    OpenFailed,
    /// The binary is open, but the declaration record was not found in it.
    SymbolMissing(Rc<Library>),
    /// The binary is open and its declaration record was read.
    Declared(Rc<Library>, PluginDeclaration),
    /// The plugin's registration entry point has returned; this is the
    /// registrar it was given.
    Registered(PluginRegistrar<Prototype>),
}

/// What the registry asks for in answer to an event.
#[verifier::reject_recursive_types(Prototype)]
pub enum LoadAction<Prototype: ?Sized> {
    /// Run the plugin's registration entry point on this registrar, then report
    /// [`LoadEvent::Registered`] with it.
    Register(PluginRegistrar<Prototype>),
    /// The load is over, with this result.
    Finish(Result<(), LoadError>),
}

/// The functions that plugins have registered, by name, and the handles of all
/// binaries loaded so far.
///
/// A name belongs to the plugin that registered it last. A handle, once
/// retained, is kept until the registry itself is dropped, so no proxy handed
/// out by the registry can outlive the code behind it.
///
/// The registry does no locking of its own: a caller that shares one between
/// threads has to guard it as a whole.
#[verifier::reject_recursive_types(Prototype)]
pub struct FunctionsRegistry<Prototype: ?Sized> {
    functions: StringHashMap<FunctionProxy<Prototype>>,
    names: Vec<String>,
    libraries: Vec<Rc<Library>>,
}

impl<Prototype: ?Sized> View for FunctionsRegistry<Prototype> {
    type V = Map<Seq<char>, FunctionProxy<Prototype>>;

    /// The registered proxies, by name.
    closed spec fn view(&self) -> Map<Seq<char>, FunctionProxy<Prototype>> {
        self.functions@
    }
}

impl<Prototype: ?Sized> FunctionsRegistry<Prototype> {
    /// The handles retained so far, oldest first.
    pub closed spec fn libraries(&self) -> Seq<Rc<Library>> {
        self.libraries@
    }

    /// The registered names in the order in which `functions` lists them.
    pub closed spec fn names(&self) -> Seq<Seq<char>> {
        name_texts(self.names@)
    }

    /// The handle behind every registered proxy is among the retained ones.
    pub open spec fn retains_backing_handles(&self) -> bool {
        forall|name: Seq<char>| #[trigger]
            self@.contains_key(name) ==> self.libraries().contains(self@[name].library())
    }

    /// The names are listed once each, they are exactly the registered ones,
    /// and the handle behind every proxy is retained.
    #[verifier::type_invariant]
    pub closed spec fn wf(&self) -> bool {
        &&& name_texts(self.names@).no_duplicates()
        &&& name_texts(self.names@).to_set() == self.functions@.dom()
        &&& self.retains_backing_handles()
    }

    /// What a well-formed registry is to a caller: its names are listed once
    /// each, they are exactly the registered ones, so there are as many of
    /// them as the registry has entries, and no proxy has lost its binary.
    pub proof fn lemma_well_formed(&self)
        requires
            self.wf(),
        ensures
            self.names().no_duplicates(),
            self.names().to_set() == self@.dom(),
            self.names().len() == self@.dom().len(),
            self@.dom().finite(),
            self.retains_backing_handles(),
    {
        self.names().unique_seq_to_set();
    }

    /// What `load` leaves behind and answers, for each event.
    ///
    /// * A binary that cannot be opened, lacks the declaration record or
    ///   disagrees with the host in a version is refused with the matching
    ///   error, and the registry stays as it was.
    /// * A binary that agrees with the host gets an empty registrar bound to
    ///   its handle; the registry stays as it was until the registrar comes
    ///   back.
    /// * A registrar that comes back is merged: each of its names now
    ///   resolves to its proxy, all other names keep theirs, and its handle is
    ///   appended to the retained ones.
    pub open spec fn load_step(
        before: &Self,
        host: &PluginDeclaration,
        event: &LoadEvent<Prototype>,
        after: &Self,
        action: &LoadAction<Prototype>,
    ) -> bool {
        match *event {
            LoadEvent::OpenFailed => {
                &&& *after == *before
                &&& *action matches LoadAction::Finish(Err(LoadError::IoError))
            },
            LoadEvent::SymbolMissing(_) => {
                &&& *after == *before
                &&& *action matches LoadAction::Finish(Err(LoadError::SymbolNotFound))
            },
            LoadEvent::Declared(library, declaration) => {
                &&& *after == *before
                &&& if declaration.agrees_with(host) {
                    &&& *action matches LoadAction::Register(registrar)
                    &&& registrar@ == Map::<Seq<char>, FunctionProxy<Prototype>>::empty()
                    &&& registrar.library() == library
                    &&& registrar.wf()
                } else {
                    &&& *action matches LoadAction::Finish(Err(error))
                    &&& error.reports_mismatch(host, &declaration)
                }
            },
            LoadEvent::Registered(registrar) => {
                &&& after@ == before@.union_prefer_right(registrar@)
                &&& after.libraries() == before.libraries().push(registrar.library())
                &&& *action matches LoadAction::Finish(Ok(()))
            },
        }
    }

    /// An empty registry.
    pub fn new() -> (registry: Self)
        ensures
            registry@ == Map::<Seq<char>, FunctionProxy<Prototype>>::empty(),
            registry.libraries() == Seq::<Rc<Library>>::empty(),
            registry.wf(),
    {
        let functions = StringHashMap::new();
        let names: Vec<String> = Vec::new();
        assert(name_texts(names@).to_set() =~= functions@.dom());
        FunctionsRegistry { functions, names, libraries: Vec::new() }
    }

    /// Takes one step of the load protocol.
    ///
    /// The caller opens the binary and reads its declaration record, reports
    /// what came of it, and does what the answer asks for: on
    /// [`LoadAction::Register`] it runs the plugin's registration entry point
    /// on the registrar and reports [`LoadEvent::Registered`]; on
    /// [`LoadAction::Finish`] the load is over. `host` is the host's own
    /// declaration record.
    ///
    /// A handle that comes with a refused binary is dropped here, which
    /// releases the binary.
    pub fn load(
        &mut self,
        host: &PluginDeclaration,
        event: LoadEvent<Prototype>,
    ) -> (action: LoadAction<Prototype>)
        ensures
            Self::load_step(old(self), host, &event, final(self), &action),
            final(self).wf(),
    {
        proof {
            use_type_invariant(&*self);
        }
        match event {
            LoadEvent::OpenFailed => LoadAction::Finish(Err(LoadError::IoError)),
            LoadEvent::SymbolMissing(_) => LoadAction::Finish(Err(LoadError::SymbolNotFound)),
            LoadEvent::Declared(library, declaration) => {
                if declaration.is_compatible_with(host) {
                    LoadAction::Register(PluginRegistrar::new(library))
                } else {
                    LoadAction::Finish(
                        Err(
                            LoadError::VersionMismatch {
                                expected_core: host.core_version.clone(),
                                actual_core: declaration.core_version,
                                expected_host: host.host_runtime_version.clone(),
                                actual_host: declaration.host_runtime_version,
                            },
                        ),
                    )
                }
            },
            LoadEvent::Registered(registrar) => {
                self.merge(registrar);
                LoadAction::Finish(Ok(()))
            },
        }
    }

    /// Moves what `registrar` collected into the registry and retains its
    /// handle.
    fn merge(&mut self, registrar: PluginRegistrar<Prototype>)
        ensures
            final(self)@ == old(self)@.union_prefer_right(registrar@),
            final(self).libraries() == old(self).libraries().push(registrar.library()),
            final(self).wf(),
    {
        let mut taken = FunctionsRegistry::new();
        std::mem::swap(self, &mut taken);
        proof {
            use_type_invariant(&taken);
        }
        let ghost before = taken@;
        let ghost retained = taken.libraries();
        let FunctionsRegistry { mut functions, mut names, mut libraries } = taken;
        let (added, added_names, lib) = registrar.into_parts();
        let ghost added_texts = name_texts(added_names@);
        let mut i: usize = 0;
        while i < added_names.len()
            invariant
                i <= added_names.len(),
                functions@ == before,
                added_texts == name_texts(added_names@),
                added_texts.no_duplicates(),
                name_texts(names@).no_duplicates(),
                name_texts(names@).to_set() == before.dom().union(
                    added_texts.take(i as int).to_set(),
                ),
            decreases added_names.len() - i,
        {
            let name = &added_names[i];
            proof {
                added_texts.lemma_take_succ_push(i as int);
                added_texts.take(i as int).lemma_push_to_set_commute(name@);
            }
            if !functions.contains_key(name.as_str()) {
                let owned = name.clone();
                proof {
                    assert(name@ == added_texts[i as int]);
                    if added_texts.take(i as int).contains(name@) {
                        let j = choose|j: int|
                            0 <= j < i && added_texts.take(i as int)[j] == name@;
                        assert(added_texts[j] == added_texts[i as int]);
                    }
                    assert(!name_texts(names@).to_set().contains(name@));
                    lemma_append_fresh_name(names@, owned);
                }
                names.push(owned);
            }
            i += 1;
        }
        proof {
            assert(added_texts.take(i as int) =~= added_texts);
            assert(before.union_prefer_right(added@).dom() =~= before.dom().union(added@.dom()));
        }
        functions.union_prefer_right(added);
        libraries.push(lib);
        proof {
            assert forall|name: Seq<char>| #[trigger]
                functions@.contains_key(name) implies libraries@.contains(
                functions@[name].library(),
            ) by {
                if added@.contains_key(name) {
                    assert(functions@[name].library() == lib);
                    assert(libraries@[retained.len() as int] == lib);
                } else {
                    assert(before.contains_key(name));
                    assert(retained.contains(before[name].library()));
                    let held = retained.index_of(before[name].library());
                    assert(libraries@[held] == before[name].library());
                }
            }
        }
        *self = FunctionsRegistry { functions, names, libraries };
    }

    /// Looks `function` up among the registered names.
    pub fn get(&self, function: &str) -> (found: Option<&FunctionProxy<Prototype>>)
        ensures
            found == if self@.contains_key(function@) {
                Some(&self@[function@])
            } else {
                None
            },
    {
        self.functions.get(function)
    }

    /// The registered names, each one once, in no particular order.
    pub fn functions(&self) -> (names: &[String])
        ensures
            name_texts(names@) == self.names(),
            name_texts(names@).no_duplicates(),
            name_texts(names@).to_set() == self@.dom(),
            names@.len() == self@.dom().len(),
    {
        proof {
            use_type_invariant(self);
            name_texts(self.names@).unique_seq_to_set();
        }
        self.names.as_slice()
    }
}

impl<Prototype: ?Sized> Default for FunctionsRegistry<Prototype> {
    /// An empty registry.
    fn default() -> (registry: Self)
        ensures
            registry@ == Map::<Seq<char>, FunctionProxy<Prototype>>::empty(),
            registry.libraries() == Seq::<Rc<Library>>::empty(),
            registry.wf(),
    {
        FunctionsRegistry::new()
    }
}

} // verus!
