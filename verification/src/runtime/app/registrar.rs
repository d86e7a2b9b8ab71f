use super::FunctionProxy;
use libloading::Library;
use std::rc::Rc;
use vstd::hash_map::StringHashMap;
use vstd::prelude::*;

verus! {

/// The text of each name, in the order of the names.
pub open spec fn name_texts(names: Seq<String>) -> Seq<Seq<char>> {
    names.map_values(|name: String| name@)
}

/// Appending a name that a duplicate-free list lacks keeps the list free of
/// duplicates and adds the name's text to the set of its texts.
pub proof fn lemma_append_fresh_name(names: Seq<String>, name: String)
    requires
        name_texts(names).no_duplicates(),
        !name_texts(names).contains(name@),
    ensures
        name_texts(names.push(name)) == name_texts(names).push(name@),
        name_texts(names.push(name)).no_duplicates(),
        name_texts(names.push(name)).to_set() == name_texts(names).to_set().insert(name@),
{
    let texts = name_texts(names);
    assert(name_texts(names.push(name)) =~= texts.push(name@));
    texts.lemma_push_to_set_commute(name@);
}

/// The collector that a plugin fills during one load.
///
/// It is made for one library handle, handed to the plugin's registration
/// entry point, and then merged into the registry. Every proxy it holds shares
/// that one handle.
#[verifier::reject_recursive_types(Prototype)]
pub struct PluginRegistrar<Prototype: ?Sized> {
    functions: StringHashMap<FunctionProxy<Prototype>>,
    names: Vec<String>,
    lib: Rc<Library>,
}

impl<Prototype: ?Sized> View for PluginRegistrar<Prototype> {
    type V = Map<Seq<char>, FunctionProxy<Prototype>>;

    /// The proxies collected so far, by name.
    closed spec fn view(&self) -> Map<Seq<char>, FunctionProxy<Prototype>> {
        self.functions@
    }
}

impl<Prototype: ?Sized> PluginRegistrar<Prototype> {
    /// The handle of the binary being loaded.
    pub closed spec fn library(&self) -> Rc<Library> {
        self.lib
    }

    /// Every collected proxy holds a share of the registrar's handle.
    pub open spec fn shares_one_handle(&self) -> bool {
        forall|name: Seq<char>| #[trigger]
            self@.contains_key(name) ==> self@[name].library() == self.library()
    }

    /// The names are listed once each, and every proxy shares the registrar's
    /// handle.
    #[verifier::type_invariant]
    pub closed spec fn wf(&self) -> bool {
        &&& name_texts(self.names@).no_duplicates()
        &&& name_texts(self.names@).to_set() == self.functions@.dom()
        &&& self.shares_one_handle()
    }

    /// A well-formed registrar holds no proxy of another binary.
    pub proof fn lemma_shares_one_handle(&self)
        requires
            self.wf(),
        ensures
            self.shares_one_handle(),
    {
    }

    /// An empty registrar for the binary behind `lib`.
    ///
    /// Only the registry makes registrars, and only for a binary whose
    /// declaration record it has accepted.
    pub(crate) fn new(lib: Rc<Library>) -> (registrar: Self)
        ensures
            registrar@ == Map::<Seq<char>, FunctionProxy<Prototype>>::empty(),
            registrar.library() == lib,
            registrar.wf(),
    {
        let functions = StringHashMap::new();
        let names: Vec<String> = Vec::new();
        assert(name_texts(names@).to_set() =~= functions@.dom());
        PluginRegistrar { functions, names, lib }
    }

    /// Takes the registrar apart: the proxies, their names and the handle.
    pub(crate) fn into_parts(self) -> (parts: (
        StringHashMap<FunctionProxy<Prototype>>,
        Vec<String>,
        Rc<Library>,
    ))
        ensures
            parts.0@ == self@,
            name_texts(parts.1@).no_duplicates(),
            name_texts(parts.1@).to_set() == self@.dom(),
            parts.2 == self.library(),
            self.shares_one_handle(),
    {
        proof {
            use_type_invariant(&self);
        }
        let PluginRegistrar { functions, names, lib } = self;
        (functions, names, lib)
    }
}

impl<Prototype: ?Sized> crate::runtime::plugin::PluginRegistrar<Prototype> for PluginRegistrar<
    Prototype,
> {
    closed spec fn recorded(&self) -> Map<Seq<char>, Box<Prototype>> {
        self@.map_values(|proxy: FunctionProxy<Prototype>| proxy.callable())
    }

    /// Wraps `function` in a proxy that shares the registrar's handle and
    /// records it under `name`, in place of whatever the name held before.
    fn register_function(&mut self, name: &str, function: Box<Prototype>)
        ensures
            final(self).library() == old(self).library(),
            final(self)@ == old(self)@.insert(name@, final(self)@[name@]),
            final(self)@[name@].callable() == function,
            final(self)@[name@].library() == old(self).library(),
            final(self).wf(),
    {
        let lib = Rc::clone(&self.lib);
        let mut taken = PluginRegistrar::new(lib);
        std::mem::swap(self, &mut taken);
        proof {
            use_type_invariant(&taken);
        }
        let ghost before = taken@;
        let PluginRegistrar { mut functions, mut names, lib } = taken;
        let proxy = FunctionProxy::new(function, &lib);
        if !functions.contains_key(name) {
            let owned = name.to_string();
            proof {
                lemma_append_fresh_name(names@, owned);
            }
            names.push(owned);
        }
        functions.insert(name.to_string(), proxy);
        proof {
            assert(name_texts(names@).to_set() =~= functions@.dom());
            assert forall|other: Seq<char>| #[trigger]
                functions@.contains_key(other) implies functions@[other].library() == lib by {
                if other != name@ {
                    assert(before.contains_key(other));
                }
            }
        }
        *self = PluginRegistrar { functions, names, lib };
    }
}

} // verus!
