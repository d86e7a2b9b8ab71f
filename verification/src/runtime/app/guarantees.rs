//! What a caller may rely on across several steps of loading.
//!
//! Each statement is about the relation [`FunctionsRegistry::load_step`], which
//! is all that `load` promises, and about the views that `get` and `functions`
//! answer from.
use super::{FunctionProxy, FunctionsRegistry, LoadAction, LoadEvent, PluginRegistrar};
use crate::runtime::plugin::PluginDeclaration;
use vstd::prelude::*;

verus! {

/// A refused load leaves no trace: whenever a step ends in an error, the
/// registry is what it was before, names and retained handles alike.
pub proof fn refused_load_changes_nothing<Prototype: ?Sized>(
    before: FunctionsRegistry<Prototype>,
    host: PluginDeclaration,
    event: LoadEvent<Prototype>,
    after: FunctionsRegistry<Prototype>,
    action: LoadAction<Prototype>,
)
    requires
        FunctionsRegistry::load_step(&before, &host, &event, &after, &action),
        action matches LoadAction::Finish(Err(_)),
    ensures
        after == before,
        after@ == before@,
        after.libraries() == before.libraries(),
{
}

/// A plugin whose versions agree with the host's is loaded in two steps, and
/// afterwards every name it registered resolves to the proxy it registered,
/// the registered names are those from before together with the plugin's, and
/// the retained handles have grown by the plugin's own.
pub proof fn compatible_load_registers_every_name<Prototype: ?Sized>(
    before: FunctionsRegistry<Prototype>,
    host: PluginDeclaration,
    library: std::rc::Rc<libloading::Library>,
    declaration: PluginDeclaration,
    admitted: FunctionsRegistry<Prototype>,
    answer: LoadAction<Prototype>,
    registrar: PluginRegistrar<Prototype>,
    after: FunctionsRegistry<Prototype>,
    outcome: LoadAction<Prototype>,
)
    requires
        declaration.agrees_with(&host),
        FunctionsRegistry::load_step(
            &before,
            &host,
            &LoadEvent::Declared(library, declaration),
            &admitted,
            &answer,
        ),
        FunctionsRegistry::load_step(
            &admitted,
            &host,
            &LoadEvent::Registered(registrar),
            &after,
            &outcome,
        ),
    ensures
        answer matches LoadAction::Register(fresh) && fresh@.dom().is_empty() && fresh.library()
            == library,
        outcome matches LoadAction::Finish(Ok(())),
        forall|name: Seq<char>| #[trigger]
            registrar@.contains_key(name) ==> after@.contains_key(name) && after@[name]
                == registrar@[name],
        after@.dom() == before@.dom().union(registrar@.dom()),
        after.libraries() == before.libraries().push(registrar.library()),
{
    assert(after@.dom() =~= before@.dom().union(registrar@.dom()));
}

/// The plugin loaded last wins a name: when two plugins register the same
/// name one after the other, the name resolves to the second one's proxy. The
/// first plugin's handle stays among the retained ones all the same.
pub proof fn later_load_wins_the_name<Prototype: ?Sized>(
    before: FunctionsRegistry<Prototype>,
    host: PluginDeclaration,
    first: PluginRegistrar<Prototype>,
    between: FunctionsRegistry<Prototype>,
    first_outcome: LoadAction<Prototype>,
    second: PluginRegistrar<Prototype>,
    after: FunctionsRegistry<Prototype>,
    second_outcome: LoadAction<Prototype>,
    name: Seq<char>,
)
    requires
        FunctionsRegistry::load_step(
            &before,
            &host,
            &LoadEvent::Registered(first),
            &between,
            &first_outcome,
        ),
        FunctionsRegistry::load_step(
            &between,
            &host,
            &LoadEvent::Registered(second),
            &after,
            &second_outcome,
        ),
        first@.contains_key(name),
        second@.contains_key(name),
    ensures
        between@.contains_key(name) && between@[name] == first@[name],
        after@.contains_key(name) && after@[name] == second@[name],
        after.libraries().contains(first.library()),
        after.libraries().contains(second.library()),
{
    let at = before.libraries().len() as int;
    assert(after.libraries()[at] == first.library());
    assert(after.libraries()[at + 1] == second.library());
}

/// Within one load the callable registered last wins a name: registering a
/// name twice in a row leaves what registering the second callable alone
/// would have left.
pub proof fn later_registration_wins_the_name<
    Prototype: ?Sized,
    Registrar: crate::runtime::plugin::PluginRegistrar<Prototype>,
>(
    before: Registrar,
    between: Registrar,
    after: Registrar,
    name: Seq<char>,
    first: Box<Prototype>,
    second: Box<Prototype>,
)
    requires
        between.recorded() == before.recorded().insert(name, first),
        after.recorded() == between.recorded().insert(name, second),
    ensures
        after.recorded() == before.recorded().insert(name, second),
        after.recorded().contains_key(name) && after.recorded()[name] == second,
{
    assert(after.recorded() =~= before.recorded().insert(name, second));
}

/// The event registers `name`.
pub open spec fn registers<Prototype: ?Sized>(
    event: LoadEvent<Prototype>,
    name: Seq<char>,
) -> bool {
    event matches LoadEvent::Registered(registrar) && registrar@.contains_key(name)
}

/// A step that does not register `name` leaves the name with the proxy it
/// had, whether the step loads a plugin or refuses one.
pub proof fn unrelated_load_keeps_the_proxy<Prototype: ?Sized>(
    before: FunctionsRegistry<Prototype>,
    host: PluginDeclaration,
    event: LoadEvent<Prototype>,
    after: FunctionsRegistry<Prototype>,
    action: LoadAction<Prototype>,
    name: Seq<char>,
)
    requires
        FunctionsRegistry::load_step(&before, &host, &event, &after, &action),
        before@.contains_key(name),
        !registers(event, name),
    ensures
        after@.contains_key(name),
        after@[name] == before@[name],
{
}

/// `states` is a run of the registry through `events`: each state comes from
/// the one before it by one step of loading.
pub open spec fn is_run<Prototype: ?Sized>(
    states: Seq<FunctionsRegistry<Prototype>>,
    host: PluginDeclaration,
    events: Seq<LoadEvent<Prototype>>,
    actions: Seq<LoadAction<Prototype>>,
) -> bool {
    &&& states.len() == events.len() + 1
    &&& actions.len() == events.len()
    &&& forall|i: int|
        0 <= i < events.len() ==> #[trigger] FunctionsRegistry::load_step(
            &states[i],
            &host,
            &events[i],
            &states[i + 1],
            &actions[i],
        )
}

/// A proxy stays where it is for any number of later steps, loads and
/// refusals alike, as long as none of them registers its name again.
pub proof fn proxy_outlasts_unrelated_loads<Prototype: ?Sized>(
    states: Seq<FunctionsRegistry<Prototype>>,
    host: PluginDeclaration,
    events: Seq<LoadEvent<Prototype>>,
    actions: Seq<LoadAction<Prototype>>,
    name: Seq<char>,
    upto: int,
)
    requires
        is_run(states, host, events, actions),
        states[0]@.contains_key(name),
        forall|i: int| 0 <= i < events.len() ==> !registers(#[trigger] events[i], name),
        0 <= upto <= events.len(),
    ensures
        states[upto]@.contains_key(name),
        states[upto]@[name] == states[0]@[name],
    decreases upto,
{
    if upto > 0 {
        proxy_outlasts_unrelated_loads(states, host, events, actions, name, upto - 1);
        let i = upto - 1;
        assert(FunctionsRegistry::load_step(
            &states[i],
            &host,
            &events[i],
            &states[i + 1],
            &actions[i],
        ));
        assert(!registers(events[i], name));
    }
}

/// A name, once registered, stays registered: no step of loading takes a name
/// out of the registry.
pub proof fn load_never_forgets_a_name<Prototype: ?Sized>(
    before: FunctionsRegistry<Prototype>,
    host: PluginDeclaration,
    event: LoadEvent<Prototype>,
    after: FunctionsRegistry<Prototype>,
    action: LoadAction<Prototype>,
)
    requires
        FunctionsRegistry::load_step(&before, &host, &event, &after, &action),
    ensures
        before@.dom().subset_of(after@.dom()),
{
}

/// Loading never lets go of a handle that a proxy needs: if the handle behind
/// every proxy was retained before a step, and a registrar that comes back
/// holds only proxies of its own binary, the same is true after the step.
pub proof fn load_keeps_backing_handles<Prototype: ?Sized>(
    before: FunctionsRegistry<Prototype>,
    host: PluginDeclaration,
    event: LoadEvent<Prototype>,
    after: FunctionsRegistry<Prototype>,
    action: LoadAction<Prototype>,
)
    requires
        FunctionsRegistry::load_step(&before, &host, &event, &after, &action),
        before.retains_backing_handles(),
        event matches LoadEvent::Registered(registrar) ==> registrar.shares_one_handle(),
    ensures
        after.retains_backing_handles(),
        forall|k: int|
            0 <= k < before.libraries().len() ==> after.libraries().contains(
                #[trigger] before.libraries()[k],
            ),
{
    match event {
        LoadEvent::Registered(registrar) => {
            let held = before.libraries();
            let grown = after.libraries();
            assert forall|name: Seq<char>| #[trigger]
                after@.contains_key(name) implies grown.contains(after@[name].library()) by {
                if registrar@.contains_key(name) {
                    assert(grown[held.len() as int] == registrar.library());
                } else {
                    let k = held.index_of(before@[name].library());
                    assert(held.contains(before@[name].library()));
                    assert(grown[k] == before@[name].library());
                }
            }
            assert forall|k: int| 0 <= k < held.len() implies grown.contains(
                #[trigger] held[k],
            ) by {
                assert(grown[k] == held[k]);
            }
        },
        _ => {},
    }
}

} // verus!
