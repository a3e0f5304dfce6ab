use vstd::prelude::*;

verus! {

/// A framework capability made available to the web content. Each is
/// registered with the framework's defaults: a variant carries no options.
#[derive(Clone, Copy, Debug, PartialEq, Eq, Structural)]
pub enum Plugin {
    /// Interception of global keyboard shortcuts.
    GlobalShortcut,
    /// A persistent key-value store.
    Store,
}

/// The capabilities of one startup, in registration order.
pub open spec fn registered_plugins() -> Seq<Plugin> {
    seq![Plugin::GlobalShortcut, Plugin::Store]
}

/// The capabilities to register, in order: the shortcut listener, then the
/// store. Every capability occurs in the list, and none occurs twice.
pub fn plugins() -> (list: Vec<Plugin>)
    ensures
        list@ == registered_plugins(),
        list@.no_duplicates(),
        forall|plugin: Plugin| list@.contains(plugin),
{
    let mut list: Vec<Plugin> = Vec::new();
    list.push(Plugin::GlobalShortcut);
    list.push(Plugin::Store);
    proof {
        assert(list@ =~= registered_plugins());
        assert forall|plugin: Plugin| list@.contains(plugin) by {
            match plugin {
                Plugin::GlobalShortcut => {
                    assert(list@[0] == plugin);
                },
                Plugin::Store => {
                    assert(list@[1] == plugin);
                },
            }
        }
    }
    list
}

} // verus!
