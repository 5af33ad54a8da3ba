//! The capability interface of a plugin, the handle a host holds for a loaded
//! plugin, and the two operations that open and close the life of a handle.

use crate::error::PluginResult;
use std::fmt::Debug;
use vstd::prelude::*;

verus! {

/// The interface every plugin implements, once per plugin type.
///
/// `load` and `unload` belong to the type, not to an instance: no instance
/// exists before `load` has returned. The host calls `load` first, then
/// `execute` any number of times, then `unload`, each pair of `load` and
/// `unload` once per handle. Nothing here makes a plugin safe to share
/// between threads.
pub trait Plugin: Debug {
    /// The name of the plugin: never empty, and the same at every call.
    fn name(&self) -> (name: &str)
        ensures
            name@.len() > 0,
    ;

    /// The version of the plugin: never empty, and the same at every call.
    fn version(&self) -> (version: &str)
        ensures
            version@.len() > 0,
    ;

    /// A description of the plugin: never empty, and the same at every call.
    fn description(&self) -> (description: &str)
        ensures
            description@.len() > 0,
    ;

    /// Performs the plugin's action on `input`. The call returns when the
    /// action is done; a failure is one of the shared categories.
    fn execute(&self, input: &str) -> PluginResult<()>;

    /// Releases what the plugin type holds besides its instances. Called at
    /// the teardown of a handle.
    fn unload()
        where Self: Sized,
    ;

    /// Makes a new instance, owned by the caller.
    fn load() -> (plugin: Box<Self>)
        where Self: Sized,
    ;
}

/// What a plugin reports about itself.
pub struct PluginIdentity {
    pub name: Seq<char>,
    pub version: Seq<char>,
    pub description: Seq<char>,
}

/// `identity` is what the three accessors of `plugin` may report.
pub open spec fn reports<T: Plugin + ?Sized>(plugin: &T, identity: PluginIdentity) -> bool {
    exists|name: &str, version: &str, description: &str|
        {
            &&& #[trigger] call_ensures(T::name, (plugin,), name)
            &&& #[trigger] call_ensures(T::version, (plugin,), version)
            &&& #[trigger] call_ensures(T::description, (plugin,), description)
            &&& identity == PluginIdentity {
                name: name@,
                version: version@,
                description: description@,
            }
        }
}

/// The handle of a loaded plugin.
///
/// A handle owns its instance and cannot be duplicated. It is made by
/// [`create_plugin`], or by [`PluginHandle::adopt`] around an instance that
/// came across the boundary, and ends in [`unload_plugin`], or in
/// [`PluginHandle::release`] for the way back. In between the host reads the
/// identity and executes through it. The identity is read from the instance
/// once, when the handle is made, and never changes after that.
#[derive(Debug)]
pub struct PluginHandle<T: Plugin + ?Sized> {
    plugin: Box<T>,
    name: String,
    version: String,
    description: String,
}

impl<T: Plugin + ?Sized> PluginHandle<T> {
    #[verifier::type_invariant]
    spec fn well_formed(self) -> bool {
        &&& self.name@.len() > 0
        &&& self.version@.len() > 0
        &&& self.description@.len() > 0
    }

    /// The instance that the handle owns.
    pub closed spec fn instance(&self) -> &T {
        &*self.plugin
    }

    /// The identity that the handle reports.
    pub closed spec fn identity(&self) -> PluginIdentity {
        PluginIdentity {
            name: self.name@,
            version: self.version@,
            description: self.description@,
        }
    }

    /// The name of the plugin.
    pub fn name(&self) -> (name: &str)
        ensures
            name@ == self.identity().name,
            name@.len() > 0,
    {
        proof {
            use_type_invariant(self);
        }
        self.name.as_str()
    }

    /// The version of the plugin.
    pub fn version(&self) -> (version: &str)
        ensures
            version@ == self.identity().version,
            version@.len() > 0,
    {
        proof {
            use_type_invariant(self);
        }
        self.version.as_str()
    }

    /// The description of the plugin.
    pub fn description(&self) -> (description: &str)
        ensures
            description@ == self.identity().description,
            description@.len() > 0,
    {
        proof {
            use_type_invariant(self);
        }
        self.description.as_str()
    }

    /// Executes the plugin on `input` and hands back what the plugin
    /// answered. The handle keeps its instance and its identity, whatever the
    /// answer is: after a failure it can be executed again.
    pub fn execute(&mut self, input: &str) -> (outcome: PluginResult<()>)
        ensures
            call_ensures(T::execute, (old(self).instance(), input), outcome),
            final(self).instance() == old(self).instance(),
            final(self).identity() == old(self).identity(),
    {
        self.plugin.execute(input)
    }

    /// Takes ownership of an instance and reads its identity. Nothing is
    /// executed.
    pub fn adopt(plugin: Box<T>) -> (handle: Self)
        ensures
            handle.instance() == &*plugin,
            reports(handle.instance(), handle.identity()),
    {
        let name = String::from(plugin.name());
        let version = String::from(plugin.version());
        let description = String::from(plugin.description());
        PluginHandle { plugin, name, version, description }
    }

    /// Ends the handle and gives the instance up, for the way back across the
    /// boundary. No teardown hook runs.
    pub fn release(self) -> (plugin: Box<T>)
        ensures
            &*plugin == self.instance(),
    {
        self.plugin
    }

    /// The instance behind the handle, to look at.
    pub fn plugin(&self) -> (plugin: &T)
        ensures
            plugin == self.instance(),
    {
        &*self.plugin
    }
}

/// Opens the life of a handle: loads an instance of `T`, reads its identity
/// and hands both to the caller, who owns the handle from then on and passes
/// it to [`unload_plugin`] when done. Nothing is executed.
pub fn create_plugin<T: Plugin>() -> (handle: PluginHandle<T>)
    ensures
        exists|loaded: Box<T>| call_ensures(T::load, (), loaded) && &*loaded == handle.instance(),
        reports(handle.instance(), handle.identity()),
{
    PluginHandle::adopt(T::load())
}

/// Closes the life of a handle: without a handle it does nothing; with one it
/// runs the teardown hook of `T` and then destroys the instance. The handle
/// is consumed, so no second teardown of it can follow. Nothing is executed.
pub fn unload_plugin<T: Plugin>(handle: Option<PluginHandle<T>>) {
    match handle {
        None => {},
        Some(_handle) => {
            T::unload();
        },
    }
}

} // verus!
