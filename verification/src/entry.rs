//! The boundary glue of a plugin module.
//!
//! A host finds a plugin by two symbols of fixed name and C calling
//! convention, `create_plugin` and `unload_plugin`. The functions here write
//! the source text of those symbols for a plugin type, so that no plugin
//! author writes them by hand. They work on source text: the attribute macros
//! that plugin authors apply parse the annotated item, and refuse at build
//! time what is not a type declaration, before they come here.

use vstd::prelude::*;

verus! {

/// A declaration of a struct, an enum or a union, as far as the glue depends
/// on it.
#[derive(Debug)]
pub struct TypeDeclaration {
    /// The identifier of the declared type.
    pub ident: String,
    /// The source text of the whole declaration.
    pub source: String,
}

/// The content of a [`TypeDeclaration`].
pub struct TypeDeclarationView {
    pub ident: Seq<char>,
    pub source: Seq<char>,
}

impl View for TypeDeclaration {
    type V = TypeDeclarationView;

    open spec fn view(&self) -> TypeDeclarationView {
        TypeDeclarationView { ident: self.ident@, source: self.source@ }
    }
}

/// The glue of `create_plugin` up to the name of the plugin type.
pub const ENTRY_GLUE_HEAD: &'static str = "\n\
#[no_mangle]\n\
#[allow(improper_ctypes_definitions)]\n\
pub extern \"C\" fn create_plugin() -> *mut dyn plugin_api::Plugin {\n    \
    let plugin: Box<dyn plugin_api::Plugin> = <";

/// The glue of `create_plugin` after the name of the plugin type.
pub const ENTRY_GLUE_TAIL: &'static str = " as plugin_api::Plugin>::load();\n    \
    Box::into_raw(plugin)\n\
}\n";

/// The glue of `unload_plugin` up to the name of the plugin type.
pub const EXIT_GLUE_HEAD: &'static str = "\n\
#[no_mangle]\n\
#[allow(improper_ctypes_definitions)]\n\
pub extern \"C\" fn unload_plugin(plugin: *mut dyn plugin_api::Plugin) {\n    \
    if plugin.is_null() {\n        \
        return;\n    \
    }\n    \
    let plugin = unsafe { Box::from_raw(plugin) };\n    \
    <";

/// The glue of `unload_plugin` after the name of the plugin type.
pub const EXIT_GLUE_TAIL: &'static str = " as plugin_api::Plugin>::unload();\n    \
    drop(plugin);\n\
}\n";

impl TypeDeclarationView {
    /// What `plugin_entry` puts in the place of the declaration: the
    /// declaration itself, then the `create_plugin` symbol, which loads an
    /// instance of the type and gives the caller an owning pointer to it.
    pub open spec fn entry_expansion(self) -> Seq<char> {
        self.source + ENTRY_GLUE_HEAD@ + self.ident + ENTRY_GLUE_TAIL@
    }

    /// What `plugin_exit` puts in the place of the declaration: the
    /// declaration itself, then the `unload_plugin` symbol, which does
    /// nothing on a null pointer and otherwise takes the instance back, runs
    /// the teardown hook of the type and destroys the instance.
    pub open spec fn exit_expansion(self) -> Seq<char> {
        self.source + EXIT_GLUE_HEAD@ + self.ident + EXIT_GLUE_TAIL@
    }
}

/// Expands the attribute `plugin_entry` on the declaration `input`: the
/// declaration is kept and the `create_plugin` symbol for its type follows.
/// The arguments of the attribute are not looked at.
pub fn plugin_entry(_attr: &str, input: &TypeDeclaration) -> (expansion: String)
    ensures
        expansion@ == input@.entry_expansion(),
{
    let mut expansion = input.source.clone();
    expansion.append(ENTRY_GLUE_HEAD);
    expansion.append(input.ident.as_str());
    expansion.append(ENTRY_GLUE_TAIL);
    expansion
}

/// Expands the attribute `plugin_exit` on the declaration `input`: the
/// declaration is kept and the `unload_plugin` symbol for its type follows.
/// The arguments of the attribute are not looked at.
pub fn plugin_exit(_attr: &str, input: &TypeDeclaration) -> (expansion: String)
    ensures
        expansion@ == input@.exit_expansion(),
{
    let mut expansion = input.source.clone();
    expansion.append(EXIT_GLUE_HEAD);
    expansion.append(input.ident.as_str());
    expansion.append(EXIT_GLUE_TAIL);
    expansion
}

} // verus!
