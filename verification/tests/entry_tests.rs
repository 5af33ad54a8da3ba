use plugin_api::plugin_entry;
use plugin_api::plugin_exit;
use plugin_api::TypeDeclaration;

const ENTRY_OF_ECHO: &str = "struct EchoPlugin;
#[no_mangle]
#[allow(improper_ctypes_definitions)]
pub extern \"C\" fn create_plugin() -> *mut dyn plugin_api::Plugin {
    let plugin: Box<dyn plugin_api::Plugin> = <EchoPlugin as plugin_api::Plugin>::load();
    Box::into_raw(plugin)
}
";

const EXIT_OF_ECHO: &str = "struct EchoPlugin;
#[no_mangle]
#[allow(improper_ctypes_definitions)]
pub extern \"C\" fn unload_plugin(plugin: *mut dyn plugin_api::Plugin) {
    if plugin.is_null() {
        return;
    }
    let plugin = unsafe { Box::from_raw(plugin) };
    <EchoPlugin as plugin_api::Plugin>::unload();
    drop(plugin);
}
";

fn declaration(ident: &str, source: &str) -> TypeDeclaration {
    TypeDeclaration { ident: ident.to_string(), source: source.to_string() }
}

#[test]
fn plugin_entry_on_a_unit_struct() {
    let input = declaration("EchoPlugin", "struct EchoPlugin;");
    assert_eq!(plugin_entry("", &input), ENTRY_OF_ECHO);
}

#[test]
fn plugin_exit_on_a_unit_struct() {
    let input = declaration("EchoPlugin", "struct EchoPlugin;");
    assert_eq!(plugin_exit("", &input), EXIT_OF_ECHO);
}

#[test]
fn plugin_entry_keeps_the_item_and_names_its_type() {
    let source = "#[derive(Debug)]\npub struct Recorder {\n    last: Option<String>,\n}";
    let text = plugin_entry("", &declaration("Recorder", source));
    assert!(text.starts_with(source));
    assert!(text[source.len()..].starts_with("\n#[no_mangle]\n"));
    assert!(text.contains("pub extern \"C\" fn create_plugin() -> *mut dyn plugin_api::Plugin {"));
    assert!(text.contains("<Recorder as plugin_api::Plugin>::load()"));
    assert!(text.ends_with("    Box::into_raw(plugin)\n}\n"));
    assert!(!text.contains("unload"));
}

#[test]
fn plugin_exit_keeps_the_item_and_names_its_type() {
    let source = "#[derive(Debug)]\npub struct Recorder {\n    last: Option<String>,\n}";
    let text = plugin_exit("", &declaration("Recorder", source));
    assert!(text.starts_with(source));
    assert!(text[source.len()..].starts_with("\n#[no_mangle]\n"));
    assert!(text.contains(
        "pub extern \"C\" fn unload_plugin(plugin: *mut dyn plugin_api::Plugin) {"
    ));
    assert!(text.contains("if plugin.is_null() {\n        return;\n    }"));
    assert!(text.contains("<Recorder as plugin_api::Plugin>::unload();"));
    assert!(text.ends_with("    drop(plugin);\n}\n"));
    assert!(!text.contains("create_plugin"));
}

#[test]
fn the_null_check_comes_before_the_pointer_is_used() {
    let text = plugin_exit("", &declaration("EchoPlugin", "struct EchoPlugin;"));
    let check = text.find("plugin.is_null()");
    let reclaim = text.find("Box::from_raw(plugin)");
    let teardown = text.find("::unload()");
    let destroy = text.find("drop(plugin)");
    match (check, reclaim, teardown, destroy) {
        (Some(check), Some(reclaim), Some(teardown), Some(destroy)) => {
            assert!(check < reclaim);
            assert!(reclaim < teardown);
            assert!(teardown < destroy);
        }
        _ => panic!("a step of the teardown is missing"),
    }
    assert_eq!(text.matches("::unload()").count(), 1);
}

#[test]
fn attribute_arguments_are_ignored() {
    let input = declaration("EchoPlugin", "struct EchoPlugin;");
    assert_eq!(plugin_entry("name = \"echo\"", &input), plugin_entry("", &input));
    assert_eq!(plugin_exit("fn oops(", &input), plugin_exit("", &input));
}

#[test]
fn expansion_leaves_the_declaration_as_it_was() {
    let input = declaration("Mode", "pub enum Mode { Fast, Slow }");
    let _ = plugin_entry("", &input);
    let _ = plugin_exit("", &input);
    assert_eq!(input.ident, "Mode");
    assert_eq!(input.source, "pub enum Mode { Fast, Slow }");
}

#[test]
fn both_attributes_on_one_item() {
    let source = "#[plugin_exit]\nstruct EchoPlugin;";
    let text = plugin_entry("", &declaration("EchoPlugin", source));
    assert!(text.starts_with(source));
    assert_eq!(&text[source.len()..], &ENTRY_OF_ECHO["struct EchoPlugin;".len()..]);
}
