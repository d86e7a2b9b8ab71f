use aanyx::host::{
    PluginLoader, PluginManagerGet, PluginManagerLoad, PluginManagerReload, PluginManagerUnload,
};
use std::collections::HashMap;

struct MyPluginLoader {
    name: String,
}

impl PluginLoader<String, String> for MyPluginLoader {
    fn into_plugin(self) -> (String, String) {
        let mut plugin = self.name.clone();
        plugin.push_str("__");
        (self.name.clone(), plugin)
    }
}

struct MyPluginManager {
    plugins: HashMap<String, String>,
}

impl PluginManagerLoad<String, String, ()> for MyPluginManager {
    fn load(&mut self, new_plugin: impl PluginLoader<String, String>) -> Result<(), ()> {
        let (id, plugin) = new_plugin.into_plugin();
        self.plugins.insert(id, plugin);
        Ok(())
    }
}

impl PluginManagerGet<String, String> for MyPluginManager {
    fn get(&self, plugin: &String) -> Option<&String> {
        self.plugins.get(plugin)
    }
}

impl PluginManagerUnload<String, String, ()> for MyPluginManager {
    fn unload(&mut self, old_plugin: &String) -> Result<(), ()> {
        match self.plugins.remove(old_plugin) {
            Some(_) => Ok(()),
            None => Err(()),
        }
    }
}

impl PluginManagerReload<String, String, ()> for MyPluginManager {
    fn reload(&mut self, plugin: &String) -> Result<(), ()> {
        let mut new_plugin = MyPluginLoader { name: plugin.to_string() }.into_plugin();
        new_plugin.1.push_str("reloaded");
        match self.plugins.get_mut(plugin) {
            Some(kept) => {
                *kept = new_plugin.1;
                Ok(())
            }
            None => Err(()),
        }
    }
}

fn manager() -> MyPluginManager {
    MyPluginManager { plugins: HashMap::new() }
}

#[test]
fn manager_loads_and_gets() {
    let mut plugin_manager = manager();
    assert_eq!(plugin_manager.load(MyPluginLoader { name: String::from("Plugin_1") }), Ok(()));
    assert_eq!(plugin_manager.load(MyPluginLoader { name: String::from("Plugin_2") }), Ok(()));

    assert_eq!(plugin_manager.get(&String::from("Plugin_1")), Some(&String::from("Plugin_1__")));
    assert_eq!(plugin_manager.get(&String::from("Plugin_2")), Some(&String::from("Plugin_2__")));
    assert_eq!(plugin_manager.get(&String::from("Plugin_3")), None);
}

#[test]
fn manager_unloads() {
    let mut plugin_manager = manager();
    plugin_manager.plugins.insert(String::from("MyPlugin"), String::from("Plugin__"));
    assert!(plugin_manager.unload(&String::from("MyPlugin")).is_ok());
    assert_eq!(plugin_manager.get(&String::from("MyPlugin")), None);
    assert!(plugin_manager.unload(&String::from("MyPlugin")).is_err());
}

#[test]
fn manager_reloads_by_id() {
    let mut plugin_manager = manager();
    assert_eq!(plugin_manager.load(MyPluginLoader { name: String::from("MyPlugin") }), Ok(()));
    assert_eq!(plugin_manager.plugins.get("MyPlugin").unwrap(), &String::from("MyPlugin__"));

    assert_eq!(plugin_manager.reload(&String::from("MyPlugin")), Ok(()));
    assert_eq!(
        plugin_manager.plugins.get("MyPlugin").unwrap(),
        &String::from("MyPlugin__reloaded")
    );
}

#[test]
fn reload_as_new_falls_back_to_reload() {
    let mut by_id = manager();
    let mut as_new = manager();
    by_id.plugins.insert(String::from("MyPlugin"), String::from("MyPlugin__"));
    as_new.plugins.insert(String::from("MyPlugin"), String::from("MyPlugin__"));

    let other = MyPluginLoader { name: String::from("Other") };
    assert_eq!(by_id.reload(&String::from("MyPlugin")), Ok(()));
    assert_eq!(as_new.reload_as_new(other, &String::from("MyPlugin")), Ok(()));
    assert_eq!(as_new.plugins, by_id.plugins);
    assert_eq!(as_new.plugins.get("Other"), None);

    let missing = MyPluginLoader { name: String::from("Missing") };
    assert_eq!(as_new.reload_as_new(missing, &String::from("Missing")), Err(()));
}
