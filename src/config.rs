use vstd::prelude::*;

verus! {

/// The tab a statically declared item is listed under.
#[derive(Clone, Copy, Debug, PartialEq, Eq, Structural)]
pub enum Category {
    Tools,
    Programs,
}

/// A statically declared menu item.
#[derive(Debug)]
pub struct MenuEntry {
    pub name: String,
    pub category: Category,
    /// Graphical programs take the display console; the others get a text
    /// console to themselves.
    pub uses_wayland: bool,
    pub executable: String,
    pub args: Vec<String>,
    pub env: Vec<(String, String)>,
}

/// An emulator and the game systems it can run.
#[derive(Debug)]
pub struct Emulator {
    pub executable: String,
    pub args: Vec<String>,
    pub env: Vec<(String, String)>,
    pub systems: Vec<String>,
}

/// A game system: where its ROM files lie and which extensions they carry.
#[derive(Debug)]
pub struct System {
    pub name: String,
    pub rom_directory: String,
    pub file_extensions: Vec<String>,
}

/// The whole configuration: static items, emulators and systems, each in
/// declaration order.
#[derive(Debug)]
pub struct MenuLayout {
    pub items: Vec<MenuEntry>,
    pub emulators: Vec<Emulator>,
    pub systems: Vec<System>,
}

} // verus!

verus! {

/// The built-in configuration: a shell on a text console, under the tools tab.
pub open spec fn is_default_layout(l: MenuLayout) -> bool {
    &&& l.items@.len() == 1
    &&& l.items@[0].name@ == "Shell"@
    &&& l.items@[0].category == Category::Tools
    &&& !l.items@[0].uses_wayland
    &&& l.items@[0].executable@ == "/bin/sh"@
    &&& l.items@[0].args@.len() == 0
    &&& l.items@[0].env@.len() == 0
    &&& l.emulators@.len() == 0
    &&& l.systems@.len() == 0
}

/// The configuration used when none could be loaded.
pub fn default_layout() -> (r: MenuLayout)
    ensures
        is_default_layout(r),
{
    let shell = MenuEntry {
        name: "Shell".to_string(),
        category: Category::Tools,
        uses_wayland: false,
        executable: "/bin/sh".to_string(),
        args: Vec::new(),
        env: Vec::new(),
    };
    let mut items: Vec<MenuEntry> = Vec::new();
    items.push(shell);
    MenuLayout { items, emulators: Vec::new(), systems: Vec::new() }
}

/// The loaded configuration, or the built-in one when loading failed.
pub fn layout_or_default(loaded: Option<MenuLayout>) -> (r: MenuLayout)
    ensures
        loaded is Some ==> r == loaded->0,
        loaded is None ==> is_default_layout(r),
{
    match loaded {
        Some(l) => l,
        None => default_layout(),
    }
}

} // verus!
